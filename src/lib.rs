//! Core of a small x86-64 kernel: interrupt dispatch decisions, the
//! page-table walk, the boot-time frame allocator and the text-mode screen
//! model, each stated with contracts and proved.
pub mod interrupts;
pub mod keyboard;
pub mod memory;
pub mod paging;
pub mod vga_buffer;

use vstd::prelude::*;
use vstd::string::StringExecFns;

verus! {

/// Separator printed between a test's name and its verdict.
pub const TEST_SEP: &'static str = "..........";

/// The verdict of a test that passed.
pub struct Okay;

/// The verdict of a test that failed, with what went wrong.
pub struct Failed(pub &'static str);

/// The decimal digit `d`.
pub open spec fn digit_char(d: nat) -> char {
    if d == 0 {
        '0'
    } else if d == 1 {
        '1'
    } else if d == 2 {
        '2'
    } else if d == 3 {
        '3'
    } else if d == 4 {
        '4'
    } else if d == 5 {
        '5'
    } else if d == 6 {
        '6'
    } else if d == 7 {
        '7'
    } else if d == 8 {
        '8'
    } else {
        '9'
    }
}

/// `n` in decimal, without leading zeros.
pub open spec fn decimal(n: nat) -> Seq<char>
    decreases n,
{
    if n < 10 {
        seq![digit_char(n)]
    } else {
        decimal(n / 10).push(digit_char(n % 10))
    }
}

fn digit_str(d: usize) -> (r: &'static str)
    requires
        d < 10,
    ensures
        r@ == seq![digit_char(d as nat)],
{
    let r = if d == 0 {
        "0"
    } else if d == 1 {
        "1"
    } else if d == 2 {
        "2"
    } else if d == 3 {
        "3"
    } else if d == 4 {
        "4"
    } else if d == 5 {
        "5"
    } else if d == 6 {
        "6"
    } else if d == 7 {
        "7"
    } else if d == 8 {
        "8"
    } else {
        "9"
    };
    proof {
        reveal_strlit("0");
        reveal_strlit("1");
        reveal_strlit("2");
        reveal_strlit("3");
        reveal_strlit("4");
        reveal_strlit("5");
        reveal_strlit("6");
        reveal_strlit("7");
        reveal_strlit("8");
        reveal_strlit("9");
    }
    r
}

/// Writes `n` in decimal.
pub fn to_decimal(n: usize) -> (r: String)
    ensures
        r@ == decimal(n as nat),
    decreases n,
{
    if n < 10 {
        String::from_str(digit_str(n))
    } else {
        let mut r = to_decimal(n / 10);
        r.append(digit_str(n % 10));
        r
    }
}

/// A verdict as shown on a colour terminal: `label` in brackets, coloured
/// by the SGR parameter `colour`, followed by the sequence that ends colouring.
pub open spec fn coloured(colour: Seq<char>, label: Seq<char>) -> Seq<char> {
    "\u{1b}["@ + colour + "m["@ + label + "]\u{1b}[0m"@
}

/// The line that opens a test run of `n` tests.
pub fn running_line(n: usize) -> (r: String)
    ensures
        r@ == "Running "@ + decimal(n as nat) + " tests"@,
{
    let mut r = String::from_str("Running ");
    let digits = to_decimal(n);
    r.append(digits.as_str());
    r.append(" tests");
    r
}

/// What is printed before a test runs: its name and the separator; the
/// verdict follows on the same line.
pub fn test_start_text(name: &str) -> (r: String)
    ensures
        r@ == name@ + TEST_SEP@,
{
    let mut r = String::from_str(name);
    r.append(TEST_SEP);
    r
}

impl Okay {
    /// The verdict as the terminal shows it: `[ok]` in green.
    pub fn text(&self) -> (r: String)
        ensures
            r@ == coloured("32"@, "ok"@),
    {
        let mut r = String::from_str("\u{1b}[");
        r.append("32");
        r.append("m[");
        r.append("ok");
        r.append("]\u{1b}[0m");
        r
    }

    /// The verdict's label, without colour.
    pub fn label(&self) -> (r: &'static str)
        ensures
            r@ == "ok"@,
    {
        "ok"
    }
}

impl Failed {
    /// The verdict as the terminal shows it: the message in brackets, in red.
    pub fn text(&self) -> (r: String)
        ensures
            r@ == coloured("31"@, self.0@),
    {
        let mut r = String::from_str("\u{1b}[");
        r.append("31");
        r.append("m[");
        r.append(self.0);
        r.append("]\u{1b}[0m");
        r
    }

    /// The verdict's label, without colour.
    pub fn label(&self) -> (r: &'static str)
        ensures
            r == self.0,
    {
        self.0
    }
}

impl Default for Failed {
    fn default() -> (r: Failed)
        ensures
            r.0@ == "failed"@,
    {
        Failed("failed")
    }
}

/// The codes that the emulator exits with, through its exit device.
#[derive(Debug, Clone, Copy, PartialEq, Eq, Structural)]
pub enum QemuExitCode {
    Success,
    Failure,
}

impl QemuExitCode {
    pub open spec fn value(self) -> u32 {
        match self {
            QemuExitCode::Success => 0x10,
            QemuExitCode::Failure => 0x11,
        }
    }

    /// The value written to the exit device.
    pub fn code(self) -> (r: u32)
        ensures
            r == self.value(),
    {
        match self {
            QemuExitCode::Success => 0x10,
            QemuExitCode::Failure => 0x11,
        }
    }
}

/// A test that the kernel's test runner can run.
pub trait Testable {
    fn run(&self);
}

/// Runs every test in order. A test that fails panics, and the panic
/// handler reports the failure; reaching the end means all passed.
pub fn test_runner<T: Testable>(tests: &[T]) -> (r: QemuExitCode)
    ensures
        r == QemuExitCode::Success,
{
    let mut i: usize = 0;
    while i < tests.len()
        invariant
            i <= tests@.len(),
        decreases tests@.len() - i,
    {
        tests[i].run();
        i = i + 1;
    }
    QemuExitCode::Success
}

} // verus!
