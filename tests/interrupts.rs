use wally_os::interrupts::{
    breakpoint_handler, double_fault_handler, init_idt, keyboard_interrupt_handler,
    keyboard_key_response, page_fault_cause, page_fault_handler, page_fault_handler_with_policy,
    timer_interrupt_handler,
    Continuation, Diagnostic, DispatchEntry, Emission, HandlerKind, InterruptIndex, InterruptLines,
    DOUBLE_FAULT_IST_INDEX,
};
use wally_os::keyboard::{DecodedKey, KeyboardDecoder};

#[test]
fn interrupt_index_vectors() {
    assert_eq!(InterruptIndex::Timer.as_u8(), 32);
    assert_eq!(InterruptIndex::Keyboard.as_u8(), 33);
    assert_eq!(InterruptIndex::Timer.as_usize(), 32usize);
    assert_eq!(InterruptIndex::Keyboard.as_usize(), 33usize);
}

#[test]
fn dispatch_table_binds_required_vectors() {
    let t = init_idt();
    assert_eq!(
        t.entry(3),
        Some(DispatchEntry { handler: HandlerKind::Breakpoint, stack_index: None })
    );
    assert_eq!(
        t.entry(8),
        Some(DispatchEntry {
            handler: HandlerKind::DoubleFault,
            stack_index: Some(DOUBLE_FAULT_IST_INDEX)
        })
    );
    assert_eq!(
        t.entry(14),
        Some(DispatchEntry { handler: HandlerKind::PageFault, stack_index: None })
    );
    assert_eq!(
        t.entry(32),
        Some(DispatchEntry { handler: HandlerKind::Timer, stack_index: None })
    );
    assert_eq!(
        t.entry(33),
        Some(DispatchEntry { handler: HandlerKind::Keyboard, stack_index: None })
    );
}

#[test]
fn dispatch_table_leaves_other_vectors_unused() {
    let t = init_idt();
    for v in 0..=255u8 {
        if ![3u8, 8, 14, 32, 33].contains(&v) {
            assert_eq!(t.entry(v), None, "vector {v}");
        }
    }
}

#[test]
fn breakpoint_resumes_execution() {
    let r = breakpoint_handler();
    assert_eq!(r.diagnostic, Some(Diagnostic::Breakpoint));
    assert!(r.emission.is_none());
    assert_eq!(r.end_of_interrupt, None);
    assert_eq!(r.next, Continuation::Resume);
}

#[test]
fn double_fault_reports_and_halts_on_its_own_stack() {
    let t = init_idt();
    assert_eq!(t.entry(8).unwrap().stack_index, Some(0));
    let r = double_fault_handler(0);
    assert_eq!(r.diagnostic, Some(Diagnostic::DoubleFault { error_code: 0 }));
    assert_eq!(r.end_of_interrupt, None);
    assert_eq!(r.next, Continuation::Halt);
}

#[test]
fn page_fault_cause_bits() {
    let c = page_fault_cause(0b00011);
    assert!(c.protection_violation);
    assert!(c.caused_by_write);
    assert!(!c.user_mode);
    assert!(!c.malformed_table);
    assert!(!c.instruction_fetch);
    let c = page_fault_cause(0b11100);
    assert!(!c.protection_violation);
    assert!(!c.caused_by_write);
    assert!(c.user_mode);
    assert!(c.malformed_table);
    assert!(c.instruction_fetch);
}

#[test]
fn page_fault_reports_address_and_halts() {
    let r = page_fault_handler(0xdead_beaf, 0b10);
    match r.diagnostic {
        Some(Diagnostic::PageFault { address, error_code, cause }) => {
            assert_eq!(address, 0xdead_beaf);
            assert_eq!(error_code, 0b10);
            assert!(!cause.protection_violation);
            assert!(cause.caused_by_write);
        }
        _ => panic!("expected a page-fault report"),
    }
    assert_eq!(r.next, Continuation::Halt);
    assert_eq!(r.end_of_interrupt, None);
}

#[test]
fn timer_tick_emits_once_and_acknowledges_once() {
    let mut lines = InterruptLines::new();
    assert!(lines.raise(32));
    let r = timer_interrupt_handler();
    assert!(matches!(r.emission, Some(Emission::Char('.'))));
    assert_eq!(r.end_of_interrupt, Some(32));
    assert_eq!(r.next, Continuation::Resume);
    assert!(r.diagnostic.is_none());
    lines.acknowledge(r.end_of_interrupt);
    // the second tick is still delivered
    assert!(lines.raise(32));
}

#[test]
fn unacknowledged_line_is_withheld() {
    let mut lines = InterruptLines::new();
    assert!(lines.raise(33));
    assert!(!lines.raise(33));
    // other lines are unaffected
    assert!(lines.raise(32));
    lines.acknowledge(Some(33));
    assert!(lines.raise(33));
}

#[test]
fn exceptions_are_not_controller_lines() {
    let mut lines = InterruptLines::new();
    assert!(!lines.raise(3));
    assert!(!lines.raise(48));
    assert!(lines.raise(47));
}

#[test]
fn keyboard_response_for_character() {
    let r = keyboard_key_response(Some(DecodedKey::Unicode('a')));
    assert!(matches!(r.emission, Some(Emission::Char('a'))));
    assert_eq!(r.end_of_interrupt, Some(33));
    assert_eq!(r.next, Continuation::Resume);
}

#[test]
fn keyboard_response_for_named_key() {
    let r = keyboard_key_response(Some(DecodedKey::RawKey(String::from("LShift"))));
    match r.emission {
        Some(Emission::KeyName(name)) => assert_eq!(name, "LShift"),
        _ => panic!("expected a key name"),
    }
    assert_eq!(r.end_of_interrupt, Some(33));
}

#[test]
fn keyboard_response_for_nothing() {
    let r = keyboard_key_response(None);
    assert!(r.emission.is_none());
    assert_eq!(r.end_of_interrupt, Some(33));
    assert_eq!(r.next, Continuation::Resume);
}

#[test]
fn keyboard_handler_emits_pressed_key_once() {
    let mut kb = KeyboardDecoder::new();
    // make code of the A key
    let r = keyboard_interrupt_handler(&mut kb, 0x1e);
    assert!(matches!(r.emission, Some(Emission::Char('a'))));
    assert_eq!(r.end_of_interrupt, Some(33));
    // its break code emits nothing
    let r = keyboard_interrupt_handler(&mut kb, 0x9e);
    assert!(r.emission.is_none());
    assert_eq!(r.end_of_interrupt, Some(33));
}

#[test]
fn keyboard_handler_survives_truncated_sequence() {
    let mut kb = KeyboardDecoder::new();
    // an extended prefix alone emits nothing
    let r = keyboard_interrupt_handler(&mut kb, 0xe0);
    assert!(r.emission.is_none());
    assert_eq!(r.end_of_interrupt, Some(33));
    // a byte that does not complete it is dropped, still acknowledged
    let r = keyboard_interrupt_handler(&mut kb, 0x1e);
    assert!(r.emission.is_none());
    assert_eq!(r.end_of_interrupt, Some(33));
    // a later complete sequence comes through
    let r = keyboard_interrupt_handler(&mut kb, 0x1e);
    assert!(matches!(r.emission, Some(Emission::Char('a'))));
}

#[test]
fn page_fault_keeps_whole_error_code() {
    let a = page_fault_handler(0x1000, 0x20);
    let b = page_fault_handler(0x1000, 0);
    assert_ne!(a.diagnostic, b.diagnostic);
    match a.diagnostic {
        Some(Diagnostic::PageFault { error_code, .. }) => assert_eq!(error_code, 0x20),
        _ => panic!("expected a page-fault report"),
    }
}

#[test]
fn keyboard_handler_names_raw_key() {
    let mut kb = KeyboardDecoder::new();
    let r = keyboard_interrupt_handler(&mut kb, 0x2a);
    match r.emission {
        Some(Emission::KeyName(name)) => assert_eq!(name, "LShift"),
        _ => panic!("expected a key name"),
    }
    assert_eq!(r.end_of_interrupt, Some(33));
}

#[test]
fn keyboard_handler_drops_rejected_byte() {
    let mut kb = KeyboardDecoder::new();
    let r = keyboard_interrupt_handler(&mut kb, 0x00);
    assert!(r.emission.is_none());
    assert!(r.diagnostic.is_none());
    assert_eq!(r.end_of_interrupt, Some(33));
    assert_eq!(r.next, Continuation::Resume);
}

#[test]
fn page_fault_policy_decides_continuation() {
    let r = page_fault_handler_with_policy(0x2000, 0x1, Continuation::Resume);
    assert_eq!(r.next, Continuation::Resume);
    assert_eq!(
        r.diagnostic,
        Some(Diagnostic::PageFault { address: 0x2000, error_code: 0x1, cause: page_fault_cause(0x1) })
    );
    assert_eq!(page_fault_handler(0x2000, 0x1).next, Continuation::Halt);
}
