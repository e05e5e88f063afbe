//! Scancode decoding for the PS/2 keyboard, through the `pc_keyboard` crate.
use vstd::prelude::*;
use pc_keyboard::layouts::Us104Key;
use pc_keyboard::{HandleControl, KeyEvent, Keyboard, ScancodeSet1};

verus! {

#[verifier::external_type_specification]
#[verifier::external_body]
pub struct ExKeyEvent(KeyEvent);

#[verifier::external_type_specification]
#[verifier::external_body]
pub struct ExKeyboardError(pc_keyboard::Error);

/// What one key event decodes to.
pub enum DecodedKey {
    /// A printable character.
    Unicode(char),
    /// A key with no character, by its name (`LShift`, `F1`, ...).
    RawKey(String),
}

/// The keyboard decoder that the keyboard interrupt handler feeds. It holds
/// a `pc_keyboard::Keyboard` and the key event that the last byte completed,
/// until it is processed; Verus sees both only through the functions below.
#[verifier::external_body]
pub struct KeyboardDecoder {
    keyboard: Keyboard<Us104Key, ScancodeSet1>,
    event: Option<KeyEvent>,
}

/// The scancode bytes that a decoder has been fed since it was made.
pub uninterp spec fn fed_bytes(d: KeyboardDecoder) -> Seq<u8>;

/// Whether the decoder holds a key event that has not been processed yet.
pub uninterp spec fn pending(d: KeyboardDecoder) -> bool;

/// The key that a fresh decoder answers for the last of `bytes` when they
/// are fed one at a time and each key event is processed before the next
/// byte: `None` while a sequence is incomplete, or where the byte is rejected.
pub uninterp spec fn key_after(bytes: Seq<u8>) -> Option<DecodedKey>;

/// Relies on `Keyboard::new` and `ScancodeSet1::new`: a decoder for scancode
/// set 1 with the US 104-key layout, which leaves the control key unmapped,
/// in its start state with no modifier held but num lock. From that state
/// the source gives: the make code of A (`0x1e`) yields `'a'`; its break
/// code (`0x9e`) then yields nothing; the extended prefix `0xe0` alone yields
/// nothing; `0xe0 0x1e` is rejected (no extended key has code `0x1e`) and
/// returns the scancode state to its start, so a following `0x1e` yields `'a'`.
#[verifier::external_body]
fn new_us104_keyboard() -> (r: KeyboardDecoder)
    ensures
        fed_bytes(r) == Seq::<u8>::empty(),
        !pending(r),
        key_after(fed_bytes(r).push(0x1e)) == Some(DecodedKey::Unicode('a')),
        key_after(fed_bytes(r).push(0x1e).push(0x9e)) is None,
        key_after(fed_bytes(r).push(0xe0)) is None,
        key_after(fed_bytes(r).push(0xe0).push(0x1e)) is None,
        key_after(fed_bytes(r).push(0xe0).push(0x1e).push(0x1e)) == Some(DecodedKey::Unicode('a')),
{
    KeyboardDecoder {
        keyboard: Keyboard::new(ScancodeSet1::new(), Us104Key, HandleControl::Ignore),
        event: None,
    }
}

/// Relies on `Keyboard::add_byte`: feeds one byte to the scancode state
/// machine, which reports a key event once a sequence is complete; the event
/// is kept for `keyboard_process_keyevent`, and `Ok(true)` says there is
/// one. Where it reports none (a prefix byte) or rejects the byte, that byte
/// yields no key.
#[verifier::external_body]
fn keyboard_add_byte(decoder: &mut KeyboardDecoder, byte: u8) -> (r: Result<bool, pc_keyboard::Error>)
    requires
        !pending(*old(decoder)),
    ensures
        fed_bytes(*final(decoder)) == fed_bytes(*old(decoder)).push(byte),
        pending(*final(decoder)) == (r == Ok::<bool, pc_keyboard::Error>(true)),
        r != Ok::<bool, pc_keyboard::Error>(true) ==> key_after(fed_bytes(*final(decoder))) is None,
{
    match decoder.keyboard.add_byte(byte) {
        Ok(Some(ev)) => {
            decoder.event = Some(ev);
            Ok(true)
        },
        Ok(None) => Ok(false),
        Err(e) => Err(e),
    }
}

/// Relies on `Keyboard::process_keyevent`: applies the kept event, the one
/// that the last byte completed, to the modifier state and maps it to a
/// character or a raw key, named as its `Debug` shows it. It feeds no byte.
#[verifier::external_body]
fn keyboard_process_keyevent(decoder: &mut KeyboardDecoder) -> (r: Option<DecodedKey>)
    requires
        pending(*old(decoder)),
    ensures
        fed_bytes(*final(decoder)) == fed_bytes(*old(decoder)),
        !pending(*final(decoder)),
        r == key_after(fed_bytes(*old(decoder))),
{
    match decoder.event.take() {
        Some(ev) => match decoder.keyboard.process_keyevent(ev) {
            Some(pc_keyboard::DecodedKey::Unicode(c)) => Some(DecodedKey::Unicode(c)),
            Some(pc_keyboard::DecodedKey::RawKey(k)) => Some(DecodedKey::RawKey(format!("{:?}", k))),
            None => None,
        },
        None => None,
    }
}

impl KeyboardDecoder {
    /// The decoder holds no unprocessed key event between calls.
    pub open spec fn wf(&self) -> bool {
        !pending(*self)
    }

    /// A decoder in its start state: nothing fed, no modifier held.
    pub fn new() -> (r: KeyboardDecoder)
        ensures
            r.wf(),
            fed_bytes(r) == Seq::<u8>::empty(),
            key_after(seq![0x1eu8]) == Some(DecodedKey::Unicode('a')),
            key_after(seq![0x1eu8, 0x9eu8]) is None,
            key_after(seq![0xe0u8]) is None,
            key_after(seq![0xe0u8, 0x1eu8]) is None,
            key_after(seq![0xe0u8, 0x1eu8, 0x1eu8]) == Some(DecodedKey::Unicode('a')),
    {
        let r = new_us104_keyboard();
        proof {
            assert(fed_bytes(r).push(0x1e) =~= seq![0x1eu8]);
            assert(fed_bytes(r).push(0x1e).push(0x9e) =~= seq![0x1eu8, 0x9eu8]);
            assert(fed_bytes(r).push(0xe0) =~= seq![0xe0u8]);
            assert(fed_bytes(r).push(0xe0).push(0x1e) =~= seq![0xe0u8, 0x1eu8]);
            assert(fed_bytes(r).push(0xe0).push(0x1e).push(0x1e) =~= seq![0xe0u8, 0x1eu8, 0x1eu8]);
        }
        r
    }

    /// Feeds one scancode byte and answers the key it completes: the decoded
    /// key once a sequence is complete, nothing for a prefix byte or for a
    /// byte the decoder rejects, which is dropped.
    pub fn add_byte(&mut self, scancode: u8) -> (r: Option<DecodedKey>)
        requires
            old(self).wf(),
        ensures
            final(self).wf(),
            fed_bytes(*final(self)) == fed_bytes(*old(self)).push(scancode),
            r == key_after(fed_bytes(*final(self))),
    {
        match keyboard_add_byte(self, scancode) {
            Ok(true) => keyboard_process_keyevent(self),
            _ => None,
        }
    }
}

} // verus!
