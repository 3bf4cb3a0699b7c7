use vstd::prelude::*;

use crate::scancode::{lookup_spec, KeyEntry, ScancodeMap};

verus! {

/// Flag of a synthetic keyboard event: the event carries a hardware scancode.
pub const KEYEVENTF_SCANCODE: u32 = 0x0008;

/// Flag of a synthetic keyboard event: the event is a key release.
pub const KEYEVENTF_KEYUP: u32 = 0x0002;

/// Flag of a synthetic keyboard event: the scancode is an extended one.
pub const KEYEVENTF_EXTENDEDKEY: u32 = 0x0001;

/// One synthetic hardware keyboard event.
#[derive(Clone, Copy, Debug, PartialEq, Eq, Structural)]
pub struct KeyEvent {
    pub scancode: u16,
    pub extended: bool,
    pub key_up: bool,
}

impl KeyEvent {
    /// The platform flag word of this event.
    pub open spec fn spec_flags(self) -> u32 {
        (KEYEVENTF_SCANCODE + (if self.extended { KEYEVENTF_EXTENDEDKEY } else { 0 }) + (if self.key_up {
            KEYEVENTF_KEYUP
        } else {
            0
        })) as u32
    }

    /// The flag word handed to the platform's input injection with this event.
    pub fn flags(&self) -> (r: u32)
        ensures
            r == self.spec_flags(),
    {
        let mut flags: u32 = KEYEVENTF_SCANCODE;
        if self.extended {
            assert(0x8u32 | 0x1u32 == 0x9u32) by (bit_vector);
            flags = flags | KEYEVENTF_EXTENDEDKEY;
        }
        if self.key_up {
            assert(0x8u32 | 0x2u32 == 0xAu32) by (bit_vector);
            assert(0x9u32 | 0x2u32 == 0xBu32) by (bit_vector);
            flags = flags | KEYEVENTF_KEYUP;
        }
        flags
    }
}

/// One thing to do when replaying input: synthesize a key event, wait on a
/// monotonic clock, or report progress. `Unmapped` reports that the action at
/// that index names no key and was skipped; `Progress` that this many actions
/// of the macro are done.
#[derive(Clone, Copy, Debug, PartialEq, Eq, Structural)]
pub enum InputStep {
    Send(KeyEvent),
    Wait(u64),
    Unmapped(usize),
    Progress(usize),
}

/// The event that the table `t` gives for pressing (or, with `key_up`,
/// releasing) the key `name`; `None` for a key the table lacks.
pub open spec fn key_event_spec(t: Seq<KeyEntry>, name: Seq<char>, key_up: bool) -> Option<KeyEvent> {
    match lookup_spec(t, name) {
        Some(p) => Some(KeyEvent { scancode: p.0, extended: p.1, key_up }),
        None => None,
    }
}

/// A wait of `ms` milliseconds, or nothing when `ms` is zero.
pub open spec fn wait_steps(ms: u64) -> Seq<InputStep> {
    if ms > 0 {
        seq![InputStep::Wait(ms)]
    } else {
        Seq::empty()
    }
}

/// Tapping a key the table maps: press, hold `hold_ms`, release. Nothing for
/// a key the table lacks.
pub open spec fn tap_spec(t: Seq<KeyEntry>, name: Seq<char>, hold_ms: u64) -> Seq<InputStep> {
    match lookup_spec(t, name) {
        Some(p) => seq![InputStep::Send(KeyEvent { scancode: p.0, extended: p.1, key_up: false })]
            + wait_steps(hold_ms) + seq![
            InputStep::Send(KeyEvent { scancode: p.0, extended: p.1, key_up: true }),
        ],
        None => Seq::empty(),
    }
}

/// Synthesizes key events for key names, through the key table.
pub struct InputSystem {
    pub table: ScancodeMap,
}

impl InputSystem {
    /// An injector over the table of every supported key.
    pub fn new() -> (r: Self)
        ensures
            r.table@ == crate::scancode::key_table(),
            r.table.wf(),
    {
        InputSystem { table: ScancodeMap::new() }
    }

    /// The event for pressing (`is_keyup` false) or releasing the key `key`:
    /// its scancode and extended flag from the table. `None`, and no event,
    /// for a key the table lacks.
    pub fn send_key(&self, key: &str, is_keyup: bool) -> (r: Option<KeyEvent>)
        ensures
            r == key_event_spec(self.table@, key@, is_keyup),
    {
        match self.table.lookup(key) {
            Some((scancode, extended)) => Some(KeyEvent { scancode, extended, key_up: is_keyup }),
            None => None,
        }
    }

    /// The key-down event of the key `key`, if the table maps it.
    pub fn press_key(&self, key: &str) -> (r: Option<KeyEvent>)
        ensures
            r == key_event_spec(self.table@, key@, false),
    {
        self.send_key(key, false)
    }

    /// The key-up event of the key `key`, if the table maps it.
    pub fn release_key(&self, key: &str) -> (r: Option<KeyEvent>)
        ensures
            r == key_event_spec(self.table@, key@, true),
    {
        self.send_key(key, true)
    }

    /// Appends to `steps` a tap of the key `key` held `hold_ms` milliseconds;
    /// returns whether the table maps the key (nothing is appended otherwise).
    pub fn push_tap(&self, steps: &mut Vec<InputStep>, key: &str, hold_ms: u64) -> (r: bool)
        ensures
            final(steps)@ == old(steps)@ + tap_spec(self.table@, key@, hold_ms),
            r == lookup_spec(self.table@, key@) is Some,
    {
        let ghost before = steps@;
        match self.press_key(key) {
            Some(down) => {
                steps.push(InputStep::Send(down));
                if hold_ms > 0 {
                    steps.push(InputStep::Wait(hold_ms));
                }
                steps.push(InputStep::Send(KeyEvent { key_up: true, ..down }));
                assert(steps@ =~= before + tap_spec(self.table@, key@, hold_ms));
                true
            },
            None => {
                assert(steps@ =~= before + tap_spec(self.table@, key@, hold_ms));
                false
            },
        }
    }

    /// The steps of a tap of the key `key`: press, hold `hold_ms` milliseconds
    /// when that is positive, release. No steps for a key the table lacks.
    pub fn tap_key(&self, key: &str, hold_ms: u64) -> (r: Vec<InputStep>)
        ensures
            r@ == tap_spec(self.table@, key@, hold_ms),
    {
        let mut steps: Vec<InputStep> = Vec::new();
        self.push_tap(&mut steps, key, hold_ms);
        assert(steps@ =~= tap_spec(self.table@, key@, hold_ms));
        steps
    }
}

} // verus!
