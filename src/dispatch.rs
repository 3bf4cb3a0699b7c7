use vstd::prelude::*;

use crate::config::{has_trigger, Macro, MacroConfig, MacroView};
use crate::scancode::{reverse_lookup_spec, ScancodeMap};
use crate::search::{first_match, lemma_first_match_at, lemma_first_match_none};

verus! {

/// What the interception callback does with a key event.
#[derive(Clone, Copy, Debug, PartialEq, Eq, Structural)]
pub enum HookDecision {
    /// Pass the event on unmodified.
    Forward,
    /// Suppress the event.
    Consume,
    /// Suppress the event and run the macro at this index on a worker.
    Launch(usize),
}

/// What a `RunnerState` holds.
pub struct RunnerView {
    pub toggle_key: Seq<char>,
    pub macros: Seq<MacroView>,
    pub enabled: bool,
    pub busy: bool,
}

/// Whether the decoded key `key` is the configured toggle key.
pub open spec fn is_toggle(s: RunnerView, key: Option<Seq<char>>) -> bool {
    key matches Some(k) && s.toggle_key.len() > 0 && k == s.toggle_key
}

/// One key-down event, decoded to `key` (`None`: a code with no name): the
/// state after it and the decision. The toggle key flips `enabled` and is
/// consumed whatever the state; otherwise a disabled or busy engine forwards
/// the event; otherwise the first macro whose trigger is the key claims
/// `busy` and is launched; any other key is forwarded.
pub open spec fn step(s: RunnerView, key: Option<Seq<char>>) -> (RunnerView, HookDecision) {
    if is_toggle(s, key) {
        (RunnerView { enabled: !s.enabled, ..s }, HookDecision::Consume)
    } else if !s.enabled || s.busy {
        (s, HookDecision::Forward)
    } else {
        match key {
            Some(k) => match first_match(s.macros, has_trigger(k)) {
                Some(i) => (RunnerView { busy: true, ..s }, HookDecision::Launch(i as usize)),
                None => (s, HookDecision::Forward),
            },
            None => (s, HookDecision::Forward),
        }
    }
}

/// The number of macros launched while the key-down events `keys` arrive,
/// in order, with no macro finishing in between.
pub open spec fn launches(s: RunnerView, keys: Seq<Option<Seq<char>>>) -> nat
    decreases keys.len(),
{
    if keys.len() == 0 {
        0
    } else {
        let (next, d) = step(s, keys[0]);
        (if d is Launch {
            1nat
        } else {
            0nat
        }) + launches(next, keys.drop_first())
    }
}

/// The view of an optional decoded key name.
pub open spec fn key_view(key: Option<String>) -> Option<Seq<char>> {
    match key {
        Some(k) => Some(k@),
        None => None,
    }
}

/// The engine's shared context: the toggle key and the macros, fixed for the
/// life of the process, and the `enabled` and `busy` flags.
pub struct RunnerState {
    toggle_key: String,
    macros: Vec<Macro>,
    enabled: bool,
    busy: bool,
}

impl View for RunnerState {
    type V = RunnerView;

    closed spec fn view(&self) -> RunnerView {
        RunnerView {
            toggle_key: self.toggle_key@,
            macros: self.macros@.map_values(|m: Macro| m@),
            enabled: self.enabled,
            busy: self.busy,
        }
    }
}

impl RunnerState {
    /// The context of a freshly loaded configuration: enabled and idle.
    pub fn new(config: MacroConfig) -> (r: Self)
        ensures
            r@ == (RunnerView {
                toggle_key: config@.toggle_key,
                macros: config@.macros,
                enabled: true,
                busy: false,
            }),
    {
        let r = RunnerState {
            toggle_key: config.toggle_key,
            macros: config.macros,
            enabled: true,
            busy: false,
        };
        assert(r@.macros =~= config@.macros);
        r
    }

    /// Whether macros may be triggered.
    pub fn is_enabled(&self) -> (r: bool)
        ensures
            r == self@.enabled,
    {
        self.enabled
    }

    /// Whether a macro is running.
    pub fn is_busy(&self) -> (r: bool)
        ensures
            r == self@.busy,
    {
        self.busy
    }

    /// The number of macros.
    pub fn macro_count(&self) -> (r: usize)
        ensures
            r == self@.macros.len(),
    {
        self.macros.len()
    }

    /// The macro at `index`, in load order.
    pub fn macro_at(&self, index: usize) -> (r: &Macro)
        requires
            index < self@.macros.len(),
        ensures
            r@ == self@.macros[index as int],
    {
        &self.macros[index]
    }

    /// Index of the first macro whose trigger is `key`.
    fn find_trigger(&self, key: &String) -> (r: Option<usize>)
        ensures
            match first_match(self@.macros, has_trigger(key@)) {
                Some(i) => r == Some(i as usize),
                None => r is None,
            },
    {
        let mut i: usize = 0;
        while i < self.macros.len()
            invariant
                i <= self.macros.len(),
                forall|j: int| 0 <= j < i ==> !(#[trigger] has_trigger(key@)(self@.macros[j])),
            decreases self.macros.len() - i,
        {
            if self.macros[i].trigger == *key {
                proof {
                    lemma_first_match_at(self@.macros, has_trigger(key@), i as int);
                }
                return Some(i);
            }
            i += 1;
        }
        proof {
            lemma_first_match_none(self@.macros, has_trigger(key@));
        }
        None
    }

    /// Decides a key-down event decoded to `key` and updates the flags in the
    /// same step, so that flipping `enabled` and claiming `busy` are each
    /// one indivisible change.
    pub fn on_key_down(&mut self, key: &Option<String>) -> (r: HookDecision)
        ensures
            (final(self)@, r) == step(old(self)@, key_view(*key)),
    {
        if let Some(k) = key {
            if !self.toggle_key.as_str().is_empty() && *k == self.toggle_key {
                self.enabled = !self.enabled;
                return HookDecision::Consume;
            }
        }
        if !self.enabled || self.busy {
            return HookDecision::Forward;
        }
        match key {
            Some(k) => match self.find_trigger(k) {
                Some(i) => {
                    self.busy = true;
                    HookDecision::Launch(i)
                },
                None => HookDecision::Forward,
            },
            None => HookDecision::Forward,
        }
    }

    /// Handles one keyboard event from the interception point: a key-up is
    /// forwarded untouched; a key-down is decoded through `table` and decided.
    pub fn keyboard_proc(
        &mut self,
        table: &ScancodeMap,
        scancode: u16,
        extended: bool,
        key_down: bool,
    ) -> (r: HookDecision)
        ensures
            key_down ==> (final(self)@, r) == step(
                old(self)@,
                reverse_lookup_spec(table@, scancode, extended),
            ),
            !key_down ==> r == HookDecision::Forward && final(self)@ == old(self)@,
    {
        if !key_down {
            return HookDecision::Forward;
        }
        let key = table.reverse_lookup(scancode, extended);
        assert(key_view(key) == reverse_lookup_spec(table@, scancode, extended));
        self.on_key_down(&key)
    }

    /// Marks the running macro as finished, so that a later trigger may be
    /// accepted.
    pub fn finish_macro(&mut self)
        ensures
            final(self)@ == (RunnerView { busy: false, ..old(self)@ }),
    {
        self.busy = false;
    }
}

/// However many key-down events arrive, at most one macro is launched until
/// the running one finishes, and none while one is running.
pub proof fn lemma_at_most_one_launch(s: RunnerView, keys: Seq<Option<Seq<char>>>)
    ensures
        launches(s, keys) <= 1,
        s.busy ==> launches(s, keys) == 0,
    decreases keys.len(),
{
    if keys.len() > 0 {
        let (next, d) = step(s, keys[0]);
        lemma_at_most_one_launch(next, keys.drop_first());
    }
}

/// While a macro runs, every key-down event other than the toggle key is
/// forwarded and the engine stays busy.
pub proof fn lemma_busy_forwards(s: RunnerView, key: Option<Seq<char>>)
    requires
        s.busy,
        !is_toggle(s, key),
    ensures
        step(s, key) == (s, HookDecision::Forward),
{
}

/// Pressing the toggle key twice restores the state it found, and each press
/// is consumed, whether the engine is enabled or busy.
pub proof fn lemma_toggle_twice(s: RunnerView)
    requires
        s.toggle_key.len() > 0,
    ensures
        step(s, Some(s.toggle_key)).1 == HookDecision::Consume,
        step(step(s, Some(s.toggle_key)).0, Some(s.toggle_key)).1 == HookDecision::Consume,
        step(step(s, Some(s.toggle_key)).0, Some(s.toggle_key)).0 == s,
{
}

/// A disabled engine forwards every key-down event but the toggle key, a
/// macro's trigger included, and leaves `busy` as it was.
pub proof fn lemma_disabled_pass_through(s: RunnerView, key: Option<Seq<char>>)
    requires
        !s.enabled,
        !is_toggle(s, key),
    ensures
        step(s, key) == (s, HookDecision::Forward),
{
}

} // verus!
