use vstd::prelude::*;

use crate::search::{first_match, lemma_first_match_at, lemma_first_match_none};

verus! {

/// Mode code of a macro that is switched off.
pub const MODE_DISABLED: u8 = 0;

/// Mode code of a macro that repeats.
pub const MODE_CONTINUOUS: u8 = 1;

/// Mode code of a macro that runs once per trigger.
pub const MODE_SINGLE: u8 = 2;

/// What a `MacroAction` holds.
pub struct ActionView {
    pub key: Seq<char>,
    pub hold_ms: u64,
    pub delay_ms: u64,
}

/// What a `Macro` holds.
pub struct MacroView {
    pub trigger: Seq<char>,
    pub actions: Seq<ActionView>,
    pub mode: u8,
}

/// What a `MacroConfig` holds.
pub struct ConfigView {
    pub macros: Seq<MacroView>,
    pub toggle_key: Seq<char>,
}

/// One press/release cycle: press `key`, hold it `hold_ms` milliseconds,
/// release it, then pause `delay_ms` milliseconds.
#[derive(Clone, Debug)]
pub struct MacroAction {
    pub key: String,
    pub hold_ms: u64,
    pub delay_ms: u64,
}

/// A trigger key with the ordered actions it replays. `mode` is one of
/// `MODE_DISABLED`, `MODE_CONTINUOUS` and `MODE_SINGLE`; the engine does not
/// consult it.
#[derive(Clone, Debug)]
pub struct Macro {
    pub trigger: String,
    pub actions: Vec<MacroAction>,
    pub mode: u8,
}

/// The loaded configuration: the macros in load order and the key that
/// switches the engine on and off (empty: the engine is always on).
#[derive(Debug)]
pub struct MacroConfig {
    pub macros: Vec<Macro>,
    pub toggle_key: String,
}

impl View for MacroAction {
    type V = ActionView;

    open spec fn view(&self) -> ActionView {
        ActionView { key: self.key@, hold_ms: self.hold_ms, delay_ms: self.delay_ms }
    }
}

impl View for Macro {
    type V = MacroView;

    open spec fn view(&self) -> MacroView {
        MacroView {
            trigger: self.trigger@,
            actions: self.actions@.map_values(|a: MacroAction| a@),
            mode: self.mode,
        }
    }
}

impl View for MacroConfig {
    type V = ConfigView;

    open spec fn view(&self) -> ConfigView {
        ConfigView {
            macros: self.macros@.map_values(|m: Macro| m@),
            toggle_key: self.toggle_key@,
        }
    }
}

/// The predicate "this macro is triggered by the key `key`".
pub open spec fn has_trigger(key: Seq<char>) -> spec_fn(MacroView) -> bool {
    |m: MacroView| m.trigger == key
}

/// The toggle key that a configuration without one gets.
pub fn default_toggle_key() -> (r: String)
    ensures
        r@ == "`"@,
{
    "`".to_owned()
}

impl Default for MacroConfig {
    /// An empty configuration: no macros and no toggle key.
    fn default() -> (r: MacroConfig)
        ensures
            r@.macros.len() == 0,
            r@.toggle_key.len() == 0,
    {
        MacroConfig { macros: Vec::new(), toggle_key: String::new() }
    }
}

/// The macro that the editor creates: triggered by "1", with no actions,
/// in single mode.
pub open spec fn blank_macro_view() -> MacroView {
    MacroView { trigger: "1"@, actions: Seq::empty(), mode: MODE_SINGLE }
}

/// The action that the editor adds: key "a", held 50 ms, then a 50 ms pause.
pub open spec fn blank_action_view() -> ActionView {
    ActionView { key: "a"@, hold_ms: 50, delay_ms: 50 }
}

/// The macro list `macros` with the actions of the macro at `index` replaced
/// by `actions`.
pub open spec fn with_actions(macros: Seq<MacroView>, index: int, actions: Seq<ActionView>) -> Seq<
    MacroView,
> {
    macros.update(index, MacroView { actions, ..macros[index] })
}

/// `s` with the elements at `i` and `j` exchanged.
pub open spec fn swapped<A>(s: Seq<A>, i: int, j: int) -> Seq<A> {
    s.update(i, s[j]).update(j, s[i])
}

impl MacroAction {
    /// The action that the editor adds.
    pub fn blank() -> (r: MacroAction)
        ensures
            r@ == blank_action_view(),
    {
        MacroAction { key: "a".to_owned(), hold_ms: 50, delay_ms: 50 }
    }

    /// A copy of this action.
    pub fn duplicate(&self) -> (r: MacroAction)
        ensures
            r@ == self@,
    {
        MacroAction { key: self.key.clone(), hold_ms: self.hold_ms, delay_ms: self.delay_ms }
    }
}

impl Macro {
    /// The macro that the editor creates.
    pub fn blank() -> (r: Macro)
        ensures
            r@ == blank_macro_view(),
    {
        let r = Macro { trigger: "1".to_owned(), actions: Vec::new(), mode: MODE_SINGLE };
        assert(r@.actions =~= Seq::<ActionView>::empty());
        r
    }
}

impl MacroConfig {
    /// Appends a blank macro and returns its index.
    pub fn add_macro(&mut self) -> (r: usize)
        ensures
            final(self)@ == (ConfigView {
                macros: old(self)@.macros.push(blank_macro_view()),
                ..old(self)@
            }),
            r == old(self)@.macros.len(),
    {
        let ghost before = self@;
        let r = self.macros.len();
        self.macros.push(Macro::blank());
        assert(self@.macros =~= before.macros.push(blank_macro_view()));
        r
    }

    /// Gives a configuration without macros one blank macro, so that the
    /// editor always has a macro to show.
    pub fn ensure_macro(&mut self)
        ensures
            old(self)@.macros.len() == 0 ==> final(self)@ == (ConfigView {
                macros: seq![blank_macro_view()],
                ..old(self)@
            }),
            old(self)@.macros.len() > 0 ==> final(self)@ == old(self)@,
    {
        let ghost before = self@;
        if self.macros.len() == 0 {
            self.add_macro();
            assert(self@.macros =~= seq![blank_macro_view()]);
        }
    }

    /// Takes the macro at `index` out of the list; `restore` puts it back.
    fn take(&mut self, index: usize) -> (r: Macro)
        requires
            index < old(self)@.macros.len(),
        ensures
            r@ == old(self)@.macros[index as int],
            final(self)@ == (ConfigView {
                macros: old(self)@.macros.remove(index as int),
                ..old(self)@
            }),
    {
        let ghost before = self@;
        let r = self.macros.remove(index);
        assert(self@.macros =~= before.macros.remove(index as int));
        r
    }

    /// Puts `m` back at `index`.
    fn restore(&mut self, index: usize, m: Macro)
        requires
            index <= old(self)@.macros.len(),
        ensures
            final(self)@ == (ConfigView {
                macros: old(self)@.macros.insert(index as int, m@),
                ..old(self)@
            }),
    {
        let ghost before = self@;
        self.macros.insert(index, m);
        assert(self@.macros =~= before.macros.insert(index as int, m@));
    }

    /// Sets the trigger and mode of the macro at `index`; returns whether
    /// there is such a macro (nothing changes otherwise).
    pub fn set_macro_settings(&mut self, index: usize, trigger: String, mode: u8) -> (r: bool)
        ensures
            r == (index < old(self)@.macros.len()),
            r ==> final(self)@ == (ConfigView {
                macros: old(self)@.macros.update(
                    index as int,
                    MacroView { trigger: trigger@, mode, ..old(self)@.macros[index as int] },
                ),
                ..old(self)@
            }),
            !r ==> final(self)@ == old(self)@,
    {
        if index >= self.macros.len() {
            return false;
        }
        let ghost before = self@;
        let mut m = self.take(index);
        m.trigger = trigger;
        m.mode = mode;
        self.restore(index, m);
        assert(self@.macros =~= before.macros.update(
            index as int,
            MacroView { trigger: trigger@, mode, ..before.macros[index as int] },
        ));
        true
    }

    /// Deletes the macro at `index`, if there is one, and returns the macro
    /// to select next: the one before it, else the first, else none.
    pub fn remove_macro(&mut self, index: usize) -> (r: Option<usize>)
        ensures
            index < old(self)@.macros.len() ==> final(self)@ == (ConfigView {
                macros: old(self)@.macros.remove(index as int),
                ..old(self)@
            }),
            index >= old(self)@.macros.len() ==> final(self)@ == old(self)@,
            r == (if index > 0 {
                Some((index - 1) as usize)
            } else if final(self)@.macros.len() > 0 {
                Some(0usize)
            } else {
                None
            }),
    {
        if index < self.macros.len() {
            self.take(index);
        }
        if index > 0 {
            Some(index - 1)
        } else if self.macros.len() > 0 {
            Some(0)
        } else {
            None
        }
    }

    /// Appends a blank action to the macro at `index`; returns whether there
    /// is such a macro (nothing changes otherwise).
    pub fn add_action(&mut self, index: usize) -> (r: bool)
        ensures
            r == (index < old(self)@.macros.len()),
            r ==> final(self)@ == (ConfigView {
                macros: with_actions(
                    old(self)@.macros,
                    index as int,
                    old(self)@.macros[index as int].actions.push(blank_action_view()),
                ),
                ..old(self)@
            }),
            !r ==> final(self)@ == old(self)@,
    {
        if index >= self.macros.len() {
            return false;
        }
        let ghost before = self@;
        let mut m = self.take(index);
        m.actions.push(MacroAction::blank());
        assert(m@.actions =~= before.macros[index as int].actions.push(blank_action_view()));
        self.restore(index, m);
        assert(self@.macros =~= with_actions(before.macros, index as int, m@.actions));
        true
    }

    /// Appends a copy of action `action` of macro `index` to that macro;
    /// returns whether both exist (nothing changes otherwise).
    pub fn duplicate_action(&mut self, index: usize, action: usize) -> (r: bool)
        ensures
            r == (index < old(self)@.macros.len() && action < old(
                self,
            )@.macros[index as int].actions.len()),
            r ==> final(self)@ == (ConfigView {
                macros: with_actions(
                    old(self)@.macros,
                    index as int,
                    old(self)@.macros[index as int].actions.push(
                        old(self)@.macros[index as int].actions[action as int],
                    ),
                ),
                ..old(self)@
            }),
            !r ==> final(self)@ == old(self)@,
    {
        if index >= self.macros.len() || action >= self.macros[index].actions.len() {
            return false;
        }
        let ghost before = self@;
        let ghost acts = before.macros[index as int].actions;
        let mut m = self.take(index);
        assert(m.actions@.len() == acts.len());
        let copy = m.actions[action].duplicate();
        m.actions.push(copy);
        assert(m@.actions =~= acts.push(acts[action as int]));
        self.restore(index, m);
        assert(self@.macros =~= with_actions(before.macros, index as int, m@.actions));
        true
    }

    /// Deletes action `action` of macro `index`; returns whether both exist
    /// (nothing changes otherwise).
    pub fn remove_action(&mut self, index: usize, action: usize) -> (r: bool)
        ensures
            r == (index < old(self)@.macros.len() && action < old(
                self,
            )@.macros[index as int].actions.len()),
            r ==> final(self)@ == (ConfigView {
                macros: with_actions(
                    old(self)@.macros,
                    index as int,
                    old(self)@.macros[index as int].actions.remove(action as int),
                ),
                ..old(self)@
            }),
            !r ==> final(self)@ == old(self)@,
    {
        if index >= self.macros.len() || action >= self.macros[index].actions.len() {
            return false;
        }
        let ghost before = self@;
        let ghost acts = before.macros[index as int].actions;
        let mut m = self.take(index);
        m.actions.remove(action);
        assert(m@.actions =~= acts.remove(action as int));
        self.restore(index, m);
        assert(self@.macros =~= with_actions(before.macros, index as int, m@.actions));
        true
    }

    /// Exchanges actions `first` and `first + 1` of macro `index`.
    fn swap_actions(&mut self, index: usize, first: usize)
        requires
            index < old(self)@.macros.len(),
            first + 1 < old(self)@.macros[index as int].actions.len(),
        ensures
            final(self)@ == (ConfigView {
                macros: with_actions(
                    old(self)@.macros,
                    index as int,
                    swapped(old(self)@.macros[index as int].actions, first as int, first + 1),
                ),
                ..old(self)@
            }),
    {
        let ghost before = self@;
        let ghost acts = before.macros[index as int].actions;
        let mut m = self.take(index);
        let len = m.actions.len();
        assert(len == acts.len());
        let moved = m.actions.remove(first);
        m.actions.insert(first + 1, moved);
        assert(m@.actions =~= swapped(acts, first as int, first + 1));
        self.restore(index, m);
        assert(self@.macros =~= with_actions(before.macros, index as int, m@.actions));
    }

    /// Moves action `action` of macro `index` one place earlier; returns
    /// whether it could move (nothing changes otherwise).
    pub fn move_action_up(&mut self, index: usize, action: usize) -> (r: bool)
        ensures
            r == (index < old(self)@.macros.len() && 0 < action < old(
                self,
            )@.macros[index as int].actions.len()),
            r ==> final(self)@ == (ConfigView {
                macros: with_actions(
                    old(self)@.macros,
                    index as int,
                    swapped(old(self)@.macros[index as int].actions, action - 1, action as int),
                ),
                ..old(self)@
            }),
            !r ==> final(self)@ == old(self)@,
    {
        if index >= self.macros.len() || action == 0 || action >= self.macros[index].actions.len() {
            return false;
        }
        self.swap_actions(index, action - 1);
        true
    }

    /// Moves action `action` of macro `index` one place later; returns
    /// whether it could move (nothing changes otherwise).
    pub fn move_action_down(&mut self, index: usize, action: usize) -> (r: bool)
        ensures
            r == (index < old(self)@.macros.len() && action + 1 < old(
                self,
            )@.macros[index as int].actions.len()),
            r ==> final(self)@ == (ConfigView {
                macros: with_actions(
                    old(self)@.macros,
                    index as int,
                    swapped(old(self)@.macros[index as int].actions, action as int, action + 1),
                ),
                ..old(self)@
            }),
            !r ==> final(self)@ == old(self)@,
    {
        if index >= self.macros.len() || action >= self.macros[index].actions.len()
            || action + 1 >= self.macros[index].actions.len() {
            return false;
        }
        self.swap_actions(index, action);
        true
    }

    /// The first macro, in load order, whose trigger is `trigger`.
    pub fn get_macro(&self, trigger: &str) -> (r: Option<&Macro>)
        ensures
            match first_match(self@.macros, has_trigger(trigger@)) {
                Some(i) => r matches Some(m) && *m == self.macros@[i],
                None => r is None,
            },
    {
        let key = trigger.to_owned();
        let mut i: usize = 0;
        while i < self.macros.len()
            invariant
                i <= self.macros.len(),
                key@ == trigger@,
                forall|j: int| 0 <= j < i ==> !(#[trigger] has_trigger(trigger@)(self@.macros[j])),
            decreases self.macros.len() - i,
        {
            if self.macros[i].trigger == key {
                proof {
                    lemma_first_match_at(self@.macros, has_trigger(trigger@), i as int);
                }
                return Some(&self.macros[i]);
            }
            i += 1;
        }
        proof {
            lemma_first_match_none(self@.macros, has_trigger(trigger@));
        }
        None
    }
}

} // verus!
