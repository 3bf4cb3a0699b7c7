use keym::config::{Macro, MacroAction, MacroConfig};
use keym::dispatch::{HookDecision, RunnerState};
use keym::executor::execute_macro;
use keym::input::{InputStep, InputSystem, KeyEvent};
use keym::scancode::ScancodeMap;

const F1: u16 = 0x3B;
const F2: u16 = 0x3C;
const F3: u16 = 0x3D;
const BACKTICK: u16 = 0x29;
const KEY_A: u16 = 0x1E;

fn macro_on(trigger: &str, mode: u8) -> Macro {
    Macro {
        trigger: trigger.to_string(),
        actions: vec![MacroAction { key: "a".to_string(), hold_ms: 50, delay_ms: 50 }],
        mode,
    }
}

fn runner(triggers: &[&str], toggle: &str) -> RunnerState {
    RunnerState::new(MacroConfig {
        macros: triggers.iter().map(|t| macro_on(t, 2)).collect(),
        toggle_key: toggle.to_string(),
    })
}

#[test]
fn trigger_while_idle_launches_and_claims_busy() {
    let table = ScancodeMap::new();
    let mut state = runner(&["f1"], "`");
    assert!(state.is_enabled());
    assert!(!state.is_busy());
    assert_eq!(state.keyboard_proc(&table, F1, false, true), HookDecision::Launch(0));
    assert!(state.is_busy());
    state.finish_macro();
    assert!(!state.is_busy());
}

#[test]
fn second_trigger_while_running_is_forwarded() {
    let table = ScancodeMap::new();
    let mut state = runner(&["f1"], "`");
    assert_eq!(state.keyboard_proc(&table, F1, false, true), HookDecision::Launch(0));
    assert_eq!(state.keyboard_proc(&table, F1, false, true), HookDecision::Forward);
    assert!(state.is_busy());
    state.finish_macro();
    assert_eq!(state.keyboard_proc(&table, F1, false, true), HookDecision::Launch(0));
}

#[test]
fn flood_of_distinct_triggers_admits_one() {
    let table = ScancodeMap::new();
    let mut state = runner(&["f1", "f2", "f3"], "`");
    let codes = [F2, F1, F3, F2, F1, F3, F1];
    let decisions: Vec<HookDecision> =
        codes.iter().map(|c| state.keyboard_proc(&table, *c, false, true)).collect();
    assert_eq!(decisions[0], HookDecision::Launch(1));
    for d in &decisions[1..] {
        assert_eq!(*d, HookDecision::Forward);
    }
    assert!(state.is_busy());
}

#[test]
fn toggle_twice_restores_enabled_and_is_consumed() {
    let table = ScancodeMap::new();
    let mut state = runner(&["f1"], "`");
    assert_eq!(state.keyboard_proc(&table, BACKTICK, false, true), HookDecision::Consume);
    assert!(!state.is_enabled());
    assert_eq!(state.keyboard_proc(&table, BACKTICK, false, true), HookDecision::Consume);
    assert!(state.is_enabled());
}

#[test]
fn toggle_is_consumed_while_busy() {
    let table = ScancodeMap::new();
    let mut state = runner(&["f1"], "`");
    assert_eq!(state.keyboard_proc(&table, F1, false, true), HookDecision::Launch(0));
    assert_eq!(state.keyboard_proc(&table, BACKTICK, false, true), HookDecision::Consume);
    assert!(!state.is_enabled());
    assert!(state.is_busy());
}

#[test]
fn disabled_engine_forwards_trigger() {
    let table = ScancodeMap::new();
    let mut state = runner(&["f1"], "`");
    state.keyboard_proc(&table, BACKTICK, false, true);
    assert!(!state.is_enabled());
    assert_eq!(state.keyboard_proc(&table, F1, false, true), HookDecision::Forward);
    assert!(!state.is_busy());
}

#[test]
fn empty_toggle_key_never_consumes() {
    let table = ScancodeMap::new();
    let mut state = runner(&["f1"], "");
    assert_eq!(state.keyboard_proc(&table, BACKTICK, false, true), HookDecision::Forward);
    assert!(state.is_enabled());
}

#[test]
fn key_up_is_always_forwarded() {
    let table = ScancodeMap::new();
    let mut state = runner(&["f1"], "`");
    assert_eq!(state.keyboard_proc(&table, F1, false, false), HookDecision::Forward);
    assert_eq!(state.keyboard_proc(&table, BACKTICK, false, false), HookDecision::Forward);
    assert!(!state.is_busy());
    assert!(state.is_enabled());
}

#[test]
fn unnamed_code_is_neither_trigger_nor_toggle() {
    let table = ScancodeMap::new();
    let mut state = runner(&["f1"], "`");
    assert_eq!(state.keyboard_proc(&table, 0x36, false, true), HookDecision::Forward);
    assert_eq!(state.keyboard_proc(&table, F1, true, true), HookDecision::Forward);
    assert!(!state.is_busy());
}

#[test]
fn non_trigger_key_is_forwarded() {
    let table = ScancodeMap::new();
    let mut state = runner(&["f1"], "`");
    assert_eq!(state.keyboard_proc(&table, KEY_A, false, true), HookDecision::Forward);
    assert!(!state.is_busy());
}

#[test]
fn first_macro_in_load_order_wins() {
    let table = ScancodeMap::new();
    let mut state = runner(&["f2", "f1", "f1"], "`");
    assert_eq!(state.keyboard_proc(&table, F1, false, true), HookDecision::Launch(1));
    assert_eq!(state.macro_count(), 3);
    assert_eq!(state.macro_at(1).trigger, "f1");
}

#[test]
fn disabled_mode_macro_still_triggers() {
    let table = ScancodeMap::new();
    let mut state = RunnerState::new(MacroConfig {
        macros: vec![macro_on("f1", 0)],
        toggle_key: "`".to_string(),
    });
    assert_eq!(state.keyboard_proc(&table, F1, false, true), HookDecision::Launch(0));
}

#[test]
fn decided_key_names_directly() {
    let mut state = runner(&["f1"], "`");
    assert_eq!(state.on_key_down(&None), HookDecision::Forward);
    assert_eq!(state.on_key_down(&Some("f1".to_string())), HookDecision::Launch(0));
    assert_eq!(state.on_key_down(&Some("`".to_string())), HookDecision::Consume);
}

#[test]
fn f1_macro_taps_a_once_then_frees_engine() {
    let input = InputSystem::new();
    let mut state = runner(&["f1"], "`");
    let index = match state.keyboard_proc(&input.table, F1, false, true) {
        HookDecision::Launch(i) => i,
        other => panic!("expected a launch, got {:?}", other),
    };
    assert!(state.is_busy());
    let steps = execute_macro(&input, state.macro_at(index));
    let down = KeyEvent { scancode: 0x1E, extended: false, key_up: false };
    let up = KeyEvent { scancode: 0x1E, extended: false, key_up: true };
    assert_eq!(
        steps,
        vec![InputStep::Send(down), InputStep::Wait(50), InputStep::Send(up), InputStep::Wait(50)]
    );
    state.finish_macro();
    assert!(!state.is_busy());
}
