use rustest::controller::{action_of, decode_key, dispatch, Action, Key, KeyInput, Mods};
use rustest::term::TermError;
use rustest::session::{Mlock, MlockHeap};

fn plain(c: char) -> KeyInput {
    KeyInput { code: Key::Char(c), mods: Mods::Plain }
}

fn shifted(c: char) -> KeyInput {
    KeyInput { code: Key::Char(c), mods: Mods::Shift }
}

fn control(c: char) -> KeyInput {
    KeyInput { code: Key::Char(c), mods: Mods::Control }
}

#[test]
fn plus_and_equals_add_a_locked_region() {
    assert_eq!(decode_key(plain('+')), Action::Add(MlockHeap::Locked));
    assert_eq!(decode_key(shifted('+')), Action::Add(MlockHeap::Locked));
    assert_eq!(decode_key(plain('=')), Action::Add(MlockHeap::Locked));
}

#[test]
fn minus_and_underscore_remove_a_locked_region() {
    assert_eq!(decode_key(plain('-')), Action::Remove(MlockHeap::Locked));
    assert_eq!(decode_key(plain('_')), Action::Remove(MlockHeap::Locked));
}

#[test]
fn brackets_drive_the_unlocked_heap() {
    assert_eq!(decode_key(plain(']')), Action::Add(MlockHeap::Unlocked));
    assert_eq!(decode_key(plain('}')), Action::Add(MlockHeap::Unlocked));
    assert_eq!(decode_key(plain('[')), Action::Remove(MlockHeap::Unlocked));
    assert_eq!(decode_key(plain('{')), Action::Remove(MlockHeap::Unlocked));
}

#[test]
fn either_case_of_p_pages_in() {
    assert_eq!(decode_key(plain('p')), Action::PageIn);
    assert_eq!(decode_key(plain('P')), Action::PageIn);
}

#[test]
fn quit_keys_quit() {
    assert_eq!(decode_key(plain('q')), Action::Quit);
    assert_eq!(decode_key(KeyInput { code: Key::Esc, mods: Mods::Plain }), Action::Quit);
    assert_eq!(decode_key(control('c')), Action::Quit);
    assert_eq!(decode_key(control('d')), Action::Quit);
}

#[test]
fn everything_else_redraws() {
    assert_eq!(decode_key(plain('x')), Action::Redraw);
    assert_eq!(decode_key(control('q')), Action::Redraw);
    assert_eq!(decode_key(KeyInput { code: Key::Other, mods: Mods::Plain }), Action::Redraw);
    assert_eq!(decode_key(KeyInput { code: Key::Char('q'), mods: Mods::Other }), Action::Redraw);
}

#[test]
fn dispatch_applies_the_action_to_the_session() {
    let mut s = Mlock::new();
    assert!(!dispatch(&mut s, Action::Add(MlockHeap::Locked), true, true));
    assert!(!dispatch(&mut s, Action::Add(MlockHeap::Unlocked), true, true));
    assert_eq!((s.locked.len(), s.unlocked.len()), (1, 1));
    assert!(!dispatch(&mut s, Action::PageIn, true, true));
    assert!(s.unlocked[0].resident);
    assert!(!dispatch(&mut s, Action::Remove(MlockHeap::Locked), true, true));
    assert_eq!(s.locked.len(), 0);
    assert!(!dispatch(&mut s, Action::Redraw, true, true));
    assert!(dispatch(&mut s, Action::Quit, true, true));
    assert_eq!((s.locked.len(), s.unlocked.len()), (0, 1));
}

#[test]
fn dispatch_swallows_a_failed_add() {
    let mut s = Mlock::new();
    assert!(!dispatch(&mut s, Action::Add(MlockHeap::Locked), true, false));
    assert!(!dispatch(&mut s, Action::Add(MlockHeap::Unlocked), false, false));
    assert_eq!((s.locked.len(), s.unlocked.len()), (0, 0));
}

#[test]
fn poll_outcomes_map_to_actions() {
    assert_eq!(action_of(Err(TermError::Input)), Action::Quit);
    assert_eq!(action_of(Ok(None)), Action::Redraw);
    assert_eq!(action_of(Ok(Some(plain('p')))), Action::PageIn);
    assert_eq!(action_of(Ok(Some(plain('q')))), Action::Quit);
    assert_eq!(action_of(Ok(Some(plain('x')))), Action::Redraw);
}
