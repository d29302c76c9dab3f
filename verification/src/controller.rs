//! The interactive controller's decision logic: what a key event means,
//! and what an action does to the session. The event loop around it —
//! sampling, rendering, blocking on input — performs the effects and feeds
//! the results back in.

use vstd::prelude::*;

use crate::session::{Mlock, MlockHeap};
use crate::session::{spec_add_locked, spec_add_unlocked, spec_page_in_all, spec_remove};
use crate::term::{Term, TermError};

verus! {

/// A key, reduced to what the bindings distinguish: a character, the
/// escape key, or anything else.
#[derive(Clone, Copy, PartialEq, Eq, Structural, Debug)]
pub enum Key {
    Char(char),
    Esc,
    Other,
}

/// The modifier set held with the key: none, shift alone, control alone,
/// or any other combination.
#[derive(Clone, Copy, PartialEq, Eq, Structural, Debug)]
pub enum Mods {
    Plain,
    Shift,
    Control,
    Other,
}

/// One key event, as the decoder sees it.
#[derive(Clone, Copy, PartialEq, Eq, Structural, Debug)]
pub struct KeyInput {
    pub code: Key,
    pub mods: Mods,
}

/// What the controller does next.
#[derive(Clone, Copy, PartialEq, Eq, Structural, Debug)]
pub enum Action {
    Redraw,
    Quit,
    Add(MlockHeap),
    Remove(MlockHeap),
    PageIn,
}

/// The key bindings. Unmodified or shifted: `+`/`=` and `-`/`_` grow and
/// shrink the locked heap, `]`/`}` and `[`/`{` the unlocked heap, `p`/`P`
/// pages the unlocked heap in, `q` and escape quit. A control chord quits
/// on `c` or `d` (the interrupt and end-of-input conventions). Everything
/// else redraws.
pub open spec fn spec_decode(k: KeyInput) -> Action {
    match k.mods {
        Mods::Control => if k.code == Key::Char('c') || k.code == Key::Char('d') {
            Action::Quit
        } else {
            Action::Redraw
        },
        Mods::Shift | Mods::Plain => if k.code == Key::Char('+') || k.code == Key::Char('=') {
            Action::Add(MlockHeap::Locked)
        } else if k.code == Key::Char('-') || k.code == Key::Char('_') {
            Action::Remove(MlockHeap::Locked)
        } else if k.code == Key::Char(']') || k.code == Key::Char('}') {
            Action::Add(MlockHeap::Unlocked)
        } else if k.code == Key::Char('[') || k.code == Key::Char('{') {
            Action::Remove(MlockHeap::Unlocked)
        } else if k.code == Key::Char('p') || k.code == Key::Char('P') {
            Action::PageIn
        } else if k.code == Key::Char('q') || k.code == Key::Esc {
            Action::Quit
        } else {
            Action::Redraw
        },
        Mods::Other => Action::Redraw,
    }
}

/// Decode one key event into the action the bindings assign it.
pub fn decode_key(k: KeyInput) -> (r: Action)
    ensures
        r == spec_decode(k),
{
    match k.mods {
        Mods::Control => {
            if k.code == Key::Char('c') || k.code == Key::Char('d') {
                Action::Quit
            } else {
                Action::Redraw
            }
        },
        Mods::Shift | Mods::Plain => {
            if k.code == Key::Char('+') || k.code == Key::Char('=') {
                Action::Add(MlockHeap::Locked)
            } else if k.code == Key::Char('-') || k.code == Key::Char('_') {
                Action::Remove(MlockHeap::Locked)
            } else if k.code == Key::Char(']') || k.code == Key::Char('}') {
                Action::Add(MlockHeap::Unlocked)
            } else if k.code == Key::Char('[') || k.code == Key::Char('{') {
                Action::Remove(MlockHeap::Unlocked)
            } else if k.code == Key::Char('p') || k.code == Key::Char('P') {
                Action::PageIn
            } else if k.code == Key::Char('q') || k.code == Key::Esc {
                Action::Quit
            } else {
                Action::Redraw
            }
        },
        Mods::Other => Action::Redraw,
    }
}

/// What one poll outcome means: a key event becomes its bound action, a
/// timeout or a non-key event becomes a redraw, and a failure of the
/// input source itself is fatal — it becomes an unconditional quit.
pub open spec fn spec_action_of(outcome: Result<Option<KeyInput>, TermError>) -> Action {
    match outcome {
        Result::Err(_) => Action::Quit,
        Result::Ok(None) => Action::Redraw,
        Result::Ok(Some(k)) => spec_decode(k),
    }
}

/// Turn one poll outcome into the controller's next action, exactly as
/// `spec_action_of` describes.
pub fn action_of(outcome: Result<Option<KeyInput>, TermError>) -> (r: Action)
    ensures
        r == spec_action_of(outcome),
{
    match outcome {
        Err(_) => Action::Quit,
        Ok(None) => Action::Redraw,
        Ok(Some(key)) => decode_key(key),
    }
}

/// Block up to a second for input and map the outcome to the next action
/// (`action_of` carries the exact contract: error means quit, timeout
/// means redraw, a key means its bound action).
pub fn term_wait_action(term: &mut Term) -> (r: Action) {
    let outcome = term.poll(1000);
    action_of(outcome)
}

/// Apply one decoded action to the session, reporting whether the loop
/// should stop. `map_ok` and `lock_ok` carry the kernel's answers for an
/// add (they are ignored by every other action); a failed add or an empty
/// remove leaves the session unchanged and is deliberately silent.
pub fn dispatch(session: &mut Mlock, action: Action, map_ok: bool, lock_ok: bool) -> (quit: bool)
    requires
        old(session).wf(),
    ensures
        final(session).wf(),
        final(session).quantum == old(session).quantum,
        quit == (action == Action::Quit),
        (action == Action::Redraw || action == Action::Quit) ==> {
            &&& final(session).locked@ == old(session).locked@
            &&& final(session).unlocked@ == old(session).unlocked@
        },
        action == Action::Add(MlockHeap::Locked) ==> {
            &&& final(session).unlocked@ == old(session).unlocked@
            &&& final(session).locked@ == (if map_ok && lock_ok {
                spec_add_locked(old(session).locked@, old(session).quantum)
            } else {
                old(session).locked@
            })
        },
        action == Action::Add(MlockHeap::Unlocked) ==> {
            &&& final(session).locked@ == old(session).locked@
            &&& final(session).unlocked@ == (if map_ok {
                spec_add_unlocked(old(session).unlocked@, old(session).quantum)
            } else {
                old(session).unlocked@
            })
        },
        action == Action::Remove(MlockHeap::Locked) ==> {
            &&& final(session).locked@ == spec_remove(old(session).locked@)
            &&& final(session).unlocked@ == old(session).unlocked@
        },
        action == Action::Remove(MlockHeap::Unlocked) ==> {
            &&& final(session).unlocked@ == spec_remove(old(session).unlocked@)
            &&& final(session).locked@ == old(session).locked@
        },
        action == Action::PageIn ==> {
            &&& final(session).locked@ == old(session).locked@
            &&& final(session).unlocked@ == spec_page_in_all(old(session).unlocked@)
        },
{
    match action {
        Action::Redraw => false,
        Action::Quit => true,
        Action::Add(heap) => {
            let _ = session.add(heap, map_ok, lock_ok);
            false
        },
        Action::Remove(heap) => {
            let _ = session.remove(heap);
            false
        },
        Action::PageIn => {
            session.page_in();
            false
        },
    }
}

} // verus!
