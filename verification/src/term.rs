//! The terminal surface: raw-mode setup and teardown, cursor hiding,
//! line clearing, text output and key polling. Every call into the
//! terminal library or into the standard output handle stands behind a
//! trusted wrapper; the composition around the calls — the setup order,
//! the cleanup on a failed setup, the timeout selection, the event
//! classification — is verified.

use vstd::prelude::*;

use crate::controller::{Key, KeyInput, Mods};

verus! {

/// The standard output handle, opaque to the verifier; the wrappers below
/// are the only operations on it.
#[verifier::external_type_specification]
#[verifier::external_body]
pub struct ExStdout(std::io::Stdout);

/// A key event of the terminal library, opaque here; `key_to_input`
/// converts it to this crate's own plain key description.
#[verifier::external_type_specification]
#[verifier::external_body]
pub struct ExKeyEvent(crossterm::event::KeyEvent);

/// Why the terminal surface failed: it could not be acquired, or its
/// event source broke (fatal; the session ends).
#[derive(Clone, Copy, PartialEq, Eq, Structural, Debug)]
pub enum TermError {
    Init,
    Input,
}

/// Relies on crossterm's enable_raw_mode: switches the terminal to raw
/// input; reports whether the switch succeeded.
#[verifier::external_body]
fn raw_mode_enable() -> bool {
    crossterm::terminal::enable_raw_mode().is_ok()
}

/// Relies on crossterm's disable_raw_mode: restores cooked input,
/// best-effort.
#[verifier::external_body]
fn raw_mode_disable() {
    let _ = crossterm::terminal::disable_raw_mode();
}

/// Relies on std's stdout: the process's standard output handle.
#[verifier::external_body]
fn stdout_handle() -> std::io::Stdout {
    std::io::stdout()
}

/// Relies on crossterm's Hide command: hides the cursor; reports whether
/// the command reached the terminal.
#[verifier::external_body]
fn cursor_hide(w: &mut std::io::Stdout) -> bool {
    crossterm::ExecutableCommand::execute(w, crossterm::cursor::Hide).is_ok()
}

/// Relies on crossterm's Show command: shows the cursor, best-effort.
#[verifier::external_body]
fn cursor_show(w: &mut std::io::Stdout) {
    let _ = crossterm::ExecutableCommand::execute(w, crossterm::cursor::Show);
}

/// Relies on crossterm's MoveToColumn command: queues a move to column 0.
#[verifier::external_body]
fn queue_move_column0(w: &mut std::io::Stdout) {
    let _ = crossterm::QueueableCommand::queue(w, crossterm::cursor::MoveToColumn(0));
}

/// Relies on crossterm's MoveUp command: queues a move `rows` rows up.
#[verifier::external_body]
fn queue_move_up(w: &mut std::io::Stdout, rows: u16) {
    let _ = crossterm::QueueableCommand::queue(w, crossterm::cursor::MoveUp(rows));
}

/// Relies on crossterm's Clear command: queues clearing from the cursor
/// to the end of the screen.
#[verifier::external_body]
fn queue_clear_down(w: &mut std::io::Stdout) {
    let _ = crossterm::QueueableCommand::queue(
        w,
        crossterm::terminal::Clear(crossterm::terminal::ClearType::FromCursorDown),
    );
}

/// Relies on std's Write::write_all: sends the text to standard output,
/// best-effort.
#[verifier::external_body]
fn write_all_out(w: &mut std::io::Stdout, s: &str) {
    let _ = std::io::Write::write_all(w, s.as_bytes());
}

/// Relies on std's Write::flush: pushes queued output out, best-effort.
#[verifier::external_body]
fn flush_out(w: &mut std::io::Stdout) {
    let _ = std::io::Write::flush(w);
}

/// Relies on crossterm's event::poll: reports whether an input event is
/// ready within `ms` milliseconds; `None` when the input source failed.
#[verifier::external_body]
fn event_poll_ms(ms: u64) -> Option<bool> {
    match crossterm::event::poll(std::time::Duration::from_millis(ms)) {
        Ok(ready) => Some(ready),
        Err(_) => None,
    }
}

/// Relies on crossterm's event::poll with the longest expressible
/// timeout: waits indefinitely for an input event; `None` when the input
/// source failed.
#[verifier::external_body]
fn event_poll_forever() -> Option<bool> {
    match crossterm::event::poll(std::time::Duration::MAX) {
        Ok(ready) => Some(ready),
        Err(_) => None,
    }
}

/// Relies on crossterm's event::read: the next input event, a key event
/// or something else (resize, focus, ...; then `Some(None)`); `None` when
/// the input source failed.
#[verifier::external_body]
fn event_read() -> Option<Option<crossterm::event::KeyEvent>> {
    match crossterm::event::read() {
        Ok(crossterm::event::Event::Key(key)) => Some(Some(key)),
        Ok(_) => Some(None),
        Err(_) => None,
    }
}

/// Relies on crossterm's KeyEvent layout: carries the key code and the
/// modifier set over into this crate's plain key description, one variant
/// at a time; codes and modifier sets the bindings never use become
/// `Other`.
#[verifier::external_body]
fn key_to_input(key: crossterm::event::KeyEvent) -> KeyInput {
    let code = match key.code {
        crossterm::event::KeyCode::Char(c) => Key::Char(c),
        crossterm::event::KeyCode::Esc => Key::Esc,
        _ => Key::Other,
    };
    let mods = if key.modifiers == crossterm::event::KeyModifiers::CONTROL {
        Mods::Control
    } else if key.modifiers == crossterm::event::KeyModifiers::SHIFT {
        Mods::Shift
    } else if key.modifiers == crossterm::event::KeyModifiers::NONE {
        Mods::Plain
    } else {
        Mods::Other
    };
    KeyInput { code, mods }
}

/// The terminal surface, holding the output handle while the terminal is
/// in raw mode with the cursor hidden.
pub struct Term {
    writer: std::io::Stdout,
}

impl Term {
    /// Acquire the terminal: enter raw mode, then hide the cursor. When
    /// hiding the cursor fails, raw mode is left again before reporting
    /// the failure, so a failed acquisition changes nothing.
    pub fn new() -> (r: Result<Term, TermError>)
        ensures
            r is Err ==> r == Err::<Term, TermError>(TermError::Init),
    {
        if !raw_mode_enable() {
            return Err(TermError::Init);
        }
        let mut writer = stdout_handle();
        if !cursor_hide(&mut writer) {
            raw_mode_disable();
            return Err(TermError::Init);
        }
        Ok(Term { writer })
    }

    /// Restore the terminal to its prior mode: cursor back on, raw mode
    /// off. Safe to call more than once.
    pub fn reset(&mut self) {
        cursor_show(&mut self.writer);
        raw_mode_disable();
    }

    /// Queue clearing of the `rows` lines above the cursor (and
    /// everything below them).
    pub fn cmd_clear(&mut self, rows: u32) {
        queue_move_column0(&mut self.writer);
        queue_move_up(&mut self.writer, #[verifier::truncate] (rows as u16));
        queue_clear_down(&mut self.writer);
    }

    /// Queue already-formatted text.
    pub fn cmd_fmt(&mut self, s: &str) {
        write_all_out(&mut self.writer, s);
    }

    /// Queue plain text.
    pub fn cmd_str(&mut self, s: &str) {
        write_all_out(&mut self.writer, s);
    }

    /// Push everything queued out to the terminal.
    pub fn cmd_flush(&mut self) {
        flush_out(&mut self.writer);
    }

    /// Wait for the next key event: up to `timeout_ms` milliseconds, or
    /// indefinitely when the timeout is negative. `Ok(None)` is a timeout
    /// or an event that is not a key; an error means the input source
    /// itself failed, which the caller treats as fatal.
    pub fn poll(&mut self, timeout_ms: i32) -> (r: Result<Option<KeyInput>, TermError>)
        ensures
            r is Err ==> r == Err::<Option<KeyInput>, TermError>(TermError::Input),
    {
        let ready = if timeout_ms >= 0 {
            event_poll_ms(timeout_ms as u64)
        } else {
            event_poll_forever()
        };
        match ready {
            None => Err(TermError::Input),
            Some(false) => Ok(None),
            Some(true) => match event_read() {
                None => Err(TermError::Input),
                Some(None) => Ok(None),
                Some(Some(key)) => Ok(Some(key_to_input(key))),
            },
        }
    }
}

} // verus!
