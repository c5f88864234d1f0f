//! Keyboard bindings: which key value (as the browser names it) runs which
//! command.

use vstd::prelude::*;
use vstd::string::StrSliceExecFns;

verus! {

/// A command bound to a key.
#[derive(Debug, Clone, Copy, PartialEq, Eq)]
pub enum Command {
    /// Stop or restart simulated time (space).
    TogglePause,
    /// Next faster speed step (arrow up, `+`).
    SpeedUp,
    /// Next slower speed step (arrow down, `-`).
    SpeedDown,
    /// Default speed, running (`r`).
    ResetSpeed,
    /// Show or hide the telemetry display (`h`).
    ToggleHud,
    /// Deselect and return the camera to the overview (Home).
    Home,
    /// Look straight down on the system (`t`).
    TopDown,
    /// Deselect (Escape).
    Deselect,
    /// Select a body by catalog index (digits `1` to `8`; the star is 0).
    SelectBody(usize),
}

/// The command bound to the key value `k`, if any.
pub open spec fn key_command(k: Seq<char>) -> Option<Command> {
    if k == seq![' '] {
        Some(Command::TogglePause)
    } else if k == "ArrowUp"@ || k == seq!['+'] {
        Some(Command::SpeedUp)
    } else if k == "ArrowDown"@ || k == seq!['-'] {
        Some(Command::SpeedDown)
    } else if k == seq!['r'] || k == seq!['R'] {
        Some(Command::ResetSpeed)
    } else if k == seq!['h'] || k == seq!['H'] {
        Some(Command::ToggleHud)
    } else if k == "Home"@ {
        Some(Command::Home)
    } else if k == seq!['t'] || k == seq!['T'] {
        Some(Command::TopDown)
    } else if k == "Escape"@ {
        Some(Command::Deselect)
    } else if k.len() == 1 && '1' <= k[0] <= '8' {
        Some(Command::SelectBody((k[0] as u32 - '0' as u32) as usize))
    } else {
        None
    }
}

impl Command {
    /// Whether the browser's default action for the key is suppressed: it is
    /// for every binding but speed reset, telemetry and the digit keys.
    pub open spec fn spec_suppresses_default(self) -> bool {
        match self {
            Command::ResetSpeed | Command::ToggleHud | Command::SelectBody(_) => false,
            _ => true,
        }
    }

    /// Whether the browser's default action for this command's key is
    /// suppressed (so that space and the arrows do not scroll the page).
    pub fn suppresses_default(&self) -> (r: bool)
        ensures
            r == self.spec_suppresses_default(),
    {
        match self {
            Command::ResetSpeed | Command::ToggleHud | Command::SelectBody(_) => false,
            _ => true,
        }
    }
}

/// Whether `a` and `b` hold the same characters.
fn same_text(a: &str, b: &str) -> (r: bool)
    ensures
        r == (a@ == b@),
{
    let n = a.unicode_len();
    if n != b.unicode_len() {
        return false;
    }
    let mut i: usize = 0;
    while i < n
        invariant
            n == a@.len(),
            n == b@.len(),
            i <= n,
            forall|j: int| 0 <= j < i ==> a@[j] == b@[j],
        decreases n - i,
    {
        if a.get_char(i) != b.get_char(i) {
            return false;
        }
        i = i + 1;
    }
    assert(a@ =~= b@);
    true
}

/// Whether `a` is the single character `c`.
fn is_char(a: &str, c: char) -> (r: bool)
    ensures
        r == (a@ == seq![c]),
{
    if a.unicode_len() != 1 {
        return false;
    }
    let r = a.get_char(0) == c;
    if r {
        assert(a@ =~= seq![c]);
    }
    r
}

/// The command bound to the key value `key`, if any.
pub fn command_for_key(key: &str) -> (r: Option<Command>)
    ensures
        r == key_command(key@),
{
    if is_char(key, ' ') {
        Some(Command::TogglePause)
    } else if same_text(key, "ArrowUp") || is_char(key, '+') {
        Some(Command::SpeedUp)
    } else if same_text(key, "ArrowDown") || is_char(key, '-') {
        Some(Command::SpeedDown)
    } else if is_char(key, 'r') || is_char(key, 'R') {
        Some(Command::ResetSpeed)
    } else if is_char(key, 'h') || is_char(key, 'H') {
        Some(Command::ToggleHud)
    } else if same_text(key, "Home") {
        Some(Command::Home)
    } else if is_char(key, 't') || is_char(key, 'T') {
        Some(Command::TopDown)
    } else if same_text(key, "Escape") {
        Some(Command::Deselect)
    } else if key.unicode_len() == 1 {
        let c = key.get_char(0);
        if '1' <= c && c <= '8' {
            Some(Command::SelectBody((c as u32 - '0' as u32) as usize))
        } else {
            None
        }
    } else {
        None
    }
}

} // verus!
