//! Confirmation dialogs shown before destructive actions.
use vstd::prelude::*;
use crate::text::strs_view;
use crate::ui::key::Key;
use vstd::string::StrSliceExecFns;

verus! {

/// How a dialog is confirmed.
#[derive(Debug, PartialEq)]
pub enum ConfirmMode {
    /// `y` confirms, `n` or Esc cancels.
    YesNo,
    /// The given text must be typed, then Enter.
    TypeToConfirm(String),
}

/// A confirmation dialog: the question, how it is confirmed, and extra lines
/// of detail shown under it.
#[derive(Debug, PartialEq)]
pub struct ConfirmDialog {
    pub message: String,
    pub mode: ConfirmMode,
    pub details: Vec<String>,
    /// What has been typed so far into a type-to-confirm dialog.
    pub input: Vec<char>,
}

/// What a key press did to an open dialog.
#[derive(Debug, Clone, Copy, PartialEq, Eq, Structural)]
pub enum ConfirmResult {
    Confirmed,
    Cancelled,
    Pending,
}

/// The answer a key gives a dialog in `mode` holding the typed text
/// `input`, and the typed text afterwards. A yes/no dialog is confirmed by
/// `y` and cancelled by `n` or Esc. A typed dialog is cancelled by Esc and
/// confirmed by Enter once the typed text is exactly the expected one;
/// other characters are typed, Backspace removes the last one, and any
/// other key leaves it open.
pub open spec fn confirm_step(mode: ConfirmMode, input: Seq<char>, key: Key) -> (ConfirmResult, Seq<char>) {
    match mode {
        ConfirmMode::YesNo => match key {
            Key::Char('y') => (ConfirmResult::Confirmed, input),
            Key::Char('n') | Key::Esc => (ConfirmResult::Cancelled, input),
            _ => (ConfirmResult::Pending, input),
        },
        ConfirmMode::TypeToConfirm(expected) => match key {
            Key::Esc => (ConfirmResult::Cancelled, input),
            Key::Enter => (if input == expected@ { ConfirmResult::Confirmed } else { ConfirmResult::Pending }, input),
            Key::Backspace => (ConfirmResult::Pending, if input.len() > 0 { input.drop_last() } else { input }),
            Key::Char(c) => (ConfirmResult::Pending, input.push(c)),
            _ => (ConfirmResult::Pending, input),
        },
    }
}

/// Whether the typed characters are exactly the text `expected`.
fn typed_matches(input: &Vec<char>, expected: &str) -> (r: bool)
    ensures
        r == (input@ == expected@),
{
    let n = expected.unicode_len();
    if n != input.len() {
        return false;
    }
    let mut i: usize = 0;
    while i < n
        invariant
            n == expected@.len(),
            n == input@.len(),
            i <= n,
            forall|k: int| 0 <= k < i ==> input@[k] == expected@[k],
        decreases n - i,
    {
        if input[i] != expected.get_char(i) {
            return false;
        }
        i = i + 1;
    }
    proof {
        assert(input@ =~= expected@);
    }
    true
}

/// `d` asks `message` with `y`/`n`, above the lines `details`.
pub open spec fn is_yes_no(d: ConfirmDialog, message: Seq<char>, details: Seq<Seq<char>>) -> bool {
    &&& d.message@ == message
    &&& d.mode == ConfirmMode::YesNo
    &&& strs_view(d.details@) == details
}

/// `d` asks `message`, is confirmed by typing `expected`, and shows the
/// lines `details`.
pub open spec fn is_typed(d: ConfirmDialog, message: Seq<char>, expected: Seq<char>, details: Seq<Seq<char>>) -> bool {
    &&& d.message@ == message
    &&& d.mode matches ConfirmMode::TypeToConfirm(e) && e@ == expected
    &&& strs_view(d.details@) == details
}

impl ConfirmDialog {
    /// A yes/no dialog.
    pub fn yes_no(message: String) -> (d: Self)
        ensures
            d.message == message,
            d.mode == ConfirmMode::YesNo,
            d.details@.len() == 0,
            d.input@.len() == 0,
    {
        ConfirmDialog { message, mode: ConfirmMode::YesNo, details: Vec::new(), input: Vec::new() }
    }

    /// A yes/no dialog with detail lines.
    pub fn yes_no_with_details(message: String, details: Vec<String>) -> (d: Self)
        ensures
            d.message == message,
            d.mode == ConfirmMode::YesNo,
            d.details@ == details@,
            d.input@.len() == 0,
    {
        ConfirmDialog { message, mode: ConfirmMode::YesNo, details, input: Vec::new() }
    }

    /// A dialog confirmed by typing `expected`.
    pub fn type_to_confirm(message: String, expected: String) -> (d: Self)
        ensures
            d.message == message,
            d.mode == ConfirmMode::TypeToConfirm(expected),
            d.details@.len() == 0,
            d.input@.len() == 0,
    {
        ConfirmDialog { message, mode: ConfirmMode::TypeToConfirm(expected), details: Vec::new(), input: Vec::new() }
    }

    /// A dialog confirmed by typing `expected`, with detail lines.
    pub fn type_to_confirm_with_details(message: String, expected: String, details: Vec<String>) -> (d: Self)
        ensures
            d.message == message,
            d.mode == ConfirmMode::TypeToConfirm(expected),
            d.details@ == details@,
            d.input@.len() == 0,
    {
        ConfirmDialog { message, mode: ConfirmMode::TypeToConfirm(expected), details, input: Vec::new() }
    }

    /// Answer a key press: see `confirm_step`. The question, mode and
    /// details stay as they are.
    pub fn handle_key(&mut self, key: Key) -> (r: ConfirmResult)
        ensures
            (r, final(self).input@) == confirm_step(old(self).mode, old(self).input@, key),
            final(self).message == old(self).message,
            final(self).mode == old(self).mode,
            final(self).details == old(self).details,
    {
        match &self.mode {
            ConfirmMode::YesNo => match key {
                Key::Char('y') => ConfirmResult::Confirmed,
                Key::Char('n') | Key::Esc => ConfirmResult::Cancelled,
                _ => ConfirmResult::Pending,
            },
            ConfirmMode::TypeToConfirm(expected) => match key {
                Key::Esc => ConfirmResult::Cancelled,
                Key::Enter => {
                    if typed_matches(&self.input, expected.as_str()) {
                        ConfirmResult::Confirmed
                    } else {
                        ConfirmResult::Pending
                    }
                },
                Key::Backspace => {
                    if self.input.len() > 0 {
                        self.input.pop();
                    }
                    ConfirmResult::Pending
                },
                Key::Char(c) => {
                    self.input.push(c);
                    ConfirmResult::Pending
                },
                _ => ConfirmResult::Pending,
            },
        }
    }
}

} // verus!
