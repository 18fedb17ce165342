//! The spinner shown while the game master is thinking.
use vstd::prelude::*;

use crate::text::{owned, push_char};

verus! {

broadcast use vstd::string::group_string_axioms;

/// A spinner: the number of frames shown so far.
#[derive(Debug, Clone, Copy)]
pub struct Spinner {
    pub current_frame: usize,
}

/// The character of frame `i` of the ten frames of the spinner.
pub open spec fn spinner_char(i: int) -> char {
    if i == 0 {
        '\u{280B}'
    } else if i == 1 {
        '\u{2819}'
    } else if i == 2 {
        '\u{2839}'
    } else if i == 3 {
        '\u{2838}'
    } else if i == 4 {
        '\u{283C}'
    } else if i == 5 {
        '\u{2834}'
    } else if i == 6 {
        '\u{2826}'
    } else if i == 7 {
        '\u{2827}'
    } else if i == 8 {
        '\u{2807}'
    } else {
        '\u{280F}'
    }
}

impl Default for Spinner {
    fn default() -> (s: Self)
        ensures
            s.current_frame == 0,
    {
        Spinner::new()
    }
}

impl Spinner {
    /// A spinner at its first frame.
    pub fn new() -> (s: Self)
        ensures
            s.current_frame == 0,
    {
        Spinner { current_frame: 0 }
    }

    /// Moves to the next frame; the count wraps around at the end of `usize`.
    pub fn next_frame(&mut self)
        ensures
            final(self).current_frame == (if old(self).current_frame == usize::MAX {
                0
            } else {
                old(self).current_frame + 1
            }),
    {
        self.current_frame = if self.current_frame == usize::MAX {
            0
        } else {
            self.current_frame + 1
        };
    }

    /// The character of the current frame; the ten frames repeat.
    pub fn get_frame(&self) -> (c: char)
        ensures
            c == spinner_char((self.current_frame % 10) as int),
    {
        let i = self.current_frame % 10;
        if i == 0 {
            '\u{280B}'
        } else if i == 1 {
            '\u{2819}'
        } else if i == 2 {
            '\u{2839}'
        } else if i == 3 {
            '\u{2838}'
        } else if i == 4 {
            '\u{283C}'
        } else if i == 5 {
            '\u{2834}'
        } else if i == 6 {
            '\u{2826}'
        } else if i == 7 {
            '\u{2827}'
        } else if i == 8 {
            '\u{2807}'
        } else {
            '\u{280F}'
        }
    }
}

/// The line shown while the game master is thinking, with the spinner's frame.
pub fn spinner_frame(spinner: &Spinner) -> (s: String)
    ensures
        s@ == " Game Master is thinking "@ + seq![spinner_char((spinner.current_frame % 10) as int)] + " "@,
{
    let mut s = owned(" Game Master is thinking ");
    push_char(&mut s, spinner.get_frame());
    push_char(&mut s, ' ');
    proof {
        reveal_strlit(" ");
        assert(s@ =~= " Game Master is thinking "@ + seq![spinner_char((spinner.current_frame % 10) as int)] + " "@);
    }
    s
}

/// Ten frames later the spinner shows the same character.
pub proof fn law_spinner_period(frame: int)
    requires
        frame >= 0,
    ensures
        spinner_char((frame + 10) % 10) == spinner_char(frame % 10),
{
    assert((frame + 10) % 10 == frame % 10);
}

} // verus!
