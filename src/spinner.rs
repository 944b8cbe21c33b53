//! The four-frame spinner that every open task shows in step.

use vstd::prelude::*;

verus! {

/// One frame of the spinner; it turns clockwise `- \ | /`.
#[derive(Clone, Copy, Debug, PartialEq, Eq, Structural)]
pub enum Spinner {
    Dash,
    Backslash,
    Bar,
    Slash,
}

impl Spinner {
    /// The frame after `self` in the rotation.
    pub open spec fn next_spec(self) -> Spinner {
        match self {
            Spinner::Dash => Spinner::Backslash,
            Spinner::Backslash => Spinner::Bar,
            Spinner::Bar => Spinner::Slash,
            Spinner::Slash => Spinner::Dash,
        }
    }

    /// The character drawn for this frame.
    pub open spec fn glyph_spec(self) -> char {
        match self {
            Spinner::Dash => '-',
            Spinner::Backslash => '\\',
            Spinner::Bar => '|',
            Spinner::Slash => '/',
        }
    }

    /// The frame a new spinner shows first.
    pub fn first() -> (r: Spinner)
        ensures
            r == Spinner::Dash,
    {
        Spinner::Dash
    }

    pub fn next(self) -> (r: Spinner)
        ensures
            r == self.next_spec(),
    {
        match self {
            Spinner::Dash => Spinner::Backslash,
            Spinner::Backslash => Spinner::Bar,
            Spinner::Bar => Spinner::Slash,
            Spinner::Slash => Spinner::Dash,
        }
    }

    /// The frame's character as text.
    pub fn glyph(self) -> (r: &'static str)
        ensures
            r@ == seq![self.glyph_spec()],
    {
        proof {
            reveal_strlit("-");
            reveal_strlit("\\");
            reveal_strlit("|");
            reveal_strlit("/");
        }
        match self {
            Spinner::Dash => "-",
            Spinner::Backslash => "\\",
            Spinner::Bar => "|",
            Spinner::Slash => "/",
        }
    }
}

/// Four steps bring the spinner back to the frame it started from.
pub proof fn lemma_spinner_cycle(s: Spinner)
    ensures
        s.next_spec().next_spec().next_spec().next_spec() == s,
        s.next_spec() != s,
{
}

} // verus!
