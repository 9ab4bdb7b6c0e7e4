//! Progress tracking for a running worker pool.
//!
//! A polling task wakes on a fixed interval, renders a snapshot of the
//! pool's advancement into status text, and pushes an edit to one external
//! status message — but only when the text differs from what was last
//! pushed, so an unchanged snapshot costs no external call.

use vstd::prelude::*;

use crate::numfmt::dec_rep;

verus! {

/// A snapshot of advancement: how much is done against how much is
/// expected, in tasks or in bytes depending on the configured mode.
#[derive(Debug, Clone, Copy, PartialEq, Eq, Structural)]
pub struct ProgressSnapshot {
    pub current: u64,
    pub expected: u64,
}

/// The status text for a snapshot: `current/expected` in decimal.
pub open spec fn snapshot_text(s: ProgressSnapshot) -> Seq<char> {
    dec_rep(s.current as nat) + seq!['/'] + dec_rep(s.expected as nat)
}

/// Renders a snapshot as `current/expected`.
pub fn format_snapshot(s: &ProgressSnapshot) -> (text: String)
    ensures
        text@ == snapshot_text(*s),
{
    let mut text = crate::numfmt::u64_to_dec_string(s.current);
    text.append("/");
    let expected = crate::numfmt::u64_to_dec_string(s.expected);
    text.append(expected.as_str());
    proof {
        reveal_strlit("/");
        assert(text@ =~= snapshot_text(*s));
    }
    text
}

/// De-duplicating emitter of status text. It observes the pool and the
/// completed list without mutating them; its only effect is deciding
/// whether the external status message needs an edit.
pub struct ProgressTracker {
    last_emitted: Option<String>,
}

impl ProgressTracker {
    /// What was last handed to the notification channel, if anything.
    pub closed spec fn last_emitted_text(self) -> Option<Seq<char>> {
        match self.last_emitted {
            Some(s) => Some(s@),
            None => None,
        }
    }

    pub fn new() -> (t: ProgressTracker)
        ensures
            t.last_emitted_text() is None,
    {
        ProgressTracker { last_emitted: None }
    }

    /// Accepts the freshly rendered status text and decides whether to
    /// emit it: true exactly when it differs from the last emitted text,
    /// so two identical consecutive snapshots cause a single external
    /// update.
    pub fn observe(&mut self, text: String) -> (emit: bool)
        ensures
            emit == (old(self).last_emitted_text() != Some(text@)),
            final(self).last_emitted_text() == Some(text@),
    {
        let differs = match &self.last_emitted {
            Some(prev) => !(*prev == text),
            None => true,
        };
        if differs {
            self.last_emitted = Some(text);
        } else {
            // Equal text: keep the stored value; the view is unchanged.
            proof {
                assert(self.last_emitted_text() == Some(text@));
            }
        }
        differs
    }
}

} // verus!
