use vstd::prelude::*;

verus! {

/// Which of the bracketing announcements to leave out.
#[derive(Debug, Clone, Copy, PartialEq, Eq, Structural)]
pub enum SkipPhase {
    Start,
    Pause,
    Both,
}

impl SkipPhase {
    /// Whether the start announcement is left out.
    pub open spec fn skips_start_spec(self) -> bool {
        self is Start || self is Both
    }

    /// Whether the pause announcement is left out.
    pub open spec fn skips_pause_spec(self) -> bool {
        self is Pause || self is Both
    }
}

/// Splits an optional skip selection into `(skip_start, skip_pause)`.
pub fn skip_flags(skip: Option<SkipPhase>) -> (r: (bool, bool))
    ensures
        r.0 == (skip matches Some(s) && s.skips_start_spec()),
        r.1 == (skip matches Some(s) && s.skips_pause_spec()),
{
    match skip {
        Some(SkipPhase::Start) => (true, false),
        Some(SkipPhase::Pause) => (false, true),
        Some(SkipPhase::Both) => (true, true),
        None => (false, false),
    }
}

} // verus!
