use vstd::prelude::*;

verus! {

/// What the host should do with its tone generator after a step.
#[derive(Debug, Clone, Copy, PartialEq, Eq, Structural)]
pub enum BeepAction {
    /// Start the tone, or keep it going, and restart the hold period.
    Start,
    /// Silence the tone: the hold period has passed.
    Stop,
    /// Leave the tone as it is.
    Keep,
}

/// Keeps a tone audible for at least `hold_ms` milliseconds after the last
/// sound request. `requested` is the machine's sound request for this step
/// and `elapsed_ms` the time since the tone was last started.
pub fn beep_action(requested: bool, elapsed_ms: u64, hold_ms: u64) -> (r: BeepAction)
    ensures
        requested ==> r == BeepAction::Start,
        !requested && hold_ms <= elapsed_ms ==> r == BeepAction::Stop,
        !requested && elapsed_ms < hold_ms ==> r == BeepAction::Keep,
{
    if requested {
        BeepAction::Start
    } else if hold_ms <= elapsed_ms {
        BeepAction::Stop
    } else {
        BeepAction::Keep
    }
}

} // verus!
