use vstd::prelude::*;

verus! {

/// When the three end-of-broadcast reminders fire, in seconds into the
/// two-hour broadcast: ten minutes, five minutes and one minute before its
/// end.
pub open spec fn guide_threshold(index: int) -> nat {
    if index == 0 {
        (3600 * 2 - 10 * 60) as nat
    } else if index == 1 {
        (3600 * 2 - 5 * 60) as nat
    } else {
        (3600 * 2 - 60) as nat
    }
}

/// The reminder due now: the first whose time has passed and whose flag is
/// still clear, or `-1` when none is due.
pub open spec fn due_guide(elapsed: nat, flags: Seq<bool>) -> int
    recommends
        flags.len() == 3,
{
    if elapsed > guide_threshold(0) && !flags[0] {
        0
    } else if elapsed > guide_threshold(1) && !flags[1] {
        1
    } else if elapsed > guide_threshold(2) && !flags[2] {
        2
    } else {
        -1
    }
}

/// One reminder to announce, and whether the roll call follows it.
pub struct GuideStep {
    pub index: usize,
    pub call_over: bool,
}

/// Decides the end-of-broadcast reminder: fires the first due reminder,
/// marks its flag so it never fires twice, and carries the configured
/// roll-call choice along.
pub fn plan_guide(elapsed_secs: u64, flags: &mut Vec<bool>, should_call_over: bool) -> (r: Option<
    GuideStep,
>)
    requires
        old(flags)@.len() == 3,
    ensures
        final(flags)@.len() == 3,
        match r {
            None => due_guide(elapsed_secs as nat, old(flags)@) == -1 && final(flags)@ == old(
                flags,
            )@,
            Some(step) => step.index as int == due_guide(elapsed_secs as nat, old(flags)@)
                && due_guide(elapsed_secs as nat, old(flags)@) >= 0 && final(flags)@ == old(
                flags,
            )@.update(step.index as int, true) && step.call_over == should_call_over,
        },
{
    let index: usize = if elapsed_secs > 3600 * 2 - 10 * 60 && !flags[0] {
        0
    } else if elapsed_secs > 3600 * 2 - 5 * 60 && !flags[1] {
        1
    } else if elapsed_secs > 3600 * 2 - 60 && !flags[2] {
        2
    } else {
        return None;
    };
    flags.set(index, true);
    Some(GuideStep { index, call_over: should_call_over })
}

} // verus!
