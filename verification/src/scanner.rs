use crate::data_types::{spec_requested, OrderState, OrderView};
use crate::handler::{spec_current_prompt, PromptKind};
use crate::timestamp::Timestamp;
use vstd::prelude::*;

verus! {

/// What a scan pass decides for one open order.
#[derive(Clone, Copy, Debug, PartialEq, Eq, Structural)]
pub enum ScanAction {
    /// Nothing is due: leave the order as it is.
    Keep,
    /// Send the given reminder; the order's repeat count was raised and
    /// its timer restarted.
    Remind(PromptKind),
    /// The customer stayed silent through the allowed reminders: notify
    /// the administrative channel and remove the order from the store.
    /// The order itself is left unchanged for the notification snapshot.
    Escalate,
}

/// The scan decision for one order at clock reading `now`.
///
/// A terminal order is never touched. An order whose repeat count has
/// reached `repeat_count` is escalated. An order still waiting for its
/// first file is reminded to send files after `no_files_timeout` seconds
/// of silence; every other open order is re-asked its pending question
/// after `repeat_timeout` seconds of silence.
pub open spec fn spec_scan_action(
    o: OrderView,
    now: int,
    no_files_timeout: int,
    repeat_timeout: int,
    repeat_count: int,
) -> ScanAction {
    if o.is_terminal() {
        ScanAction::Keep
    } else if o.repeats() >= repeat_count {
        ScanAction::Escalate
    } else if o is FilesReceiving && o.files().len() == 0 {
        if o.elapsed(now) >= no_files_timeout {
            ScanAction::Remind(PromptKind::SendFiles)
        } else {
            ScanAction::Keep
        }
    } else if o.elapsed(now) >= repeat_timeout {
        ScanAction::Remind(spec_current_prompt(o))
    } else {
        ScanAction::Keep
    }
}

/// The order after the scan decision: only a reminder changes it, by
/// counting the reminder and restarting the timer.
pub open spec fn spec_scan_order(
    o: OrderView,
    now: int,
    no_files_timeout: int,
    repeat_timeout: int,
    repeat_count: int,
) -> OrderView {
    if spec_scan_action(o, now, no_files_timeout, repeat_timeout, repeat_count) matches ScanAction::Remind(_) {
        spec_requested(o, now)
    } else {
        o
    }
}

/// Apply one scan pass to one order at the given clock reading. The
/// caller sends the returned reminder, or, on `Escalate`, notifies the
/// administrative channel with the order snapshot and removes the order
/// from the store.
pub fn scan_order_at(
    o: &mut OrderState,
    now: Timestamp,
    no_files_timeout: u64,
    repeat_timeout: u64,
    repeat_count: i32,
) -> (r: ScanAction)
    ensures
        r == spec_scan_action(
            old(o)@,
            now@,
            no_files_timeout as int,
            repeat_timeout as int,
            repeat_count as int,
        ),
        final(o)@ == spec_scan_order(
            old(o)@,
            now@,
            no_files_timeout as int,
            repeat_timeout as int,
            repeat_count as int,
        ),
{
    let terminal = match o {
        OrderState::SizeSelected { .. } => true,
        _ => false,
    };
    if terminal {
        return ScanAction::Keep;
    }
    if o.repeats() >= repeat_count {
        return ScanAction::Escalate;
    }
    let waiting_for_first_file = match o {
        OrderState::FilesReceiving { files, .. } => files.is_empty(),
        _ => false,
    };
    let idle = o.last_time_sec_at(now);
    if waiting_for_first_file {
        if idle >= no_files_timeout {
            o.requested_at(now);
            ScanAction::Remind(PromptKind::SendFiles)
        } else {
            ScanAction::Keep
        }
    } else if idle >= repeat_timeout {
        let kind = crate::handler::current_prompt(o);
        o.requested_at(now);
        ScanAction::Remind(kind)
    } else {
        ScanAction::Keep
    }
}

/// A scan pass never mutates a terminal order and never lowers any
/// order's repeat count.
pub proof fn lemma_scan_never_harms(
    o: OrderView,
    now: int,
    no_files_timeout: int,
    repeat_timeout: int,
    repeat_count: int,
)
    ensures
        o.is_terminal() ==> spec_scan_order(o, now, no_files_timeout, repeat_timeout, repeat_count)
            == o,
        o.is_terminal() ==> spec_scan_action(
            o,
            now,
            no_files_timeout,
            repeat_timeout,
            repeat_count,
        ) == ScanAction::Keep,
        spec_scan_order(o, now, no_files_timeout, repeat_timeout, repeat_count).repeats()
            >= o.repeats(),
        o.files_invariant() ==> spec_scan_order(
            o,
            now,
            no_files_timeout,
            repeat_timeout,
            repeat_count,
        ).files_invariant(),
{
}

/// A reminder restarts the order's timer: at any later instant short of
/// a full timeout the scan issues no further reminder, and it leaves the
/// order entirely alone unless the repeat limit has been reached. The
/// next reminder therefore waits for a whole quiet period; reminders do
/// not repeat on every tick.
pub proof fn lemma_reminder_resets_timer(
    o: OrderView,
    now: int,
    later: int,
    no_files_timeout: int,
    repeat_timeout: int,
    repeat_count: int,
)
    requires
        spec_scan_action(o, now, no_files_timeout, repeat_timeout, repeat_count) matches ScanAction::Remind(_),
        now <= later,
        later - now < no_files_timeout,
        later - now < repeat_timeout,
    ensures
        !(spec_scan_action(
            spec_scan_order(o, now, no_files_timeout, repeat_timeout, repeat_count),
            later,
            no_files_timeout,
            repeat_timeout,
            repeat_count,
        ) matches ScanAction::Remind(_)),
        spec_scan_order(o, now, no_files_timeout, repeat_timeout, repeat_count).repeats()
            < repeat_count ==> spec_scan_action(
            spec_scan_order(o, now, no_files_timeout, repeat_timeout, repeat_count),
            later,
            no_files_timeout,
            repeat_timeout,
            repeat_count,
        ) == ScanAction::Keep,
{
}

/// Escalation happens exactly when an open order has used up its
/// reminders, and it leaves the order itself unchanged: the scan
/// directs the caller to remove the order, so the same order is never
/// escalated twice. A reminder, for its part, never lifts the repeat
/// count past the limit.
pub proof fn lemma_escalate_exactly_once(
    o: OrderView,
    now: int,
    no_files_timeout: int,
    repeat_timeout: int,
    repeat_count: int,
)
    ensures
        (spec_scan_action(o, now, no_files_timeout, repeat_timeout, repeat_count)
            == ScanAction::Escalate) <==> (!o.is_terminal() && o.repeats() >= repeat_count),
        spec_scan_action(o, now, no_files_timeout, repeat_timeout, repeat_count)
            == ScanAction::Escalate ==> spec_scan_order(
            o,
            now,
            no_files_timeout,
            repeat_timeout,
            repeat_count,
        ) == o,
        spec_scan_action(o, now, no_files_timeout, repeat_timeout, repeat_count) matches ScanAction::Remind(_)
            ==> o.repeats() < repeat_count && spec_scan_order(
            o,
            now,
            no_files_timeout,
            repeat_timeout,
            repeat_count,
        ).repeats() == o.repeats() + 1,
{
}

} // verus!
