//! Execution dispatcher: the per-event decision path from a raw streamed
//! message to a terminal outcome, and the settlement of a dispatched swap.
//!
//! Per event the path is one hop: received, quota-checked, then either
//! rejected or dispatched, and a dispatched swap later settles as
//! succeeded or failed. The stream-consume loop performs the I/O around
//! these functions and never blocks on a dispatched swap.

use vstd::prelude::*;

use crate::ledger::{spec_usage, UsageLedger};
use crate::monitor::{extract_spec, ExtractError, TradeInfoFromToken, TxMessage, TxMessageV};
use crate::session::{is_target, is_target_spec, targets_view, SessionContext};
use crate::swap::{decide_spec, decide_swap, scaled_amount, sizing_delta, SwapConfig};

verus! {

/// Terminal outcome of processing one streamed message.
#[derive(Clone, Copy, Debug, PartialEq, Eq, Structural)]
pub enum MonitorStep {
    /// The message yields no trade event; the loop just moves on.
    ParseFailed(ExtractError),
    /// The trade's actor is not a configured copy target: no swap, no
    /// executor call, no ledger change.
    NotTarget,
    /// The trade moved nothing worth copying; no order is placed.
    NoIntent,
    /// The user is over quota: the swap is rejected before any executor
    /// call, and the user is told.
    QuotaExceeded,
    /// The swap intent to hand to the executor in its own dispatch unit.
    Dispatch(SwapConfig),
}

/// What processing one raw message must come to, as a function of the
/// message, the target registry, the user's usage and the configuration.
pub open spec fn process_spec(
    m: TxMessageV,
    targets: Seq<Seq<char>>,
    usage: u64,
    limit: u64,
    token_percent: u64,
    slippage: u64,
) -> MonitorStep {
    match extract_spec(m) {
        Err(e) => MonitorStep::ParseFailed(e),
        Ok(trade) => {
            if !is_target_spec(targets, trade.target) {
                MonitorStep::NotTarget
            } else {
                match decide_spec(trade, token_percent, slippage) {
                    None => MonitorStep::NoIntent,
                    Some(intent) => {
                        if usage > limit {
                            MonitorStep::QuotaExceeded
                        } else {
                            MonitorStep::Dispatch(intent)
                        }
                    },
                }
            }
        },
    }
}

/// The sizing delta of the trade a message extracts to; zero when the
/// message extracts to a failure.
pub open spec fn sizing_delta_of_message(m: TxMessageV) -> int {
    match extract_spec(m) {
        Ok(t) => sizing_delta(t),
        Err(_) => 0,
    }
}

/// Process one streamed message end to end: extract the trade event,
/// filter by the target registry, decide the copy intent, and check the
/// user's quota. Pure: the executor call, ledger persistence and
/// notifications all happen outside, on the returned step.
///
/// The precondition only keeps the scaled amount inside the machine word;
/// it holds whenever `ctx.token_percent <= 100`.
pub fn process_message(ctx: &SessionContext, msg: &TxMessage, usage: u64, limit: u64) -> (s:
    MonitorStep)
    requires
        scaled_amount(sizing_delta_of_message(msg@), ctx.token_percent as int) <= u64::MAX,
    ensures
        s == process_spec(
            msg@,
            targets_view(ctx.targets@),
            usage,
            limit,
            ctx.token_percent,
            ctx.slippage,
        ),
{
    let trade = match TradeInfoFromToken::from_json(msg) {
        Ok(t) => t,
        Err(e) => {
            return MonitorStep::ParseFailed(e);
        },
    };
    if !is_target(&ctx.targets, &trade.target) {
        return MonitorStep::NotTarget;
    }
    let intent = match decide_swap(&trade, ctx.token_percent, ctx.slippage) {
        Some(c) => c,
        None => {
            return MonitorStep::NoIntent;
        },
    };
    if usage > limit {
        MonitorStep::QuotaExceeded
    } else {
        MonitorStep::Dispatch(intent)
    }
}

/// Whether this step's outcome is reported to the affected user right
/// away. Only a quota rejection is: extraction failures stay
/// operator-visible so users see no noise, a skipped or untargeted event
/// is silent, and a dispatched swap notifies at settlement instead.
pub fn step_notifies_user(s: &MonitorStep) -> (r: bool)
    ensures
        r == (*s matches MonitorStep::QuotaExceeded),
{
    match s {
        MonitorStep::QuotaExceeded => true,
        _ => false,
    }
}

/// Update the usage ledger for one settled dispatch unit: a success is
/// accounted exactly once, a failure never touches the ledger.
pub fn settle_ledger(ledger: &mut UsageLedger, user: i64, success: bool)
    requires
        success ==> spec_usage(old(ledger)@, user) < u64::MAX,
    ensures
        success ==> final(ledger)@ == old(ledger)@.insert(
            user,
            (spec_usage(old(ledger)@, user) + 1) as u64,
        ),
        !success ==> final(ledger)@ == old(ledger)@,
{
    if success {
        ledger.record_success(user);
    }
}

/// What the user is told when a dispatch unit settles.
#[derive(Clone, Copy, Debug, PartialEq, Eq, Structural)]
pub enum SettleNotice {
    /// The copy trade executed; the notification carries its transaction id.
    Success,
    /// The executor reported a failure; nothing was accounted.
    Failure,
}

/// The two operator-relevant facts about a settled dispatch unit.
#[derive(Clone, Copy, Debug, PartialEq, Eq, Structural)]
pub struct SettleReport {
    /// Exactly one notification per settled unit, success or failure.
    pub notice: SettleNotice,
    /// Whether a ledger-persistence failure must be logged for manual
    /// reconciliation.
    pub persistence_error_logged: bool,
}

/// Decide the settlement report. The notice depends on the swap outcome
/// alone: a swap that executed is reported as a success even when the
/// ledger write after it failed — that failure is logged, not hidden, and
/// later quota checks may undercount until reconciled.
pub fn settle_report(swap_succeeded: bool, persist_ok: bool) -> (r: SettleReport)
    ensures
        r.notice == if swap_succeeded {
            SettleNotice::Success
        } else {
            SettleNotice::Failure
        },
        r.persistence_error_logged == (swap_succeeded && !persist_ok),
{
    SettleReport {
        notice: if swap_succeeded {
            SettleNotice::Success
        } else {
            SettleNotice::Failure
        },
        persistence_error_logged: swap_succeeded && !persist_ok,
    }
}

/// Law: a user whose usage count exceeds the quota limit gets no further
/// dispatched swaps, whatever the message says, until the ledger is reset
/// by an external action.
pub proof fn lemma_quota_blocks_dispatch(
    m: TxMessageV,
    targets: Seq<Seq<char>>,
    usage: u64,
    limit: u64,
    token_percent: u64,
    slippage: u64,
)
    requires
        usage > limit,
    ensures
        !(process_spec(m, targets, usage, limit, token_percent, slippage)
            matches MonitorStep::Dispatch(_)),
{
}

/// Law: a trade by a wallet outside the target registry is never
/// dispatched and never rejected for quota; the step is `NotTarget`.
pub proof fn lemma_untargeted_is_ignored(
    m: TxMessageV,
    targets: Seq<Seq<char>>,
    usage: u64,
    limit: u64,
    token_percent: u64,
    slippage: u64,
)
    requires
        extract_spec(m) matches Ok(t) && !is_target_spec(targets, t.target),
    ensures
        process_spec(m, targets, usage, limit, token_percent, slippage) == MonitorStep::NotTarget,
{
}

} // verus!
