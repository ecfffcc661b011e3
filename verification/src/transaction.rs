//! When a delayed-clipboard paste is finished and the previous clipboard can be
//! restored.
//!
//! Every instant is in milliseconds on the transaction's own monotonic clock,
//! which starts when the transcript is published (see [`State::now`]).
use vstd::prelude::*;
use std::time::Instant;
use crate::clock::{millis_since, monotonic_now};

verus! {

/// How long the receipts must stay quiet after the last one that followed injection.
pub const QUIET_PERIOD_MS: u64 = 200;
/// How long to wait before restoring when the paste chord was never recorded as
/// sent, so that no application can be expected to read the transcript.
pub const RESTORE_TIMEOUT_MS: u64 = 8000;
/// How long to wait when the paste chord could not be sent.
pub const FAILED_INJECTION_TIMEOUT_MS: u64 = 500;

/// The observable state of one paste transaction.
pub struct State {
    /// The monotonic instant the transaction began.
    pub origin: Instant,
    /// When the transcript was published on the clipboard.
    pub published_at: u64,
    /// When the paste chord was sent, if it was.
    pub injected_at: Option<u64>,
    /// Whether sending the paste chord failed.
    pub injection_failed: bool,
    /// Every time the focused application read the transcript, in arrival order.
    pub receipts: Vec<u64>,
    /// Whether another application took the clipboard over.
    pub ownership_lost: bool,
}

/// Time from `earlier` to `later`, zero when `earlier` is after `later`.
pub open spec fn elapsed(later: u64, earlier: u64) -> int {
    if later >= earlier { later - earlier } else { 0 }
}

/// The last receipt (latest in arrival order) at or after `injected`.
pub open spec fn last_receipt_at_or_after(receipts: Seq<u64>, injected: u64) -> Option<u64>
    decreases receipts.len(),
{
    if receipts.len() == 0 {
        None
    } else if receipts.last() >= injected {
        Some(receipts.last())
    } else {
        last_receipt_at_or_after(receipts.drop_last(), injected)
    }
}

/// The last receipt that came after the paste chord was sent.
pub open spec fn spec_last_receipt_after_injection(injected_at: Option<u64>, receipts: Seq<u64>) -> Option<u64> {
    match injected_at {
        None => None,
        Some(injected) => last_receipt_at_or_after(receipts, injected),
    }
}

/// Whether the transaction is over at `now`. The previous clipboard comes back
/// only after the focused application has read the transcript: once the paste
/// chord was sent, only the receipts going quiet end the transaction. The
/// other ways out are the clipboard being taken over, a paste chord that
/// failed (after a short wait), and a paste chord never recorded as sent.
pub open spec fn spec_should_finish(
    published_at: u64,
    injected_at: Option<u64>,
    injection_failed: bool,
    receipts: Seq<u64>,
    ownership_lost: bool,
    now: u64,
) -> bool {
    ||| ownership_lost
    ||| (spec_last_receipt_after_injection(injected_at, receipts) matches Some(last)
        && elapsed(now, last) >= QUIET_PERIOD_MS)
    ||| (injection_failed && elapsed(now, published_at) >= FAILED_INJECTION_TIMEOUT_MS)
    ||| (injected_at is None && !injection_failed && elapsed(now, published_at) >= RESTORE_TIMEOUT_MS)
}

impl State {
    pub open spec fn finished_at(&self, now: u64) -> bool {
        spec_should_finish(
            self.published_at,
            self.injected_at,
            self.injection_failed,
            self.receipts@,
            self.ownership_lost,
            now,
        )
    }

    /// A transaction published now: its clock starts at 0, with nothing
    /// injected or received yet.
    pub fn new() -> (state: Self)
        ensures
            state.published_at == 0,
            state.injected_at is None,
            !state.injection_failed,
            state.receipts@ == Seq::<u64>::empty(),
            !state.ownership_lost,
    {
        State {
            origin: monotonic_now(),
            published_at: 0,
            injected_at: None,
            injection_failed: false,
            receipts: Vec::new(),
            ownership_lost: false,
        }
    }

    /// The current instant on this transaction's monotonic clock, in whole
    /// milliseconds since it began; the value is whatever the clock says.
    pub fn now(&self) -> u64 {
        millis_since(&self.origin)
    }

    /// The latest receipt at or after injection; `None` before injection.
    pub fn last_receipt_after_injection(&self) -> (last: Option<u64>)
        ensures
            last == spec_last_receipt_after_injection(self.injected_at, self.receipts@),
    {
        let injected = match self.injected_at {
            None => return None,
            Some(at) => at,
        };
        let mut i: usize = self.receipts.len();
        assert(self.receipts@.take(i as int) =~= self.receipts@);
        while i > 0
            invariant
                i <= self.receipts.len(),
                self.injected_at == Some(injected),
                last_receipt_at_or_after(self.receipts@, injected)
                    == last_receipt_at_or_after(self.receipts@.take(i as int), injected),
            decreases i,
        {
            let at = self.receipts[i - 1];
            assert(self.receipts@.take(i as int).drop_last() =~= self.receipts@.take(i - 1));
            if at >= injected {
                return Some(at);
            }
            i = i - 1;
        }
        assert(self.receipts@.take(0) =~= Seq::<u64>::empty());
        None
    }
}

/// Whether the paste transaction should end at `now` and the clipboard be restored.
pub fn should_finish(state: &State, now: u64) -> (finish: bool)
    ensures
        finish == state.finished_at(now),
{
    if state.ownership_lost {
        return true;
    }
    if let Some(last_receipt) = state.last_receipt_after_injection() {
        if now >= last_receipt && now - last_receipt >= QUIET_PERIOD_MS {
            return true;
        }
    }
    let since_published = if now >= state.published_at { now - state.published_at } else { 0 };
    if state.injection_failed {
        since_published >= FAILED_INJECTION_TIMEOUT_MS
    } else {
        state.injected_at.is_none() && since_published >= RESTORE_TIMEOUT_MS
    }
}

/// Once a transaction is over it stays over: finishing is monotone in time.
pub proof fn finished_stays_finished(state: &State, now: u64, later: u64)
    requires
        now <= later,
        state.finished_at(now),
    ensures
        state.finished_at(later),
{
}

/// Receipts that arrive before the paste chord was sent never decide anything:
/// appending one leaves the decision unchanged at every instant.
pub proof fn early_receipt_is_ignored(
    published_at: u64,
    injected: u64,
    injection_failed: bool,
    receipts: Seq<u64>,
    ownership_lost: bool,
    receipt: u64,
    now: u64,
)
    requires
        receipt < injected,
    ensures
        spec_should_finish(published_at, Some(injected), injection_failed, receipts.push(receipt), ownership_lost, now)
            == spec_should_finish(published_at, Some(injected), injection_failed, receipts, ownership_lost, now),
{
    assert(receipts.push(receipt).drop_last() =~= receipts);
}

/// Before injection no receipt counts, so only ownership loss or a timeout end the transaction.
pub proof fn receipts_need_injection(
    published_at: u64,
    injection_failed: bool,
    receipts: Seq<u64>,
    ownership_lost: bool,
    now: u64,
)
    ensures
        spec_should_finish(published_at, None, injection_failed, receipts, ownership_lost, now)
            == (ownership_lost || elapsed(now, published_at) >= (if injection_failed { FAILED_INJECTION_TIMEOUT_MS } else { RESTORE_TIMEOUT_MS })),
{
}

/// Once the paste chord was sent, the clipboard is kept for the transcript
/// until the focused application has read it: unless the clipboard was taken
/// over or the chord failed, the transaction ends exactly when a receipt at or
/// after injection has been followed by the quiet period, however long that
/// takes.
pub proof fn restore_waits_for_the_read(
    published_at: u64,
    injected: u64,
    receipts: Seq<u64>,
    now: u64,
)
    ensures
        spec_should_finish(published_at, Some(injected), false, receipts, false, now)
            == (last_receipt_at_or_after(receipts, injected) matches Some(last) && elapsed(now, last) >= QUIET_PERIOD_MS),
        last_receipt_at_or_after(receipts, injected) is None
            ==> !spec_should_finish(published_at, Some(injected), false, receipts, false, now),
{
}

/// Losing clipboard ownership ends the transaction at once, whatever else
/// happened: with or without a sent paste chord, failed or not, with any
/// receipts, at any instant.
pub proof fn ownership_loss_ends_the_transaction(
    published_at: u64,
    injected_at: Option<u64>,
    injection_failed: bool,
    receipts: Seq<u64>,
    now: u64,
)
    ensures
        spec_should_finish(published_at, injected_at, injection_failed, receipts, true, now),
{
}

} // verus!
