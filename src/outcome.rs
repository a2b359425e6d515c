//! Reading the streamed updates of a probe: the verdict, and what each failed
//! HTLC attempt tells about the route.
use vstd::prelude::*;
use crate::codes::{failure_code_spec, FailureCode, FailureReason, PaymentStatus};

verus! {

/// One hop of a route: the channel taken and the node reached.
pub struct Hop {
    pub id: u64,
    pub pubkey: String,
}

impl View for Hop {
    type V = (u64, Seq<char>);

    open spec fn view(&self) -> (u64, Seq<char>) {
        (self.id, self.pubkey@)
    }
}

/// One HTLC attempt of a payment: its route, where one was built, and the
/// raw failure code, where it failed.
pub struct HtlcAttempt {
    pub route: Option<Vec<Hop>>,
    pub failure_code: Option<i32>,
}

/// One streamed update of a payment attempt.
pub struct PaymentRecord {
    pub status: PaymentStatus,
    pub failure_reason: FailureReason,
    pub htlcs: Vec<HtlcAttempt>,
}

/// The verdict of a probe, with the terminal update it rests on.
pub struct ProbeResult {
    pub payment: PaymentRecord,
    /// The destination was reached: the final node refused the unknown hash.
    pub is_probe_success: bool,
    pub failure_reason: FailureReason,
    /// The payment settled, which an unredeemable hash should make
    /// impossible; such a result is never a probe success.
    pub settled_unexpectedly: bool,
}

/// Why one HTLC attempt failed, and the hops it had taken.
pub struct FailureDetail {
    pub code: FailureCode,
    pub hops: Vec<Hop>,
}

impl View for FailureDetail {
    type V = (FailureCode, Seq<(u64, Seq<char>)>);

    open spec fn view(&self) -> (FailureCode, Seq<(u64, Seq<char>)>) {
        (self.code, hops_view(self.hops@))
    }
}

pub open spec fn hops_view(hops: Seq<Hop>) -> Seq<(u64, Seq<char>)> {
    hops.map_values(|h: Hop| h@)
}

/// The verdict rule: a probe succeeds exactly when the attempt failed for
/// incorrect payment details.
pub open spec fn is_probe_success_spec(status: PaymentStatus, reason: FailureReason) -> bool {
    status is Failed && reason is IncorrectPaymentDetails
}

/// The result a terminal update gives; `None` for an update after which more
/// are expected.
pub open spec fn classify_spec(update: PaymentRecord) -> Option<ProbeResult> {
    if update.status.is_terminal_spec() {
        Some(
            ProbeResult {
                payment: update,
                is_probe_success: is_probe_success_spec(update.status, update.failure_reason),
                failure_reason: update.failure_reason,
                settled_unexpectedly: update.status is Succeeded,
            },
        )
    } else {
        None
    }
}

/// Classifies one streamed update: `None` where the attempt is still under
/// way, else the probe's result.
pub fn classify_update(update: PaymentRecord) -> (r: Option<ProbeResult>)
    ensures
        r == classify_spec(update),
{
    if update.status.is_terminal() {
        let is_probe_success = match (update.status, update.failure_reason) {
            (PaymentStatus::Failed, FailureReason::IncorrectPaymentDetails) => true,
            _ => false,
        };
        let settled_unexpectedly = match update.status {
            PaymentStatus::Succeeded => true,
            _ => false,
        };
        let failure_reason = update.failure_reason;
        Some(ProbeResult { payment: update, is_probe_success, failure_reason, settled_unexpectedly })
    } else {
        None
    }
}

/// What one HTLC attempt reports: only one that failed after taking at
/// least one hop.
pub open spec fn detail_of(h: HtlcAttempt) -> Option<(FailureCode, Seq<(u64, Seq<char>)>)> {
    match (h.failure_code, h.route) {
        (Some(code), Some(route)) => if route@.len() > 0 {
            Some((failure_code_spec(code), hops_view(route@)))
        } else {
            None
        },
        _ => None,
    }
}

/// The details of the HTLC attempts that report one, in their order.
pub open spec fn failure_details_of(htlcs: Seq<HtlcAttempt>) -> Seq<
    (FailureCode, Seq<(u64, Seq<char>)>),
>
    decreases htlcs.len(),
{
    if htlcs.len() == 0 {
        Seq::empty()
    } else {
        let rest = failure_details_of(htlcs.drop_last());
        match detail_of(htlcs.last()) {
            Some(d) => rest.push(d),
            None => rest,
        }
    }
}

fn copy_hops(hops: &Vec<Hop>) -> (r: Vec<Hop>)
    ensures
        hops_view(r@) == hops_view(hops@),
{
    let mut r: Vec<Hop> = Vec::new();
    let mut i: usize = 0;
    while i < hops.len()
        invariant
            i <= hops@.len(),
            hops_view(r@) == hops_view(hops@.take(i as int)),
        decreases hops@.len() - i,
    {
        let ghost before = r@;
        let hop = Hop { id: hops[i].id, pubkey: hops[i].pubkey.clone() };
        assert(hop@ == hops@[i as int]@);
        r.push(hop);
        proof {
            assert(hops_view(r@) =~= hops_view(before).push(hop@));
            assert(hops_view(hops@.take(i + 1)) =~= hops_view(hops@.take(i as int)).push(
                hops@[i as int]@,
            ));
        }
        i = i + 1;
    }
    proof {
        assert(hops@.take(hops@.len() as int) =~= hops@);
    }
    r
}

/// The failure details of a failed payment: one for each HTLC attempt that
/// carries a failure code and a non-empty route, in the record's order.
pub fn extract_failure_details(payment: &PaymentRecord) -> (r: Vec<FailureDetail>)
    ensures
        r@.map_values(|d: FailureDetail| d@) == failure_details_of(payment.htlcs@),
{
    let mut r: Vec<FailureDetail> = Vec::new();
    let mut i: usize = 0;
    while i < payment.htlcs.len()
        invariant
            i <= payment.htlcs@.len(),
            r@.map_values(|d: FailureDetail| d@) == failure_details_of(
                payment.htlcs@.take(i as int),
            ),
        decreases payment.htlcs@.len() - i,
    {
        let h = &payment.htlcs[i];
        proof {
            assert(payment.htlcs@.take(i + 1).drop_last() =~= payment.htlcs@.take(i as int));
        }
        match (h.failure_code, &h.route) {
            (Some(code), Some(route)) => {
                if route.len() > 0 {
                    let hops = copy_hops(route);
                    r.push(FailureDetail { code: FailureCode::from(code), hops });
                    proof {
                        assert(r@.map_values(|d: FailureDetail| d@) =~= failure_details_of(
                            payment.htlcs@.take(i + 1),
                        ));
                    }
                }
            },
            _ => {},
        }
        i = i + 1;
    }
    proof {
        assert(payment.htlcs@.take(payment.htlcs@.len() as int) =~= payment.htlcs@);
    }
    r
}

/// An HTLC attempt without a route, or with an empty one, adds no detail,
/// whatever its failure code.
pub proof fn lemma_empty_route_omitted(before: Seq<HtlcAttempt>, h: HtlcAttempt)
    requires
        h.route matches Some(route) ==> route@.len() == 0,
    ensures
        failure_details_of(before.push(h)) == failure_details_of(before),
{
    assert(before.push(h).drop_last() =~= before);
}

/// An HTLC attempt with a failure code and a non-empty route adds exactly one
/// detail, after those of the attempts before it, keeping its hops in order.
pub proof fn lemma_failed_route_reported(before: Seq<HtlcAttempt>, h: HtlcAttempt)
    requires
        h.failure_code is Some,
        h.route matches Some(route) && route@.len() > 0,
    ensures
        failure_details_of(before.push(h)) == failure_details_of(before).push(
            (failure_code_spec(h.failure_code->Some_0), hops_view(h.route->Some_0@)),
        ),
        hops_view(h.route->Some_0@).len() == h.route->Some_0@.len(),
        forall|k: int|
            0 <= k < h.route->Some_0@.len() ==> #[trigger] hops_view(h.route->Some_0@)[k] == (
                h.route->Some_0@[k].id,
                h.route->Some_0@[k].pubkey@,
            ),
{
    assert(before.push(h).drop_last() =~= before);
}

} // verus!
