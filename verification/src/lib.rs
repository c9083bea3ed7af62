//! A small traced order-pricing library.
//!
//! Two operations form a two-level call chain: an order-detail lookup that
//! deterministically returns a price or a simulated downstream failure, and a
//! total computation that sums the prices of a sequence of orders,
//! short-circuiting on the first failure. Each operation records the outcome
//! of its own tracing span; the span state is modeled here as an explicit
//! [`SpanRecord`] handed to each operation, so the core stays testable
//! without a live telemetry backend.

use vstd::prelude::*;

verus! {

/// Which way a traced operation ended.
#[derive(Clone, Copy, PartialEq, Eq, Structural, Debug)]
pub enum Outcome {
    Success,
    Failure,
}

impl Outcome {
    /// The string value attached to a span's `outcome` attribute.
    pub fn label(&self) -> (s: &'static str)
        ensures
            *self is Success ==> s@ == "success"@,
            *self is Failure ==> s@ == "failure"@,
    {
        match self {
            Outcome::Success => "success",
            Outcome::Failure => "failure",
        }
    }
}

/// The `outcome` attribute of one span, modeled as explicit state: unset
/// while the operation runs, written exactly once when its result is known,
/// before the operation returns.
pub struct SpanRecord {
    pub outcome: Option<Outcome>,
}

impl SpanRecord {
    /// A fresh span whose outcome has not been recorded yet.
    pub fn new() -> (s: SpanRecord)
        ensures
            s.outcome is None,
    {
        SpanRecord { outcome: None }
    }

    /// Record the outcome attribute of this span.
    pub fn record(&mut self, outcome: Outcome)
        ensures
            final(self).outcome == Some(outcome),
    {
        self.outcome = Some(outcome);
    }
}

/// The single error kind: a simulated downstream dependency failure.
#[derive(Clone, Copy, PartialEq, Eq, Structural, Debug)]
pub struct DbError;

impl DbError {
    /// The fixed human-readable message carried by every such error.
    pub fn message(&self) -> (m: &'static str)
        ensures
            m@ == "Failed to talk to the database"@,
    {
        "Failed to talk to the database"
    }
}

/// An order identifier paired with its price. Constructed only by the
/// lookup; immediately consumed and discarded by the caller.
pub struct OrderDetails {
    pub order_number: u64,
    pub price: u64,
}

/// The fixed rule that simulates a downstream failure: lookup of an order
/// fails exactly when its identifier is divisible by 4.
pub open spec fn lookup_fails(n: u64) -> bool {
    n % 4 == 0
}

/// The price of an order: `order_number % 3` indexes the fixed candidate
/// list `[999, 1089, 1029]`.
pub open spec fn price_of(n: u64) -> u64 {
    if n % 3 == 0 {
        999
    } else if n % 3 == 1 {
        1089
    } else {
        1029
    }
}

/// Given an order identifier, deterministically return its details or the
/// simulated dependency failure, recording the span's outcome either way.
pub fn get_order_details(order_number: u64, span: &mut SpanRecord) -> (r: Result<
    OrderDetails,
    DbError,
>)
    ensures
        r is Err <==> lookup_fails(order_number),
        r matches Ok(d) ==> d.order_number == order_number && d.price == price_of(order_number),
        r matches Err(e) ==> e == DbError,
        final(span).outcome == Some(
            if lookup_fails(order_number) {
                Outcome::Failure
            } else {
                Outcome::Success
            },
        ),
{
    if order_number % 4 == 0 {
        span.record(Outcome::Failure);
        Err(DbError)
    } else {
        let prices: [u64; 3] = [999, 1089, 1029];
        let idx: usize = (order_number % 3) as usize;
        span.record(Outcome::Success);
        Ok(OrderDetails { order_number, price: prices[idx] })
    }
}

/// Holds when no identifier of the sequence trips the failure rule.
pub open spec fn fail_free(s: Seq<u64>) -> bool {
    forall|i: int| 0 <= i < s.len() ==> !lookup_fails(s[i])
}

/// The sum of the prices of all identifiers in the sequence.
pub open spec fn sum_prices(s: Seq<u64>) -> int
    decreases s.len(),
{
    if s.len() == 0 {
        0
    } else {
        sum_prices(s.drop_last()) + price_of(s.last())
    }
}

/// What the total computation returns for a given identifier sequence: the
/// sum of all prices when every lookup succeeds, and the lookup's own error
/// as soon as any identifier trips the failure rule.
pub open spec fn total_matches(s: Seq<u64>, r: Result<u64, DbError>) -> bool {
    &&& r is Ok <==> fail_free(s)
    &&& (r matches Ok(t) ==> t == sum_prices(s))
    &&& (r matches Err(e) ==> e == DbError)
}

/// Given an ordered sequence of order identifiers, compute the total price.
///
/// Identifiers are looked up in input order; the first failing lookup aborts
/// the computation and its error is returned unchanged. The parent span's
/// outcome is recorded exactly once, when the result is known. The
/// precondition only rules out overflow of the running `u64` total, which
/// accumulates the prices of the longest failure-free prefix.
#[verifier::loop_isolation(false)]
pub fn get_total(order_numbers: &[u64], span: &mut SpanRecord) -> (r: Result<u64, DbError>)
    requires
        forall|j: int|
            0 <= j <= order_numbers@.len() && fail_free(#[trigger] order_numbers@.take(j))
                ==> sum_prices(order_numbers@.take(j)) <= u64::MAX,
    ensures
        total_matches(order_numbers@, r),
        final(span).outcome == Some(
            if fail_free(order_numbers@) {
                Outcome::Success
            } else {
                Outcome::Failure
            },
        ),
{
    let ghost s = order_numbers@;
    let mut total: u64 = 0;
    let n: usize = order_numbers.len();
    let mut i: usize = 0;
    while i < n
        invariant
            i <= n,
            fail_free(s.take(i as int)),
            total == sum_prices(s.take(i as int)),
        decreases n - i,
    {
        let order_number = order_numbers[i];
        let mut child = SpanRecord::new();
        let looked_up = get_order_details(order_number, &mut child);
        match looked_up {
            Err(e) => {
                span.record(Outcome::Failure);
                proof {
                    assert(lookup_fails(s[i as int]));
                    assert(!fail_free(s));
                }
                return Err(e);
            },
            Ok(details) => {
                proof {
                    let t1 = s.take(i + 1);
                    assert(t1.drop_last() =~= s.take(i as int));
                    assert(t1.last() == s[i as int]);
                    assert(fail_free(t1)) by {
                        assert forall|k: int| 0 <= k < t1.len() implies !lookup_fails(
                            t1[k],
                        ) by {
                            if k < i as int {
                                assert(s.take(i as int)[k] == s[k]);
                            }
                        }
                    }
                    assert(sum_prices(t1) == total + price_of(s[i as int]));
                    assert(sum_prices(t1) <= u64::MAX);
                }
                total = total + details.price;
                i = i + 1;
            },
        }
    }
    proof {
        assert(s.take(n as int) =~= s);
    }
    span.record(Outcome::Success);
    Ok(total)
}

/// The total computation is a function of the input sequence alone: any two
/// results it can return for the same sequence are identical, so running it
/// twice on the same input yields the same result.
pub proof fn lemma_total_deterministic(s: Seq<u64>, r1: Result<u64, DbError>, r2: Result<
    u64,
    DbError,
>)
    requires
        total_matches(s, r1),
        total_matches(s, r2),
    ensures
        r1 == r2,
{
}

} // verus!
