//! Bookkeeping of the scheduled text embedder: the daily call budget, the
//! size of each batch and the choice of products whose text changed.

use vstd::prelude::*;
use vstd::string::*;

use crate::digest::{hex_lower, sha256, sha256_hex};

verus! {

/// Seconds in a UTC day.
pub const SECONDS_PER_DAY: i64 = 86400;

/// The earliest timestamp that `chrono` represents as a `DateTime<Utc>`:
/// midnight of -262143-01-01.
pub const MIN_TIMESTAMP: i64 = -8_334_601_228_800;

/// The latest timestamp that `chrono` represents as a `DateTime<Utc>`:
/// 23:59:59 of 262142-12-31.
pub const MAX_TIMESTAMP: i64 = 8_210_266_876_799;

/// The Unix timestamp of the UTC midnight that starts the day of `ts`.
pub open spec fn day_start(ts: int) -> int {
    ts - ts % 86400
}

/// Calls `chrono::DateTime::from_timestamp(ts, 0)` and takes the timestamp of
/// midnight of its UTC date (`date_naive().and_hms_opt(0, 0, 0)`, `and_utc()`,
/// `timestamp()`). Claims, as chrono's source computes it, that for a timestamp
/// of a date that chrono represents (`MIN_TIMESTAMP..=MAX_TIMESTAMP`, from
/// `NaiveDate::MIN` to the last second of `NaiveDate::MAX`) the date exists
/// and its midnight is `day_start(ts)`.
#[verifier::external_body]
fn utc_midnight(ts: i64) -> (res: Option<i64>)
    ensures
        MIN_TIMESTAMP <= ts <= MAX_TIMESTAMP ==> res == Some(day_start(ts as int) as i64),
{
    chrono::DateTime::from_timestamp(ts, 0)
        .and_then(|d| d.date_naive().and_hms_opt(0, 0, 0))
        .map(|m| m.and_utc().timestamp())
}

/// Counts embedding calls made on the current UTC day; rolls over at midnight.
pub struct DailyCounter {
    day: i64,
    used: usize,
}

impl DailyCounter {
    /// The midnight that starts the counted day.
    pub closed spec fn day(&self) -> int {
        self.day as int
    }

    /// Calls counted on that day.
    pub closed spec fn used(&self) -> nat {
        self.used as nat
    }

    /// What `remaining(cap)` answers.
    pub open spec fn spec_remaining(&self, cap: usize) -> nat {
        if self.used() >= cap { 0 } else { (cap - self.used()) as nat }
    }

    /// A counter for the day of `now` (Unix seconds) with nothing used.
    pub fn new(now: i64) -> (c: DailyCounter)
        requires
            MIN_TIMESTAMP <= now <= MAX_TIMESTAMP,
        ensures
            c.day() == day_start(now as int),
            c.used() == 0,
    {
        let day = match utc_midnight(now) {
            Some(d) => d,
            None => now,
        };
        DailyCounter { day, used: 0 }
    }

    /// Starts a new count when `now` falls on another day than the counted one.
    pub fn maybe_roll_over(&mut self, now: i64)
        requires
            MIN_TIMESTAMP <= now <= MAX_TIMESTAMP,
        ensures
            day_start(now as int) != old(self).day() ==> final(self).day() == day_start(now as int)
                && final(self).used() == 0,
            day_start(now as int) == old(self).day() ==> *final(self) == *old(self),
    {
        let today = match utc_midnight(now) {
            Some(d) => d,
            None => now,
        };
        if today != self.day {
            self.day = today;
            self.used = 0;
        }
    }

    /// Calls still allowed today under a daily cap of `cap`.
    pub fn remaining(&self, cap: usize) -> (r: usize)
        ensures
            r == self.spec_remaining(cap),
    {
        cap.saturating_sub(self.used)
    }

    /// Counts `n` more calls (saturating at `usize::MAX`).
    pub fn add(&mut self, n: usize)
        ensures
            final(self).day() == old(self).day(),
            final(self).used() == if old(self).used() + n > usize::MAX { usize::MAX as nat } else {
                (old(self).used() + n) as nat
            },
    {
        self.used = self.used.saturating_add(n);
    }
}

/// After rolling over onto another day, the whole cap is available again.
pub proof fn lemma_roll_over_restores_cap(before: DailyCounter, after: DailyCounter, now: int, cap: usize)
    requires
        day_start(now) != before.day(),
        after.day() == day_start(now),
        after.used() == 0,
    ensures
        after.spec_remaining(cap) == cap,
{
}

/// Counting `n` calls lowers what remains by `n`, down to zero.
pub proof fn lemma_add_consumes(before: DailyCounter, after: DailyCounter, n: nat, cap: usize)
    requires
        after.used() == before.used() + n,
    ensures
        after.spec_remaining(cap) == if before.spec_remaining(cap) >= n {
            (before.spec_remaining(cap) - n) as nat
        } else {
            0
        },
{
}

/// How many products one tick may embed: nothing when the day's budget is
/// spent, otherwise the configured batch size capped by what remains.
pub fn tick_batch_size(batch_size: usize, remaining: usize) -> (res: Option<usize>)
    ensures
        remaining == 0 <==> res is None,
        res matches Some(n) ==> n == if batch_size <= remaining { batch_size } else { remaining },
{
    if remaining == 0 {
        None
    } else if batch_size <= remaining {
        Some(batch_size)
    } else {
        Some(remaining)
    }
}

/// How many rows a tick writes, and then counts, once the embedder answered
/// `vectors` vectors for `pending` texts: all of them when the numbers agree;
/// none when they differ (the tick stops without writing).
pub fn rows_to_write(vectors: usize, pending: usize) -> (n: usize)
    ensures
        n == if vectors == pending { pending } else { 0 },
{
    if vectors == pending {
        pending
    } else {
        0
    }
}

/// A tick's count grows by exactly the rows it wrote: by the batch when the
/// embedder answered one vector per text, and not at all on a mismatch.
pub proof fn lemma_tick_counts_written(before: DailyCounter, after: DailyCounter, vectors: usize, pending: usize)
    requires
        after.used() == (if before.used() + (if vectors == pending { pending as nat } else { 0 })
            > usize::MAX { usize::MAX as nat } else {
            before.used() + (if vectors == pending { pending as nat } else { 0 })
        }),
    ensures
        vectors != pending ==> after.used() == before.used(),
        vectors == pending && before.used() + pending <= usize::MAX ==> after.used() == before.used()
            + pending,
{
}

/// A product whose text may need (re-)embedding.
#[derive(Debug)]
pub struct Candidate {
    pub product_id: u128,
    pub text: String,
    pub text_hash: String,
    pub stored_hash: Option<String>,
}

impl Candidate {
    /// The candidate for a product: its generated text (empty when none), the
    /// fingerprint of that text, and the fingerprint stored with its embedding.
    pub fn new(product_id: u128, text: Option<String>, stored_hash: Option<String>) -> (c: Candidate)
        ensures
            c.product_id == product_id,
            text matches Some(t) ==> c.text@ == t@,
            text is None ==> c.text@ == Seq::<char>::empty(),
            c.text_hash@ == hex_lower(sha256(vstd::utf8::encode_utf8(c.text@))),
            c.stored_hash == stored_hash,
    {
        let text = match text {
            Some(t) => t,
            None => String::new(),
        };
        let text_hash = sha256_hex(text.as_str().as_bytes());
        Candidate { product_id, text, text_hash, stored_hash }
    }

    /// Whether the stored fingerprint equals the current one.
    pub open spec fn spec_unchanged(&self) -> bool {
        match self.stored_hash {
            Some(h) => h@ == self.text_hash@,
            None => false,
        }
    }

    pub fn unchanged(&self) -> (b: bool)
        ensures
            b == self.spec_unchanged(),
    {
        match &self.stored_hash {
            Some(h) => *h == self.text_hash,
            None => false,
        }
    }
}

/// The candidates whose text changed since it was last embedded, in their
/// given order.
pub fn select_changed(candidates: Vec<Candidate>) -> (res: Vec<Candidate>)
    ensures
        res@ == candidates@.filter(|c: Candidate| !c.spec_unchanged()),
{
    let ghost all = candidates@;
    let ghost pred = |c: Candidate| !c.spec_unchanged();
    let mut res: Vec<Candidate> = Vec::new();
    for c in it: candidates.into_iter()
        invariant
            it.seq() == all,
            pred == (|c: Candidate| !c.spec_unchanged()),
            res@ == all.take(it.index() as int).filter(pred),
    {
        proof {
            reveal_with_fuel(Seq::<_>::filter, 1);
            assert(all.take(it.index() + 1).drop_last() =~= all.take(it.index() as int));
            assert(all.take(it.index() + 1).last() == c);
        }
        if !c.unchanged() {
            res.push(c);
        }
    }
    proof {
        assert(all.take(all.len() as int) =~= all);
    }
    res
}

} // verus!
