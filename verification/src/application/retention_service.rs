//! Retention sweep / context-ageing policy.
//!
//! The policy is free of storage access: the caller supplies the capture
//! rows and applies the transitions the pass reports. Rules, in priority
//! order:
//! 1. `deleted` and already `aged` captures are never aged again;
//! 2. captures kept `until_deleted` are never aged;
//! 3. `sensitive` captures are never aged automatically;
//! 4. `review_in_30_days` captures created at least `REVIEW_AFTER_DAYS`
//!    days ago become reviewable.
use crate::db::repositories::captures::LifecycleCapture;
use crate::domain::capture::{CaptureClassification, CaptureRetention};
use crate::domain::project::AuraError;
use crate::domain::retention::{RetentionSweepResult, ReviewableCapture};
use crate::time::{spec_parse_utc, UtcInstant, SECONDS_PER_DAY};
use vstd::prelude::*;

verus! {

/// Age, in days, at which a reviewable capture becomes due for review.
pub const REVIEW_AFTER_DAYS: i64 = 30;

/// What one pass decides about one capture.
pub enum SweepVerdict {
    /// Neither `active` nor `aged` (for instance `deleted`): left alone.
    Ignored,
    /// Already `aged`: counted, not aged again.
    AlreadyAged,
    /// `sensitive` or kept `until_deleted`: never aged automatically.
    Protected,
    /// Active, reviewable, but younger than the cut-off.
    Young,
    /// Active, reviewable and at least the review window old: aged now, with its age
    /// in whole days.
    AgedNow(int),
    /// A column could not be read: 0 the timestamp, 1 the classification,
    /// 2 the retention policy.
    Unreadable(u8),
}

/// The message a pass fails with when a column cannot be read.
pub open spec fn unreadable_message(column: u8) -> Seq<char> {
    if column == 0 {
        "Aura could not read a capture timestamp while ageing context."@
    } else if column == 1 {
        "Aura found an unsupported capture classification while sweeping."@
    } else {
        "Aura found an unsupported capture retention policy while sweeping."@
    }
}

/// The instant `(seconds, nanos)` lies at least the review window before
/// `now`: at or before `now` minus `REVIEW_AFTER_DAYS` days.
pub open spec fn before_cutoff(seconds: i64, nanos: u32, now: UtcInstant) -> bool {
    let cutoff = now.spec_seconds() - REVIEW_AFTER_DAYS * SECONDS_PER_DAY;
    seconds < cutoff || (seconds == cutoff && nanos <= now.spec_nanos())
}

/// Whole days from `(seconds, nanos)` to `now`, never negative.
pub open spec fn days_until(seconds: i64, nanos: u32, now: UtcInstant) -> int {
    let whole = if now.spec_nanos() < nanos {
        now.spec_seconds() - seconds - 1
    } else {
        now.spec_seconds() - seconds
    };
    let days = whole / (SECONDS_PER_DAY as int);
    if days < 0 {
        0
    } else {
        days
    }
}

/// The verdict of a pass run at `now` on one capture.
pub open spec fn capture_verdict(now: UtcInstant, capture: LifecycleCapture) -> SweepVerdict {
    if capture.lifecycle_state@ == "aged"@ {
        SweepVerdict::AlreadyAged
    } else if capture.lifecycle_state@ != "active"@ {
        SweepVerdict::Ignored
    } else {
        match spec_parse_utc(capture.created_at@) {
            None => SweepVerdict::Unreadable(0),
            Some((seconds, nanos)) => match CaptureClassification::spec_parse(
                capture.classification@,
            ) {
                None => SweepVerdict::Unreadable(1),
                Some(classification) => match CaptureRetention::spec_parse(capture.retention@) {
                    None => SweepVerdict::Unreadable(2),
                    Some(retention) => {
                        if classification == CaptureClassification::Sensitive || retention
                            == CaptureRetention::UntilDeleted {
                            SweepVerdict::Protected
                        } else if before_cutoff(seconds, nanos, now) {
                            SweepVerdict::AgedNow(days_until(seconds, nanos, now))
                        } else {
                            SweepVerdict::Young
                        }
                    },
                },
            },
        }
    }
}

/// Running totals of a pass over a sequence of captures: the first
/// unreadable column (if any), the positions aged now, and the numbers of
/// already-aged and protected captures.
pub struct SweepTally {
    pub failure: Option<u8>,
    pub aged: Seq<int>,
    pub already_aged: nat,
    pub protected: nat,
}

/// The totals of a pass run at `now` over `captures`, in order; the pass
/// stops at the first unreadable capture.
pub open spec fn sweep_tally(now: UtcInstant, captures: Seq<LifecycleCapture>) -> SweepTally
    decreases captures.len(),
{
    if captures.len() == 0 {
        SweepTally { failure: None, aged: Seq::empty(), already_aged: 0, protected: 0 }
    } else {
        let prev = sweep_tally(now, captures.drop_last());
        if prev.failure is Some {
            prev
        } else {
            match capture_verdict(now, captures.last()) {
                SweepVerdict::Unreadable(column) => SweepTally { failure: Some(column), ..prev },
                SweepVerdict::AgedNow(_) => SweepTally {
                    aged: prev.aged.push(captures.len() - 1),
                    ..prev
                },
                SweepVerdict::AlreadyAged => SweepTally {
                    already_aged: prev.already_aged + 1,
                    ..prev
                },
                SweepVerdict::Protected => SweepTally { protected: prev.protected + 1, ..prev },
                _ => prev,
            }
        }
    }
}

/// Once a pass has failed on a prefix, it fails the same way on the whole
/// sequence.
proof fn lemma_failure_persists(now: UtcInstant, captures: Seq<LifecycleCapture>, k: int)
    requires
        0 <= k <= captures.len(),
        sweep_tally(now, captures.take(k)).failure is Some,
    ensures
        sweep_tally(now, captures).failure == sweep_tally(now, captures.take(k)).failure,
    decreases captures.len(),
{
    if k == captures.len() {
        assert(captures.take(k) =~= captures);
    } else {
        let shorter = captures.drop_last();
        assert(shorter.take(k) =~= captures.take(k));
        lemma_failure_persists(now, shorter, k);
    }
}

/// How many of `captures` satisfy `p`.
pub open spec fn count_matching(
    captures: Seq<LifecycleCapture>,
    p: spec_fn(LifecycleCapture) -> bool,
) -> nat
    decreases captures.len(),
{
    if captures.len() == 0 {
        0
    } else {
        count_matching(captures.drop_last(), p) + if p(captures.last()) {
            1nat
        } else {
            0nat
        }
    }
}

/// What a pass that reads every capture counts, stated capture by
/// capture: it fails on none of them; the already-aged count is the number
/// of `aged` captures; the protected count is the number of active
/// captures that are sensitive or kept until deleted; and the captures it
/// ages are, in input order and each once, exactly the active reviewable
/// captures at least the review window old.
pub proof fn lemma_sweep_counts(now: UtcInstant, captures: Seq<LifecycleCapture>)
    requires
        sweep_tally(now, captures).failure is None,
    ensures
        ({
            let tally = sweep_tally(now, captures);
            &&& forall|i: int|
                0 <= i < captures.len() ==> !(capture_verdict(now, #[trigger] captures[i]) is Unreadable)
            &&& tally.already_aged == count_matching(
                captures,
                |c: LifecycleCapture| c.lifecycle_state@ == "aged"@,
            )
            &&& tally.protected == count_matching(
                captures,
                |c: LifecycleCapture| capture_verdict(now, c) is Protected,
            )
            &&& forall|j: int, k: int|
                0 <= j < k < tally.aged.len() ==> #[trigger] tally.aged[j] < #[trigger] tally.aged[k]
            &&& forall|j: int|
                0 <= j < tally.aged.len() ==> 0 <= #[trigger] tally.aged[j] < captures.len()
            &&& forall|i: int|
                0 <= i < captures.len() ==> (tally.aged.contains(i) <==> capture_verdict(
                    now,
                    #[trigger] captures[i],
                ) is AgedNow)
        }),
    decreases captures.len(),
{
    if captures.len() > 0 {
        let shorter = captures.drop_last();
        let prev = sweep_tally(now, shorter);
        assert(prev.failure is None);
        lemma_sweep_counts(now, shorter);
        let last = captures.last();
        let n = captures.len() - 1;
        assert(capture_verdict(now, last) is AlreadyAged <==> last.lifecycle_state@ == "aged"@);
        assert forall|i: int| 0 <= i < captures.len() implies !(capture_verdict(
            now,
            #[trigger] captures[i],
        ) is Unreadable) by {
            if i < n {
                assert(captures[i] == shorter[i]);
            }
        }
        let tally = sweep_tally(now, captures);
        assert forall|i: int| 0 <= i < captures.len() implies (tally.aged.contains(i)
            <==> capture_verdict(now, #[trigger] captures[i]) is AgedNow) by {
            if i < n {
                assert(captures[i] == shorter[i]);
                if capture_verdict(now, last) is AgedNow {
                    assert(tally.aged == prev.aged.push(n));
                    if prev.aged.contains(i) {
                        let k = choose|k: int| 0 <= k < prev.aged.len() && prev.aged[k] == i;
                        assert(tally.aged[k] == i);
                    }
                    if tally.aged.contains(i) {
                        let k = choose|k: int| 0 <= k < tally.aged.len() && tally.aged[k] == i;
                        assert(k < prev.aged.len());
                        assert(prev.aged[k] == i);
                    }
                }
            } else {
                if capture_verdict(now, last) is AgedNow {
                    assert(tally.aged[prev.aged.len() as int] == n);
                } else {
                    if tally.aged.contains(i) {
                        let k = choose|k: int| 0 <= k < tally.aged.len() && tally.aged[k] == i;
                        assert(prev.aged[k] < shorter.len());
                    }
                }
            }
        }
    }
}

/// `entry` is the review entry a pass at `now` produces for `capture`.
pub open spec fn is_review_entry(
    entry: ReviewableCapture,
    capture: LifecycleCapture,
    now: UtcInstant,
) -> bool {
    &&& entry.id@ == capture.id@
    &&& entry.project_id@ == capture.project_id@
    &&& entry.label@ == capture.label@
    &&& entry.classification@ == capture.classification@
    &&& entry.created_at@ == capture.created_at@
    &&& entry.aged_at@ == now.spec_text()
    &&& capture_verdict(now, capture) == SweepVerdict::AgedNow(entry.days_aged as int)
}

/// The policy clock of one sweep.
pub struct RetentionService {
    now: UtcInstant,
}

impl RetentionService {
    pub closed spec fn spec_now(self) -> UtcInstant {
        self.now
    }

    /// A sweep whose policy time is `now`.
    pub fn new(now: UtcInstant) -> (r: RetentionService)
        ensures
            r.spec_now() == now,
    {
        RetentionService { now }
    }

    /// The policy time of the sweep.
    pub fn now(&self) -> (r: UtcInstant)
        ensures
            r == self.spec_now(),
    {
        self.now
    }

    /// Classifies one pass over `captures`: the captures to age now (in
    /// order) and the pass's counters. The pass fails at the first capture
    /// whose timestamp, classification or retention cannot be read.
    pub fn classify_pass(&self, captures: &[LifecycleCapture]) -> (r: Result<
        (Vec<ReviewableCapture>, RetentionSweepResult),
        AuraError,
    >)
        ensures
            ({
                let tally = sweep_tally(self.spec_now(), captures@);
                match r {
                    Err(e) => tally.failure matches Some(column) && e.is_storage_with(
                        unreadable_message(column),
                    ),
                    Ok((reviewable, result)) => {
                        &&& tally.failure is None
                        &&& result.swept_at@ == self.spec_now().spec_text()
                        &&& result.captures_reviewed == captures@.len()
                        &&& result.captures_aged_now == tally.aged.len()
                        &&& result.captures_already_aged == tally.already_aged
                        &&& result.captures_protected == tally.protected
                        &&& reviewable@.len() == tally.aged.len()
                        &&& forall|j: int|
                            0 <= j < reviewable@.len() ==> is_review_entry(
                                #[trigger] reviewable@[j],
                                captures@[tally.aged[j]],
                                self.spec_now(),
                            )
                    },
                }
            }),
    {
        let now = self.now;
        let swept_at = now.to_text();
        let mut reviewable: Vec<ReviewableCapture> = Vec::new();
        let mut aged_now: u64 = 0;
        let mut already_aged: u64 = 0;
        let mut protected: u64 = 0;
        let n = captures.len();
        let mut i: usize = 0;
        while i < n
            invariant
                n == captures@.len(),
                i <= n,
                swept_at@ == now.spec_text(),
                now == self.spec_now(),
                ({
                    let tally = sweep_tally(now, captures@.take(i as int));
                    &&& tally.failure is None
                    &&& aged_now == tally.aged.len()
                    &&& already_aged == tally.already_aged
                    &&& protected == tally.protected
                    &&& reviewable@.len() == tally.aged.len()
                    &&& forall|k: int| 0 <= k < tally.aged.len() ==> 0 <= #[trigger] tally.aged[k] < i
                    &&& forall|j: int|
                        0 <= j < reviewable@.len() ==> is_review_entry(
                            #[trigger] reviewable@[j],
                            captures@[tally.aged[j]],
                            now,
                        )
                }),
                aged_now + already_aged + protected <= i,
            decreases n - i,
        {
            let capture = &captures[i];
            let ghost prefix = captures@.take(i as int);
            let ghost next = captures@.take(i + 1);
            assert(next.drop_last() =~= prefix);
            assert(next.last() == captures@[i as int]);
            let ghost verdict = capture_verdict(now, captures@[i as int]);
            if crate::text::same_text(capture.lifecycle_state.as_str(), "aged") {
                already_aged = already_aged + 1;
                i = i + 1;
                continue;
            }
            if !crate::text::same_text(capture.lifecycle_state.as_str(), "active") {
                i = i + 1;
                continue;
            }
            let created = match UtcInstant::parse(capture.created_at.as_str()) {
                Some(instant) => instant,
                None => {
                    proof {
                        lemma_failure_persists(now, captures@, i + 1);
                    }
                    return Err(
                        AuraError::Storage(
                            String::from_str(
                                "Aura could not read a capture timestamp while ageing context.",
                            ),
                        ),
                    );
                },
            };
            let classification = match CaptureClassification::from_store(
                capture.classification.as_str(),
            ) {
                Ok(value) => value,
                Err(_) => {
                    proof {
                        lemma_failure_persists(now, captures@, i + 1);
                    }
                    return Err(
                        AuraError::Storage(
                            String::from_str(
                                "Aura found an unsupported capture classification while sweeping.",
                            ),
                        ),
                    );
                },
            };
            let retention = match CaptureRetention::from_store(capture.retention.as_str()) {
                Ok(value) => value,
                Err(_) => {
                    proof {
                        lemma_failure_persists(now, captures@, i + 1);
                    }
                    return Err(
                        AuraError::Storage(
                            String::from_str(
                                "Aura found an unsupported capture retention policy while sweeping.",
                            ),
                        ),
                    );
                },
            };
            if classification == CaptureClassification::Sensitive || retention
                == CaptureRetention::UntilDeleted {
                protected = protected + 1;
                i = i + 1;
                continue;
            }
            let cutoff: i128 = (now.seconds() as i128) - (REVIEW_AFTER_DAYS as i128) * (
            SECONDS_PER_DAY as i128);
            let created_seconds = created.seconds() as i128;
            if created_seconds < cutoff || (created_seconds == cutoff && created.nanos()
                <= now.nanos()) {
                let mut whole: i128 = (now.seconds() as i128) - created_seconds;
                if now.nanos() < created.nanos() {
                    whole = whole - 1;
                }
                let days128: i128 = whole / (SECONDS_PER_DAY as i128);
                let days: i64 = if days128 < 0 {
                    0
                } else if days128 > (i64::MAX as i128) {
                    i64::MAX
                } else {
                    days128 as i64
                };
                proof {
                    assert(whole > 0);
                    assert(whole <= 0x1_0000_0000_0000_0000);
                    assert(days128 <= 0x1_0000_0000_0000_0000int / 86_400) by (nonlinear_arith)
                        requires
                            days128 == whole / 86_400,
                            0 < whole <= 0x1_0000_0000_0000_0000,
                    ;
                }
                let entry = ReviewableCapture {
                    id: capture.id.clone(),
                    project_id: capture.project_id.clone(),
                    label: capture.label.clone(),
                    classification: capture.classification.clone(),
                    created_at: capture.created_at.clone(),
                    aged_at: swept_at.clone(),
                    days_aged: days,
                };
                reviewable.push(entry);
                aged_now = aged_now + 1;
            }
            i = i + 1;
        }
        assert(captures@.take(n as int) =~= captures@);
        let result = RetentionSweepResult {
            swept_at,
            captures_reviewed: n as u64,
            captures_aged_now: aged_now,
            captures_already_aged: already_aged,
            captures_protected: protected,
        };
        Ok((reviewable, result))
    }
}

} // verus!
