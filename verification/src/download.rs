//! Progress reporting for a streamed download: an event goes out every time
//! the integer percentage advances, and a final one at 100% once the file is
//! in place.
use vstd::prelude::*;

verus! {

/// The payload of a progress event: `pct` is never negative.
#[derive(Clone, Copy, Debug, PartialEq, Eq, Structural)]
pub struct ProgressEvent {
    pub pct: i64,
    pub downloaded: u64,
    pub total: u64,
}

/// The progress of one download.
pub struct ProgressTracker {
    /// Bytes received so far.
    pub downloaded: u64,
    /// The announced length, 0 when the server announced none.
    pub total: u64,
    /// The percentage last reported, -1 before the first report.
    pub last_emit_pct: i64,
}

/// The integer percentage of `total` that `downloaded` bytes make, taken as
/// an `i64` (wrapping), or -1 when the total is unknown.
pub open spec fn percent(downloaded: u64, total: u64) -> int {
    if total > 0 {
        (((downloaded * 100 / total as int) as u64) as i64) as int
    } else {
        -1
    }
}

/// The percentage of `downloaded` bytes fits in an `i64` without wrapping,
/// which holds for every download below 92 petabytes.
pub open spec fn percent_fits(downloaded: u64, total: u64) -> bool {
    total == 0 || downloaded * 100 / total as int <= i64::MAX
}

/// The percentage shown in an event: never below 0.
pub open spec fn shown_pct(p: int) -> int {
    if p < 0 {
        0
    } else {
        p
    }
}

/// More bytes never lower the percentage, as long as it fits.
pub proof fn lemma_percent_monotonic(d1: u64, d2: u64, total: u64)
    requires
        d1 <= d2,
        d2 * 100 <= u64::MAX,
        percent_fits(d2, total),
    ensures
        percent_fits(d1, total),
        percent(d1, total) <= percent(d2, total),
{
    if total > 0 {
        assert(d1 * 100 <= d2 * 100) by (nonlinear_arith)
            requires
                d1 <= d2,
        ;
        vstd::arithmetic::div_mod::lemma_div_is_ordered(d1 * 100, d2 * 100, total as int);
        assert(0 <= d1 * 100 / total as int) by (nonlinear_arith)
            requires
                total > 0,
                d1 >= 0,
        ;
    }
}

impl ProgressTracker {
    /// The tracker's state is one that reporting leads to: the last reported
    /// percentage is the current one, or nothing was reported yet.
    pub open spec fn wf(&self) -> bool {
        ||| self.last_emit_pct == percent(self.downloaded, self.total)
        ||| self.downloaded == 0 && self.last_emit_pct == -1
    }

    /// A tracker for a download whose response announced `content_length`.
    pub fn new(content_length: Option<u64>) -> (t: Self)
        ensures
            t.downloaded == 0,
            t.total == (match content_length {
                Some(n) => n,
                None => 0,
            }),
            t.last_emit_pct == -1,
            t.wf(),
    {
        let total = match content_length {
            Some(n) => n,
            None => 0,
        };
        ProgressTracker { downloaded: 0, total, last_emit_pct: -1 }
    }

    /// Counts a received chunk of `len` bytes and returns the event to
    /// report, if the percentage changed.
    pub fn record_chunk(&mut self, len: u64) -> (r: Option<ProgressEvent>)
        requires
            (old(self).downloaded + len) * 100 <= u64::MAX,
        ensures
            final(self).downloaded == old(self).downloaded + len,
            final(self).total == old(self).total,
            ({
                let p = percent(final(self).downloaded, final(self).total);
                if p != old(self).last_emit_pct {
                    &&& r == Some(
                        ProgressEvent {
                            pct: shown_pct(p) as i64,
                            downloaded: final(self).downloaded,
                            total: final(self).total,
                        },
                    )
                    &&& final(self).last_emit_pct == p
                } else {
                    r is None && final(self).last_emit_pct == old(self).last_emit_pct
                }
            }),
            final(self).last_emit_pct == percent(final(self).downloaded, final(self).total),
            final(self).wf(),
            old(self).wf() && percent_fits(final(self).downloaded, final(self).total) ==> (r is Some
                <==> percent(final(self).downloaded, final(self).total) > old(self).last_emit_pct),
    {
        let downloaded = self.downloaded + len;
        self.downloaded = downloaded;
        let pct: i64 = if self.total > 0 {
            let q: u64 = downloaded * 100 / self.total;
            #[verifier::truncate]
            (q as i64)
        } else {
            -1
        };
        proof {
            if percent_fits(downloaded, self.total) {
                lemma_percent_monotonic(old(self).downloaded, downloaded, self.total);
                if self.total > 0 {
                    assert(0 <= downloaded * 100 / self.total as int) by (nonlinear_arith)
                        requires
                            self.total > 0,
                            downloaded >= 0,
                    ;
                }
            }
        }
        if pct != self.last_emit_pct {
            self.last_emit_pct = pct;
            let shown = if pct < 0 {
                0
            } else {
                pct
            };
            Some(ProgressEvent { pct: shown, downloaded, total: self.total })
        } else {
            None
        }
    }

    /// The event reported once the download is complete.
    pub fn finish(&self) -> (e: ProgressEvent)
        ensures
            e == (ProgressEvent { pct: 100, downloaded: self.downloaded, total: self.total }),
    {
        ProgressEvent { pct: 100, downloaded: self.downloaded, total: self.total }
    }
}

} // verus!
