//! The relay's write rate and the storage its sessions use, from the file
//! sizes a scan of the session directories finds.

use vstd::prelude::*;
use crate::server::sat_add_u64;
use crate::session::Moment;
use crate::strings::{chars_eq, string_chars};

verus! {

/// The bytes written to a file since it last had `previous` bytes: the
/// growth, or its whole size when it shrank (it was replaced).
pub open spec fn written_since(previous: u64, size: u64) -> u64 {
    if size >= previous {
        (size - previous) as u64
    } else {
        size
    }
}

/// The size last recorded for `path`, or 0 when it was not seen; a later
/// entry for the same path replaces an earlier one.
pub open spec fn size_of(entries: Seq<(String, u64)>, path: Seq<char>) -> u64
    decreases entries.len(),
{
    if entries.len() == 0 {
        0
    } else if entries.last().0@ == path {
        entries.last().1
    } else {
        size_of(entries.drop_last(), path)
    }
}

/// `total` plus what each file of the scan had written since the sizes
/// `seen`, saturating.
pub open spec fn written_total(seen: Seq<(String, u64)>, files: Seq<(String, u64)>, total: u64) -> u64
    decreases files.len(),
{
    if files.len() == 0 {
        total
    } else {
        sat_add_u64(
            written_total(seen, files.drop_last(), total),
            written_since(size_of(seen, files.last().0@), files.last().1),
        )
    }
}

/// The sum of the file sizes, saturating.
pub open spec fn storage_spec(files: Seq<(String, u64)>) -> u64
    decreases files.len(),
{
    if files.len() == 0 {
        0
    } else {
        sat_add_u64(storage_spec(files.drop_last()), files.last().1)
    }
}

/// `delta` bytes over `elapsed` nanoseconds, in bytes per second rounded to
/// the nearest integer (halves away from zero), saturating; zero when no
/// time passed.
pub open spec fn rate_spec(delta: nat, elapsed: nat) -> u64 {
    if elapsed == 0 {
        0
    } else {
        let q = (2 * delta * 1_000_000_000 + elapsed) / (2 * elapsed);
        if q > u64::MAX {
            u64::MAX
        } else {
            q as u64
        }
    }
}

/// Nanoseconds from `earlier` to `later`, zero when `later` is not after it.
pub open spec fn elapsed_nanos(earlier: Moment, later: Moment) -> nat {
    if later.nanos >= earlier.nanos {
        (later.nanos - earlier.nanos) as nat
    } else {
        0
    }
}

/// The total written at a moment.
#[derive(Clone, Copy, Debug, PartialEq, Eq, Structural)]
pub struct TelemetrySample {
    pub cumulative_bytes_written: u64,
    pub observed_at: Moment,
}

/// What earlier scans saw: each file's size, the bytes written in total,
/// and the last sample taken.
#[derive(Clone, Debug, PartialEq, Eq)]
pub struct TelemetryTracker {
    pub observed_sizes: Vec<(String, u64)>,
    pub cumulative_bytes_written: u64,
    pub last_sample: Option<TelemetrySample>,
}

fn lookup_size(entries: &Vec<(String, u64)>, path: &Vec<char>) -> (r: u64)
    ensures
        r == size_of(entries@, path@),
{
    let mut i: usize = entries.len();
    assert(entries@.subrange(0, entries@.len() as int) =~= entries@);
    while i > 0
        invariant
            i <= entries@.len(),
            size_of(entries@, path@) == size_of(entries@.subrange(0, i as int), path@),
        decreases i,
    {
        let ghost pre = entries@.subrange(0, i as int);
        assert(pre.drop_last() =~= entries@.subrange(0, i - 1));
        if chars_eq(string_chars(&entries[i - 1].0).as_slice(), path.as_slice()) {
            return entries[i - 1].1;
        }
        i = i - 1;
    }
    0
}

fn copy_entries(files: &Vec<(String, u64)>) -> (r: Vec<(String, u64)>)
    ensures
        r@.len() == files@.len(),
        forall|i: int| 0 <= i < files@.len() ==> (#[trigger] r@[i]).0@ == files@[i].0@ && r@[i].1 == files@[i].1,
{
    let mut r: Vec<(String, u64)> = Vec::new();
    let mut i: usize = 0;
    while i < files.len()
        invariant
            i <= files@.len(),
            r@.len() == i,
            forall|j: int| 0 <= j < i ==> (#[trigger] r@[j]).0@ == files@[j].0@ && r@[j].1 == files@[j].1,
        decreases files@.len() - i,
    {
        let path = files[i].0.clone();
        r.push((path, files[i].1));
        i = i + 1;
    }
    r
}

proof fn lemma_size_of_same(a: Seq<(String, u64)>, b: Seq<(String, u64)>, path: Seq<char>)
    requires
        a.len() == b.len(),
        forall|i: int| 0 <= i < a.len() ==> (#[trigger] a[i]).0@ == b[i].0@ && a[i].1 == b[i].1,
    ensures
        size_of(a, path) == size_of(b, path),
    decreases a.len(),
{
    if a.len() > 0 {
        lemma_size_of_same(a.drop_last(), b.drop_last(), path);
    }
}

impl TelemetryTracker {
    /// A tracker that has seen nothing.
    pub fn new() -> (r: Self)
        ensures
            r.observed_sizes@.len() == 0,
            r.cumulative_bytes_written == 0,
            r.last_sample is None,
    {
        TelemetryTracker { observed_sizes: Vec::new(), cumulative_bytes_written: 0, last_sample: None }
    }

    /// Counts what each scanned file had written since the last scan, and
    /// remembers the sizes found.
    pub fn record_scan(&mut self, files: &Vec<(String, u64)>)
        ensures
            final(self).cumulative_bytes_written == written_total(
                old(self).observed_sizes@,
                files@,
                old(self).cumulative_bytes_written,
            ),
            forall|path: Seq<char>| size_of(final(self).observed_sizes@, path) == #[trigger] size_of(files@, path),
            final(self).last_sample == old(self).last_sample,
    {
        let ghost seen = self.observed_sizes@;
        let ghost start = self.cumulative_bytes_written;
        let ghost sample = self.last_sample;
        let mut i: usize = 0;
        while i < files.len()
            invariant
                i <= files@.len(),
                self.last_sample == sample,
                self.observed_sizes@ == seen,
                self.cumulative_bytes_written == written_total(seen, files@.subrange(0, i as int), start),
            decreases files@.len() - i,
        {
            let path = string_chars(&files[i].0);
            let size = files[i].1;
            let previous = lookup_size(&self.observed_sizes, &path);
            let written = if size >= previous {
                size - previous
            } else {
                size
            };
            assert(files@.subrange(0, i + 1).drop_last() =~= files@.subrange(0, i as int));
            self.cumulative_bytes_written = self.cumulative_bytes_written.saturating_add(written);
            i = i + 1;
        }
        assert(files@.subrange(0, files@.len() as int) =~= files@);
        let copied = copy_entries(files);
        proof {
            assert forall|path: Seq<char>| size_of(copied@, path) == #[trigger] size_of(files@, path) by {
                lemma_size_of_same(copied@, files@, path);
            }
        }
        self.observed_sizes = copied;
    }

    /// The write rate since the last sample, in bytes per second, and a new
    /// sample at `now`; zero for the first sample.
    pub fn rate(&mut self, now: Moment) -> (r: u64)
        ensures
            r == match old(self).last_sample {
                Some(p) => rate_spec(
                    (if old(self).cumulative_bytes_written >= p.cumulative_bytes_written {
                        old(self).cumulative_bytes_written - p.cumulative_bytes_written
                    } else {
                        0
                    }) as nat,
                    elapsed_nanos(p.observed_at, now),
                ),
                None => 0,
            },
            final(self).last_sample == Some(
                TelemetrySample {
                    cumulative_bytes_written: old(self).cumulative_bytes_written,
                    observed_at: now,
                },
            ),
            final(self).cumulative_bytes_written == old(self).cumulative_bytes_written,
            final(self).observed_sizes == old(self).observed_sizes,
    {
        let r = match self.last_sample {
            Some(previous) => {
                let elapsed: u64 = if now.nanos >= previous.observed_at.nanos {
                    now.nanos - previous.observed_at.nanos
                } else {
                    0
                };
                if elapsed == 0 {
                    0
                } else {
                    let delta: u64 = self.cumulative_bytes_written.saturating_sub(
                        previous.cumulative_bytes_written,
                    );
                    bytes_per_second(delta, elapsed)
                }
            },
            None => 0,
        };
        self.last_sample = Some(
            TelemetrySample { cumulative_bytes_written: self.cumulative_bytes_written, observed_at: now },
        );
        r
    }
}

/// `delta` bytes over `elapsed` nanoseconds as a rounded rate.
fn bytes_per_second(delta: u64, elapsed: u64) -> (r: u64)
    requires
        elapsed > 0,
    ensures
        r == rate_spec(delta as nat, elapsed as nat),
{
    let d: u128 = delta as u128;
    let e: u128 = elapsed as u128;
    assert(2 * d * 1_000_000_000 + e <= 2 * 0xffff_ffff_ffff_ffffu128 * 1_000_000_000 + 0xffff_ffff_ffff_ffffu128)
        by (nonlinear_arith)
        requires
            d <= 0xffff_ffff_ffff_ffffu128,
            e <= 0xffff_ffff_ffff_ffffu128,
    ;
    let numerator: u128 = 2 * d * 1_000_000_000 + e;
    let q: u128 = numerator / (2 * e);
    if q > u64::MAX as u128 {
        u64::MAX
    } else {
        q as u64
    }
}

/// The storage the scanned files use: the sum of their sizes, saturating.
pub fn storage_total(files: &Vec<(String, u64)>) -> (r: u64)
    ensures
        r == storage_spec(files@),
{
    let mut total: u64 = 0;
    let mut i: usize = 0;
    while i < files.len()
        invariant
            i <= files@.len(),
            total == storage_spec(files@.subrange(0, i as int)),
        decreases files@.len() - i,
    {
        assert(files@.subrange(0, i + 1).drop_last() =~= files@.subrange(0, i as int));
        total = total.saturating_add(files[i].1);
        i = i + 1;
    }
    assert(files@.subrange(0, files@.len() as int) =~= files@);
    total
}

/// The bytes counted as written never decrease from one scan to the next.
pub proof fn lemma_written_total_grows(seen: Seq<(String, u64)>, files: Seq<(String, u64)>, total: u64)
    ensures
        written_total(seen, files, total) >= total,
    decreases files.len(),
{
    if files.len() > 0 {
        lemma_written_total_grows(seen, files.drop_last(), total);
    }
}

/// A file that grew by `d` bytes since the last scan counts `d` bytes, and
/// one seen for the first time counts its whole size.
pub proof fn lemma_growth_is_counted(previous: u64, d: u64)
    requires
        previous + d <= u64::MAX,
    ensures
        written_since(previous, (previous + d) as u64) == d,
        written_since(0, d) == d,
{
}

} // verus!
