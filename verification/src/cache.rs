//! The region cache: a bounded mapping from region coordinates to open
//! region handles, with time-based sweeping and random forced eviction.
//!
//! The cache is generic over the file handle type `F`: it never performs
//! I/O itself. The caller opens a region file, reads its 8192-byte header,
//! and hands both in; dropping an entry is what closes the handle.
//!
//! Eviction runs only when a new handle must be inserted while the cache is
//! at capacity: first every handle idle for at least the retention duration
//! is swept out; if that frees nothing, one surviving entry is evicted at
//! random. A cache never holds more than its configured maximum of handles.

use vstd::prelude::*;
use crate::header::{spec_be_u32, read_be_u32, HEADER_SIZE, SECTOR_SIZE};

verus! {

/// One open region: its file handle, the header snapshot read when it was
/// opened (never refreshed), and the time of its last use.
pub struct Region<F> {
    pub file: F,
    pub last_use: u64,
    pub header: Vec<u8>,
}

/// Whether an entry last used at `last_use` is still live at `now`: it has
/// been idle for less than the retention duration. An entry that is not
/// live is eligible for sweep-eviction.
pub open spec fn live_at(last_use: u64, now: u64, retention: u64) -> bool {
    (now as int) < last_use + retention
}

/// No two entries of `s` share a region coordinate.
pub open spec fn coords_unique<F>(s: Seq<((i32, i32), Region<F>)>) -> bool {
    forall|i: int, j: int|
        0 <= i < j < s.len() ==> (#[trigger] s[i]).0 != (#[trigger] s[j]).0
}

/// Some entry of `s` has coordinate `c`.
pub open spec fn has_coord<F>(s: Seq<((i32, i32), Region<F>)>, c: (i32, i32)) -> bool {
    exists|i: int| 0 <= i < s.len() && (#[trigger] s[i]).0 == c
}

/// Whether an entry last used at `last_use` is live at `now`, with the sum
/// guarded against overflow: a retention too long to elapse keeps alive.
fn is_live(last_use: u64, now: u64, retention: u64) -> (b: bool)
    ensures
        b == live_at(last_use, now, retention),
{
    match last_use.checked_add(retention) {
        Some(s) => now < s,
        None => true,
    }
}

/// Removes every entry that is no longer live, keeping the live ones.
fn sweep_entries<F>(entries: Vec<((i32, i32), Region<F>)>, now: u64, retention: u64) -> (r: Vec<
    ((i32, i32), Region<F>),
>)
    requires
        coords_unique(entries@),
        forall|i: int|
            0 <= i < entries@.len() ==> (#[trigger] entries@[i]).1.header@.len() == HEADER_SIZE,
    ensures
        coords_unique(r@),
        r@.len() <= entries@.len(),
        forall|i: int|
            0 <= i < r@.len() ==> (#[trigger] r@[i]).1.header@.len() == HEADER_SIZE,
        forall|i: int|
            0 <= i < r@.len() ==> live_at((#[trigger] r@[i]).1.last_use, now, retention),
{
    let mut src = entries;
    let mut out: Vec<((i32, i32), Region<F>)> = Vec::new();
    while src.len() > 0
        invariant
            coords_unique(src@),
            coords_unique(out@),
            forall|i: int, k: int|
                0 <= i < out@.len() && 0 <= k < src@.len() ==> (#[trigger] out@[i]).0 != (
                #[trigger] src@[k]).0,
            out@.len() + src@.len() <= entries@.len(),
            forall|i: int|
                0 <= i < out@.len() ==> (#[trigger] out@[i]).1.header@.len() == HEADER_SIZE,
            forall|k: int|
                0 <= k < src@.len() ==> (#[trigger] src@[k]).1.header@.len() == HEADER_SIZE,
            forall|i: int|
                0 <= i < out@.len() ==> live_at((#[trigger] out@[i]).1.last_use, now, retention),
        decreases src@.len(),
    {
        let ghost prev_src = src@;
        let e_opt = src.pop();
        let e = e_opt.unwrap();
        proof {
            assert(e == prev_src[prev_src.len() - 1]);
            assert forall|k: int| 0 <= k < src@.len() implies (#[trigger] src@[k]) == prev_src[k] by {
            }
        }
        if is_live(e.1.last_use, now, retention) {
            out.push(e);
        }
    }
    out
}

/// Relies on rand's `thread_rng` and `Rng::gen_range`: a uniformly random
/// index below `n`. Only the bound is assumed; two calls on one input may
/// differ.
#[verifier::external_body]
fn random_below(n: usize) -> (r: usize)
    requires
        n >= 1,
    ensures
        r < n,
{
    rand::Rng::gen_range(&mut rand::thread_rng(), 0..n)
}

/// The bounded mapping from region coordinate to open region handle.
pub struct RegionCache<F> {
    entries: Vec<((i32, i32), Region<F>)>,
    max_open_files: usize,
    region_retention: u64,
}

impl<F> RegionCache<F> {
    /// The cached entries, in insertion order.
    pub closed spec fn entries_seq(self) -> Seq<((i32, i32), Region<F>)> {
        self.entries@
    }

    /// The configured maximum number of simultaneously open handles.
    pub closed spec fn capacity(self) -> int {
        self.max_open_files as int
    }

    /// The configured retention duration.
    pub closed spec fn retention(self) -> u64 {
        self.region_retention
    }

    /// How many handles the cache holds now.
    pub open spec fn open_regions(self) -> int {
        self.entries_seq().len() as int
    }

    /// The cache's invariant: a positive capacity that the entry count
    /// never exceeds, one entry per coordinate, full header snapshots.
    pub open spec fn wf(self) -> bool {
        &&& 1 <= self.capacity()
        &&& self.open_regions() <= self.capacity()
        &&& coords_unique(self.entries_seq())
        &&& forall|i: int|
            0 <= i < self.entries_seq().len() ==> (#[trigger] self.entries_seq()[i]).1.header@.len()
                == HEADER_SIZE
    }

    /// Whether region `c` is cached.
    pub open spec fn spec_contains(self, c: (i32, i32)) -> bool {
        has_coord(self.entries_seq(), c)
    }

    /// The position of region `c` among the entries.
    pub open spec fn index_of(self, c: (i32, i32)) -> int {
        choose|i: int|
            0 <= i < self.entries_seq().len() && (#[trigger] self.entries_seq()[i]).0 == c
    }

    /// The cached handle of region `c`.
    pub open spec fn region_of(self, c: (i32, i32)) -> Region<F> {
        self.entries_seq()[self.index_of(c)].1
    }

    /// Holds where `post` keeps every cached region of `self` except `c0`,
    /// which it no longer holds.
    pub open spec fn lost_exactly(self, post: RegionCache<F>, c0: (i32, i32)) -> bool {
        &&& self.spec_contains(c0)
        &&& !post.spec_contains(c0)
        &&& forall|c: (i32, i32)|
            #![trigger self.spec_contains(c)]
            self.spec_contains(c) && c != c0 ==> post.spec_contains(c)
    }

    /// Each entry is the one entry of its coordinate.
    pub proof fn lemma_entry_is_region_of(self, i: int)
        requires
            coords_unique(self.entries_seq()),
            0 <= i < self.entries_seq().len(),
        ensures
            self.spec_contains(self.entries_seq()[i].0),
            self.index_of(self.entries_seq()[i].0) == i,
            self.region_of(self.entries_seq()[i].0) == self.entries_seq()[i].1,
    {
        let c = self.entries_seq()[i].0;
        assert(has_coord(self.entries_seq(), c));
        let j = self.index_of(c);
        if j != i {
            if j < i {
                assert(self.entries_seq()[j].0 != self.entries_seq()[i].0);
            } else {
                assert(self.entries_seq()[i].0 != self.entries_seq()[j].0);
            }
        }
    }

    /// An empty cache with the given capacity and retention duration.
    pub fn new(max_open_files: usize, region_retention: u64) -> (r: RegionCache<F>)
        requires
            max_open_files >= 1,
        ensures
            r.wf(),
            r.capacity() == max_open_files,
            r.retention() == region_retention,
            r.open_regions() == 0,
            forall|c: (i32, i32)| !(#[trigger] r.spec_contains(c)),
    {
        RegionCache { entries: Vec::new(), max_open_files, region_retention }
    }

    fn find(&self, rx: i32, rz: i32) -> (r: Option<usize>)
        ensures
            match r {
                Some(i) => i < self.entries_seq().len() && self.entries_seq()[i as int].0 == (
                    rx,
                    rz,
                ),
                None => !self.spec_contains((rx, rz)),
            },
    {
        let mut i: usize = 0;
        while i < self.entries.len()
            invariant
                i <= self.entries@.len(),
                forall|j: int| 0 <= j < i ==> (#[trigger] self.entries@[j]).0 != (rx, rz),
            decreases self.entries@.len() - i,
        {
            let c = self.entries[i].0;
            if c.0 == rx && c.1 == rz {
                return Some(i);
            }
            i += 1;
        }
        None
    }

    /// Whether region `(rx, rz)` currently has a cached handle.
    pub fn contains_region(&self, rx: i32, rz: i32) -> (r: bool)
        ensures
            r == self.spec_contains((rx, rz)),
    {
        self.find(rx, rz).is_some()
    }

    /// Refreshes the last-use time of a cached region: every successful
    /// lookup does this, which is what drives retention-based sweeping.
    pub fn touch(&mut self, rx: i32, rz: i32, now: u64)
        requires
            old(self).wf(),
            old(self).spec_contains((rx, rz)),
        ensures
            final(self).wf(),
            final(self).capacity() == old(self).capacity(),
            final(self).retention() == old(self).retention(),
            final(self).open_regions() == old(self).open_regions(),
            forall|c: (i32, i32)|
                #![trigger final(self).spec_contains(c)]
                final(self).spec_contains(c) == old(self).spec_contains(c),
            final(self).region_of((rx, rz)).last_use == now,
            final(self).region_of((rx, rz)).header == old(self).region_of((rx, rz)).header,
            final(self).region_of((rx, rz)).file == old(self).region_of((rx, rz)).file,
            forall|c: (i32, i32)|
                #![trigger final(self).region_of(c)]
                old(self).spec_contains(c) && c != (rx, rz) ==> final(self).region_of(c) == old(
                    self,
                ).region_of(c),
    {
        let i = self.find(rx, rz).unwrap();
        proof {
            old(self).lemma_entry_is_region_of(i as int);
        }
        self.entries[i].1.last_use = now;
        proof {
            assert forall|j: int, k: int|
                0 <= j < k < self.entries_seq().len() implies (#[trigger] self.entries_seq()[j]).0
                != (#[trigger] self.entries_seq()[k]).0 by {
                assert(old(self).entries_seq()[j].0 == self.entries_seq()[j].0);
                assert(old(self).entries_seq()[k].0 == self.entries_seq()[k].0);
            }
            assert forall|c: (i32, i32)|
                #![trigger self.spec_contains(c)]
                true implies self.spec_contains(c) == old(self).spec_contains(c) by {
                if old(self).spec_contains(c) {
                    let j = old(self).index_of(c);
                    assert(self.entries_seq()[j].0 == c);
                }
                if self.spec_contains(c) {
                    let j = self.index_of(c);
                    assert(old(self).entries_seq()[j].0 == c);
                }
            }
            self.lemma_entry_is_region_of(i as int);
            assert forall|c: (i32, i32)|
                #![trigger self.region_of(c)]
                old(self).spec_contains(c) && c != (rx, rz) implies self.region_of(c) == old(
                self,
            ).region_of(c) by {
                let j = old(self).index_of(c);
                old(self).lemma_entry_is_region_of(j);
                assert(self.entries_seq()[j].0 == c);
                self.lemma_entry_is_region_of(j);
            }
        }
    }

    /// Installs a freshly loaded region handle, evicting first if the cache
    /// is at capacity: every entry idle for at least the retention duration
    /// is swept out, and if that frees no slot one surviving entry is
    /// evicted at random. The cache never exceeds its capacity.
    #[verifier::rlimit(100)]
    pub fn insert_region(&mut self, rx: i32, rz: i32, file: F, header: Vec<u8>, now: u64)
        requires
            old(self).wf(),
            !old(self).spec_contains((rx, rz)),
            header@.len() == HEADER_SIZE,
        ensures
            final(self).wf(),
            final(self).capacity() == old(self).capacity(),
            final(self).retention() == old(self).retention(),
            final(self).open_regions() <= old(self).capacity(),
            final(self).spec_contains((rx, rz)),
            final(self).region_of((rx, rz)).last_use == now,
            final(self).region_of((rx, rz)).header@ == header@,
            final(self).region_of((rx, rz)).file == file,
            old(self).open_regions() < old(self).capacity() ==> (forall|c: (i32, i32)|
                #![trigger old(self).spec_contains(c)]
                old(self).spec_contains(c) ==> final(self).spec_contains(c)) && final(self).open_regions()
                == old(self).open_regions() + 1 && (forall|c: (i32, i32)|
                #![trigger final(self).region_of(c)]
                old(self).spec_contains(c) ==> final(self).region_of(c) == old(self).region_of(c)),
            old(self).open_regions() == old(self).capacity() ==> forall|c: (i32, i32)|
                #![trigger final(self).region_of(c)]
                c != (rx, rz) && final(self).spec_contains(c) ==> live_at(
                    final(self).region_of(c).last_use,
                    now,
                    old(self).retention(),
                ),
    {
        let ghost so = *old(self);
        if self.entries.len() >= self.max_open_files {
            let mut tmp: Vec<((i32, i32), Region<F>)> = Vec::new();
            core::mem::swap(&mut tmp, &mut self.entries);
            let swept = sweep_entries(tmp, now, self.region_retention);
            self.entries = swept;
            if self.entries.len() >= self.max_open_files {
                let idx = random_below(self.entries.len());
                let ghost before = self.entries@;
                let _evicted = self.entries.remove(idx);
                proof {
                    assert forall|i: int, j: int|
                        0 <= i < j < self.entries@.len() implies (#[trigger] self.entries@[i]).0
                        != (#[trigger] self.entries@[j]).0 by {
                        let ii: int = if i < idx { i } else { i + 1 };
                        let jj: int = if j < idx { j } else { j + 1 };
                        assert(self.entries@[i] == before[ii] && self.entries@[j] == before[jj]);
                    }
                    assert forall|i: int|
                        0 <= i < self.entries@.len() implies (
                    #[trigger] self.entries@[i]).1.header@.len() == HEADER_SIZE && live_at(
                        self.entries@[i].1.last_use,
                        now,
                        self.region_retention,
                    ) by {
                        let ii: int = if i < idx { i } else { i + 1 };
                        assert(self.entries@[i] == before[ii]);
                    }
                }
            }
        }
        let ghost base = self.entries@;
        if self.contains_region(rx, rz) {
            // a freshly swept cache cannot already hold the coordinate being
            // inserted, but re-finding it keeps the no-duplicates invariant
            // independent of that argument
            let i = self.find(rx, rz).unwrap();
            self.entries[i] = ((rx, rz), Region { file, last_use: now, header });
            proof {
                assert forall|a: int, b: int|
                    0 <= a < b < self.entries@.len() implies (#[trigger] self.entries@[a]).0 != (
                #[trigger] self.entries@[b]).0 by {
                    assert(self.entries@[a].0 == base[a].0 && self.entries@[b].0 == base[b].0);
                }
                self.lemma_entry_is_region_of(i as int);
            }
        } else {
            self.entries.push(((rx, rz), Region { file, last_use: now, header }));
            proof {
                let n = self.entries@.len() - 1;
                assert forall|a: int, b: int|
                    0 <= a < b < self.entries@.len() implies (#[trigger] self.entries@[a]).0 != (
                #[trigger] self.entries@[b]).0 by {
                    if b < n {
                        assert(self.entries@[a] == base[a] && self.entries@[b] == base[b]);
                    } else {
                        assert(self.entries@[b].0 == (rx, rz));
                        assert(self.entries@[a] == base[a]);
                        assert(!has_coord(base, (rx, rz)));
                    }
                }
                self.lemma_entry_is_region_of(n);
            }
        }
        proof {
            if so.open_regions() < so.capacity() {
                assert(base == so.entries_seq());
                let f = self.entries@;
                assert forall|c: (i32, i32)|
                    #![trigger so.spec_contains(c)]
                    so.spec_contains(c) implies self.spec_contains(c) by {
                    let j = so.index_of(c);
                    assert(f[j] == so.entries_seq()[j]);
                    self.lemma_entry_is_region_of(j);
                }
                assert forall|c: (i32, i32)|
                    #![trigger self.region_of(c)]
                    so.spec_contains(c) implies self.region_of(c) == so.region_of(c) by {
                    let j = so.index_of(c);
                    so.lemma_entry_is_region_of(j);
                    assert(self.entries_seq()[j] == so.entries_seq()[j]);
                    self.lemma_entry_is_region_of(j);
                }
            }
            if so.open_regions() == so.capacity() {
                assert forall|c: (i32, i32)|
                    #![trigger self.region_of(c)]
                    c != (rx, rz) && self.spec_contains(c) implies live_at(
                    self.region_of(c).last_use,
                    now,
                    so.retention(),
                ) by {
                    let j = self.index_of(c);
                    assert(self.entries_seq()[j].0 == c);
                    self.lemma_entry_is_region_of(j);
                    assert(self.entries_seq()[j] == base[j]);
                }
            }
        }
    }

    /// The location word of header slot `idx` of a cached region.
    pub fn location_word(&self, rx: i32, rz: i32, idx: usize) -> (r: u32)
        requires
            self.wf(),
            self.spec_contains((rx, rz)),
            idx < 1024,
        ensures
            r as int == spec_be_u32(self.region_of((rx, rz)).header@, idx as int * 4),
    {
        let i = self.find(rx, rz).unwrap();
        proof {
            self.lemma_entry_is_region_of(i as int);
        }
        read_be_u32(self.entries[i].1.header.as_slice(), idx * 4)
    }

    /// The timestamp of header slot `idx` of a cached region, read from the
    /// table parallel to the location table.
    pub fn timestamp_word(&self, rx: i32, rz: i32, idx: usize) -> (r: u32)
        requires
            self.wf(),
            self.spec_contains((rx, rz)),
            idx < 1024,
        ensures
            r as int == spec_be_u32(
                self.region_of((rx, rz)).header@,
                SECTOR_SIZE + idx as int * 4,
            ),
    {
        let i = self.find(rx, rz).unwrap();
        proof {
            self.lemma_entry_is_region_of(i as int);
        }
        read_be_u32(self.entries[i].1.header.as_slice(), SECTOR_SIZE + idx * 4)
    }

    /// A borrow of the cached file handle of a region.
    pub fn region_file(&self, rx: i32, rz: i32) -> (r: &F)
        requires
            self.wf(),
            self.spec_contains((rx, rz)),
        ensures
            *r == self.region_of((rx, rz)).file,
    {
        let i = self.find(rx, rz).unwrap();
        proof {
            self.lemma_entry_is_region_of(i as int);
        }
        &self.entries[i].1.file
    }

}

} // verus!
