//! Tables of guest memory ranges, as they are sent during a migration.

use itertools::Itertools;
use vstd::prelude::*;

use crate::bits::{bit64, lemma_test_bit64};
use crate::protocol::{MigratableError, SocketError};
use crate::wire::{get_le, le_bytes, le_value, lemma_le_bytes_len, lemma_le_bytes_of_value,
    lemma_le_value_of_bytes, lemma_pow256, put_le};

verus! {

/// Number of bytes of a range in a message.
pub const RANGE_SIZE: usize = 16;

/// A range of guest memory.
#[derive(Debug, Clone, Copy, PartialEq, Eq, Structural)]
pub struct MemoryRange {
    /// The guest address of the first byte.
    pub gpa: u64,
    /// The number of bytes.
    pub length: u64,
}

impl MemoryRange {
    /// The byte at this address belongs to the range.
    pub open spec fn covers(self, address: int) -> bool {
        self.gpa <= address < self.gpa + self.length
    }
}

impl Default for MemoryRange {
    fn default() -> (range: Self)
        ensures
            range == (MemoryRange { gpa: 0, length: 0 }),
    {
        MemoryRange { gpa: 0, length: 0 }
    }
}

/// A table of guest memory ranges.
#[derive(Debug)]
pub struct MemoryRangeTable {
    data: Vec<MemoryRange>,
}

impl View for MemoryRangeTable {
    type V = Seq<MemoryRange>;

    closed spec fn view(&self) -> Seq<MemoryRange> {
        self.data@
    }
}

impl Default for MemoryRangeTable {
    fn default() -> (table: Self)
        ensures
            table@ == Seq::<MemoryRange>::empty(),
    {
        MemoryRangeTable { data: Vec::new() }
    }
}

/// The number of bytes of all ranges.
pub open spec fn total_length(ranges: Seq<MemoryRange>) -> int
    decreases ranges.len(),
{
    if ranges.len() == 0 {
        0
    } else {
        total_length(ranges.drop_last()) + ranges.last().length
    }
}

/// The number of ranges that cover an address.
pub open spec fn cover_count(ranges: Seq<MemoryRange>, address: int) -> int
    decreases ranges.len(),
{
    if ranges.len() == 0 {
        0
    } else {
        cover_count(ranges.drop_last(), address) + if ranges.last().covers(address) {
            1int
        } else {
            0
        }
    }
}

/// What is taken from the end of a table so as to get up to `room` bytes, and what is left
/// of it. A range that does not fit is split, and its end stays in the table.
pub open spec fn take_chunk(ranges: Seq<MemoryRange>, room: int) -> (
    Seq<MemoryRange>,
    Seq<MemoryRange>,
)
    decreases ranges.len(),
{
    if room <= 0 || ranges.len() == 0 {
        (Seq::empty(), ranges)
    } else {
        let range = ranges.last();
        if range.length > room {
            (
                seq![MemoryRange { gpa: range.gpa, length: room as u64 }],
                ranges.drop_last().push(
                    MemoryRange {
                        gpa: (range.gpa + room) as u64,
                        length: (range.length - room) as u64,
                    },
                ),
            )
        } else {
            let (taken, left) = take_chunk(ranges.drop_last(), room - range.length);
            (seq![range] + taken, left)
        }
    }
}

/// The end of each range fits in 64 bits, or is just beyond.
pub open spec fn ends_fit(ranges: Seq<MemoryRange>) -> bool {
    forall|i: int|
        0 <= i < ranges.len() ==> (#[trigger] ranges[i]).gpa + ranges[i].length
            <= 0x1_0000_0000_0000_0000
}

/// The sum of the lengths and of the number of ranges, which each chunk makes smaller.
pub open spec fn weight(ranges: Seq<MemoryRange>) -> int {
    total_length(ranges) + ranges.len()
}

proof fn lemma_total_length_nonneg(ranges: Seq<MemoryRange>)
    ensures
        total_length(ranges) >= 0,
    decreases ranges.len(),
{
    if ranges.len() > 0 {
        lemma_total_length_nonneg(ranges.drop_last());
    }
}

proof fn lemma_total_length_concat(a: Seq<MemoryRange>, b: Seq<MemoryRange>)
    ensures
        total_length(a + b) == total_length(a) + total_length(b),
    decreases b.len(),
{
    if b.len() == 0 {
        assert(a + b =~= a);
    } else {
        assert((a + b).drop_last() =~= a + b.drop_last());
        lemma_total_length_concat(a, b.drop_last());
    }
}

proof fn lemma_cover_count_concat(a: Seq<MemoryRange>, b: Seq<MemoryRange>, address: int)
    ensures
        cover_count(a + b, address) == cover_count(a, address) + cover_count(b, address),
    decreases b.len(),
{
    if b.len() == 0 {
        assert(a + b =~= a);
    } else {
        assert((a + b).drop_last() =~= a + b.drop_last());
        lemma_cover_count_concat(a, b.drop_last(), address);
    }
}

proof fn lemma_single(range: MemoryRange, address: int)
    ensures
        total_length(seq![range]) == range.length,
        cover_count(seq![range], address) == if range.covers(address) {
            1int
        } else {
            0
        },
{
    assert(seq![range].drop_last() =~= Seq::<MemoryRange>::empty());
    assert(total_length(Seq::<MemoryRange>::empty()) == 0);
    assert(cover_count(Seq::<MemoryRange>::empty(), address) == 0);
}

/// A chunk never holds more bytes than asked for; it holds exactly as many if something is
/// left; and no byte gets lost or doubled.
pub proof fn law_chunk(ranges: Seq<MemoryRange>, room: int, address: int)
    requires
        0 <= room <= u64::MAX,
        ends_fit(ranges),
    ensures
        ({
            let (taken, left) = take_chunk(ranges, room);
            &&& total_length(taken) <= room
            &&& left.len() > 0 ==> total_length(taken) == room
            &&& total_length(taken) + total_length(left) == total_length(ranges)
            &&& cover_count(taken, address) + cover_count(left, address) == cover_count(
                ranges,
                address,
            )
            &&& ends_fit(left)
            &&& (taken.len() == 0 <==> room == 0 || ranges.len() == 0)
        }),
    decreases ranges.len(),
{
    if room == 0 || ranges.len() == 0 {
        assert(total_length(Seq::<MemoryRange>::empty()) == 0);
        assert(cover_count(Seq::<MemoryRange>::empty(), address) == 0);
    } else {
        let range = ranges.last();
        let rest = ranges.drop_last();
        assert(range.gpa + range.length <= 0x1_0000_0000_0000_0000);
        let (taken, left) = take_chunk(ranges, room);
        if range.length > room {
            let first = MemoryRange { gpa: range.gpa, length: room as u64 };
            let second = MemoryRange {
                gpa: (range.gpa + room) as u64,
                length: (range.length - room) as u64,
            };
            lemma_single(first, address);
            assert(left.drop_last() =~= rest);
            assert(left.last() == second);
        } else {
            law_chunk(rest, room - range.length, address);
            let (taken_rest, _) = take_chunk(rest, room - range.length);
            lemma_single(range, address);
            lemma_total_length_concat(seq![range], taken_rest);
            lemma_cover_count_concat(seq![range], taken_rest, address);
        }
    }
}

/// Taking a chunk makes a table smaller.
pub proof fn lemma_chunk_makes_progress(ranges: Seq<MemoryRange>, room: int)
    requires
        0 < room <= u64::MAX,
        ranges.len() > 0,
    ensures
        weight(take_chunk(ranges, room).1) < weight(ranges),
        weight(take_chunk(ranges, room).1) >= 0,
    decreases ranges.len(),
{
    let range = ranges.last();
    let rest = ranges.drop_last();
    let (_, left) = take_chunk(ranges, room);
    lemma_total_length_nonneg(left);
    if range.length > room {
        assert(left.drop_last() =~= rest);
    } else if rest.len() > 0 && room - range.length > 0 {
        lemma_chunk_makes_progress(rest, room - range.length);
    } else {
        assert(take_chunk(rest, room - range.length).1 == rest);
    }
}

/// The chunks of a table, in the order in which they are taken from it.
pub open spec fn chunks(ranges: Seq<MemoryRange>, chunk_size: u64) -> Seq<Seq<MemoryRange>>
    decreases weight(ranges),
{
    if chunk_size == 0 || ranges.len() == 0 {
        Seq::empty()
    } else {
        proof {
            lemma_chunk_makes_progress(ranges, chunk_size as int);
        }
        let (taken, left) = take_chunk(ranges, chunk_size as int);
        seq![taken] + chunks(left, chunk_size)
    }
}

/// The number of ranges of all chunks that cover an address.
pub open spec fn chunks_cover_count(chunks: Seq<Seq<MemoryRange>>, address: int) -> int
    decreases chunks.len(),
{
    if chunks.len() == 0 {
        0
    } else {
        cover_count(chunks[0], address) + chunks_cover_count(chunks.drop_first(), address)
    }
}

/// Partitioning a table loses no byte and doubles none.
pub proof fn law_partition_keeps_every_byte(
    ranges: Seq<MemoryRange>,
    chunk_size: u64,
    address: int,
)
    requires
        chunk_size > 0,
        ends_fit(ranges),
    ensures
        chunks_cover_count(chunks(ranges, chunk_size), address) == cover_count(ranges, address),
    decreases weight(ranges),
{
    if ranges.len() > 0 {
        let (taken, left) = take_chunk(ranges, chunk_size as int);
        law_chunk(ranges, chunk_size as int, address);
        lemma_chunk_makes_progress(ranges, chunk_size as int);
        law_partition_keeps_every_byte(left, chunk_size, address);
        let all = chunks(ranges, chunk_size);
        assert(all.drop_first() =~= chunks(left, chunk_size));
        assert(all[0] == taken);
    }
}

/// Every chunk of a partition holds at most `chunk_size` bytes, and every one but the last
/// exactly as many.
pub proof fn law_partition_fills_chunks(ranges: Seq<MemoryRange>, chunk_size: u64, i: int)
    requires
        ends_fit(ranges),
        0 <= i < chunks(ranges, chunk_size).len(),
    ensures
        total_length(chunks(ranges, chunk_size)[i]) <= chunk_size,
        i < chunks(ranges, chunk_size).len() - 1 ==> total_length(chunks(ranges, chunk_size)[i])
            == chunk_size,
        chunks(ranges, chunk_size)[i].len() > 0,
    decreases weight(ranges),
{
    if chunk_size > 0 && ranges.len() > 0 {
        let (taken, left) = take_chunk(ranges, chunk_size as int);
        law_chunk(ranges, chunk_size as int, 0);
        lemma_chunk_makes_progress(ranges, chunk_size as int);
        let rest = chunks(left, chunk_size);
        assert(chunks(ranges, chunk_size) =~= seq![taken] + rest);
        if i > 0 {
            law_partition_fills_chunks(left, chunk_size, i - 1);
        } else if rest.len() > 0 {
            assert(left.len() > 0);
        }
    }
}

/// Takes chunks from a table.
#[derive(Debug)]
pub struct MemoryRangeTableIterator {
    chunk_size: u64,
    data: Vec<MemoryRange>,
}

fn copy_ranges(ranges: &Vec<MemoryRange>) -> (copy: Vec<MemoryRange>)
    ensures
        copy@ == ranges@,
{
    let mut copy: Vec<MemoryRange> = Vec::new();
    let mut i: usize = 0;
    while i < ranges.len()
        invariant
            i <= ranges@.len(),
            copy@ == ranges@.take(i as int),
        decreases ranges@.len() - i,
    {
        copy.push(ranges[i]);
        i = i + 1;
        assert(copy@ =~= ranges@.take(i as int));
    }
    assert(ranges@.take(i as int) =~= ranges@);
    copy
}

impl Clone for MemoryRangeTable {
    fn clone(&self) -> (table: Self)
        ensures
            table@ == self@,
    {
        MemoryRangeTable { data: copy_ranges(&self.data) }
    }
}

impl MemoryRangeTableIterator {
    /// The ranges that have not been taken yet.
    pub closed spec fn rest(self) -> Seq<MemoryRange> {
        self.data@
    }

    /// The largest number of bytes of a chunk.
    pub closed spec fn spec_chunk_size(self) -> u64 {
        self.chunk_size
    }

    /// Starts to take chunks of at most `chunk_size` bytes from a table.
    pub fn new(table: &MemoryRangeTable, chunk_size: u64) -> (iter: Self)
        ensures
            iter.rest() == table@,
            iter.spec_chunk_size() == chunk_size,
    {
        MemoryRangeTableIterator { chunk_size, data: copy_ranges(&table.data) }
    }

    /// Returns the next chunk of the table, making sure that it is not larger than the
    /// chunk size.
    ///
    /// **Note**: Do not rely on the order of the ranges. This allows for a more efficient
    /// implementation.
    pub fn next(&mut self) -> (chunk: Option<MemoryRangeTable>)
        requires
            ends_fit(old(self).rest()),
        ensures
            final(self).spec_chunk_size() == old(self).spec_chunk_size(),
            final(self).rest() == take_chunk(
                old(self).rest(),
                old(self).spec_chunk_size() as int,
            ).1,
            ends_fit(final(self).rest()),
            chunk is None <==> old(self).spec_chunk_size() == 0 || old(self).rest().len() == 0,
            chunk matches Some(table) ==> table@ == take_chunk(
                old(self).rest(),
                old(self).spec_chunk_size() as int,
            ).0,
    {
        let ghost start = self.data@;
        let ghost size = self.chunk_size as int;
        let mut ranges: Vec<MemoryRange> = Vec::new();
        let mut ranges_size: u64 = 0;
        proof {
            law_chunk(start, size, 0);
            assert(ranges@ + take_chunk(start, size).0 =~= take_chunk(start, size).0);
        }
        while ranges_size < self.chunk_size && self.data.len() > 0
            invariant
                self.chunk_size == size,
                self.chunk_size == old(self).chunk_size,
                ranges_size <= self.chunk_size,
                ends_fit(self.data@),
                take_chunk(start, size).0 == ranges@ + take_chunk(
                    self.data@,
                    size - ranges_size,
                ).0,
                take_chunk(start, size).1 == take_chunk(self.data@, size - ranges_size).1,
            decreases self.data@.len(), self.chunk_size - ranges_size,
        {
            let ghost before = self.data@;
            let ghost taken_before = ranges@;
            let ghost room = size - ranges_size;
            if let Some(range) = self.data.pop() {
                assert(before.last() == range);
                assert(range.gpa + range.length <= 0x1_0000_0000_0000_0000);
                assert(self.data@ =~= before.drop_last());
                let next_range: MemoryRange = if range.length > self.chunk_size - ranges_size {
                    let returned_bytes: u64 = self.chunk_size - ranges_size;
                    // How many bytes we need to put back into the table.
                    let leftover_bytes: u64 = range.length - returned_bytes;
                    self.data.push(
                        MemoryRange { gpa: range.gpa + returned_bytes, length: leftover_bytes },
                    );
                    MemoryRange { gpa: range.gpa, length: returned_bytes }
                } else {
                    range
                };
                ranges_size = ranges_size + next_range.length;
                ranges.push(next_range);
                proof {
                    assert(ranges@ + take_chunk(self.data@, size - ranges_size).0
                        =~= taken_before + take_chunk(before, room).0);
                }
            }
        }
        assert(ranges@ + Seq::<MemoryRange>::empty() =~= ranges@);
        if ranges.len() == 0 {
            None
        } else {
            Some(MemoryRangeTable { data: ranges })
        }
    }
}

/// Position `b` of a bitmap is set.
pub open spec fn page_dirty(bitmap: Seq<u64>, b: int) -> bool {
    0 <= b < bitmap.len() * 64 && bit64(bitmap[b / 64], (b % 64) as u64)
}

/// The positions below `n` that are set in a bitmap, in ascending order.
pub open spec fn dirty_below(bitmap: Seq<u64>, n: nat) -> Seq<u64>
    decreases n,
{
    if n == 0 {
        Seq::empty()
    } else {
        let rest = dirty_below(bitmap, (n - 1) as nat);
        if page_dirty(bitmap, n - 1) {
            rest.push((n - 1) as u64)
        } else {
            rest
        }
    }
}

/// Joins two runs of pages if the second one follows the first one directly.
pub open spec fn join_runs(previous: (u64, u64), current: (u64, u64)) -> Result<
    (u64, u64),
    ((u64, u64), (u64, u64)),
> {
    if previous.1 == current.0 {
        Ok((previous.0, current.1))
    } else {
        Err((previous, current))
    }
}

/// The runs that come out when each is joined, if it can be, with the one before it.
pub open spec fn coalesced(previous: (u64, u64), runs: Seq<(u64, u64)>) -> Seq<(u64, u64)>
    decreases runs.len(),
{
    if runs.len() == 0 {
        seq![previous]
    } else {
        match join_runs(previous, runs[0]) {
            Ok(joined) => coalesced(joined, runs.drop_first()),
            Err((done, next)) => seq![done] + coalesced(next, runs.drop_first()),
        }
    }
}

/// The runs of set positions of a bitmap, each as its start and its end.
pub open spec fn dirty_runs(bitmap: Seq<u64>) -> Seq<(u64, u64)> {
    let pages = dirty_below(bitmap, (bitmap.len() * 64) as nat).map_values(
        |b: u64| (b, (b + 1) as u64),
    );
    if pages.len() == 0 {
        Seq::empty()
    } else {
        coalesced(pages[0], pages.drop_first())
    }
}

/// The memory of a run of pages.
pub open spec fn run_range(run: (u64, u64), start_addr: u64, page_size: u64) -> MemoryRange {
    MemoryRange {
        gpa: (start_addr + run.0 * page_size) as u64,
        length: ((run.1 - run.0) * page_size) as u64,
    }
}

/// The addresses and lengths of the memory of runs of pages fit in 64 bits.
pub open spec fn runs_fit(runs: Seq<(u64, u64)>, start_addr: u64, page_size: u64) -> bool {
    forall|i: int|
        0 <= i < runs.len() ==> start_addr + (#[trigger] runs[i]).0 * page_size <= u64::MAX && 0
            <= (runs[i].1 - runs[i].0) * page_size <= u64::MAX
}

/// Joins two runs of pages if the second one follows the first one directly.
fn join_adjacent(previous: (u64, u64), current: (u64, u64)) -> (result: Result<
    (u64, u64),
    ((u64, u64), (u64, u64)),
>)
    ensures
        result == join_runs(previous, current),
{
    if previous.1 == current.0 {
        Ok((previous.0, current.1))
    } else {
        Err((previous, current))
    }
}

/// Joins adjacent runs with `itertools::Itertools::coalesce`.
///
/// Of the adaptor it is claimed that it holds one run, starting with the first one, and
/// hands it together with the next one to the function: if the function joins the two,
/// their union is held, otherwise the first one comes out and the second one is held;
/// the run that is held at the end comes out last.
#[verifier::external_body]
fn coalesce_runs(runs: Vec<(u64, u64)>) -> (result: Vec<(u64, u64)>)
    ensures
        runs@.len() == 0 ==> result@.len() == 0,
        runs@.len() > 0 ==> result@ == coalesced(runs@[0], runs@.drop_first()),
{
    runs.into_iter().coalesce(|previous, current| join_adjacent(previous, current)).collect()
}

/// The positions that are set in a bitmap, in ascending order.
fn bit_positions(bitmap: &[u64]) -> (positions: Vec<u64>)
    requires
        bitmap@.len() * 64 <= usize::MAX,
    ensures
        positions@ == dirty_below(bitmap@, (bitmap@.len() * 64) as nat),
{
    let mut positions: Vec<u64> = Vec::new();
    let bits: usize = bitmap.len() * 64;
    let mut b: usize = 0;
    while b < bits
        invariant
            b <= bits,
            bits == bitmap@.len() * 64,
            positions@ == dirty_below(bitmap@, b as nat),
        decreases bits - b,
    {
        let word: u64 = bitmap[b / 64];
        let bit: u64 = (b % 64) as u64;
        proof {
            lemma_test_bit64(word, bit);
        }
        if word & (1u64 << bit) != 0 {
            positions.push(b as u64);
        }
        b = b + 1;
    }
    positions
}

impl MemoryRangeTable {
    /// The ranges of the table.
    pub fn ranges(&self) -> (ranges: &[MemoryRange])
        ensures
            ranges@ == self@,
    {
        self.data.as_slice()
    }

    /// The ranges of the table.
    pub fn regions(&self) -> (regions: &[MemoryRange])
        ensures
            regions@ == self@,
    {
        self.data.as_slice()
    }

    /// Creates a table of the given ranges.
    pub fn from_ranges(data: Vec<MemoryRange>) -> (table: Self)
        ensures
            table@ == data@,
    {
        MemoryRangeTable { data }
    }

    /// Partitions the table into chunks of at most `chunk_size` bytes. There are none if
    /// that is 0.
    pub fn partition(&self, chunk_size: u64) -> (partition: Vec<MemoryRangeTable>)
        requires
            ends_fit(self@),
        ensures
            partition@.len() == chunks(self@, chunk_size).len(),
            forall|i: int|
                0 <= i < partition@.len() ==> (#[trigger] partition@[i])@ == chunks(
                    self@,
                    chunk_size,
                )[i],
    {
        let mut iter = MemoryRangeTableIterator::new(self, chunk_size);
        let mut partition: Vec<MemoryRangeTable> = Vec::new();
        let ghost all = chunks(self@, chunk_size);
        assert(all.skip(0) =~= all);
        loop
            invariant_except_break
                partition@.len() <= all.len(),
                all.skip(partition@.len() as int) == chunks(iter.rest(), chunk_size),
            invariant
                iter.spec_chunk_size() == chunk_size,
                ends_fit(iter.rest()),
                all == chunks(self@, chunk_size),
                forall|i: int|
                    0 <= i < partition@.len() ==> (#[trigger] partition@[i])@ == all[i],
            ensures
                partition@.len() == all.len(),
            decreases weight(iter.rest()),
        {
            let ghost rest = iter.rest();
            match iter.next() {
                None => {
                    assert(chunks(rest, chunk_size) =~= Seq::<Seq<MemoryRange>>::empty());
                    break ;
                },
                Some(chunk) => {
                    proof {
                        let n = partition@.len() as int;
                        let tail = all.skip(n);
                        assert(tail == chunks(rest, chunk_size));
                        assert(tail == seq![chunk@] + chunks(iter.rest(), chunk_size));
                        assert(tail.len() == all.len() - n);
                        assert(all[n] == tail[0]);
                        assert(all.skip(n + 1) =~= tail.drop_first());
                        assert(tail.drop_first() =~= chunks(iter.rest(), chunk_size));
                        lemma_chunk_makes_progress(rest, chunk_size as int);
                    }
                    partition.push(chunk);
                },
            }
        }
        partition
    }

    /// Turns a dirty bitmap into dirty ranges, merging consecutive dirty pages into
    /// contiguous ranges.
    ///
    /// A memory page (i.e., a range) is marked dirty when its corresponding bit is set.
    fn dirty_ranges(bitmap: &[u64], start_addr: u64, page_size: u64) -> (ranges: Vec<MemoryRange>)
        requires
            bitmap@.len() * 64 <= usize::MAX,
            runs_fit(dirty_runs(bitmap@), start_addr, page_size),
        ensures
            ranges@ == dirty_runs(bitmap@).map_values(
                |run: (u64, u64)| run_range(run, start_addr, page_size),
            ),
    {
        let positions: Vec<u64> = bit_positions(bitmap);
        let ghost below = dirty_below(bitmap@, (bitmap@.len() * 64) as nat);
        let ghost pages = below.map_values(|b: u64| (b, (b + 1) as u64));
        // Turn them into single-element ranges.
        let mut singles: Vec<(u64, u64)> = Vec::new();
        let mut i: usize = 0;
        while i < positions.len()
            invariant
                i <= positions@.len(),
                positions@ == below,
                bitmap@.len() * 64 <= usize::MAX,
                below == dirty_below(bitmap@, (bitmap@.len() * 64) as nat),
                pages == below.map_values(|b: u64| (b, (b + 1) as u64)),
                singles@ == pages.take(i as int),
            decreases positions@.len() - i,
        {
            let b: u64 = positions[i];
            proof {
                lemma_dirty_below(bitmap@, (bitmap@.len() * 64) as nat);
            }
            singles.push((b, b + 1));
            i = i + 1;
            assert(singles@ =~= pages.take(i as int));
        }
        assert(singles@ =~= pages);
        // Merge adjacent ranges.
        let runs: Vec<(u64, u64)> = coalesce_runs(singles);
        assert(runs@ =~= dirty_runs(bitmap@));
        let ghost expected = dirty_runs(bitmap@).map_values(
            |run: (u64, u64)| run_range(run, start_addr, page_size),
        );
        let mut ranges: Vec<MemoryRange> = Vec::new();
        let mut j: usize = 0;
        while j < runs.len()
            invariant
                j <= runs@.len(),
                runs@ == dirty_runs(bitmap@),
                runs_fit(runs@, start_addr, page_size),
                expected == dirty_runs(bitmap@).map_values(
                    |run: (u64, u64)| run_range(run, start_addr, page_size),
                ),
                bitmap@.len() * 64 <= usize::MAX,
                ranges@ == expected.take(j as int),
            decreases runs@.len() - j,
        {
            let run: (u64, u64) = runs[j];
            proof {
                assert(runs@[j as int] == run);
                law_dirty_runs(bitmap@);
                assert(run.0 < run.1);
                assert(0 <= run.0 * page_size) by (nonlinear_arith)
                    requires
                        run.0 >= 0,
                        page_size >= 0,
                ;
            }
            let gpa: u64 = start_addr + run.0 * page_size;
            let length: u64 = (run.1 - run.0) * page_size;
            ranges.push(MemoryRange { gpa, length });
            j = j + 1;
            assert(ranges@ =~= expected.take(j as int));
        }
        assert(expected.take(j as int) =~= expected);
        ranges
    }

    /// Creates a new table from a bitmap where each bit corresponds to a dirty memory page.
    ///
    /// Only dirty ranges are represented in the resulting table.
    pub fn from_dirty_bitmap(bitmap: &[u64], start_addr: u64, page_size: u64) -> (table: Self)
        requires
            bitmap@.len() * 64 <= usize::MAX,
            runs_fit(dirty_runs(bitmap@), start_addr, page_size),
        ensures
            table@ == dirty_runs(bitmap@).map_values(
                |run: (u64, u64)| run_range(run, start_addr, page_size),
            ),
    {
        MemoryRangeTable { data: Self::dirty_ranges(bitmap, start_addr, page_size) }
    }

    /// Adds a range at the end.
    pub fn push(&mut self, range: MemoryRange)
        ensures
            final(self)@ == old(self)@.push(range),
    {
        self.data.push(range);
    }

    /// Whether the table has no ranges.
    pub fn is_empty(&self) -> (empty: bool)
        ensures
            empty == (self@.len() == 0),
    {
        self.data.len() == 0
    }

    /// Adds the ranges of another table at the end.
    pub fn extend(&mut self, table: Self)
        ensures
            final(self)@ == old(self)@ + table@,
    {
        let mut data: Vec<MemoryRange> = table.data;
        self.data.append(&mut data);
    }

    /// Creates a table of the ranges of several tables, one after the other.
    pub fn new_from_tables(tables: Vec<Self>) -> (table: Self)
        ensures
            table@ == tables@.map_values(|t: MemoryRangeTable| t@).flatten(),
    {
        let ghost views = tables@.map_values(|t: MemoryRangeTable| t@);
        let mut data: Vec<MemoryRange> = Vec::new();
        let mut i: usize = 0;
        assert(views.take(0) =~= Seq::<Seq<MemoryRange>>::empty());
        while i < tables.len()
            invariant
                i <= tables@.len(),
                views == tables@.map_values(|t: MemoryRangeTable| t@),
                data@ == views.take(i as int).flatten(),
            decreases tables@.len() - i,
        {
            let ghost before = data@;
            let mut copy: Vec<MemoryRange> = copy_ranges(&tables[i].data);
            data.append(&mut copy);
            proof {
                let longer = views.take(i + 1);
                assert(longer.drop_last() =~= views.take(i as int));
                longer.lemma_flatten_and_flatten_alt_are_equivalent();
                views.take(i as int).lemma_flatten_and_flatten_alt_are_equivalent();
                assert(longer.last() == tables@[i as int]@);
            }
            i = i + 1;
        }
        assert(views.take(i as int) =~= views);
        MemoryRangeTable { data }
    }
}

proof fn lemma_dirty_below(bitmap: Seq<u64>, n: nat)
    requires
        n <= bitmap.len() * 64,
        bitmap.len() * 64 <= usize::MAX,
    ensures
        dirty_below(bitmap, n).len() <= n,
        forall|i: int|
            0 <= i < dirty_below(bitmap, n).len() ==> (#[trigger] dirty_below(bitmap, n)[i]) < n
                && page_dirty(bitmap, dirty_below(bitmap, n)[i] as int),
        forall|i: int, j: int|
            0 <= i < j < dirty_below(bitmap, n).len() ==> (#[trigger] dirty_below(bitmap, n)[i])
                < (#[trigger] dirty_below(bitmap, n)[j]),
        forall|b: int|
            0 <= b < n && #[trigger] page_dirty(bitmap, b) ==> dirty_below(bitmap, n).contains(
                b as u64,
            ),
    decreases n,
{
    if n > 0 {
        let rest = dirty_below(bitmap, (n - 1) as nat);
        lemma_dirty_below(bitmap, (n - 1) as nat);
        let all = dirty_below(bitmap, n);
        assert forall|b: int| 0 <= b < n && #[trigger] page_dirty(bitmap, b) implies all.contains(
            b as u64,
        ) by {
            if b < n - 1 {
                assert(rest.contains(b as u64));
                let i = choose|i: int| 0 <= i < rest.len() && rest[i] == b as u64;
                assert(all[i] == b as u64);
            } else {
                assert(all[rest.len() as int] == b as u64);
            }
        }
    }
}

/// `b` lies in one of the runs.
pub open spec fn in_runs(runs: Seq<(u64, u64)>, b: int) -> bool {
    exists|i: int| 0 <= i < runs.len() && (#[trigger] runs[i]).0 <= b < runs[i].1
}

/// The runs are not empty, come in ascending order, and have a gap between any two.
pub open spec fn runs_apart(runs: Seq<(u64, u64)>) -> bool {
    &&& forall|i: int| 0 <= i < runs.len() ==> (#[trigger] runs[i]).0 < runs[i].1
    &&& forall|i: int, j: int|
        0 <= i < j < runs.len() ==> (#[trigger] runs[i]).1 < (#[trigger] runs[j]).0
}

proof fn lemma_in_runs_first(runs: Seq<(u64, u64)>, b: int)
    requires
        runs.len() > 0,
    ensures
        in_runs(runs, b) == (runs[0].0 <= b < runs[0].1 || in_runs(runs.drop_first(), b)),
{
    let rest = runs.drop_first();
    if in_runs(runs, b) {
        let i = choose|i: int| 0 <= i < runs.len() && (#[trigger] runs[i]).0 <= b < runs[i].1;
        if i > 0 {
            assert(rest[i - 1] == runs[i]);
        }
    }
    if in_runs(rest, b) {
        let i = choose|i: int| 0 <= i < rest.len() && (#[trigger] rest[i]).0 <= b < rest[i].1;
        assert(runs[i + 1] == rest[i]);
    }
}

proof fn lemma_coalesced(previous: (u64, u64), runs: Seq<(u64, u64)>)
    requires
        previous.0 < previous.1,
        forall|i: int| 0 <= i < runs.len() ==> (#[trigger] runs[i]).0 < runs[i].1,
        forall|i: int| 0 <= i < runs.len() ==> previous.1 <= (#[trigger] runs[i]).0,
        forall|i: int, j: int|
            0 <= i < j < runs.len() ==> (#[trigger] runs[i]).1 <= (#[trigger] runs[j]).0,
    ensures
        runs_apart(coalesced(previous, runs)),
        coalesced(previous, runs).len() > 0,
        coalesced(previous, runs)[0].0 == previous.0,
        forall|b: int| #[trigger]
            in_runs(coalesced(previous, runs), b) == (previous.0 <= b < previous.1 || in_runs(
                runs,
                b,
            )),
    decreases runs.len(),
{
    let result = coalesced(previous, runs);
    if runs.len() == 0 {
        assert forall|b: int| #[trigger] in_runs(result, b) == (previous.0 <= b < previous.1
            || in_runs(runs, b)) by {
            assert(result[0] == previous);
        }
    } else {
        let first = runs[0];
        let rest = runs.drop_first();
        assert forall|i: int| 0 <= i < rest.len() implies (#[trigger] rest[i]).0 < rest[i].1
            && first.1 <= rest[i].0 && previous.1 <= rest[i].0 by {
            assert(rest[i] == runs[i + 1]);
        }
        assert forall|i: int, j: int| 0 <= i < j < rest.len() implies (#[trigger] rest[i]).1 <= (
        #[trigger] rest[j]).0 by {
            assert(rest[i] == runs[i + 1]);
            assert(rest[j] == runs[j + 1]);
        }
        assert forall|b: int| #[trigger] in_runs(runs, b) == (first.0 <= b < first.1 || in_runs(
            rest,
            b,
        )) by {
            lemma_in_runs_first(runs, b);
        }
        if previous.1 == first.0 {
            lemma_coalesced((previous.0, first.1), rest);
        } else {
            lemma_coalesced(first, rest);
            let tail = coalesced(first, rest);
            assert(result =~= seq![previous] + tail);
            assert forall|i: int, j: int| 0 <= i < j < result.len() implies (#[trigger] result[i]).1
                < (#[trigger] result[j]).0 by {
                assert(result[j] == tail[j - 1]);
                if i > 0 {
                    assert(result[i] == tail[i - 1]);
                } else if j > 1 {
                    assert(tail[0].1 < tail[j - 1].0);
                }
            }
            assert forall|i: int| 0 <= i < result.len() implies (#[trigger] result[i]).0
                < result[i].1 by {
                if i > 0 {
                    assert(result[i] == tail[i - 1]);
                }
            }
            assert forall|b: int| #[trigger] in_runs(result, b) == (previous.0 <= b < previous.1
                || in_runs(runs, b)) by {
                assert(result.drop_first() =~= tail);
                lemma_in_runs_first(result, b);
                assert(in_runs(tail, b) == (first.0 <= b < first.1 || in_runs(rest, b)));
                assert(in_runs(runs, b) == (first.0 <= b < first.1 || in_runs(rest, b)));
            }
        }
    }
}

/// Each of the dirty pages as a run of its own.
spec fn dirty_pages(bitmap: Seq<u64>) -> Seq<(u64, u64)> {
    dirty_below(bitmap, (bitmap.len() * 64) as nat).map_values(|b: u64| (b, (b + 1) as u64))
}

proof fn lemma_dirty_pages(bitmap: Seq<u64>)
    requires
        bitmap.len() * 64 <= usize::MAX,
    ensures
        forall|i: int|
            0 <= i < dirty_pages(bitmap).len() ==> (#[trigger] dirty_pages(bitmap)[i]).1
                == dirty_pages(bitmap)[i].0 + 1,
        forall|i: int, j: int|
            0 <= i < j < dirty_pages(bitmap).len() ==> (#[trigger] dirty_pages(bitmap)[i]).1 <= (
            #[trigger] dirty_pages(bitmap)[j]).0,
        forall|b: int| #[trigger] page_dirty(bitmap, b) == in_runs(dirty_pages(bitmap), b),
{
    let n = (bitmap.len() * 64) as nat;
    let below = dirty_below(bitmap, n);
    let pages = dirty_pages(bitmap);
    lemma_dirty_below(bitmap, n);
    assert forall|i: int| 0 <= i < pages.len() implies (#[trigger] pages[i]).1 == pages[i].0 + 1
        && pages[i].0 == below[i] by {
        assert(below[i] < n);
    }
    assert forall|i: int, j: int| 0 <= i < j < pages.len() implies (#[trigger] pages[i]).1 <= (
    #[trigger] pages[j]).0 by {
        assert(below[i] < below[j]);
    }
    assert forall|b: int| #[trigger] page_dirty(bitmap, b) == in_runs(pages, b) by {
        if page_dirty(bitmap, b) {
            assert(below.contains(b as u64));
            let i = choose|i: int| 0 <= i < below.len() && below[i] == b as u64;
            assert(pages[i].0 <= b < pages[i].1);
        }
        if in_runs(pages, b) {
            let i = choose|i: int| 0 <= i < pages.len() && (#[trigger] pages[i]).0 <= b < pages[i].1;
            assert(page_dirty(bitmap, below[i] as int));
        }
    }
}

/// A page lies in one of the runs of a bitmap exactly if its bit is set; the runs come in
/// ascending order, and no two of them could be merged.
pub proof fn law_dirty_runs(bitmap: Seq<u64>)
    requires
        bitmap.len() * 64 <= usize::MAX,
    ensures
        runs_apart(dirty_runs(bitmap)),
        forall|b: int| #[trigger] in_runs(dirty_runs(bitmap), b) == page_dirty(bitmap, b),
{
    let pages = dirty_pages(bitmap);
    let runs = dirty_runs(bitmap);
    lemma_dirty_pages(bitmap);
    if pages.len() == 0 {
        assert(runs.len() == 0);
        assert forall|b: int| #[trigger] in_runs(runs, b) == page_dirty(bitmap, b) by {
            assert(page_dirty(bitmap, b) == in_runs(pages, b));
        }
    } else {
        let first = pages[0];
        let rest = pages.drop_first();
        assert(runs == coalesced(first, rest));
        assert forall|i: int| 0 <= i < rest.len() implies (#[trigger] rest[i]).0 < rest[i].1
            && first.1 <= rest[i].0 by {
            assert(rest[i] == pages[i + 1]);
            assert(pages[0].1 <= pages[i + 1].0);
        }
        assert forall|i: int, j: int| 0 <= i < j < rest.len() implies (#[trigger] rest[i]).1 <= (
        #[trigger] rest[j]).0 by {
            assert(rest[i] == pages[i + 1]);
            assert(rest[j] == pages[j + 1]);
            assert(pages[i + 1].1 <= pages[j + 1].0);
        }
        lemma_coalesced(first, rest);
        assert forall|b: int| #[trigger] in_runs(runs, b) == page_dirty(bitmap, b) by {
            assert(page_dirty(bitmap, b) == in_runs(pages, b));
            lemma_in_runs_first(pages, b);
        }
    }
}

/// The bytes of a range in a message: its address and its length.
pub open spec fn range_bytes(range: MemoryRange) -> Seq<u8> {
    le_bytes(range.gpa as nat, 8) + le_bytes(range.length as nat, 8)
}

/// The bytes of ranges in a message.
pub open spec fn ranges_bytes(ranges: Seq<MemoryRange>) -> Seq<u8>
    decreases ranges.len(),
{
    if ranges.len() == 0 {
        Seq::empty()
    } else {
        ranges_bytes(ranges.drop_last()) + range_bytes(ranges.last())
    }
}

/// The range whose bytes start at the position `at`.
pub open spec fn range_at(bytes: Seq<u8>, at: int) -> MemoryRange {
    MemoryRange {
        gpa: le_value(bytes.subrange(at, at + 8)) as u64,
        length: le_value(bytes.subrange(at + 8, at + 16)) as u64,
    }
}

/// The ranges that the first `count` groups of bytes stand for.
pub open spec fn ranges_of(bytes: Seq<u8>, count: nat) -> Seq<MemoryRange> {
    Seq::new(count, |i: int| range_at(bytes, i * RANGE_SIZE))
}

impl MemoryRangeTable {
    /// The number of bytes of the table in a message.
    pub fn length(&self) -> (length: u64)
        requires
            self@.len() * RANGE_SIZE <= usize::MAX,
        ensures
            length == self@.len() * RANGE_SIZE,
    {
        (RANGE_SIZE * self.data.len()) as u64
    }

    /// Reads a table of `length` bytes from the start of a stream.
    pub fn read_from(stream: &[u8], length: u64) -> (result: Result<
        MemoryRangeTable,
        MigratableError,
    >)
        requires
            length <= usize::MAX,
            length % RANGE_SIZE as u64 == 0,
        ensures
            stream@.len() < length ==> (result matches Err(e) && e
                == MigratableError::MigrateSocket(SocketError::UnexpectedEof)),
            stream@.len() >= length ==> (result matches Ok(table) && table@ == ranges_of(
                stream@,
                (length / RANGE_SIZE as u64) as nat,
            )),
    {
        if (stream.len() as u64) < length {
            return Err(MigratableError::MigrateSocket(SocketError::UnexpectedEof));
        }
        let count: usize = length as usize / RANGE_SIZE;
        let mut data: Vec<MemoryRange> = Vec::new();
        let mut i: usize = 0;
        while i < count
            invariant
                i <= count,
                count * RANGE_SIZE == length,
                length <= stream@.len(),
                length <= usize::MAX,
                data@ == ranges_of(stream@, i as nat),
            decreases count - i,
        {
            assert((i + 1) * RANGE_SIZE <= count * RANGE_SIZE);
            let at: usize = i * RANGE_SIZE;
            let gpa: u64 = get_le(stream, at, at + 8);
            let length: u64 = get_le(stream, at + 8, at + 16);
            data.push(MemoryRange { gpa, length });
            i = i + 1;
            assert(data@ =~= ranges_of(stream@, i as nat));
        }
        Ok(MemoryRangeTable { data })
    }

    /// Appends the table to what is sent.
    pub fn write_to(&self, out: &mut Vec<u8>)
        ensures
            final(out)@ == old(out)@ + ranges_bytes(self@),
    {
        let ghost ranges = self.data@;
        let mut i: usize = 0;
        assert(ranges.take(0) =~= Seq::<MemoryRange>::empty());
        assert(out@ + ranges_bytes(ranges.take(0)) =~= out@);
        while i < self.data.len()
            invariant
                i <= self.data@.len(),
                ranges == self.data@,
                out@ == old(out)@ + ranges_bytes(ranges.take(i as int)),
            decreases self.data@.len() - i,
        {
            let range: MemoryRange = self.data[i];
            put_le(out, range.gpa, 8);
            put_le(out, range.length, 8);
            i = i + 1;
            assert(ranges.take(i as int).drop_last() =~= ranges.take(i - 1));
            assert(out@ =~= old(out)@ + ranges_bytes(ranges.take(i as int)));
        }
        assert(ranges.take(i as int) =~= ranges);
    }
}

proof fn lemma_ranges_bytes_len(ranges: Seq<MemoryRange>)
    ensures
        ranges_bytes(ranges).len() == ranges.len() * RANGE_SIZE,
    decreases ranges.len(),
{
    if ranges.len() > 0 {
        lemma_ranges_bytes_len(ranges.drop_last());
        lemma_le_bytes_len(ranges.last().gpa as nat, 8);
        lemma_le_bytes_len(ranges.last().length as nat, 8);
    }
}

/// In a message, each range takes up sixteen bytes: its address in eight bytes, then its length in
/// eight bytes, each with its lowest byte first.
pub proof fn law_table_layout(ranges: Seq<MemoryRange>, i: int)
    requires
        0 <= i < ranges.len(),
    ensures
        ranges_bytes(ranges).len() == 16 * ranges.len(),
        ranges_bytes(ranges).subrange(16 * i, 16 * i + 8) == le_bytes(ranges[i].gpa as nat, 8),
        ranges_bytes(ranges).subrange(16 * i + 8, 16 * i + 16) == le_bytes(
            ranges[i].length as nat,
            8,
        ),
    decreases ranges.len(),
{
    lemma_ranges_bytes_len(ranges);
    let front = ranges.drop_last();
    let all = ranges_bytes(ranges);
    lemma_ranges_bytes_len(front);
    lemma_le_bytes_len(ranges.last().gpa as nat, 8);
    lemma_le_bytes_len(ranges.last().length as nat, 8);
    if i < front.len() {
        law_table_layout(front, i);
        assert(all.subrange(16 * i, 16 * i + 8) =~= ranges_bytes(front).subrange(
            16 * i,
            16 * i + 8,
        ));
        assert(all.subrange(16 * i + 8, 16 * i + 16) =~= ranges_bytes(front).subrange(
            16 * i + 8,
            16 * i + 16,
        ));
    } else {
        assert(all.subrange(16 * i, 16 * i + 8) =~= le_bytes(ranges[i].gpa as nat, 8));
        assert(all.subrange(16 * i + 8, 16 * i + 16) =~= le_bytes(ranges[i].length as nat, 8));
    }
}

/// A byte of guest memory lies in one of the ranges of a dirty bitmap exactly if the bit of its
/// page is set.
pub proof fn law_dirty_bytes_are_covered(
    bitmap: Seq<u64>,
    start_addr: u64,
    page_size: u64,
    page: int,
    offset: int,
)
    requires
        bitmap.len() * 64 <= usize::MAX,
        runs_fit(dirty_runs(bitmap), start_addr, page_size),
        0 <= page,
        0 <= offset < page_size,
    ensures
        ({
            let ranges = dirty_runs(bitmap).map_values(
                |run: (u64, u64)| run_range(run, start_addr, page_size),
            );
            (exists|i: int|
                0 <= i < ranges.len() && (#[trigger] ranges[i]).covers(
                    start_addr + page * page_size + offset,
                )) <==> page < bitmap.len() * 64 && bit64(bitmap[page / 64], (page % 64) as u64)
        }),
{
    let runs = dirty_runs(bitmap);
    let ranges = runs.map_values(|run: (u64, u64)| run_range(run, start_addr, page_size));
    let address = start_addr + page * page_size + offset;
    law_dirty_runs(bitmap);
    assert forall|i: int| 0 <= i < ranges.len() implies ((#[trigger] ranges[i]).covers(address)
        <==> runs[i].0 <= page < runs[i].1) by {
        let run = runs[i];
        assert(run.0 < run.1);
        assert(ranges[i] == run_range(run, start_addr, page_size));
        assert(0 <= run.0 * page_size) by (nonlinear_arith)
            requires
                run.0 >= 0,
                page_size >= 0,
        ;
        assert(run.0 * page_size + (run.1 - run.0) * page_size == run.1 * page_size)
            by (nonlinear_arith);
        if run.0 <= page < run.1 {
            assert(run.0 * page_size <= page * page_size && (page + 1) * page_size <= run.1
                * page_size) by (nonlinear_arith)
                requires
                    run.0 <= page < run.1,
                    page_size >= 0,
            ;
            assert((page + 1) * page_size == page * page_size + page_size) by (nonlinear_arith);
        } else if page < run.0 {
            assert((page + 1) * page_size <= run.0 * page_size) by (nonlinear_arith)
                requires
                    page + 1 <= run.0,
                    page_size >= 0,
            ;
            assert((page + 1) * page_size == page * page_size + page_size) by (nonlinear_arith);
        } else {
            assert(run.1 * page_size <= page * page_size) by (nonlinear_arith)
                requires
                    run.1 <= page,
                    page_size >= 0,
            ;
        }
    }
    assert(in_runs(runs, page) == page_dirty(bitmap, page));
    if in_runs(runs, page) {
        let i = choose|i: int| 0 <= i < runs.len() && (#[trigger] runs[i]).0 <= page < runs[i].1;
        assert(ranges[i].covers(address));
    }
    if exists|i: int| 0 <= i < ranges.len() && (#[trigger] ranges[i]).covers(address) {
        let i = choose|i: int| 0 <= i < ranges.len() && (#[trigger] ranges[i]).covers(address);
        assert(runs[i].0 <= page < runs[i].1);
    }
}

/// What is read of a written table is that table, whatever follows it in the stream.
pub proof fn law_table_round_trip(ranges: Seq<MemoryRange>, rest: Seq<u8>)
    ensures
        ranges_bytes(ranges).len() == ranges.len() * RANGE_SIZE,
        ranges_of(ranges_bytes(ranges) + rest, ranges.len()) == ranges,
    decreases ranges.len(),
{
    lemma_ranges_bytes_len(ranges);
    if ranges.len() == 0 {
        assert(ranges_of(ranges_bytes(ranges) + rest, 0) =~= ranges);
    } else {
        let front = ranges.drop_last();
        let last = ranges.last();
        let tail = range_bytes(last) + rest;
        let all = ranges_bytes(ranges) + rest;
        law_table_round_trip(front, tail);
        assert(all =~= ranges_bytes(front) + tail);
        lemma_le_bytes_len(last.gpa as nat, 8);
        lemma_le_bytes_len(last.length as nat, 8);
        lemma_pow256();
        lemma_le_value_of_bytes(last.gpa as nat, 8);
        lemma_le_value_of_bytes(last.length as nat, 8);
        let at = front.len() * RANGE_SIZE;
        assert(all.subrange(at as int, at + 8) =~= le_bytes(last.gpa as nat, 8));
        assert(all.subrange(at + 8, at + 16) =~= le_bytes(last.length as nat, 8));
        assert forall|i: int| 0 <= i < ranges.len() implies #[trigger] range_at(
            all,
            i * RANGE_SIZE,
        ) == ranges[i] by {
            if i < front.len() {
                assert(ranges_of(all, front.len())[i] == front[i]);
            }
        }
        assert(ranges_of(all, ranges.len()) =~= ranges);
    }
}

} // verus!
