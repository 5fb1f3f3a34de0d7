//! Removing zero-filled pages from a table of guest memory ranges.

use vm_memory::bitmap::AtomicBitmap;
use vm_memory::GuestMemoryMmap;
use vstd::prelude::*;

use crate::guest_memory::{access_error, accessible, guest_regions, in_region, read_guest,
    region_contains, GuestMemoryError};
use crate::memory_range::{MemoryRange, MemoryRangeTable};

verus! {

/// Number of bytes of a page.
pub const PAGE_SIZE: u64 = 4096;

/// Whether two pieces of memory hold the same bytes.
pub fn bytes_equal(a: &[u8], b: &[u8]) -> (equal: bool)
    ensures
        equal == (a@ == b@),
{
    if a.len() != b.len() {
        return false;
    }
    let mut i: usize = 0;
    while i < a.len()
        invariant
            a@.len() == b@.len(),
            i <= a@.len(),
            forall|k: int| 0 <= k < i ==> a@[k] == b@[k],
        decreases a@.len() - i,
    {
        if a[i] != b[i] {
            return false;
        }
        i = i + 1;
    }
    assert(a@ =~= b@);
    true
}

/// The bytes are all zero.
pub open spec fn all_zero(bytes: Seq<u8>) -> bool {
    forall|i: int| 0 <= i < bytes.len() ==> bytes[i] == 0
}

/// Whether bytes are all zero.
pub fn is_all_zero(bytes: &[u8]) -> (zero: bool)
    ensures
        zero == all_zero(bytes@),
{
    let mut i: usize = 0;
    while i < bytes.len()
        invariant
            i <= bytes@.len(),
            forall|k: int| 0 <= k < i ==> bytes@[k] == 0,
        decreases bytes@.len() - i,
    {
        if bytes[i] != 0 {
            return false;
        }
        i = i + 1;
    }
    true
}

/// Checks whether a guest memory region is equal to the provided `comparison_memory`.
///
/// The bytes that are read are compared by [`bytes_equal`]. What they are is up to the guest,
/// which may write to them at any time. Potential data races between the guest writing to
/// memory and the check whether a page is all zero are handled by the page dirty logging.
pub fn guest_memory_is_equal(
    guest_memory_start: u64,
    comparison_memory: &[u8],
    guest_memory: &GuestMemoryMmap<AtomicBitmap>,
) -> (result: Result<bool, GuestMemoryError>)
    ensures
        result is Ok <==> accessible(
            guest_regions(*guest_memory),
            guest_memory_start,
            comparison_memory@.len() as int,
        ),
        result matches Err(e) ==> e == access_error(
            guest_regions(*guest_memory),
            guest_memory_start,
        ),
        result matches Ok(equal) ==> exists|bytes: Seq<u8>| #[trigger]
            bytes.len() == comparison_memory@.len() && equal == (bytes == comparison_memory@),
{
    match read_guest(guest_memory, guest_memory_start, comparison_memory.len()) {
        Ok(bytes) => {
            let equal: bool = bytes_equal(bytes.as_slice(), comparison_memory);
            assert(bytes@.len() == comparison_memory@.len());
            Ok(equal)
        },
        Err(e) => Err(e),
    }
}

/// Amount of bytes by which an address undershoots a page boundary.
pub open spec fn undershoot(gpa: u64) -> int {
    if gpa % PAGE_SIZE == 0 {
        0
    } else {
        PAGE_SIZE - gpa % PAGE_SIZE
    }
}

/// The range reaches the first page boundary, and its end fits in 64 bits.
pub open spec fn range_splits(range: MemoryRange) -> bool {
    range.length >= undershoot(range.gpa) && range.gpa + range.length <= u64::MAX
}

/// The first page boundary at or behind the start of a range.
pub open spec fn first_boundary(range: MemoryRange) -> int {
    range.gpa + undershoot(range.gpa)
}

/// Amount of bytes by which the end of a range overshoots a page boundary.
pub open spec fn overshoot(range: MemoryRange) -> int {
    (range.length - undershoot(range.gpa)) % (PAGE_SIZE as int)
}

/// The last page boundary at or before the end of a range.
pub open spec fn last_boundary(range: MemoryRange) -> int {
    range.gpa + range.length - overshoot(range)
}

/// The number of whole pages of a range.
pub open spec fn whole_pages(range: MemoryRange) -> int {
    (last_boundary(range) - first_boundary(range)) / (PAGE_SIZE as int)
}

/// The part of a range before the first page boundary.
pub open spec fn head_piece(range: MemoryRange) -> Seq<MemoryRange> {
    if undershoot(range.gpa) != 0 {
        seq![MemoryRange { gpa: range.gpa, length: undershoot(range.gpa) as u64 }]
    } else {
        seq![]
    }
}

/// The first `count` whole pages of a range.
pub open spec fn page_pieces(range: MemoryRange, count: nat) -> Seq<MemoryRange> {
    Seq::new(
        count,
        |i: int|
            MemoryRange {
                gpa: (first_boundary(range) + i * PAGE_SIZE) as u64,
                length: PAGE_SIZE,
            },
    )
}

/// The part of a range behind the last page boundary.
pub open spec fn tail_piece(range: MemoryRange) -> Seq<MemoryRange> {
    if overshoot(range) != 0 {
        seq![MemoryRange { gpa: last_boundary(range) as u64, length: overshoot(range) as u64 }]
    } else {
        seq![]
    }
}

/// A range, cut at each page boundary.
pub open spec fn pieces(range: MemoryRange) -> Seq<MemoryRange> {
    head_piece(range) + page_pieces(range, whole_pages(range) as nat) + tail_piece(range)
}

/// What is kept once another piece has been looked at: one that is zero is removed, and one that
/// directly follows the last one is merged with it.
pub open spec fn kept_step(before: Seq<MemoryRange>, piece: MemoryRange, zero: bool) -> Seq<
    MemoryRange,
> {
    if zero {
        before
    } else if before.len() > 0 && before.last().gpa + before.last().length == piece.gpa {
        before.drop_last().push(
            MemoryRange {
                gpa: before.last().gpa,
                length: (before.last().length + piece.length) as u64,
            },
        )
    } else {
        before.push(piece)
    }
}

/// What is left of pieces once those that are zero have been removed, with pieces that
/// follow each other directly merged.
pub open spec fn kept(pieces: Seq<MemoryRange>, zero: Seq<bool>) -> Seq<MemoryRange>
    decreases pieces.len(),
{
    if pieces.len() == 0 {
        Seq::empty()
    } else {
        kept_step(kept(pieces.drop_last(), zero.drop_last()), pieces.last(), zero.last())
    }
}

/// What is left of all ranges once the pieces that are zero have been removed.
pub open spec fn kept_all(ranges: Seq<MemoryRange>, zero: Seq<Seq<bool>>) -> Seq<MemoryRange>
    decreases ranges.len(),
{
    if ranges.len() == 0 {
        Seq::empty()
    } else {
        kept_all(ranges.drop_last(), zero.drop_last()) + kept(pieces(ranges.last()), zero.last())
    }
}

/// For each piece, whether its contents are all zero.
pub open spec fn zero_pieces(contents: Seq<Seq<u8>>) -> Seq<bool> {
    contents.map_values(|content: Seq<u8>| all_zero(content))
}

/// For each piece of each range, whether its contents are all zero.
pub open spec fn zero_flags(contents: Seq<Seq<Seq<u8>>>) -> Seq<Seq<bool>> {
    contents.map_values(|pieces: Seq<Seq<u8>>| zero_pieces(pieces))
}

/// There are as many bytes for each piece as it is long.
pub open spec fn pieces_fit(pieces: Seq<MemoryRange>, contents: Seq<Seq<u8>>) -> bool {
    &&& contents.len() == pieces.len()
    &&& forall|j: int|
        0 <= j < pieces.len() ==> (#[trigger] contents[j]).len() == pieces[j].length
}

/// There are as many bytes for each piece of each range as it is long.
pub open spec fn contents_fit(ranges: Seq<MemoryRange>, contents: Seq<Seq<Seq<u8>>>) -> bool {
    &&& contents.len() == ranges.len()
    &&& forall|i: int|
        0 <= i < ranges.len() ==> pieces_fit(pieces(ranges[i]), #[trigger] contents[i])
}

/// Piece `j` of range `i` lies in a single region.
pub open spec fn piece_accessible(
    regions: Map<u64, u64>,
    ranges: Seq<MemoryRange>,
    i: int,
    j: int,
) -> bool {
    accessible(regions, pieces(ranges[i])[j].gpa, pieces(ranges[i])[j].length as int)
}

/// All pieces of all ranges lie in a single region each.
pub open spec fn all_accessible(regions: Map<u64, u64>, ranges: Seq<MemoryRange>) -> bool {
    forall|i: int, j: int|
        0 <= i < ranges.len() && 0 <= j < pieces(ranges[i]).len() ==> #[trigger] piece_accessible(
            regions,
            ranges,
            i,
            j,
        )
}

/// Piece `j` of range `i` is the first one that does not lie in a single region.
pub open spec fn first_inaccessible(
    regions: Map<u64, u64>,
    ranges: Seq<MemoryRange>,
    i: int,
    j: int,
) -> bool {
    &&& 0 <= i < ranges.len()
    &&& 0 <= j < pieces(ranges[i]).len()
    &&& !piece_accessible(regions, ranges, i, j)
    &&& forall|k: int, l: int|
        0 <= k <= i && 0 <= l < pieces(ranges[k]).len() && (k < i || l < j)
            ==> #[trigger] piece_accessible(regions, ranges, k, l)
}

/// The pieces lie one behind the other, starting at `from` and ending at `to`.
pub open spec fn contiguous(pieces: Seq<MemoryRange>, from: int, to: int) -> bool
    decreases pieces.len(),
{
    if pieces.len() == 0 {
        from == to
    } else {
        &&& pieces.last().gpa + pieces.last().length == to
        &&& contiguous(pieces.drop_last(), from, pieces.last().gpa as int)
    }
}

proof fn lemma_contiguous_push(s: Seq<MemoryRange>, from: int, to: int, piece: MemoryRange)
    requires
        contiguous(s, from, to),
        piece.gpa == to,
    ensures
        contiguous(s.push(piece), from, to + piece.length),
{
    assert(s.push(piece).drop_last() =~= s);
}

proof fn lemma_pages_contiguous(range: MemoryRange, front: Seq<MemoryRange>, count: nat)
    requires
        range_splits(range),
        contiguous(front, range.gpa as int, first_boundary(range)),
        count <= whole_pages(range),
    ensures
        contiguous(
            front + page_pieces(range, count),
            range.gpa as int,
            first_boundary(range) + count * PAGE_SIZE,
        ),
    decreases count,
{
    if count == 0 {
        assert(front + page_pieces(range, 0) =~= front);
    } else {
        let less = (count - 1) as nat;
        lemma_pages_contiguous(range, front, less);
        let page = page_pieces(range, count)[less as int];
        assert(front + page_pieces(range, count) =~= (front + page_pieces(range, less)).push(page));
        lemma_contiguous_push(
            front + page_pieces(range, less),
            range.gpa as int,
            first_boundary(range) + less * PAGE_SIZE,
            page,
        );
    }
}

/// The pieces of a range lie one behind the other and make up the range; none is empty, and
/// none is larger than a page.
pub proof fn law_pieces_make_up_range(range: MemoryRange)
    requires
        range_splits(range),
    ensures
        contiguous(pieces(range), range.gpa as int, range.gpa + range.length),
        forall|i: int|
            0 <= i < pieces(range).len() ==> 0 < (#[trigger] pieces(range)[i]).length <= PAGE_SIZE,
{
    let head = head_piece(range);
    let nothing = Seq::<MemoryRange>::empty();
    assert(contiguous(nothing, range.gpa as int, range.gpa as int));
    if undershoot(range.gpa) != 0 {
        assert(head =~= nothing.push(head[0]));
        lemma_contiguous_push(nothing, range.gpa as int, range.gpa as int, head[0]);
    } else {
        assert(head =~= nothing);
    }
    let count = whole_pages(range) as nat;
    lemma_pages_contiguous(range, head, count);
    assert(first_boundary(range) + count * PAGE_SIZE == last_boundary(range));
    let front = head + page_pieces(range, count);
    let tail = tail_piece(range);
    if overshoot(range) != 0 {
        assert(pieces(range) =~= front.push(tail[0]));
        lemma_contiguous_push(front, range.gpa as int, last_boundary(range), tail[0]);
    } else {
        assert(pieces(range) =~= front);
    }
}

proof fn lemma_kept_ends(s: Seq<MemoryRange>, zero: Seq<bool>, from: int, to: int)
    requires
        zero.len() == s.len(),
        contiguous(s, from, to),
        0 <= from,
        to <= u64::MAX,
    ensures
        from <= to,
        forall|i: int|
            0 <= i < kept(s, zero).len() ==> from <= (#[trigger] kept(s, zero)[i]).gpa && kept(
                s,
                zero,
            )[i].gpa + kept(s, zero)[i].length <= to,
    decreases s.len(),
{
    if s.len() > 0 {
        lemma_kept_ends(s.drop_last(), zero.drop_last(), from, s.last().gpa as int);
        let before = kept(s.drop_last(), zero.drop_last());
        let after = kept(s, zero);
        assert forall|i: int| 0 <= i < after.len() implies from <= (#[trigger] after[i]).gpa
            && after[i].gpa + after[i].length <= to by {
            if i < before.len() - 1 {
                assert(after[i] == before[i]);
            } else if i < before.len() {
                assert(from <= before[i].gpa);
            }
        }
    }
}

/// An address lies in one of the ranges.
pub open spec fn covered(ranges: Seq<MemoryRange>, address: int) -> bool {
    exists|i: int| 0 <= i < ranges.len() && (#[trigger] ranges[i]).covers(address)
}

/// An address lies in one of the pieces that are not zero.
pub open spec fn in_nonzero_piece(s: Seq<MemoryRange>, zero: Seq<bool>, address: int) -> bool {
    exists|i: int| 0 <= i < s.len() && !zero[i] && (#[trigger] s[i]).covers(address)
}

/// A byte is kept exactly if it lies in a piece that is not zero.
pub proof fn law_kept_is_nonzero(
    s: Seq<MemoryRange>,
    zero: Seq<bool>,
    from: int,
    to: int,
    address: int,
)
    requires
        zero.len() == s.len(),
        contiguous(s, from, to),
        0 <= from,
        to <= u64::MAX,
    ensures
        covered(kept(s, zero), address) == in_nonzero_piece(s, zero, address),
    decreases s.len(),
{
    if s.len() > 0 {
        let front = s.drop_last();
        let flags = zero.drop_last();
        let piece = s.last();
        let n = front.len() as int;
        law_kept_is_nonzero(front, flags, from, piece.gpa as int, address);
        lemma_kept_ends(front, flags, from, piece.gpa as int);
        let before = kept(front, flags);
        let after = kept(s, zero);
        assert(in_nonzero_piece(s, zero, address) == (in_nonzero_piece(front, flags, address) || (
        !zero.last() && piece.covers(address)))) by {
            if in_nonzero_piece(front, flags, address) {
                let i = choose|i: int|
                    0 <= i < front.len() && !flags[i] && (#[trigger] front[i]).covers(address);
                assert(s[i] == front[i] && zero[i] == flags[i]);
            }
            if in_nonzero_piece(s, zero, address) {
                let i = choose|i: int|
                    0 <= i < s.len() && !zero[i] && (#[trigger] s[i]).covers(address);
                if i < n {
                    assert(front[i] == s[i] && flags[i] == zero[i]);
                }
            }
            if !zero.last() && piece.covers(address) {
                assert(s[n] == piece && zero[n] == zero.last());
            }
        }
        if !zero.last() {
            assert(covered(after, address) == (covered(before, address) || piece.covers(address)))
                by {
                if covered(before, address) {
                    let i = choose|i: int|
                        0 <= i < before.len() && (#[trigger] before[i]).covers(address);
                    if i < after.len() - 1 {
                        assert(after[i] == before[i]);
                    } else {
                        assert(after[i].covers(address));
                    }
                }
                if piece.covers(address) {
                    assert(after[after.len() - 1].covers(address));
                }
                if covered(after, address) {
                    let i = choose|i: int|
                        0 <= i < after.len() && (#[trigger] after[i]).covers(address);
                    if i < after.len() - 1 {
                        assert(before[i] == after[i]);
                    } else if before.len() == after.len() {
                        if !piece.covers(address) {
                            assert(before[i].covers(address));
                        }
                    }
                }
            }
        }
    }
}

/// A range is cut at multiples of 4096 and nowhere else: only the first piece may start elsewhere,
/// only the last piece may end elsewhere, and no piece reaches over a page boundary.
pub proof fn law_pieces_lie_in_one_page(range: MemoryRange, i: int)
    requires
        range_splits(range),
        0 <= i < pieces(range).len(),
    ensures
        ({
            let piece = pieces(range)[i];
            &&& i > 0 ==> piece.gpa % 4096 == 0
            &&& i < pieces(range).len() - 1 ==> (piece.gpa + piece.length) % 4096 == 0
            &&& piece.gpa / 4096 == (piece.gpa + piece.length - 1) / 4096
        }),
{
    let head = head_piece(range);
    let count = whole_pages(range);
    let first = first_boundary(range);
    assert(first % 4096 == 0);
    assert(last_boundary(range) % 4096 == 0);
    assert(count >= 0);
    let piece = pieces(range)[i];
    if i < head.len() {
        assert(piece == head[0]);
    } else if i < head.len() + count {
        let page = i - head.len();
        assert(piece == page_pieces(range, count as nat)[page]);
        assert(first + page * 4096 <= last_boundary(range));
        assert(piece.gpa == first + page * 4096);
    } else {
        assert(piece == tail_piece(range)[0]);
    }
}

/// What is kept is merged as far as possible: the ranges are in order, and between two of them at
/// least one byte was removed.
pub proof fn law_kept_is_merged(
    s: Seq<MemoryRange>,
    zero: Seq<bool>,
    from: int,
    to: int,
    i: int,
)
    requires
        zero.len() == s.len(),
        contiguous(s, from, to),
        0 <= from,
        to <= u64::MAX,
        0 <= i < kept(s, zero).len() - 1,
    ensures
        kept(s, zero)[i].gpa + kept(s, zero)[i].length < kept(s, zero)[i + 1].gpa,
    decreases s.len(),
{
    if s.len() > 0 {
        let front = s.drop_last();
        let flags = zero.drop_last();
        let before = kept(front, flags);
        let after = kept(s, zero);
        lemma_kept_ends(front, flags, from, s.last().gpa as int);
        if i < before.len() - 1 {
            law_kept_is_merged(front, flags, from, s.last().gpa as int, i);
            assert(after[i] == before[i]);
            assert(after[i + 1].gpa == before[i + 1].gpa);
        } else {
            assert(after == before.push(s.last()));
            assert(before[i].gpa + before[i].length <= s.last().gpa);
        }
    }
}

proof fn lemma_kept_all(ranges: Seq<MemoryRange>, zero: Seq<Seq<bool>>, address: int)
    requires
        forall|i: int| 0 <= i < ranges.len() ==> range_splits(#[trigger] ranges[i]),
        zero.len() == ranges.len(),
        forall|i: int|
            0 <= i < ranges.len() ==> (#[trigger] zero[i]).len() == pieces(ranges[i]).len(),
    ensures
        covered(kept_all(ranges, zero), address) <==> exists|i: int|
            0 <= i < ranges.len() && in_nonzero_piece(
                pieces(ranges[i]),
                #[trigger] zero[i],
                address,
            ),
    decreases ranges.len(),
{
    if ranges.len() > 0 {
        let front = ranges.drop_last();
        let flags = zero.drop_last();
        let range = ranges.last();
        let n = front.len() as int;
        assert(range_splits(ranges[n]));
        assert forall|i: int| 0 <= i < front.len() implies range_splits(#[trigger] front[i]) by {
            assert(front[i] == ranges[i]);
        }
        assert forall|i: int| 0 <= i < front.len() implies (#[trigger] flags[i]).len() == pieces(
            front[i],
        ).len() by {
            assert(flags[i] == zero[i]);
        }
        lemma_kept_all(front, flags, address);
        law_pieces_make_up_range(range);
        assert(zero[n].len() == pieces(ranges[n]).len());
        law_kept_is_nonzero(
            pieces(range),
            zero.last(),
            range.gpa as int,
            range.gpa + range.length,
            address,
        );
        let before = kept_all(front, flags);
        let added = kept(pieces(range), zero.last());
        let after = kept_all(ranges, zero);
        assert(after == before + added);
        if covered(before, address) {
            let i = choose|i: int| 0 <= i < before.len() && (#[trigger] before[i]).covers(address);
            assert(after[i] == before[i]);
            let k = choose|k: int|
                0 <= k < front.len() && in_nonzero_piece(
                    pieces(front[k]),
                    #[trigger] flags[k],
                    address,
                );
            assert(zero[k] == flags[k] && ranges[k] == front[k]);
        }
        if covered(added, address) {
            let i = choose|i: int| 0 <= i < added.len() && (#[trigger] added[i]).covers(address);
            assert(after[before.len() + i] == added[i]);
            assert(zero[n] == zero.last() && ranges[n] == range);
        }
        if covered(after, address) {
            let i = choose|i: int| 0 <= i < after.len() && (#[trigger] after[i]).covers(address);
            if i < before.len() {
                assert(before[i] == after[i]);
            } else {
                assert(added[i - before.len()] == after[i]);
            }
        }
        if exists|i: int|
            0 <= i < ranges.len() && in_nonzero_piece(
                pieces(ranges[i]),
                #[trigger] zero[i],
                address,
            ) {
            let i = choose|i: int|
                0 <= i < ranges.len() && in_nonzero_piece(
                    pieces(ranges[i]),
                    #[trigger] zero[i],
                    address,
                );
            if i < n {
                assert(flags[i] == zero[i] && front[i] == ranges[i]);
            } else {
                assert(zero[i] == zero.last() && ranges[i] == range);
            }
        }
    }
}

/// An address lies in piece `j` of range `i`, which holds a byte that is not zero.
pub open spec fn in_nonzero_contents(
    ranges: Seq<MemoryRange>,
    contents: Seq<Seq<Seq<u8>>>,
    i: int,
    j: int,
    address: int,
) -> bool {
    &&& 0 <= i < ranges.len()
    &&& 0 <= j < pieces(ranges[i]).len()
    &&& pieces(ranges[i])[j].covers(address)
    &&& exists|k: int| 0 <= k < contents[i][j].len() && #[trigger] contents[i][j][k] != 0
}

/// An address of a table is kept exactly if a byte of its piece is not zero: nothing but zeroes is
/// removed, and no page of zeroes is kept.
pub proof fn law_table_keeps_nonzero_pages(
    ranges: Seq<MemoryRange>,
    contents: Seq<Seq<Seq<u8>>>,
    address: int,
)
    requires
        forall|i: int| 0 <= i < ranges.len() ==> range_splits(#[trigger] ranges[i]),
        contents_fit(ranges, contents),
    ensures
        covered(kept_all(ranges, zero_flags(contents)), address) <==> exists|i: int, j: int|
            in_nonzero_contents(ranges, contents, i, j, address),
{
    let zero = zero_flags(contents);
    assert forall|i: int| 0 <= i < ranges.len() implies (#[trigger] zero[i]).len() == pieces(
        ranges[i],
    ).len() by {
        assert(pieces_fit(pieces(ranges[i]), contents[i]));
        assert(zero[i] == zero_pieces(contents[i]));
    }
    lemma_kept_all(ranges, zero, address);
    if exists|i: int|
        0 <= i < ranges.len() && in_nonzero_piece(pieces(ranges[i]), #[trigger] zero[i], address) {
        let i = choose|i: int|
            0 <= i < ranges.len() && in_nonzero_piece(
                pieces(ranges[i]),
                #[trigger] zero[i],
                address,
            );
        let s = pieces(ranges[i]);
        assert(pieces_fit(s, contents[i]));
        let j = choose|j: int| 0 <= j < s.len() && !zero[i][j] && (#[trigger] s[j]).covers(address);
        assert(zero[i][j] == all_zero(contents[i][j]));
        assert(in_nonzero_contents(ranges, contents, i, j, address));
    }
    if exists|i: int, j: int| in_nonzero_contents(ranges, contents, i, j, address) {
        let (i, j) = choose|i: int, j: int| in_nonzero_contents(ranges, contents, i, j, address);
        assert(pieces_fit(pieces(ranges[i]), contents[i]));
        assert(zero[i][j] == all_zero(contents[i][j]));
        assert(pieces(ranges[i])[j].covers(address));
        assert(in_nonzero_piece(pieces(ranges[i]), zero[i], address));
    }
}

/// A range without any zero piece is kept as it is.
pub proof fn law_nonzero_range_is_kept(range: MemoryRange, zero: Seq<bool>)
    requires
        range_splits(range),
        range.length > 0,
        zero.len() == pieces(range).len(),
        forall|i: int| 0 <= i < zero.len() ==> !(#[trigger] zero[i]),
    ensures
        kept(pieces(range), zero) == seq![range],
{
    law_pieces_make_up_range(range);
    lemma_all_kept(pieces(range), zero, range.gpa as int, range.gpa + range.length);
}

proof fn lemma_all_kept(s: Seq<MemoryRange>, zero: Seq<bool>, from: int, to: int)
    requires
        zero.len() == s.len(),
        contiguous(s, from, to),
        0 <= from,
        from < to <= u64::MAX,
        forall|i: int| 0 <= i < s.len() ==> 0 < (#[trigger] s[i]).length,
        forall|i: int| 0 <= i < zero.len() ==> !(#[trigger] zero[i]),
    ensures
        kept(s, zero) == seq![MemoryRange { gpa: from as u64, length: (to - from) as u64 }],
    decreases s.len(),
{
    let front = s.drop_last();
    let flags = zero.drop_last();
    let piece = s.last();
    assert forall|i: int| 0 <= i < front.len() implies 0 < (#[trigger] front[i]).length by {
        assert(front[i] == s[i]);
    }
    assert forall|i: int| 0 <= i < flags.len() implies !(#[trigger] flags[i]) by {
        assert(flags[i] == zero[i]);
    }
    assert(!zero[zero.len() - 1]);
    let whole = MemoryRange { gpa: from as u64, length: (to - from) as u64 };
    if front.len() == 0 {
        assert(contiguous(front, from, piece.gpa as int));
        assert(piece == whole);
        assert(kept(front, flags) =~= Seq::<MemoryRange>::empty());
        assert(kept(s, zero) =~= seq![whole]);
    } else {
        lemma_kept_ends(front, flags, from, piece.gpa as int);
        lemma_contiguous_grows(front, from, piece.gpa as int);
        lemma_all_kept(front, flags, from, piece.gpa as int);
        let before = kept(front, flags);
        assert(before.last() == MemoryRange {
            gpa: from as u64,
            length: (piece.gpa - from) as u64,
        });
        assert(before.drop_last() =~= Seq::<MemoryRange>::empty());
        assert(before.last().gpa + before.last().length == piece.gpa);
        assert(!zero.last());
        assert(kept(s, zero) == before.drop_last().push(whole));
        assert(kept(s, zero) =~= seq![whole]);
    }
}

proof fn lemma_contiguous_grows(s: Seq<MemoryRange>, from: int, to: int)
    requires
        contiguous(s, from, to),
        forall|i: int| 0 <= i < s.len() ==> 0 < (#[trigger] s[i]).length,
    ensures
        s.len() > 0 ==> from < to,
        from <= to,
    decreases s.len(),
{
    if s.len() > 0 {
        let front = s.drop_last();
        assert forall|i: int| 0 <= i < front.len() implies 0 < (#[trigger] front[i]).length by {
            assert(front[i] == s[i]);
        }
        assert(0 < s[s.len() - 1].length);
        lemma_contiguous_grows(front, from, s.last().gpa as int);
    }
}

/// Cuts a range at each page boundary.
pub fn cut_at_pages(range: &MemoryRange) -> (result: Vec<MemoryRange>)
    requires
        range_splits(*range),
    ensures
        result@ == pieces(*range),
{
    let mut result: Vec<MemoryRange> = Vec::new();
    // Amount of bytes by which the gpa overshoots the page boundary.
    let offset: u64 = range.gpa % PAGE_SIZE;
    // Amount of bytes by which the gpa undershoots the page boundary.
    let gpa_page_undershoot: u64 = if offset > 0 {
        PAGE_SIZE - offset
    } else {
        0
    };
    // Amount of bytes by which the length overshoots the page boundary.
    let length_page_overshoot: u64 = (range.length - gpa_page_undershoot) % PAGE_SIZE;
    let first_page_boundary: u64 = range.gpa + gpa_page_undershoot;
    let last_page_boundary: u64 = range.gpa + range.length - length_page_overshoot;
    let page_amount: u64 = (last_page_boundary - first_page_boundary) / PAGE_SIZE;
    let ghost head = head_piece(*range);
    if gpa_page_undershoot != 0 {
        result.push(MemoryRange { gpa: range.gpa, length: gpa_page_undershoot });
    }
    assert(result@ =~= head + page_pieces(*range, 0));
    let mut page_index: u64 = 0;
    while page_index < page_amount
        invariant
            page_index <= page_amount,
            range_splits(*range),
            first_page_boundary == first_boundary(*range),
            last_page_boundary == last_boundary(*range),
            page_amount == whole_pages(*range),
            first_page_boundary + page_amount * PAGE_SIZE <= last_page_boundary,
            head == head_piece(*range),
            result@ == head + page_pieces(*range, page_index as nat),
        decreases page_amount - page_index,
    {
        assert(page_index * PAGE_SIZE <= page_amount * PAGE_SIZE);
        result.push(
            MemoryRange { gpa: page_index * PAGE_SIZE + first_page_boundary, length: PAGE_SIZE },
        );
        page_index = page_index + 1;
        assert(result@ =~= head + page_pieces(*range, page_index as nat));
    }
    if length_page_overshoot != 0 {
        result.push(MemoryRange { gpa: last_page_boundary, length: length_page_overshoot });
    }
    assert(result@ =~= pieces(*range));
    result
}

/// Looks at another piece, given its contents: if it holds only zeroes, it is removed, and else
/// it is kept, merged with the last piece that was kept if it directly follows that one.
pub fn keep_nonzero(result: &mut Vec<MemoryRange>, piece: MemoryRange, content: &[u8])
    requires
        old(result)@.len() > 0 ==> old(result)@.last().gpa + old(result)@.last().length
            <= piece.gpa,
        piece.gpa + piece.length <= u64::MAX,
    ensures
        final(result)@ == kept_step(old(result)@, piece, all_zero(content@)),
{
    if is_all_zero(content) {
        return;
    }
    let ghost before = result@;
    let joined: MemoryRange = match result.pop() {
        None => piece,
        Some(last) => {
            assert(before.last() == last);
            if last.gpa + last.length == piece.gpa {
                MemoryRange { gpa: last.gpa, length: last.length + piece.length }
            } else {
                result.push(last);
                assert(result@ =~= before);
                piece
            }
        },
    };
    result.push(joined);
}

proof fn lemma_contiguous_prefix(s: Seq<MemoryRange>, from: int, to: int, n: int)
    requires
        contiguous(s, from, to),
        0 < n <= s.len(),
    ensures
        s[n - 1].gpa + s[n - 1].length <= to,
        contiguous(s.take(n - 1), from, s[n - 1].gpa as int),
    decreases s.len(),
{
    if n == s.len() {
        assert(s.take(n - 1) =~= s.drop_last());
    } else {
        let front = s.drop_last();
        lemma_contiguous_prefix(front, from, s.last().gpa as int, n);
        assert(front.take(n - 1) =~= s.take(n - 1));
        assert(front[n - 1] == s[n - 1]);
    }
}

impl MemoryRangeTable {
    /// Creates a new table from this one with all zero-pages removed.
    ///
    /// Also removes non-page aligned parts of any range that is zero-filled in the
    /// `guest_memory`.
    pub fn remove_zero_pages(&self, guest_memory: &GuestMemoryMmap<AtomicBitmap>) -> (result:
        Result<Self, GuestMemoryError>)
        requires
            forall|i: int| 0 <= i < self@.len() ==> range_splits(#[trigger] self@[i]),
        ensures
            result is Ok <==> all_accessible(guest_regions(*guest_memory), self@),
            result matches Err(e) ==> exists|i: int, j: int| #[trigger]
                first_inaccessible(guest_regions(*guest_memory), self@, i, j) && e == access_error(
                    guest_regions(*guest_memory),
                    pieces(self@[i])[j].gpa,
                ),
            result matches Ok(table) ==> exists|contents: Seq<Seq<Seq<u8>>>| #[trigger]
                contents_fit(self@, contents) && table@ == kept_all(self@, zero_flags(contents)),
    {
        let ghost regions = guest_regions(*guest_memory);
        let ghost mut all_contents: Seq<Seq<Seq<u8>>> = Seq::empty();
        let ranges: &[MemoryRange] = self.ranges();
        let mut processed_data: Vec<MemoryRange> = Vec::new();
        let mut i: usize = 0;
        assert(self@.take(0) =~= Seq::<MemoryRange>::empty());
        while i < ranges.len()
            invariant
                i <= ranges@.len(),
                ranges@ == self@,
                regions == guest_regions(*guest_memory),
                forall|i: int| 0 <= i < self@.len() ==> range_splits(#[trigger] self@[i]),
                contents_fit(self@.take(i as int), all_contents),
                processed_data@ == kept_all(self@.take(i as int), zero_flags(all_contents)),
                forall|k: int, l: int|
                    0 <= k < i && 0 <= l < pieces(self@[k]).len() ==> #[trigger] piece_accessible(
                        regions,
                        self@,
                        k,
                        l,
                    ),
            decreases ranges@.len() - i,
        {
            let range: MemoryRange = ranges[i];
            assert(range_splits(self@[i as int]));
            proof {
                law_pieces_make_up_range(range);
            }
            let cut: Vec<MemoryRange> = cut_at_pages(&range);
            let mut kept_pieces: Vec<MemoryRange> = Vec::new();
            let ghost mut contents: Seq<Seq<u8>> = Seq::empty();
            let mut j: usize = 0;
            while j < cut.len()
                invariant
                    j <= cut@.len(),
                    cut@ == pieces(range),
                    i < self@.len(),
                    self@[i as int] == range,
                    regions == guest_regions(*guest_memory),
                    range_splits(range),
                    contiguous(cut@, range.gpa as int, range.gpa + range.length),
                    contents.len() == j,
                    kept_pieces@ == kept(cut@.take(j as int), zero_pieces(contents)),
                    forall|l: int|
                        0 <= l < j ==> (#[trigger] contents[l]).len() == pieces(range)[l].length,
                    forall|l: int|
                        0 <= l < pieces(range).len() ==> 0 < (#[trigger] pieces(range)[l]).length
                            <= PAGE_SIZE,
                    forall|k: int, l: int|
                        0 <= k < i && 0 <= l < pieces(self@[k]).len()
                            ==> #[trigger] piece_accessible(regions, self@, k, l),
                    forall|l: int|
                        0 <= l < j ==> #[trigger] piece_accessible(regions, self@, i as int, l),
                decreases cut@.len() - j,
            {
                let piece: MemoryRange = cut[j];
                assert(pieces(range)[j as int] == piece);
                match read_guest(guest_memory, piece.gpa, piece.length as usize) {
                    Ok(bytes) => {
                        assert(piece_accessible(regions, self@, i as int, j as int));
                        proof {
                            let front = cut@.take(j as int);
                            let flags = zero_pieces(contents);
                            lemma_contiguous_prefix(
                                cut@,
                                range.gpa as int,
                                range.gpa + range.length,
                                j + 1,
                            );
                            lemma_kept_ends(front, flags, range.gpa as int, piece.gpa as int);
                            contents = contents.push(bytes@);
                            assert(cut@.take(j + 1).drop_last() =~= front);
                            assert(zero_pieces(contents).drop_last() =~= flags);
                        }
                        keep_nonzero(&mut kept_pieces, piece, bytes.as_slice());
                    },
                    Err(e) => {
                        assert(first_inaccessible(regions, self@, i as int, j as int));
                        return Err(e);
                    },
                }
                j = j + 1;
            }
            assert(cut@.take(j as int) =~= cut@);
            processed_data.append(&mut kept_pieces);
            proof {
                let longer = self@.take(i + 1);
                let after = all_contents.push(contents);
                assert(longer.drop_last() =~= self@.take(i as int));
                assert(zero_flags(after).drop_last() =~= zero_flags(all_contents));
                assert(zero_flags(after).last() == zero_pieces(contents));
                assert forall|k: int| 0 <= k < longer.len() implies pieces_fit(
                    pieces(longer[k]),
                    #[trigger] after[k],
                ) by {
                    if k < i {
                        assert(self@.take(i as int)[k] == longer[k]);
                        assert(after[k] == all_contents[k]);
                    }
                }
                all_contents = after;
            }
            i = i + 1;
        }
        assert(self@.take(i as int) =~= self@);
        Ok(MemoryRangeTable::from_ranges(processed_data))
    }
}

} // verus!
