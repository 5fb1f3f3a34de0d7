//! Allocation of interrupt vectors: a bitmap allocator, and the pair of
//! allocators that hands out IRQs and GSIs.

use std::collections::BTreeMap;

use vstd::prelude::*;
use vstd::std_specs::iter::IteratorSpec;

use crate::bits::{bit64, lemma_clear_bit64, lemma_high_mask64, lemma_not_bit64, lemma_ones_bit64,
    lemma_set_bit64, lemma_test_bit64, lemma_zero_bit64};

verus! {

/// Number of vectors tracked by one word of the bitmap.
pub const WORD_BITS: u32 = 64;

/// Maximum number of IRQ routes according to the kernel code.
pub const KVM_MAX_IRQ_ROUTES: u32 = 4096;

/// A range of interrupts served by one I/O APIC.
#[derive(Copy, Clone, Debug)]
pub struct GsiApic {
    pub(crate) base: u32,
    pub(crate) irqs: u32,
}

impl GsiApic {
    /// First interrupt of the APIC.
    pub closed spec fn spec_base(self) -> u32 {
        self.base
    }

    /// Number of interrupts of the APIC.
    pub closed spec fn spec_irqs(self) -> u32 {
        self.irqs
    }

    /// One past the last interrupt of the APIC.
    pub open spec fn end(self) -> int {
        self.spec_base() + self.spec_irqs()
    }

    /// New GSI APIC.
    pub fn new(base: u32, irqs: u32) -> (apic: Self)
        ensures
            apic.spec_base() == base,
            apic.spec_irqs() == irqs,
    {
        GsiApic { base, irqs }
    }
}

/// Errors that may happen while allocating or freeing an interrupt.
#[derive(Debug, PartialEq, Eq, Clone, Copy, Structural)]
pub enum InterruptAllocError {
    /// Interrupt allocator is exhausted, i.e. out of interrupt vectors. Holds the capacity.
    ExhaustedError(u32),
    /// Tried to free an interrupt that wasn't allocated. Holds the vector.
    AlreadyFree(u32),
    /// Tried to free an interrupt that is not in range of the interrupt allocator.
    /// Holds the vector, the lower bound and the (exclusive) upper bound.
    OutOfRange(u32, u32, u32),
}

/// An interrupt allocator: a bitmap that stores which interrupt vectors are
/// currently in use. The allocator has an offset, e.g. for vectors in the range
/// of `[512, 1024)` the offset and the size are both 512.
#[derive(Debug)]
pub struct InterruptAllocator {
    words: Vec<u64>,
    size: u32,
    offset: u32,
}

/// What one allocation does to an allocator and returns: the lowest free vector,
/// which is then in use, or an error if all vectors are in use.
pub open spec fn allocates(
    before: InterruptAllocator,
    after: InterruptAllocator,
    result: Result<u32, InterruptAllocError>,
) -> bool {
    &&& after.capacity() == before.capacity()
    &&& after.first() == before.first()
    &&& (exists|v: int| before.in_range(v) && !before.is_allocated(v)) <==> result is Ok
    &&& match result {
        Ok(v) => {
            &&& before.lowest_free(v as int)
            &&& after.allocated() == before.allocated().insert(v as int)
        },
        Err(e) => {
            &&& e == InterruptAllocError::ExhaustedError(before.capacity())
            &&& after.allocated() == before.allocated()
        },
    }
}

/// What freeing `vector` does to an allocator and returns: the vector is no longer
/// in use, or there is an error if it is out of range or not in use.
pub open spec fn frees(
    before: InterruptAllocator,
    after: InterruptAllocator,
    vector: u32,
    result: Result<(), InterruptAllocError>,
) -> bool {
    &&& after.capacity() == before.capacity()
    &&& after.first() == before.first()
    &&& if !before.in_range(vector as int) {
        &&& result == Err::<(), InterruptAllocError>(
            InterruptAllocError::OutOfRange(
                vector,
                before.first(),
                (before.first() + before.capacity()) as u32,
            ),
        )
        &&& after.allocated() == before.allocated()
    } else if !before.is_allocated(vector as int) {
        &&& result == Err::<(), InterruptAllocError>(InterruptAllocError::AlreadyFree(vector))
        &&& after.allocated() == before.allocated()
    } else {
        &&& result == Ok::<(), InterruptAllocError>(())
        &&& after.allocated() == before.allocated().remove(vector as int)
    }
}

/// Bit number `i` of a bitmap made of 64 bit words.
pub open spec fn bitmap_bit(words: Seq<u64>, i: int) -> bool {
    bit64(words[i / 64], (i % 64) as u64)
}

impl InterruptAllocator {
    /// Number of vectors that the allocator manages.
    pub closed spec fn capacity(self) -> u32 {
        self.size
    }

    /// The first vector that the allocator manages.
    pub closed spec fn first(self) -> u32 {
        self.offset
    }

    /// The bitmap holds a bit for each vector, and the bits behind the last
    /// vector are set, so that they are never handed out.
    pub closed spec fn wf(self) -> bool {
        &&& self.size > 0
        &&& self.words@.len() == (self.size - 1) / 64 + 1
        &&& forall|i: int|
            self.size <= i < self.words@.len() * 64 ==> #[trigger] bitmap_bit(self.words@, i)
    }

    /// `vector` lies in the range that the allocator manages.
    pub open spec fn in_range(self, vector: int) -> bool {
        self.first() <= vector < self.first() + self.capacity()
    }

    /// `vector` is managed by the allocator and currently in use.
    pub closed spec fn is_allocated(self, vector: int) -> bool {
        self.in_range(vector) && bitmap_bit(self.words@, vector - self.offset)
    }

    /// `vector` is the lowest one that is not in use.
    pub open spec fn lowest_free(self, vector: int) -> bool {
        &&& self.in_range(vector)
        &&& !self.is_allocated(vector)
        &&& forall|u: int| self.first() <= u < vector ==> #[trigger] self.is_allocated(u)
    }

    /// The vectors currently in use.
    pub open spec fn allocated(self) -> Set<int> {
        Set::new(|v: int| self.is_allocated(v))
    }

    /// Creates an allocator for the vectors `offset..offset + size`, all free.
    pub fn new(size: u32, offset: u32) -> (allocator: Self)
        requires
            size != 0,
        ensures
            allocator.wf(),
            allocator.capacity() == size,
            allocator.first() == offset,
            allocator.allocated() == Set::<int>::empty(),
    {
        let num_words: usize = ((size - 1) / WORD_BITS) as usize + 1;
        let mut words: Vec<u64> = vec![0u64; num_words];
        let last: u64 = Self::last_word(size);
        words.set(num_words - 1, last);
        let allocator = InterruptAllocator { words, size, offset };
        proof {
            let w = allocator.words@;
            assert forall|i: int| 0 <= i < w.len() * 64 implies #[trigger] bitmap_bit(w, i) == (i
                >= size) by {
                let b: u64 = (i % 64) as u64;
                if i / 64 == num_words - 1 {
                    lemma_zero_bit64(b);
                } else {
                    lemma_zero_bit64(b);
                }
            }
            assert(allocator.allocated() =~= Set::<int>::empty());
        }
        allocator
    }

    /// Returns the mask of the last word: the bits from `size % 64` upwards,
    /// none if `size` is a multiple of 64.
    pub fn last_word(size: u32) -> (word: u64)
        ensures
            forall|b: u64|
                b < 64 ==> (#[trigger] bit64(word, b) <==> (size % 64 != 0 && b >= size % 64)),
    {
        let rem: u32 = size % WORD_BITS;
        if rem == 0 {
            proof {
                assert forall|b: u64| b < 64 implies !(#[trigger] bit64(0u64, b)) by {
                    lemma_zero_bit64(b);
                }
            }
            0u64
        } else {
            proof {
                lemma_high_mask64(rem as u64);
            }
            !((1u64 << (rem as u64)) - 1)
        }
    }

    /// The position of a vector in the bitmap: the word and the bit in it.
    pub fn word_and_bit(vector: u32) -> (r: (usize, u64))
        ensures
            r.0 == vector / 64,
            r.1 == vector % 64,
    {
        ((vector / WORD_BITS) as usize, (vector % WORD_BITS) as u64)
    }

    /// Frees `vector`, if it is in range and in use.
    pub fn free(&mut self, vector: u32) -> (result: Result<(), InterruptAllocError>)
        requires
            old(self).wf(),
            old(self).first() + old(self).capacity() <= u32::MAX,
        ensures
            final(self).wf(),
            frees(*old(self), *final(self), vector, result),
    {
        // At first we make sure that the vector is not out of range.
        if vector < self.offset || vector >= self.offset + self.size {
            return Err(
                InterruptAllocError::OutOfRange(vector, self.offset, self.offset + self.size),
            );
        }
        let idx: u32 = vector - self.offset;
        let (w, b) = Self::word_and_bit(idx);
        let mask: u64 = 1u64 << b;
        let word: u64 = self.words[w];
        proof {
            lemma_test_bit64(word, b);
        }
        // Let's first check whether the bit is set.
        if word & mask == 0u64 {
            return Err(InterruptAllocError::AlreadyFree(vector));
        }
        // Clear the bit and we are done!
        self.words.set(w, word & !mask);
        proof {
            let before = old(self).words@;
            let after = self.words@;
            lemma_clear_bit64(word, b);
            assert forall|i: int| 0 <= i < after.len() * 64 implies #[trigger] bitmap_bit(after, i)
                == (i != idx && bitmap_bit(before, i)) by {
                if i / 64 == w {
                    assert(i == 64 * (i / 64) + i % 64);
                    assert(idx == 64 * (idx / 64) + idx % 64);
                }
            }
            assert forall|i: int| self.size <= i < after.len() * 64 implies #[trigger] bitmap_bit(
                after,
                i,
            ) by {
                assert(bitmap_bit(before, i));
            }
            assert forall|v: int| self.is_allocated(v) == (v != vector && old(self).is_allocated(v))
                by {
                if self.in_range(v) {
                    let i = v - self.offset;
                    assert(bitmap_bit(after, i) == (i != idx && bitmap_bit(before, i)));
                }
            }
            assert(self.allocated() =~= old(self).allocated().remove(vector as int));
        }
        Ok(())
    }

    /// Allocates the lowest free vector.
    pub fn allocate(&mut self) -> (result: Result<u32, InterruptAllocError>)
        requires
            old(self).wf(),
            old(self).first() + old(self).capacity() - 1 <= u32::MAX,
        ensures
            final(self).wf(),
            allocates(*old(self), *final(self), result),
    {
        let mut idx: usize = 0;
        while idx < self.words.len()
            invariant
                *self == *old(self),
                self.wf(),
                self.first() + self.capacity() - 1 <= u32::MAX,
                idx <= self.words@.len(),
                forall|k: int| 0 <= k < idx ==> #[trigger] self.words@[k] == u64::MAX,
            decreases self.words@.len() - idx,
        {
            let word: u64 = self.words[idx];
            if word != u64::MAX {
                let free: u64 = !word;
                // Find lowest free bit.
                let bit: u32 = free.trailing_zeros();
                proof {
                    vstd::std_specs::bits::axiom_u64_trailing_zeros(free);
                    assert(word != 0xffff_ffff_ffff_ffffu64 ==> !word != 0u64) by (bit_vector);
                    lemma_not_bit64(word, bit as u64);
                    lemma_set_bit64(word, bit as u64);
                }
                let ghost i0 = idx * 64 + bit;
                proof {
                    assert(i0 / 64 == idx && i0 % 64 == bit);
                    assert(!bitmap_bit(old(self).words@, i0));
                    assert(i0 < old(self).words@.len() * 64);
                    assert(i0 < self.size);
                }
                // Set the bit.
                self.words.set(idx, word | (1u64 << (bit as u64)));
                // Calculate index, add offset and return.
                let vector: u32 = idx as u32 * WORD_BITS + bit;
                proof {
                    self.lemma_after_allocate(*old(self), idx as int, bit as u64, word);
                }
                return Ok(vector + self.offset);
            }
            idx = idx + 1;
        }
        proof {
            assert forall|v: int| self.in_range(v) implies self.is_allocated(v) by {
                let i = v - self.offset;
                assert(self.words@[i / 64] == u64::MAX);
                lemma_ones_bit64((i % 64) as u64);
            }
        }
        Err(InterruptAllocError::ExhaustedError(self.size))
    }

    proof fn lemma_after_allocate(self, before: Self, idx: int, bit: u64, word: u64)
        requires
            before.wf(),
            self.size == before.size,
            self.offset == before.offset,
            0 <= idx < before.words@.len(),
            bit < 64,
            idx * 64 + bit < before.size,
            before.words@[idx] == word,
            !bit64(word, bit),
            forall|j: u64| 0 <= j < bit ==> #[trigger] (!word >> j) & 1u64 == 0u64,
            forall|k: int| 0 <= k < idx ==> #[trigger] before.words@[k] == u64::MAX,
            self.words@ == before.words@.update(idx, word | (1u64 << bit)),
        ensures
            self.wf(),
            ({
                let v = before.offset + idx * 64 + bit;
                &&& before.lowest_free(v)
                &&& self.allocated() == before.allocated().insert(v)
            }),
    {
        let v = before.offset + idx * 64 + bit;
        let i0 = idx * 64 + bit;
        assert(i0 / 64 == idx && i0 % 64 == bit);
        lemma_set_bit64(word, bit);
        assert forall|i: int| 0 <= i < self.words@.len() * 64 implies #[trigger] bitmap_bit(
            self.words@,
            i,
        ) == (i == i0 || bitmap_bit(before.words@, i)) by {
            if i / 64 == idx {
                assert(i == 64 * (i / 64) + i % 64);
            }
        }
        assert forall|u: int| before.first() <= u < v implies before.is_allocated(u) by {
            let i = u - before.offset;
            let b: u64 = (i % 64) as u64;
            if i / 64 < idx {
                assert(before.words@[i / 64] == u64::MAX);
                lemma_ones_bit64(b);
            } else {
                assert(i / 64 == idx);
                assert((!word >> b) & 1u64 == 0u64);
                lemma_not_bit64(word, b);
            }
        }
        assert forall|i: int| self.size <= i < self.words@.len() * 64 implies #[trigger] bitmap_bit(
            self.words@,
            i,
        ) by {
            assert(bitmap_bit(before.words@, i));
        }
        assert forall|u: int| self.is_allocated(u) == (u == v || before.is_allocated(u)) by {
            if self.in_range(u) {
                let i = u - self.offset;
                assert(bitmap_bit(self.words@, i) == (i == i0 || bitmap_bit(before.words@, i)));
            }
        }
        assert(self.allocated() =~= before.allocated().insert(v));
    }

    /// The number of vectors that the allocator manages.
    pub fn size(&self) -> (size: u32)
        ensures
            size == self.capacity(),
    {
        self.size
    }
}

/// Hands out the IRQs of the APICs and the GSIs behind them.
pub struct GsiAllocator {
    apics: BTreeMap<u32, u32>,
    irqs: InterruptAllocator,
    gsis: InterruptAllocator,
}

/// The smallest base of the APICs, `u32::MAX` if there are none.
pub open spec fn first_irq(apics: Seq<GsiApic>) -> u32
    decreases apics.len(),
{
    if apics.len() == 0 {
        u32::MAX
    } else {
        let rest = first_irq(apics.drop_last());
        if apics.last().spec_base() < rest {
            apics.last().spec_base()
        } else {
            rest
        }
    }
}

/// The largest end of the APICs, 0 if there are none.
pub open spec fn first_gsi(apics: Seq<GsiApic>) -> int
    decreases apics.len(),
{
    if apics.len() == 0 {
        0
    } else {
        let rest = first_gsi(apics.drop_last());
        if apics.last().end() > rest {
            apics.last().end()
        } else {
            rest
        }
    }
}

/// The number of interrupts at each base: of two APICs with the same base the
/// later one counts.
pub open spec fn apic_map(apics: Seq<GsiApic>) -> Map<u32, u32>
    decreases apics.len(),
{
    if apics.len() == 0 {
        Map::empty()
    } else {
        apic_map(apics.drop_last()).insert(apics.last().spec_base(), apics.last().spec_irqs())
    }
}

/// `vector` is an interrupt of one of the APICs.
pub open spec fn served(apics: Map<u32, u32>, vector: int) -> bool {
    exists|base: u32| #[trigger]
        apics.contains_key(base) && base <= vector < base + apics[base]
}

/// The end of each APIC fits in 32 bits.
pub open spec fn ends_fit(apics: Map<u32, u32>) -> bool {
    forall|base: u32| #[trigger] apics.contains_key(base) ==> base + apics[base] <= u32::MAX
}

impl GsiAllocator {
    /// The number of interrupts at each APIC base.
    pub closed spec fn spec_apics(self) -> Map<u32, u32> {
        self.apics@
    }

    /// The allocator of the IRQs.
    pub closed spec fn spec_irqs(self) -> InterruptAllocator {
        self.irqs
    }

    /// The allocator of the GSIs.
    pub closed spec fn spec_gsis(self) -> InterruptAllocator {
        self.gsis
    }

    /// Both allocators are well formed and end at the maximum number of routes.
    pub open spec fn wf(self) -> bool {
        &&& self.spec_irqs().wf()
        &&& self.spec_gsis().wf()
        &&& self.spec_irqs().first() + self.spec_irqs().capacity() == KVM_MAX_IRQ_ROUTES
        &&& self.spec_gsis().first() + self.spec_gsis().capacity() == KVM_MAX_IRQ_ROUTES
        &&& ends_fit(self.spec_apics())
    }

    /// Creates an allocator whose IRQs start at the lowest APIC base and whose
    /// GSIs start behind the highest APIC interrupt.
    pub fn new(apics: &[GsiApic]) -> (allocator: Self)
        requires
            forall|i: int| 0 <= i < apics@.len() ==> (#[trigger] apics@[i]).end() <= u32::MAX,
            first_irq(apics@) < KVM_MAX_IRQ_ROUTES,
            first_gsi(apics@) < KVM_MAX_IRQ_ROUTES,
        ensures
            allocator.wf(),
            allocator.spec_apics() == apic_map(apics@),
            allocator.spec_irqs().first() == first_irq(apics@),
            allocator.spec_gsis().first() == first_gsi(apics@),
            allocator.spec_irqs().allocated() == Set::<int>::empty(),
            allocator.spec_gsis().allocated() == Set::<int>::empty(),
    {
        broadcast use vstd::std_specs::btree::group_btree_axioms;

        let mut allocator_apics: BTreeMap<u32, u32> = BTreeMap::new();
        let mut next_irq: u32 = 0xffff_ffffu32;
        let mut next_gsi: u32 = 0u32;
        let mut i: usize = 0;
        while i < apics.len()
            invariant
                i <= apics@.len(),
                forall|i: int| 0 <= i < apics@.len() ==> (#[trigger] apics@[i]).end() <= u32::MAX,
                next_irq == first_irq(apics@.take(i as int)),
                next_gsi == first_gsi(apics@.take(i as int)),
                allocator_apics@ == apic_map(apics@.take(i as int)),
                ends_fit(allocator_apics@),
            decreases apics@.len() - i,
        {
            let apic = apics[i];
            assert(apics@[i as int].end() <= u32::MAX);
            assert(apics@.take(i + 1).drop_last() =~= apics@.take(i as int));
            if apic.base < next_irq {
                next_irq = apic.base;
            }
            if apic.base + apic.irqs > next_gsi {
                next_gsi = apic.base + apic.irqs;
            }
            allocator_apics.insert(apic.base, apic.irqs);
            i = i + 1;
        }
        assert(apics@.take(i as int) =~= apics@);
        GsiAllocator {
            apics: allocator_apics,
            irqs: InterruptAllocator::new(KVM_MAX_IRQ_ROUTES - next_irq, next_irq),
            gsis: InterruptAllocator::new(KVM_MAX_IRQ_ROUTES - next_gsi, next_gsi),
        }
    }

    /// Allocates a GSI: the lowest one that is free.
    pub fn allocate_gsi(&mut self) -> (result: Result<u32, InterruptAllocError>)
        requires
            old(self).wf(),
        ensures
            final(self).wf(),
            final(self).spec_apics() == old(self).spec_apics(),
            final(self).spec_irqs() == old(self).spec_irqs(),
            allocates(old(self).spec_gsis(), final(self).spec_gsis(), result),
    {
        self.gsis.allocate()
    }

    /// Frees a GSI.
    pub fn free_gsi(&mut self, vector: u32) -> (result: Result<(), InterruptAllocError>)
        requires
            old(self).wf(),
        ensures
            final(self).wf(),
            final(self).spec_apics() == old(self).spec_apics(),
            final(self).spec_irqs() == old(self).spec_irqs(),
            frees(old(self).spec_gsis(), final(self).spec_gsis(), vector, result),
    {
        self.gsis.free(vector)
    }

    /// Allocates an IRQ: the lowest one that is free, if an APIC serves it.
    pub fn allocate_irq(&mut self) -> (result: Result<u32, InterruptAllocError>)
        requires
            old(self).wf(),
        ensures
            final(self).wf(),
            final(self).spec_apics() == old(self).spec_apics(),
            final(self).spec_gsis() == old(self).spec_gsis(),
            final(self).spec_irqs().first() == old(self).spec_irqs().first(),
            final(self).spec_irqs().capacity() == old(self).spec_irqs().capacity(),
            (exists|v: int|
                old(self).spec_irqs().lowest_free(v) && served(old(self).spec_apics(), v))
                <==> result is Ok,
            match result {
                Ok(v) => {
                    &&& old(self).spec_irqs().lowest_free(v as int)
                    &&& served(old(self).spec_apics(), v as int)
                    &&& final(self).spec_irqs().allocated()
                        == old(self).spec_irqs().allocated().insert(v as int)
                },
                Err(e) => {
                    &&& e == InterruptAllocError::ExhaustedError(old(self).spec_irqs().capacity())
                    &&& final(self).spec_irqs().allocated() == old(self).spec_irqs().allocated()
                },
            },
    {
        broadcast use vstd::std_specs::btree::group_btree_axioms;

        let next_irq: u32 = match self.irqs.allocate() {
            Ok(next_irq) => next_irq,
            Err(e) => return Err(e),
        };
        let ghost allocated = *self;
        let ghost m = self.apics@;
        for (base, irqs) in it: self.apics.iter()
            invariant
                m == self.apics@,
                *self == allocated,
                m == old(self).spec_apics(),
                self.wf(),
                self.gsis == old(self).gsis,
                self.irqs.first() == old(self).irqs.first(),
                self.irqs.capacity() == old(self).irqs.capacity(),
                old(self).spec_irqs().lowest_free(next_irq as int),
                self.irqs.allocated() == old(self).irqs.allocated().insert(next_irq as int),
                it.seq() == vstd::std_specs::btree::spec_btree_map_iter(&self.apics).remaining(),
                forall|j: int|
                    0 <= j < it.index() ==> !(*(#[trigger] it.seq()[j]).0 <= next_irq
                        < *it.seq()[j].0 + *it.seq()[j].1),
        {
            assert(m.contains_key(*base) && m[*base] == *irqs) by {
                let entry = it.seq()[it.index()];
                assert(m.contains_key(*entry.0));
                assert(m[*entry.0] == *entry.1);
            }
            if next_irq >= *base && next_irq < *base + *irqs {
                assert(served(m, next_irq as int));
                return Ok(next_irq);
            }
        }
        assert(!served(m, next_irq as int)) by {
            let entries = vstd::std_specs::btree::spec_btree_map_iter(&self.apics).remaining();
            assert forall|base: u32| #[trigger] m.contains_key(base) implies !(base <= next_irq
                < base + m[base]) by {
                assert(entries.contains((&base, &m[base])));
            }
        }
        assert(self.irqs.allocated().contains(next_irq as int));
        match self.irqs.free(next_irq) {
            Ok(()) => {},
            Err(e) => return Err(e),
        }
        proof {
            assert(old(self).irqs.allocated().insert(next_irq as int).remove(next_irq as int)
                =~= old(self).irqs.allocated());
        }
        Err(InterruptAllocError::ExhaustedError(self.irqs.size()))
    }
}

/// An allocation hands out a vector of the allocator's range that was free, and below which none
/// was. That vector is then in use, and no other vector changes. It fails exactly if no vector is
/// free, and tells how many there are.
pub proof fn law_lowest_free_vector_is_allocated(
    before: InterruptAllocator,
    after: InterruptAllocator,
    result: Result<u32, InterruptAllocError>,
    vector: int,
)
    requires
        allocates(before, after, result),
    ensures
        result matches Ok(v) ==> {
            &&& before.first() <= v < before.first() + before.capacity()
            &&& !before.is_allocated(v as int)
            &&& before.first() <= vector < v ==> before.is_allocated(vector)
            &&& after.is_allocated(vector) <==> before.is_allocated(vector) || vector == v
        },
        result matches Err(e) ==> {
            &&& e == InterruptAllocError::ExhaustedError(before.capacity())
            &&& before.first() <= vector < before.first() + before.capacity()
                ==> before.is_allocated(vector)
            &&& after.is_allocated(vector) <==> before.is_allocated(vector)
        },
        after.first() == before.first(),
        after.capacity() == before.capacity(),
{
    assert(after.is_allocated(vector) == after.allocated().contains(vector));
    assert(before.is_allocated(vector) == before.allocated().contains(vector));
    if result is Err && before.in_range(vector) && !before.is_allocated(vector) {
        assert(exists|v: int| before.in_range(v) && !before.is_allocated(v));
    }
}

/// Freeing succeeds exactly for a vector that is in use, which is then free, and no other vector
/// changes. Otherwise nothing changes, and the error tells a vector that is out of range from one
/// that is free.
pub proof fn law_only_used_vector_is_freed(
    before: InterruptAllocator,
    after: InterruptAllocator,
    freed: u32,
    result: Result<(), InterruptAllocError>,
    vector: int,
)
    requires
        before.wf(),
        frees(before, after, freed, result),
        before.first() + before.capacity() <= u32::MAX,
    ensures
        result is Ok <==> before.is_allocated(freed as int),
        after.is_allocated(vector) <==> before.is_allocated(vector) && !(result is Ok && vector
            == freed),
        result matches Err(e) ==> if freed < before.first() || freed >= before.first()
            + before.capacity() {
            e matches InterruptAllocError::OutOfRange(v, low, high) && v == freed && low
                == before.first() && high == before.first() + before.capacity()
        } else {
            e == InterruptAllocError::AlreadyFree(freed)
        },
        after.first() == before.first(),
        after.capacity() == before.capacity(),
{
    assert(after.is_allocated(vector) == after.allocated().contains(vector));
    assert(before.is_allocated(vector) == before.allocated().contains(vector));
}

/// The IRQs start at the lowest base of the APICs, and the GSIs behind the highest end: every APIC
/// starts and ends within these bounds, and one of them starts, one of them ends there.
pub proof fn law_interrupts_start_at_apics(apics: Seq<GsiApic>, i: int)
    requires
        0 <= i < apics.len(),
    ensures
        first_irq(apics) <= apics[i].spec_base(),
        apics[i].end() <= first_gsi(apics),
        exists|j: int| 0 <= j < apics.len() && first_irq(apics) == (#[trigger] apics[j]).spec_base(),
        first_gsi(apics) == 0 || exists|j: int|
            0 <= j < apics.len() && first_gsi(apics) == (#[trigger] apics[j]).end(),
    decreases apics.len(),
{
    let rest = apics.drop_last();
    let n = rest.len() as int;
    if rest.len() == 0 {
        assert(first_irq(rest) == u32::MAX && first_gsi(rest) == 0);
        assert(apics[n] == apics.last());
        assert(first_irq(apics) == apics[n].spec_base());
    } else {
        let k = if i < n {
            i
        } else {
            0
        };
        law_interrupts_start_at_apics(rest, k);
        assert(rest[k] == apics[k]);
        let j = choose|j: int|
            0 <= j < rest.len() && first_irq(rest) == (#[trigger] rest[j]).spec_base();
        assert(rest[j] == apics[j]);
        assert(apics[n] == apics.last());
        if first_gsi(rest) != 0 {
            let l = choose|l: int|
                0 <= l < rest.len() && first_gsi(rest) == (#[trigger] rest[l]).end();
            assert(rest[l] == apics[l]);
        }
    }
}

/// Of two APICs with the same base the later one counts, and the interrupts of each APIC that
/// counts are served.
pub proof fn law_later_apic_counts(apics: Seq<GsiApic>, i: int)
    requires
        0 <= i < apics.len(),
        forall|j: int|
            i < j < apics.len() ==> (#[trigger] apics[j]).spec_base() != apics[i].spec_base(),
    ensures
        apic_map(apics).contains_key(apics[i].spec_base()),
        apic_map(apics)[apics[i].spec_base()] == apics[i].spec_irqs(),
        forall|vector: int|
            apics[i].spec_base() <= vector < apics[i].end() ==> #[trigger] served(
                apic_map(apics),
                vector,
            ),
    decreases apics.len(),
{
    let rest = apics.drop_last();
    let n = rest.len() as int;
    if i < n {
        assert(apics[n].spec_base() != apics[i].spec_base());
        assert forall|j: int| i < j < rest.len() implies (#[trigger] rest[j]).spec_base()
            != rest[i].spec_base() by {
            assert(rest[j] == apics[j]);
        }
        law_later_apic_counts(rest, i);
        assert(rest[i] == apics[i]);
    }
    assert forall|vector: int| apics[i].spec_base() <= vector < apics[i].end() implies #[trigger]
        served(apic_map(apics), vector) by {
        assert(apic_map(apics).contains_key(apics[i].spec_base()));
    }
}

/// Each base is that of an APIC, whose interrupts are those that are served.
proof fn lemma_map_has_apics(apics: Seq<GsiApic>, base: u32)
    requires
        apic_map(apics).contains_key(base),
    ensures
        exists|i: int|
            0 <= i < apics.len() && (#[trigger] apics[i]).spec_base() == base
                && apics[i].spec_irqs() == apic_map(apics)[base],
    decreases apics.len(),
{
    let rest = apics.drop_last();
    let n = rest.len() as int;
    if apics.len() > 0 {
        if apics.last().spec_base() == base {
            assert(apics[n] == apics.last());
        } else {
            lemma_map_has_apics(rest, base);
            let i = choose|i: int|
                0 <= i < rest.len() && (#[trigger] rest[i]).spec_base() == base
                    && rest[i].spec_irqs() == apic_map(rest)[base];
            assert(rest[i] == apics[i]);
        }
    }
}

/// No GSI is an interrupt of an APIC, and no interrupt of an APIC lies below the IRQs.
pub proof fn law_gsis_lie_behind_apics(apics: Seq<GsiApic>, vector: int)
    requires
        served(apic_map(apics), vector),
    ensures
        first_irq(apics) <= vector < first_gsi(apics),
{
    let map = apic_map(apics);
    let base = choose|base: u32| #[trigger]
        map.contains_key(base) && base <= vector < base + map[base];
    lemma_map_has_apics(apics, base);
    let i = choose|i: int|
        0 <= i < apics.len() && (#[trigger] apics[i]).spec_base() == base && apics[i].spec_irqs()
            == map[base];
    law_interrupts_start_at_apics(apics, i);
}

/// Freeing what was just allocated restores the set of allocated vectors.
pub proof fn law_free_undoes_allocate(
    before: InterruptAllocator,
    middle: InterruptAllocator,
    after: InterruptAllocator,
    vector: u32,
    freed: Result<(), InterruptAllocError>,
)
    requires
        allocates(before, middle, Ok(vector)),
        frees(middle, after, vector, freed),
    ensures
        freed is Ok,
        after.allocated() == before.allocated(),
{
    assert(middle.allocated().contains(vector as int));
    assert(before.allocated().insert(vector as int).remove(vector as int)
        =~= before.allocated());
}

/// A vector is never handed out twice without being freed in between.
pub proof fn law_allocations_differ(
    before: InterruptAllocator,
    middle: InterruptAllocator,
    after: InterruptAllocator,
    first: u32,
    second: u32,
)
    requires
        allocates(before, middle, Ok(first)),
        allocates(middle, after, Ok(second)),
    ensures
        first != second,
        first < second,
{
    assert(middle.allocated().contains(first as int));
    if second < first {
        assert(before.is_allocated(second as int));
        assert(before.allocated().contains(second as int));
        assert(middle.allocated().contains(second as int));
    }
}

/// A vector cannot be freed twice in a row.
pub proof fn law_second_free_fails(
    before: InterruptAllocator,
    middle: InterruptAllocator,
    after: InterruptAllocator,
    vector: u32,
    second: Result<(), InterruptAllocError>,
)
    requires
        frees(before, middle, vector, Ok(())),
        frees(middle, after, vector, second),
    ensures
        second == Err::<(), InterruptAllocError>(InterruptAllocError::AlreadyFree(vector)),
        after.allocated() == middle.allocated(),
{
    if before.is_allocated(vector as int) {
        assert(!middle.allocated().contains(vector as int));
    }
}

} // verus!
