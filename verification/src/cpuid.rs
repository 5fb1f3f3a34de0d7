//! The output of the CPUID instruction, and parameters that select a part of it.

use std::ops::RangeInclusive;

use vstd::prelude::*;
use vstd::string::{StrSliceExecFns, StringExecFns};

use crate::bits::bit32;
use crate::text::{digit_char, padded_digits, write_padded};

verus! {

/// Number of the EAX register.
pub const EAX: u8 = 0;

/// Number of the EBX register.
pub const EBX: u8 = 1;

/// Number of the ECX register.
pub const ECX: u8 = 2;

/// Number of the EDX register.
pub const EDX: u8 = 3;

/// Flag of an entry whose index counts.
pub const CPUID_FLAG_VALID_INDEX: u32 = 1;

/// A register that the CPUID instruction fills.
#[derive(Debug, Clone, Copy, PartialEq, Eq, Structural)]
pub enum CpuidReg {
    EAX,
    EBX,
    ECX,
    EDX,
}

/// The output of the CPUID instruction for a leaf (function) and a sub-leaf (index).
#[derive(Debug, Clone, Copy, PartialEq, Eq, Structural)]
pub struct CpuIdEntry {
    pub function: u32,
    pub index: u32,
    pub flags: u32,
    pub eax: u32,
    pub ebx: u32,
    pub ecx: u32,
    pub edx: u32,
}

impl Default for CpuIdEntry {
    fn default() -> (entry: Self)
        ensures
            entry == (CpuIdEntry {
                function: 0,
                index: 0,
                flags: 0,
                eax: 0,
                ebx: 0,
                ecx: 0,
                edx: 0,
            }),
    {
        CpuIdEntry { function: 0, index: 0, flags: 0, eax: 0, ebx: 0, ecx: 0, edx: 0 }
    }
}

impl CpuIdEntry {
    /// The value of a register.
    pub open spec fn register(self, register: CpuidReg) -> u32 {
        match register {
            CpuidReg::EAX => self.eax,
            CpuidReg::EBX => self.ebx,
            CpuidReg::ECX => self.ecx,
            CpuidReg::EDX => self.edx,
        }
    }
}

/// The lower bound of an inclusive range that has not been iterated, as `std` documents it.
pub assume_specification<Idx>[ RangeInclusive::<Idx>::start ](range: &RangeInclusive<Idx>) -> (start:
    &Idx)
    ensures
        !range@.exhausted ==> *start == range@.start,
;

/// The upper bound of an inclusive range that has not been iterated, as `std` documents it.
pub assume_specification<Idx>[ RangeInclusive::<Idx>::end ](range: &RangeInclusive<Idx>) -> (end:
    &Idx)
    ensures
        !range@.exhausted ==> *end == range@.end,
;

/// Parameters for inspecting CPUID definitions.
#[derive(Debug)]
pub struct Parameters {
    /// The leaf (EAX) parameter used with the CPUID instruction.
    pub leaf: u32,
    /// The sub-leaf (ECX) parameter used with the CPUID instruction.
    pub sub_leaf: RangeInclusive<u32>,
    /// The register we are interested in inspecting which gets filled by the CPUID
    /// instruction.
    pub register: CpuidReg,
}

impl Parameters {
    /// The range of sub-leaves has not been iterated.
    pub open spec fn wf(self) -> bool {
        !self.sub_leaf@.exhausted
    }

    /// The parameters select a sub-leaf of a leaf.
    pub open spec fn selects(self, leaf: u32, sub_leaf: u32) -> bool {
        self.leaf == leaf && self.sub_leaf@.start <= sub_leaf <= self.sub_leaf@.end
    }

    /// Whether the parameters select a sub-leaf of a leaf.
    pub fn is_for(&self, leaf: u32, sub_leaf: u32) -> (selected: bool)
        requires
            self.wf(),
        ensures
            selected == self.selects(leaf, sub_leaf),
    {
        self.leaf == leaf && self.sub_leaf.contains(&sub_leaf)
    }
}

/// A 32 bit number as it is serialized: `0x` and eight hexadecimal digits. Serialized values
/// all having the same length makes it easier for humans to compare them.
pub open spec fn hex_text(n: u32) -> Seq<char> {
    "0x"@ + padded_digits(n as nat, 16, 8)
}

/// Serializes a 32 bit number.
pub fn serialize_as_hex(input: u32) -> (text: String)
    ensures
        text@ == hex_text(input),
{
    let mut text: String = "0x".to_owned();
    let digits: String = write_padded(input as u64, 16, 8);
    text.append(digits.as_str());
    text
}

/// The value of a hexadecimal digit, in lower or upper case.
pub open spec fn hex_digit(c: char) -> Option<nat> {
    if '0' <= c <= '9' {
        Some((c as int - '0' as int) as nat)
    } else if 'a' <= c <= 'f' {
        Some((c as int - 'a' as int + 10) as nat)
    } else if 'A' <= c <= 'F' {
        Some((c as int - 'A' as int + 10) as nat)
    } else {
        None
    }
}

/// The number that hexadecimal digits stand for, if all of them are digits.
pub open spec fn hex_value(text: Seq<char>) -> Option<nat>
    decreases text.len(),
{
    if text.len() == 0 {
        Some(0)
    } else {
        match (hex_value(text.drop_last()), hex_digit(text.last())) {
            (Some(high), Some(low)) => Some(16 * high + low),
            _ => None,
        }
    }
}

/// The digits behind a sign, if there is one.
pub open spec fn unsigned_text(text: Seq<char>) -> Seq<char> {
    if text.len() > 0 && text[0] == '+' {
        text.drop_first()
    } else {
        text
    }
}

/// The number that a text stands for: a prefix, an optional sign, and at least one digit.
pub open spec fn parsed_hex(text: Seq<char>) -> Option<u32> {
    if text.len() < 2 || text.take(2) != "0x"@ {
        None
    } else {
        let digits = unsigned_text(text.skip(2));
        match hex_value(digits) {
            Some(value) if digits.len() > 0 && value <= u32::MAX => Some(value as u32),
            _ => None,
        }
    }
}

/// A text is not a hex encoded 32 bit integer.
#[derive(Debug, Clone, Copy, PartialEq, Eq, Structural)]
pub struct NotHex;

fn hex_digit_value(c: char) -> (value: Option<u32>)
    ensures
        value is Some <==> hex_digit(c) is Some,
        value matches Some(v) ==> v < 16 && hex_digit(c) == Some(v as nat),
{
    if '0' <= c && c <= '9' {
        Some(c as u32 - '0' as u32)
    } else if 'a' <= c && c <= 'f' {
        Some(c as u32 - 'a' as u32 + 10)
    } else if 'A' <= c && c <= 'F' {
        Some(c as u32 - 'A' as u32 + 10)
    } else {
        None
    }
}

proof fn lemma_hex_value_prefix(text: Seq<char>, n: int)
    requires
        0 <= n <= text.len(),
    ensures
        hex_value(text.take(n)) is None ==> hex_value(text) is None,
        hex_value(text) is Some ==> hex_value(text.take(n))->Some_0 <= hex_value(text)->Some_0,
    decreases text.len() - n,
{
    if n < text.len() {
        lemma_hex_value_prefix(text, n + 1);
        assert(text.take(n + 1).drop_last() =~= text.take(n));
    } else {
        assert(text.take(n) =~= text);
    }
}

/// Deserializes a 32 bit number.
pub fn deserialize_from_hex(hex: &str) -> (result: Result<u32, NotHex>)
    ensures
        match parsed_hex(hex@) {
            Some(n) => result == Ok::<u32, NotHex>(n),
            None => result == Err::<u32, NotHex>(NotHex),
        },
{
    proof {
        reveal_strlit("0x");
    }
    let len: usize = hex.unicode_len();
    if len < 2 || hex.get_char(0) != '0' || hex.get_char(1) != 'x' {
        proof {
            if len >= 2 {
                assert(hex@.take(2)[0] == hex@[0]);
                assert(hex@.take(2)[1] == hex@[1]);
            }
        }
        return Err(NotHex);
    }
    assert(hex@.take(2) =~= "0x"@);
    let signed: bool = len > 2 && hex.get_char(2) == '+';
    let from: usize = if signed {
        3
    } else {
        2
    };
    let ghost digits = unsigned_text(hex@.skip(2));
    assert(digits =~= hex@.skip(from as int));
    if from == len {
        return Err(NotHex);
    }
    let mut value: u32 = 0;
    let mut i: usize = from;
    assert(digits.take(0) =~= Seq::<char>::empty());
    while i < len
        invariant
            from <= i <= len,
            len == hex@.len(),
            digits == hex@.skip(from as int),
            digits.len() == len - from,
            from < len,
            hex_value(digits.take(i - from)) == Some(value as nat),
            digits == unsigned_text(hex@.skip(2)),
            hex@.len() >= 2,
            hex@.take(2) == "0x"@,
        decreases len - i,
    {
        let c: char = hex.get_char(i);
        proof {
            assert(digits.take(i - from + 1).drop_last() =~= digits.take(i - from));
            assert(digits.take(i - from + 1).last() == c);
            lemma_hex_value_prefix(digits, i - from + 1);
        }
        match hex_digit_value(c) {
            None => return Err(NotHex),
            Some(digit) => {
                let next: u64 = 16 * value as u64 + digit as u64;
                if next > u32::MAX as u64 {
                    return Err(NotHex);
                }
                value = next as u32;
            },
        }
        i = i + 1;
    }
    assert(digits.take(len - from) =~= digits);
    Ok(value)
}

proof fn lemma_padded_value(n: nat, count: nat)
    ensures
        padded_digits(n, 16, count).len() == count,
        hex_value(padded_digits(n, 16, count)) == Some(n % vstd::arithmetic::power::pow(16, count) as nat),
    decreases count,
{
    reveal(vstd::arithmetic::power::pow);
    if count == 0 {
        vstd::arithmetic::power::lemma_pow0(16);
        assert(n % 1 == 0);
    } else {
        let rest = (count - 1) as nat;
        lemma_padded_value(n / 16, rest);
        let text = padded_digits(n, 16, count);
        assert(text.drop_last() =~= padded_digits(n / 16, 16, rest));
        assert(text.last() == digit_char(n % 16));
        assert(hex_digit(digit_char(n % 16)) == Some(n % 16));
        let p = vstd::arithmetic::power::pow(16, rest);
        vstd::arithmetic::power::lemma_pow_positive(16, rest);
        assert(vstd::arithmetic::power::pow(16, count) == 16 * p);
        vstd::arithmetic::div_mod::lemma_mod_breakdown(n as int, 16, p);
    }
}

/// What is deserialized of a serialized number is that number.
pub proof fn law_hex_round_trip(n: u32)
    ensures
        hex_text(n).len() == 10,
        parsed_hex(hex_text(n)) == Some(n),
{
    reveal_strlit("0x");
    let text = hex_text(n);
    let digits = padded_digits(n as nat, 16, 8);
    lemma_padded_value(n as nat, 8);
    assert(vstd::arithmetic::power::pow(16, 8) == 0x1_0000_0000) by {
        reveal(vstd::arithmetic::power::pow);
        reveal_with_fuel(vstd::arithmetic::power::pow, 10);
    }
    vstd::arithmetic::div_mod::lemma_small_mod(n as nat, 0x1_0000_0000);
    assert(text.take(2) =~= "0x"@);
    assert(text.skip(2) =~= digits);
    lemma_no_sign(n as nat, 8);
}

proof fn lemma_no_sign(n: nat, count: nat)
    requires
        count > 0,
    ensures
        padded_digits(n, 16, count).len() == count,
        padded_digits(n, 16, count)[0] != '+',
    decreases count,
{
    lemma_padded_value(n, count);
    if count > 1 {
        lemma_no_sign(n / 16, (count - 1) as nat);
    } else {
        assert(padded_digits(n / 16, 16, 0) =~= Seq::<char>::empty());
    }
}

/// The positions below `n` of the bits that are set, in ascending order.
pub open spec fn set_bits_below(w: u32, n: nat) -> Seq<u8>
    decreases n,
{
    if n == 0 {
        Seq::empty()
    } else {
        let rest = set_bits_below(w, (n - 1) as nat);
        if bit32(w, (n - 1) as u32) {
            rest.push((n - 1) as u8)
        } else {
            rest
        }
    }
}

/// The positions that are returned are those of the bits that are set, each of them once and in
/// ascending order.
pub proof fn law_positions_are_those_of_set_bits(w: u32, n: nat)
    requires
        n <= 32,
    ensures
        forall|b: u8| #[trigger]
            set_bits_below(w, n).contains(b) <==> b < n && bit32(w, b as u32),
        forall|i: int, j: int|
            0 <= i < j < set_bits_below(w, n).len() ==> set_bits_below(w, n)[i] < set_bits_below(
                w,
                n,
            )[j],
    decreases n,
{
    if n > 0 {
        let rest = set_bits_below(w, (n - 1) as nat);
        law_positions_are_those_of_set_bits(w, (n - 1) as nat);
        assert forall|i: int| 0 <= i < rest.len() implies #[trigger] rest[i] < n - 1 by {
            assert(rest.contains(rest[i]));
        }
        let all = set_bits_below(w, n);
        if bit32(w, (n - 1) as u32) {
            assert(all == rest.push((n - 1) as u8));
            assert(all[rest.len() as int] == n - 1);
            assert forall|b: u8| #[trigger] all.contains(b) <==> b < n && bit32(w, b as u32) by {
                if b < n && bit32(w, b as u32) && b != n - 1 {
                    assert(rest.contains(b));
                    let i = choose|i: int| 0 <= i < rest.len() && rest[i] == b;
                    assert(all[i] == b);
                }
                if all.contains(b) {
                    let i = choose|i: int| 0 <= i < all.len() && all[i] == b;
                    if i < rest.len() {
                        assert(rest[i] == b);
                        assert(rest.contains(b));
                    }
                }
            }
        }
    }
}

/// A number is written as `0x` and eight digits, none of which is in upper case.
pub proof fn law_hex_text_has_prefix(n: u32)
    ensures
        hex_text(n).len() == 10,
        hex_text(n)[0] == '0',
        hex_text(n)[1] == 'x',
        forall|i: int|
            2 <= i < 10 ==> '0' <= #[trigger] hex_text(n)[i] <= '9' || 'a' <= hex_text(n)[i] <= 'f',
{
    law_hex_round_trip(n);
    reveal_strlit("0x");
    lemma_lower_case(n as nat, 8);
    assert(hex_text(n).skip(2) =~= padded_digits(n as nat, 16, 8));
    assert forall|i: int| 2 <= i < 10 implies '0' <= #[trigger] hex_text(n)[i] <= '9' || 'a'
        <= hex_text(n)[i] <= 'f' by {
        assert(hex_text(n)[i] == padded_digits(n as nat, 16, 8)[i - 2]);
    }
}

proof fn lemma_lower_case(n: nat, count: nat)
    ensures
        padded_digits(n, 16, count).len() == count,
        forall|i: int|
            0 <= i < count ==> '0' <= #[trigger] padded_digits(n, 16, count)[i] <= '9' || 'a'
                <= padded_digits(n, 16, count)[i] <= 'f',
    decreases count,
{
    if count > 0 {
        lemma_lower_case(n / 16, (count - 1) as nat);
        let text = padded_digits(n, 16, count);
        let rest = padded_digits(n / 16, 16, (count - 1) as nat);
        assert(text.drop_last() =~= rest);
        assert forall|i: int| 0 <= i < count implies '0' <= #[trigger] text[i] <= '9' || 'a'
            <= text[i] <= 'f' by {
            if i < count - 1 {
                assert(text[i] == rest[i]);
            } else {
                assert(text[i] == digit_char(n % 16));
            }
        }
    }
}

/// The positions of the bits that are set, in ascending order.
pub fn set_bit_positions(w: u32) -> (positions: Vec<u8>)
    ensures
        positions@ == set_bits_below(w, 32),
{
    let mut positions: Vec<u8> = Vec::new();
    let mut b: u32 = 0;
    while b < 32
        invariant
            b <= 32,
            positions@ == set_bits_below(w, b as nat),
        decreases 32 - b,
    {
        if (w >> b) & 1 == 1 {
            positions.push(b as u8);
        }
        b = b + 1;
    }
    positions
}

} // verus!
