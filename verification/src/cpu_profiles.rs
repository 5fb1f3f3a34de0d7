//! The CPUID features of the CPU profile `CascadelakeServerV1`.

use vstd::prelude::*;

use crate::cpuid::{CpuIdEntry, CpuidReg, CPUID_FLAG_VALID_INDEX, EAX, EBX, ECX, EDX};
use crate::cpuid_feature_flags::{
    CpuIdEntryRegister, CASCADELAKE_V1_EDX_1, CASCADELAKE_V1_ECX_1, CASCADELAKE_V1_EDX_8000_0001H, CASCADELAKE_V1_ECX_8000_0001H, CASCADELAKE_V1_EBX_7_0, CASCADELAKE_V1_ECX_7_0, CASCADELAKE_V1_EDX_7_0, CASCADELAKE_V1_EAX_0DH_1,
};

verus! {

/// A CPU profile is a mechanism for ensuring live migration compatibility between hosts with
/// potentially different CPU models.
#[derive(Debug, Clone, Copy, PartialEq, Eq, Structural)]
pub enum CpuProfile {
    Host,
    CascadelakeServerV1,
}

impl Default for CpuProfile {
    fn default() -> (profile: Self)
        ensures
            profile == CpuProfile::Host,
    {
        CpuProfile::Host
    }
}

/// The CPUID features of an Intel Cascade Lake server, version 1.
pub struct CascadeLakeServerV1CpuIdFeatures {
    pub edx_1: CpuIdEntryRegister<1, 0, EDX>,
    pub ecx_1: CpuIdEntryRegister<1, 0, ECX>,
    pub edx_8000_0001h: CpuIdEntryRegister<0x8000_0001, 0, EDX>,
    pub ecx_8000_0001h: CpuIdEntryRegister<0x8000_0001, 0, ECX>,
    pub ebx_7_0: CpuIdEntryRegister<7, 0, EBX>,
    pub ecx_7_0: CpuIdEntryRegister<7, 0, ECX>,
    pub edx_7_0: CpuIdEntryRegister<7, 0, EDX>,
    pub eax_0dh: CpuIdEntryRegister<0xd, 1, EAX>,
}

impl CascadeLakeServerV1CpuIdFeatures {
    /// The features of the profile.
    pub fn new() -> (features: Self)
        ensures
            features.edx_1.raw() == CASCADELAKE_V1_EDX_1,
            features.ecx_1.raw() == CASCADELAKE_V1_ECX_1,
            features.edx_8000_0001h.raw() == CASCADELAKE_V1_EDX_8000_0001H,
            features.ecx_8000_0001h.raw() == CASCADELAKE_V1_ECX_8000_0001H,
            features.ebx_7_0.raw() == CASCADELAKE_V1_EBX_7_0,
            features.ecx_7_0.raw() == CASCADELAKE_V1_ECX_7_0,
            features.edx_7_0.raw() == CASCADELAKE_V1_EDX_7_0,
            features.eax_0dh.raw() == CASCADELAKE_V1_EAX_0DH_1,
    {
        CascadeLakeServerV1CpuIdFeatures {
            edx_1: CpuIdEntryRegister::from_raw(CASCADELAKE_V1_EDX_1),
            ecx_1: CpuIdEntryRegister::from_raw(CASCADELAKE_V1_ECX_1),
            edx_8000_0001h: CpuIdEntryRegister::from_raw(CASCADELAKE_V1_EDX_8000_0001H),
            ecx_8000_0001h: CpuIdEntryRegister::from_raw(CASCADELAKE_V1_ECX_8000_0001H),
            ebx_7_0: CpuIdEntryRegister::from_raw(CASCADELAKE_V1_EBX_7_0),
            ecx_7_0: CpuIdEntryRegister::from_raw(CASCADELAKE_V1_ECX_7_0),
            edx_7_0: CpuIdEntryRegister::from_raw(CASCADELAKE_V1_EDX_7_0),
            eax_0dh: CpuIdEntryRegister::from_raw(CASCADELAKE_V1_EAX_0DH_1),
        }
    }

    /// The flags that may stay in a register: those of the set that is about it, or every
    /// flag where there is no such set.
    pub open spec fn permitted(self, function: u32, index: u32, register: CpuidReg) -> u32 {
        match (function, index, register) {
            (1, 0, CpuidReg::EDX) => self.edx_1.raw(),
            (1, 0, CpuidReg::ECX) => self.ecx_1.raw(),
            (0x8000_0001, 0, CpuidReg::EDX) => self.edx_8000_0001h.raw(),
            (0x8000_0001, 0, CpuidReg::ECX) => self.ecx_8000_0001h.raw(),
            (7, 0, CpuidReg::EBX) => self.ebx_7_0.raw(),
            (7, 0, CpuidReg::ECX) => self.ecx_7_0.raw(),
            (7, 0, CpuidReg::EDX) => self.edx_7_0.raw(),
            (0xd, 1, CpuidReg::EAX) => self.eax_0dh.raw(),
            _ => u32::MAX,
        }
    }

    /// An entry with every register intersected with the flags that may stay in it. An entry
    /// whose index does not count stays as it is.
    pub open spec fn restricted(self, entry: CpuIdEntry) -> CpuIdEntry {
        if entry.flags == CPUID_FLAG_VALID_INDEX {
            CpuIdEntry {
                eax: entry.eax & self.permitted(entry.function, entry.index, CpuidReg::EAX),
                ebx: entry.ebx & self.permitted(entry.function, entry.index, CpuidReg::EBX),
                ecx: entry.ecx & self.permitted(entry.function, entry.index, CpuidReg::ECX),
                edx: entry.edx & self.permitted(entry.function, entry.index, CpuidReg::EDX),
                ..entry
            }
        } else {
            entry
        }
    }

    /// Restricts the given entries by performing bitwise intersections of registers per set of
    /// matching parameters.
    pub fn restrict(self, cpuid: &mut Vec<CpuIdEntry>)
        ensures
            final(cpuid)@ == Seq::new(
                old(cpuid)@.len(),
                |i: int| self.restricted(old(cpuid)@[i]),
            ),
    {
        let ghost before = cpuid@;
        self.edx_1.intersect_matching(cpuid);
        self.ecx_1.intersect_matching(cpuid);
        self.edx_8000_0001h.intersect_matching(cpuid);
        self.ecx_8000_0001h.intersect_matching(cpuid);
        self.ebx_7_0.intersect_matching(cpuid);
        self.ecx_7_0.intersect_matching(cpuid);
        self.edx_7_0.intersect_matching(cpuid);
        self.eax_0dh.intersect_matching(cpuid);
        assert forall|i: int| 0 <= i < before.len() implies cpuid@[i] == self.restricted(
            #[trigger] before[i],
        ) by {
            crate::cpuid_feature_flags::lemma_and_ones(before[i].eax);
            crate::cpuid_feature_flags::lemma_and_ones(before[i].ebx);
            crate::cpuid_feature_flags::lemma_and_ones(before[i].ecx);
            crate::cpuid_feature_flags::lemma_and_ones(before[i].edx);
        }
        assert(cpuid@ =~= Seq::new(before.len(), |i: int| self.restricted(before[i])));
    }

    /// The features as entries with the given flags, one for each function and index. A
    /// register without features is zero.
    pub fn into_cpuid_entries(self, flags: u32) -> (entries: [CpuIdEntry; 4])
        ensures
            entries@ == seq![
                CpuIdEntry {
                    function: 1,
                    index: 0,
                    flags: flags,
                    eax: 0,
                    ebx: 0,
                    ecx: self.ecx_1.raw(),
                    edx: self.edx_1.raw(),
                },
                CpuIdEntry {
                    function: 0x8000_0001,
                    index: 0,
                    flags: flags,
                    eax: 0,
                    ebx: 0,
                    ecx: self.ecx_8000_0001h.raw(),
                    edx: self.edx_8000_0001h.raw(),
                },
                CpuIdEntry {
                    function: 7,
                    index: 0,
                    flags: flags,
                    eax: 0,
                    ebx: self.ebx_7_0.raw(),
                    ecx: self.ecx_7_0.raw(),
                    edx: self.edx_7_0.raw(),
                },
                CpuIdEntry {
                    function: 0xd,
                    index: 1,
                    flags: flags,
                    eax: self.eax_0dh.raw(),
                    ebx: 0,
                    ecx: 0,
                    edx: 0,
                },
            ],
            forall|i: int|
                0 <= i < 4 ==> self.restricted(#[trigger] entries@[i]) == entries@[i],
    {
        proof {
            assert forall|a: u32| #[trigger] (a & a) == a by {
                assert(a & a == a) by (bit_vector);
            }
            crate::cpuid_feature_flags::lemma_and_ones(0);
        }
        [
            CpuIdEntry {
                function: 1,
                index: 0,
                flags: flags,
                eax: 0,
                ebx: 0,
                ecx: self.ecx_1.into_raw(),
                edx: self.edx_1.into_raw(),
            },
            CpuIdEntry {
                function: 0x8000_0001,
                index: 0,
                flags: flags,
                eax: 0,
                ebx: 0,
                ecx: self.ecx_8000_0001h.into_raw(),
                edx: self.edx_8000_0001h.into_raw(),
            },
            CpuIdEntry {
                function: 7,
                index: 0,
                flags: flags,
                eax: 0,
                ebx: self.ebx_7_0.into_raw(),
                ecx: self.ecx_7_0.into_raw(),
                edx: self.edx_7_0.into_raw(),
            },
            CpuIdEntry {
                function: 0xd,
                index: 1,
                flags: flags,
                eax: self.eax_0dh.into_raw(),
                ebx: 0,
                ecx: 0,
                edx: 0,
            },
        ]
    }
}

/// Restricting an entry with the features of the profile sets no flag, and leaves whatever else
/// the entry holds as it is.
pub proof fn law_profile_sets_no_flag(
    features: CascadeLakeServerV1CpuIdFeatures,
    entry: CpuIdEntry,
    register: CpuidReg,
)
    ensures
        features.restricted(entry).register(register) & entry.register(register)
            == features.restricted(entry).register(register),
        features.restricted(entry).function == entry.function,
        features.restricted(entry).index == entry.index,
        features.restricted(entry).flags == entry.flags,
{
    let value = entry.register(register);
    let permitted = features.permitted(entry.function, entry.index, register);
    assert((value & permitted) & value == value & permitted) by (bit_vector);
    assert(value & value == value) by (bit_vector);
}

/// Every set of the profile restricts the register that it is about, and nothing else is changed.
pub proof fn law_profile_restricts_each_register(
    features: CascadeLakeServerV1CpuIdFeatures,
    entry: CpuIdEntry,
)
    ensures
        entry.flags == CPUID_FLAG_VALID_INDEX && entry.function == 1 && entry.index == 0 ==> {
            let after = features.restricted(entry);
            &&& after.eax == entry.eax
            &&& after.ebx == entry.ebx
            &&& after.ecx == entry.ecx & features.ecx_1.raw()
            &&& after.edx == entry.edx & features.edx_1.raw()
        },
        entry.flags == CPUID_FLAG_VALID_INDEX && entry.function == 0x8000_0001 && entry.index == 0 ==> {
            let after = features.restricted(entry);
            &&& after.eax == entry.eax
            &&& after.ebx == entry.ebx
            &&& after.ecx == entry.ecx & features.ecx_8000_0001h.raw()
            &&& after.edx == entry.edx & features.edx_8000_0001h.raw()
        },
        entry.flags == CPUID_FLAG_VALID_INDEX && entry.function == 7 && entry.index == 0 ==> {
            let after = features.restricted(entry);
            &&& after.eax == entry.eax
            &&& after.ebx == entry.ebx & features.ebx_7_0.raw()
            &&& after.ecx == entry.ecx & features.ecx_7_0.raw()
            &&& after.edx == entry.edx & features.edx_7_0.raw()
        },
        entry.flags == CPUID_FLAG_VALID_INDEX && entry.function == 0xd && entry.index == 1 ==> {
            let after = features.restricted(entry);
            &&& after.eax == entry.eax & features.eax_0dh.raw()
            &&& after.ebx == entry.ebx
            &&& after.ecx == entry.ecx
            &&& after.edx == entry.edx
        },
        entry.flags != CPUID_FLAG_VALID_INDEX ==> features.restricted(entry) == entry,
        !((entry.function == 1 && entry.index == 0) || (entry.function == 0x8000_0001 && entry.index == 0) || (entry.function == 7 && entry.index == 0) || (entry.function == 0xd && entry.index == 1)) ==> features.restricted(entry) == entry,
{
    crate::cpuid_feature_flags::lemma_and_ones(entry.eax);
    crate::cpuid_feature_flags::lemma_and_ones(entry.ebx);
    crate::cpuid_feature_flags::lemma_and_ones(entry.ecx);
    crate::cpuid_feature_flags::lemma_and_ones(entry.edx);
}

} // verus!
