//! CPU profiles: adjusting the output of the CPUID instruction so that hosts with different CPU
//! models look the same to a guest.

use vstd::prelude::*;

use crate::bits::bit32;
use crate::cpuid::{CpuIdEntry, CpuidReg, Parameters};

verus! {

/// A CPU profile is a mechanism for ensuring live migration compatibility between hosts with
/// potentially different CPU models.
#[derive(Debug, Clone, Copy, PartialEq, Eq, Structural)]
pub enum CpuProfile {
    Host,
    Skylake,
    SapphireRapids,
}

impl Default for CpuProfile {
    fn default() -> (profile: Self)
        ensures
            profile == CpuProfile::Host,
    {
        CpuProfile::Host
    }
}

/// The hypervisors that profiles are generated with.
#[derive(Debug, Clone, Copy, PartialEq, Eq, Structural)]
pub enum HypervisorType {
    Kvm,
    Mshv,
}

/// The vendor of a CPU.
#[derive(Debug, Clone, Copy, PartialEq, Eq, Structural)]
pub enum CpuVendor {
    Unknown,
    Intel,
    AMD,
}

/// Used for adjusting an entire CPUID output register (EAX, EBX, ECX or EDX).
#[derive(Debug, Clone, Copy, PartialEq, Eq, Structural)]
pub struct CpuidOutputRegisterAdjustments {
    pub replacements: u32,
    /// Used to zero out the area that the replacements occupy. This mask is not necessarily
    /// the complement of the replacements, as those may pack values of different types.
    pub mask: u32,
}

/// Every CPU profile different from `Host` has associated data.
#[derive(Debug)]
pub struct CpuIdProfileData {
    /// The hypervisor used when generating this CPU profile.
    pub hypervisor: HypervisorType,
    /// The vendor of the CPU belonging to the host that generated this CPU profile.
    pub cpu_vendor: CpuVendor,
    /// Adjustments necessary to become compatible with the desired target.
    pub adjustments: Vec<(Parameters, CpuidOutputRegisterAdjustments)>,
}

/// Entries that a CPU profile requires were not found.
#[derive(Debug, Clone, Copy, PartialEq, Eq, Structural)]
pub struct MissingCpuidEntriesError;

/// No range of sub-leaves has been iterated.
pub open spec fn all_wf(adjustments: Seq<(Parameters, CpuidOutputRegisterAdjustments)>) -> bool {
    forall|i: int| 0 <= i < adjustments.len() ==> (#[trigger] adjustments[i]).0.wf()
}

/// The AMX tile state components, as flags: components 17 and 18.
pub const AMX_TILE_COMPONENTS: u32 = (1u32 << 17) | (1u32 << 18);

/// The leaf that describes state components.
pub const STATE_COMPONENTS_LEAF: u32 = 0xd;

/// The parameters select one sub-leaf of the leaf that describes state components.
pub open spec fn selects_component(parameters: Parameters, sub_leaf: u32) -> bool {
    parameters.leaf == STATE_COMPONENTS_LEAF && parameters.sub_leaf@.start == sub_leaf
        && parameters.sub_leaf@.end == sub_leaf
}

/// An adjustment without the AMX tile state components: their flags in the registers that list
/// the valid components are cleared, and their own sub-leaves are zero.
pub open spec fn without_amx(
    adjustment: (Parameters, CpuidOutputRegisterAdjustments),
) -> (Parameters, CpuidOutputRegisterAdjustments) {
    let (parameters, adjusted) = adjustment;
    let replacements = if (selects_component(parameters, 0) && parameters.register
        == CpuidReg::EAX) || (selects_component(parameters, 1) && parameters.register
        == CpuidReg::ECX) {
        adjusted.replacements & !AMX_TILE_COMPONENTS
    } else if selects_component(parameters, 17) || selects_component(parameters, 18) {
        0
    } else {
        adjusted.replacements
    };
    (parameters, CpuidOutputRegisterAdjustments { replacements: replacements, ..adjusted })
}

impl CpuProfile {
    /// The CPUID data associated with a CPU profile, given what was generated for it.
    ///
    /// If the `amx` flag is false then the AMX tile state components will be zeroed out from
    /// the associated profile data. This is necessary because they will then not be present in
    /// the vector of entries obtained from the hypervisor.
    pub fn cpuid_data(&self, amx: bool, generated: CpuIdProfileData) -> (data: Option<
        CpuIdProfileData,
    >)
        requires
            all_wf(generated.adjustments@),
        ensures
            data is None <==> *self == CpuProfile::Host,
            data matches Some(d) ==> {
                &&& d.hypervisor == generated.hypervisor
                &&& d.cpu_vendor == generated.cpu_vendor
                &&& d.adjustments@ == if amx {
                    generated.adjustments@
                } else {
                    Seq::new(
                        generated.adjustments@.len(),
                        |i: int| without_amx(generated.adjustments@[i]),
                    )
                }
            },
    {
        match self {
            CpuProfile::Host => None,
            CpuProfile::Skylake | CpuProfile::SapphireRapids => {
                let mut data: CpuIdProfileData = generated;
                if !amx {
                    let ghost before = data.adjustments@;
                    let mut i: usize = 0;
                    while i < data.adjustments.len()
                        invariant
                            data.hypervisor == generated.hypervisor,
                            data.cpu_vendor == generated.cpu_vendor,
                            before == generated.adjustments@,
                            i <= before.len() == data.adjustments@.len(),
                            all_wf(before),
                            forall|j: int|
                                0 <= j < i ==> data.adjustments@[j] == without_amx(
                                    #[trigger] before[j],
                                ),
                            forall|j: int|
                                i <= j < before.len() ==> data.adjustments@[j]
                                    == #[trigger] before[j],
                        decreases before.len() - i,
                    {
                        assert(before[i as int].0.wf());
                        let adjustment: &mut (Parameters, CpuidOutputRegisterAdjustments) =
                            &mut data.adjustments[i];
                        let start: u32 = *adjustment.0.sub_leaf.start();
                        let end: u32 = *adjustment.0.sub_leaf.end();
                        if adjustment.0.leaf == STATE_COMPONENTS_LEAF && start == end {
                            if (start == 0 && adjustment.0.register == CpuidReg::EAX) || (start == 1
                                && adjustment.0.register == CpuidReg::ECX) {
                                adjustment.1.replacements = adjustment.1.replacements
                                    & !AMX_TILE_COMPONENTS;
                            }
                            if start == 17 || start == 18 {
                                adjustment.1.replacements = 0;
                            }
                        }
                        i = i + 1;
                    }
                    assert(data.adjustments@ =~= Seq::new(
                        before.len(),
                        |i: int| without_amx(before[i]),
                    ));
                }
                Some(data)
            },
        }
    }
}

/// The adjustment of a register: the first one whose parameters select it.
pub open spec fn adjustment_for(
    adjustments: Seq<(Parameters, CpuidOutputRegisterAdjustments)>,
    leaf: u32,
    sub_leaf: u32,
    register: CpuidReg,
) -> Option<CpuidOutputRegisterAdjustments>
    decreases adjustments.len(),
{
    if adjustments.len() == 0 {
        None
    } else if adjustments[0].0.selects(leaf, sub_leaf) && adjustments[0].0.register == register {
        Some(adjustments[0].1)
    } else {
        adjustment_for(adjustments.drop_first(), leaf, sub_leaf, register)
    }
}

/// The value of a register after it has been adjusted. Without an adjustment it is zero.
pub open spec fn adjusted_register(
    adjustments: Seq<(Parameters, CpuidOutputRegisterAdjustments)>,
    entry: CpuIdEntry,
    register: CpuidReg,
) -> u32 {
    match adjustment_for(adjustments, entry.function, entry.index, register) {
        Some(adjustment) => (entry.register(register) & adjustment.mask) | adjustment.replacements,
        None => 0,
    }
}

/// An entry with each of its registers adjusted.
pub open spec fn adjusted_entry(
    adjustments: Seq<(Parameters, CpuidOutputRegisterAdjustments)>,
    entry: CpuIdEntry,
) -> CpuIdEntry {
    CpuIdEntry {
        eax: adjusted_register(adjustments, entry, CpuidReg::EAX),
        ebx: adjusted_register(adjustments, entry, CpuidReg::EBX),
        ecx: adjusted_register(adjustments, entry, CpuidReg::ECX),
        edx: adjusted_register(adjustments, entry, CpuidReg::EDX),
        ..entry
    }
}

/// The entries with each of them adjusted.
pub open spec fn adjusted_entries(
    adjustments: Seq<(Parameters, CpuidOutputRegisterAdjustments)>,
    cpuid: Seq<CpuIdEntry>,
) -> Seq<CpuIdEntry> {
    Seq::new(cpuid.len(), |i: int| adjusted_entry(adjustments, cpuid[i]))
}

/// The value of a register in the first entry with a leaf and a sub-leaf, or zero.
pub open spec fn first_value(
    cpuid: Seq<CpuIdEntry>,
    leaf: u32,
    sub_leaf: u32,
    register: CpuidReg,
) -> u32
    decreases cpuid.len(),
{
    if cpuid.len() == 0 {
        0
    } else if cpuid[0].function == leaf && cpuid[0].index == sub_leaf {
        cpuid[0].register(register)
    } else {
        first_value(cpuid.drop_first(), leaf, sub_leaf, register)
    }
}

/// The registers that list the valid state components, in two halves each, list a component.
pub open spec fn lists_component(
    user_low: u32,
    supervisor_low: u32,
    user_high: u32,
    supervisor_high: u32,
    component: u32,
) -> bool {
    if component < 32 {
        bit32(user_low, component) || bit32(supervisor_low, component)
    } else {
        bit32(user_high, (component - 32) as u32) || bit32(supervisor_high, (component - 32) as u32)
    }
}

/// The entries list a state component as valid, for user or for supervisor state.
pub open spec fn is_valid_component(cpuid: Seq<CpuIdEntry>, component: u32) -> bool {
    lists_component(
        first_value(cpuid, STATE_COMPONENTS_LEAF, 0, CpuidReg::EAX),
        first_value(cpuid, STATE_COMPONENTS_LEAF, 1, CpuidReg::ECX),
        first_value(cpuid, STATE_COMPONENTS_LEAF, 0, CpuidReg::EDX),
        first_value(cpuid, STATE_COMPONENTS_LEAF, 1, CpuidReg::EDX),
        component,
    )
}

/// The parameters select state components with sub-leaves of their own, none of which is valid.
pub open spec fn selects_invalid_components(cpuid: Seq<CpuIdEntry>, parameters: Parameters) -> bool {
    let start = parameters.sub_leaf@.start;
    let end = parameters.sub_leaf@.end;
    &&& parameters.leaf == STATE_COMPONENTS_LEAF
    &&& 2 <= start && end < 64
    &&& forall|component: u32|
        start <= component <= end ==> !#[trigger] is_valid_component(cpuid, component)
}

/// Some entry is selected by the parameters.
pub open spec fn has_selected(cpuid: Seq<CpuIdEntry>, parameters: Parameters) -> bool {
    exists|i: int|
        0 <= i < cpuid.len() && parameters.selects(
            (#[trigger] cpuid[i]).function,
            cpuid[i].index,
        )
}

/// What an adjustment puts into the output is found there: it puts nothing, or it is about
/// invalid state components, which can be ignored, or there is an entry for it.
pub open spec fn is_found(
    cpuid: Seq<CpuIdEntry>,
    adjustment: (Parameters, CpuidOutputRegisterAdjustments),
) -> bool {
    adjustment.1.replacements == 0 || selects_invalid_components(cpuid, adjustment.0)
        || has_selected(cpuid, adjustment.0)
}

/// What each of the adjustments puts into the output is found there.
pub open spec fn all_found(
    cpuid: Seq<CpuIdEntry>,
    adjustments: Seq<(Parameters, CpuidOutputRegisterAdjustments)>,
) -> bool {
    forall|i: int| 0 <= i < adjustments.len() ==> is_found(cpuid, #[trigger] adjustments[i])
}

fn register_value(cpuid: &[CpuIdEntry], leaf: u32, sub_leaf: u32, register: CpuidReg) -> (value: u32)
    ensures
        value == first_value(cpuid@, leaf, sub_leaf, register),
{
    let mut i: usize = 0;
    assert(cpuid@.skip(0) =~= cpuid@);
    while i < cpuid.len()
        invariant
            i <= cpuid@.len(),
            first_value(cpuid@, leaf, sub_leaf, register) == first_value(
                cpuid@.skip(i as int),
                leaf,
                sub_leaf,
                register,
            ),
        decreases cpuid@.len() - i,
    {
        assert(cpuid@.skip(i as int).drop_first() =~= cpuid@.skip(i + 1));
        let entry: CpuIdEntry = cpuid[i];
        if entry.function == leaf && entry.index == sub_leaf {
            return match register {
                CpuidReg::EAX => entry.eax,
                CpuidReg::EBX => entry.ebx,
                CpuidReg::ECX => entry.ecx,
                CpuidReg::EDX => entry.edx,
            };
        }
        i = i + 1;
    }
    0
}

fn selects_unlisted(
    parameters: &Parameters,
    user_low: u32,
    supervisor_low: u32,
    user_high: u32,
    supervisor_high: u32,
) -> (unlisted: bool)
    requires
        parameters.wf(),
    ensures
        unlisted <==> {
            &&& parameters.leaf == STATE_COMPONENTS_LEAF
            &&& 2 <= parameters.sub_leaf@.start && parameters.sub_leaf@.end < 64
            &&& forall|component: u32|
                parameters.sub_leaf@.start <= component <= parameters.sub_leaf@.end
                    ==> !#[trigger] lists_component(
                    user_low,
                    supervisor_low,
                    user_high,
                    supervisor_high,
                    component,
                )
        },
{
    let start: u32 = *parameters.sub_leaf.start();
    let end: u32 = *parameters.sub_leaf.end();
    if parameters.leaf != STATE_COMPONENTS_LEAF || start < 2 || 64 <= end {
        return false;
    }
    let mut c: u32 = start;
    while c <= end
        invariant
            2 <= start <= c,
            c <= end + 1 || c == start,
            end < 64,
            start == parameters.sub_leaf@.start,
            end == parameters.sub_leaf@.end,
            forall|component: u32|
                start <= component < c ==> !#[trigger] lists_component(
                    user_low,
                    supervisor_low,
                    user_high,
                    supervisor_high,
                    component,
                ),
        decreases 64 - c,
    {
        let listed: bool = if c < 32 {
            (user_low >> c) & 1 == 1 || (supervisor_low >> c) & 1 == 1
        } else {
            (user_high >> (c - 32)) & 1 == 1 || (supervisor_high >> (c - 32)) & 1 == 1
        };
        assert(listed == lists_component(
            user_low,
            supervisor_low,
            user_high,
            supervisor_high,
            c,
        ));
        if listed {
            return false;
        }
        c = c + 1;
    }
    true
}

fn find_selected(cpuid: &[CpuIdEntry], parameters: &Parameters) -> (found: bool)
    requires
        parameters.wf(),
    ensures
        found <==> has_selected(cpuid@, *parameters),
{
    let mut i: usize = 0;
    while i < cpuid.len()
        invariant
            parameters.wf(),
            i <= cpuid@.len(),
            forall|j: int|
                0 <= j < i ==> !parameters.selects(
                    (#[trigger] cpuid@[j]).function,
                    cpuid@[j].index,
                ),
        decreases cpuid@.len() - i,
    {
        if parameters.is_for(cpuid[i].function, cpuid[i].index) {
            return true;
        }
        i = i + 1;
    }
    false
}

impl CpuidOutputRegisterAdjustments {
    /// Keeps the masked part of a register, and puts the replacements into it.
    pub fn adjust(self, cpuid_output_register: &mut u32)
        ensures
            *final(cpuid_output_register) == (*old(cpuid_output_register) & self.mask)
                | self.replacements,
            forall|bit: u32|
                bit < 32 ==> (#[trigger] bit32(*final(cpuid_output_register), bit) <==> bit32(
                    self.replacements,
                    bit,
                ) || (bit32(self.mask, bit) && bit32(*old(cpuid_output_register), bit))),
    {
        proof {
            let was = *cpuid_output_register;
            let mask = self.mask;
            let replacements = self.replacements;
            assert forall|bit: u32| bit < 32 implies (#[trigger] bit32(
                (was & mask) | replacements,
                bit,
            ) <==> bit32(replacements, bit) || (bit32(mask, bit) && bit32(was, bit))) by {
                assert(((((was & mask) | replacements) >> bit) & 1 == 1) == ((replacements >> bit)
                    & 1 == 1 || ((mask >> bit) & 1 == 1 && (was >> bit) & 1 == 1))) by (bit_vector)
                    requires
                        bit < 32,
                ;
            }
        }
        *cpuid_output_register = (*cpuid_output_register & self.mask) | self.replacements;
    }

    fn find(
        adjustments: &[(Parameters, Self)],
        leaf: u32,
        sub_leaf: u32,
        register: CpuidReg,
    ) -> (adjustment: Option<Self>)
        requires
            all_wf(adjustments@),
        ensures
            adjustment == adjustment_for(adjustments@, leaf, sub_leaf, register),
    {
        let mut i: usize = 0;
        assert(adjustments@.skip(0) =~= adjustments@);
        while i < adjustments.len()
            invariant
                all_wf(adjustments@),
                i <= adjustments@.len(),
                adjustment_for(adjustments@, leaf, sub_leaf, register) == adjustment_for(
                    adjustments@.skip(i as int),
                    leaf,
                    sub_leaf,
                    register,
                ),
            decreases adjustments@.len() - i,
        {
            assert(adjustments@.skip(i as int).drop_first() =~= adjustments@.skip(i + 1));
            assert(adjustments@[i as int].0.wf());
            let (parameters, adjustment) = &adjustments[i];
            if parameters.is_for(leaf, sub_leaf) && parameters.register == register {
                return Some(*adjustment);
            }
            i = i + 1;
        }
        None
    }

    fn adjusted(
        adjustments: &[(Parameters, Self)],
        entry: &CpuIdEntry,
        register: CpuidReg,
        value: u32,
    ) -> (adjusted: u32)
        requires
            all_wf(adjustments@),
            value == entry.register(register),
        ensures
            adjusted == adjusted_register(adjustments@, *entry, register),
    {
        let mut adjusted: u32 = value;
        // Without an adjustment the trivial one leads to the register being zeroed out.
        let adjustment: Self = match Self::find(adjustments, entry.function, entry.index, register) {
            Some(adjustment) => adjustment,
            None => CpuidOutputRegisterAdjustments { replacements: 0, mask: 0 },
        };
        adjustment.adjust(&mut adjusted);
        assert((value & 0) | 0 == 0) by (bit_vector);
        adjusted
    }

    /// Adjusts every register of every entry. This fails if an entry that was supposed to be
    /// replaced with something else than zero is missing.
    pub fn adjust_cpuid_entries(cpuid: Vec<CpuIdEntry>, adjustments: &[(Parameters, Self)]) -> (result:
        Result<Vec<CpuIdEntry>, MissingCpuidEntriesError>)
        requires
            all_wf(adjustments@),
        ensures
            match result {
                Ok(entries) => all_found(adjusted_entries(adjustments@, cpuid@), adjustments@)
                    && entries@ == adjusted_entries(adjustments@, cpuid@),
                Err(_) => !all_found(adjusted_entries(adjustments@, cpuid@), adjustments@),
            },
    {
        let ghost before = cpuid@;
        let mut cpuid: Vec<CpuIdEntry> = cpuid;
        let mut i: usize = 0;
        while i < cpuid.len()
            invariant
                all_wf(adjustments@),
                i <= cpuid@.len() == before.len(),
                forall|j: int|
                    0 <= j < i ==> cpuid@[j] == adjusted_entry(
                        adjustments@,
                        #[trigger] before[j],
                    ),
                forall|j: int| i <= j < before.len() ==> cpuid@[j] == #[trigger] before[j],
            decreases cpuid@.len() - i,
        {
            let entry: CpuIdEntry = cpuid[i];
            let adjusted: CpuIdEntry = CpuIdEntry {
                eax: Self::adjusted(adjustments, &entry, CpuidReg::EAX, entry.eax),
                ebx: Self::adjusted(adjustments, &entry, CpuidReg::EBX, entry.ebx),
                ecx: Self::adjusted(adjustments, &entry, CpuidReg::ECX, entry.ecx),
                edx: Self::adjusted(adjustments, &entry, CpuidReg::EDX, entry.edx),
                ..entry
            };
            cpuid.set(i, adjusted);
            i = i + 1;
        }
        assert(cpuid@ =~= adjusted_entries(adjustments@, before));
        match Self::expected_entries_found(&cpuid, adjustments) {
            Ok(_) => Ok(cpuid),
            Err(e) => Err(e),
        }
    }

    /// Checks that every value that was supposed to be replaced with something else than zero
    /// is found, in entries that have already been adjusted.
    pub fn expected_entries_found(
        cpuid: &[CpuIdEntry],
        adjustments: &[(Parameters, Self)],
    ) -> (result: Result<(), MissingCpuidEntriesError>)
        requires
            all_wf(adjustments@),
        ensures
            result is Ok <==> all_found(cpuid@, adjustments@),
    {
        // Invalid state components can be ignored.
        let eax_0xd_0: u32 = register_value(cpuid, STATE_COMPONENTS_LEAF, 0, CpuidReg::EAX);
        let ecx_0xd_1: u32 = register_value(cpuid, STATE_COMPONENTS_LEAF, 1, CpuidReg::ECX);
        let edx_0xd_0: u32 = register_value(cpuid, STATE_COMPONENTS_LEAF, 0, CpuidReg::EDX);
        let edx_0xd_1: u32 = register_value(cpuid, STATE_COMPONENTS_LEAF, 1, CpuidReg::EDX);
        let mut missing_entry: bool = false;
        let mut i: usize = 0;
        while i < adjustments.len()
            invariant
                all_wf(adjustments@),
                i <= adjustments@.len(),
                eax_0xd_0 == first_value(cpuid@, STATE_COMPONENTS_LEAF, 0, CpuidReg::EAX),
                ecx_0xd_1 == first_value(cpuid@, STATE_COMPONENTS_LEAF, 1, CpuidReg::ECX),
                edx_0xd_0 == first_value(cpuid@, STATE_COMPONENTS_LEAF, 0, CpuidReg::EDX),
                edx_0xd_1 == first_value(cpuid@, STATE_COMPONENTS_LEAF, 1, CpuidReg::EDX),
                missing_entry <==> exists|j: int|
                    0 <= j < i && !is_found(cpuid@, #[trigger] adjustments@[j]),
            decreases adjustments@.len() - i,
        {
            assert(adjustments@[i as int].0.wf());
            let (parameters, adjustment) = &adjustments[i];
            let found: bool = adjustment.replacements == 0 || selects_unlisted(
                parameters,
                eax_0xd_0,
                ecx_0xd_1,
                edx_0xd_0,
                edx_0xd_1,
            ) || find_selected(cpuid, parameters);
            assert(forall|component: u32|
                is_valid_component(cpuid@, component) == #[trigger] lists_component(
                    eax_0xd_0,
                    ecx_0xd_1,
                    edx_0xd_0,
                    edx_0xd_1,
                    component,
                ));
            assert(found == is_found(cpuid@, adjustments@[i as int]));
            if !found {
                missing_entry = true;
            }
            i = i + 1;
        }
        if missing_entry {
            Err(MissingCpuidEntriesError)
        } else {
            Ok(())
        }
    }
}

/// An adjustment of a single state component that is not valid is ignored.
pub proof fn law_invalid_component_is_ignored(
    cpuid: Seq<CpuIdEntry>,
    adjustment: (Parameters, CpuidOutputRegisterAdjustments),
    component: u32,
)
    requires
        selects_component(adjustment.0, component),
        2 <= component < 64,
        !is_valid_component(cpuid, component),
    ensures
        is_found(cpuid, adjustment),
{
}

/// Adjusting an entry once more with the same adjustments changes nothing.
pub proof fn law_adjusting_is_stable(
    adjustments: Seq<(Parameters, CpuidOutputRegisterAdjustments)>,
    entry: CpuIdEntry,
)
    ensures
        adjusted_entry(adjustments, adjusted_entry(adjustments, entry)) == adjusted_entry(
            adjustments,
            entry,
        ),
{
    assert forall|value: u32, mask: u32, replacements: u32| #[trigger]
        ((((value & mask) | replacements) & mask) | replacements) == (value & mask)
            | replacements by {
        assert(((((value & mask) | replacements) & mask) | replacements) == (value & mask)
            | replacements) by (bit_vector);
    }
}

/// Entries of two hosts that agree in what the adjustments keep of them are equal after they
/// have been adjusted.
pub proof fn law_adjusted_entries_agree(
    adjustments: Seq<(Parameters, CpuidOutputRegisterAdjustments)>,
    one: CpuIdEntry,
    other: CpuIdEntry,
)
    requires
        one.function == other.function,
        one.index == other.index,
        one.flags == other.flags,
        forall|register: CpuidReg|
            match #[trigger] adjustment_for(adjustments, one.function, one.index, register) {
                Some(adjustment) => one.register(register) & adjustment.mask == other.register(
                    register,
                ) & adjustment.mask,
                None => true,
            },
    ensures
        adjusted_entry(adjustments, one) == adjusted_entry(adjustments, other),
{
}

/// A register without an adjustment is zeroed out, and whatever else an entry holds stays as it
/// is.
pub proof fn law_unlisted_register_is_zero(
    adjustments: Seq<(Parameters, CpuidOutputRegisterAdjustments)>,
    entry: CpuIdEntry,
    register: CpuidReg,
)
    requires
        forall|i: int|
            0 <= i < adjustments.len() ==> !((#[trigger] adjustments[i]).0.selects(
                entry.function,
                entry.index,
            ) && adjustments[i].0.register == register),
    ensures
        adjusted_entry(adjustments, entry).register(register) == 0,
        adjusted_entry(adjustments, entry).function == entry.function,
        adjusted_entry(adjustments, entry).index == entry.index,
        adjusted_entry(adjustments, entry).flags == entry.flags,
    decreases adjustments.len(),
{
    if adjustments.len() > 0 {
        let rest = adjustments.drop_first();
        assert(adjustments[0] == adjustments[0]);
        assert forall|i: int| 0 <= i < rest.len() implies !((#[trigger] rest[i]).0.selects(
            entry.function,
            entry.index,
        ) && rest[i].0.register == register) by {
            assert(rest[i] == adjustments[i + 1]);
        }
        law_unlisted_register_is_zero(rest, entry, register);
    }
}

/// The adjustment with the given position is the first one that selects a register of an entry.
pub open spec fn is_first_selecting(
    adjustments: Seq<(Parameters, CpuidOutputRegisterAdjustments)>,
    entry: CpuIdEntry,
    register: CpuidReg,
    position: int,
) -> bool {
    &&& 0 <= position < adjustments.len()
    &&& forall|i: int|
        0 <= i <= position ==> (i == position <==> {
            &&& (#[trigger] adjustments[i]).0.leaf == entry.function
            &&& adjustments[i].0.sub_leaf@.start <= entry.index
            &&& entry.index <= adjustments[i].0.sub_leaf@.end
            &&& adjustments[i].0.register == register
        })
}

proof fn lemma_first_selecting(
    adjustments: Seq<(Parameters, CpuidOutputRegisterAdjustments)>,
    entry: CpuIdEntry,
    register: CpuidReg,
    position: int,
)
    requires
        is_first_selecting(adjustments, entry, register, position),
    ensures
        adjustment_for(adjustments, entry.function, entry.index, register) == Some(
            adjustments[position].1,
        ),
    decreases adjustments.len(),
{
    assert(adjustments[0] == adjustments[0]);
    if position > 0 {
        let rest = adjustments.drop_first();
        assert forall|i: int| 0 <= i <= position - 1 implies (i == position - 1 <==> {
            &&& (#[trigger] rest[i]).0.leaf == entry.function
            &&& rest[i].0.sub_leaf@.start <= entry.index
            &&& entry.index <= rest[i].0.sub_leaf@.end
            &&& rest[i].0.register == register
        }) by {
            assert(rest[i] == adjustments[i + 1]);
        }
        lemma_first_selecting(rest, entry, register, position - 1);
    }
}

/// After the entries have been adjusted, each register of each entry is made of the first
/// adjustment that selects it and of what the register held: every bit of the replacements is
/// set, every bit of the mask that is not replaced is as it was, and every other bit is clear.
pub proof fn law_adjusted_bits(
    adjustments: Seq<(Parameters, CpuidOutputRegisterAdjustments)>,
    cpuid: Seq<CpuIdEntry>,
    i: int,
    register: CpuidReg,
    position: int,
    bit: u32,
)
    requires
        0 <= i < cpuid.len(),
        is_first_selecting(adjustments, cpuid[i], register, position),
        bit < 32,
    ensures
        ({
            let (before, after) = (cpuid[i], adjusted_entries(adjustments, cpuid)[i]);
            let (was, is) = match register {
                CpuidReg::EAX => (before.eax, after.eax),
                CpuidReg::EBX => (before.ebx, after.ebx),
                CpuidReg::ECX => (before.ecx, after.ecx),
                CpuidReg::EDX => (before.edx, after.edx),
            };
            let adjustment = adjustments[position].1;
            &&& bit32(adjustment.replacements, bit) ==> bit32(is, bit)
            &&& bit32(adjustment.mask, bit) && !bit32(adjustment.replacements, bit) ==> bit32(
                is,
                bit,
            ) == bit32(was, bit)
            &&& !bit32(adjustment.mask, bit) && !bit32(adjustment.replacements, bit) ==> !bit32(
                is,
                bit,
            )
        }),
        adjusted_entries(adjustments, cpuid).len() == cpuid.len(),
{
    lemma_first_selecting(adjustments, cpuid[i], register, position);
    let was = match register {
        CpuidReg::EAX => cpuid[i].eax,
        CpuidReg::EBX => cpuid[i].ebx,
        CpuidReg::ECX => cpuid[i].ecx,
        CpuidReg::EDX => cpuid[i].edx,
    };
    let mask = adjustments[position].1.mask;
    let replacements = adjustments[position].1.replacements;
    assert(((((was & mask) | replacements) >> bit) & 1 == 1) == ((replacements >> bit) & 1 == 1 || (
    (mask >> bit) & 1 == 1 && (was >> bit) & 1 == 1))) by (bit_vector)
        requires
            bit < 32,
    ;
}

/// Adjusting keeps the number of entries, their order, and what each of them is about.
pub proof fn law_adjusting_keeps_entries(
    adjustments: Seq<(Parameters, CpuidOutputRegisterAdjustments)>,
    cpuid: Seq<CpuIdEntry>,
    i: int,
)
    requires
        0 <= i < cpuid.len(),
    ensures
        adjusted_entries(adjustments, cpuid).len() == cpuid.len(),
        adjusted_entries(adjustments, cpuid)[i].function == cpuid[i].function,
        adjusted_entries(adjustments, cpuid)[i].index == cpuid[i].index,
        adjusted_entries(adjustments, cpuid)[i].flags == cpuid[i].flags,
{
}

/// An adjustment that puts a value into a leaf other than that of the state components fails if
/// there is no entry for it, whatever the entries hold.
pub proof fn law_missing_entry_is_reported(
    adjustments: Seq<(Parameters, CpuidOutputRegisterAdjustments)>,
    cpuid: Seq<CpuIdEntry>,
    position: int,
)
    requires
        0 <= position < adjustments.len(),
        adjustments[position].1.replacements != 0,
        adjustments[position].0.leaf != 0xd || adjustments[position].0.sub_leaf@.start < 2
            || adjustments[position].0.sub_leaf@.end >= 64,
        forall|i: int|
            0 <= i < cpuid.len() ==> !((#[trigger] cpuid[i]).function
                == adjustments[position].0.leaf && adjustments[position].0.sub_leaf@.start
                <= cpuid[i].index && cpuid[i].index <= adjustments[position].0.sub_leaf@.end),
    ensures
        !all_found(adjusted_entries(adjustments, cpuid), adjustments),
{
    let entries = adjusted_entries(adjustments, cpuid);
    assert(!is_found(entries, adjustments[position])) by {
        assert forall|i: int| 0 <= i < entries.len() implies !adjustments[position].0.selects(
            (#[trigger] entries[i]).function,
            entries[i].index,
        ) by {
            assert(cpuid[i] == cpuid[i]);
        }
    }
}

/// Adjusting does not fail if there is an entry for every adjustment that puts a value into the
/// output.
pub proof fn law_complete_entries_are_accepted(
    adjustments: Seq<(Parameters, CpuidOutputRegisterAdjustments)>,
    cpuid: Seq<CpuIdEntry>,
)
    requires
        forall|position: int|
            0 <= position < adjustments.len() ==> (#[trigger] adjustments[position]).1.replacements
                == 0 || exists|i: int|
                0 <= i < cpuid.len() && (#[trigger] cpuid[i]).function
                    == adjustments[position].0.leaf && adjustments[position].0.sub_leaf@.start
                    <= cpuid[i].index && cpuid[i].index <= adjustments[position].0.sub_leaf@.end,
    ensures
        all_found(adjusted_entries(adjustments, cpuid), adjustments),
{
    let entries = adjusted_entries(adjustments, cpuid);
    assert forall|position: int| 0 <= position < adjustments.len() implies is_found(
        entries,
        #[trigger] adjustments[position],
    ) by {
        let parameters = adjustments[position].0;
        if adjustments[position].1.replacements != 0 {
            let i = choose|i: int|
                0 <= i < cpuid.len() && (#[trigger] cpuid[i]).function == parameters.leaf
                    && parameters.sub_leaf@.start <= cpuid[i].index && cpuid[i].index
                    <= parameters.sub_leaf@.end;
            assert(parameters.selects(entries[i].function, entries[i].index));
        }
    }
}

proof fn lemma_first_value(
    cpuid: Seq<CpuIdEntry>,
    leaf: u32,
    sub_leaf: u32,
    register: CpuidReg,
    position: int,
)
    requires
        0 <= position < cpuid.len(),
        forall|i: int|
            0 <= i <= position ==> (i == position <==> (#[trigger] cpuid[i]).function == leaf
                && cpuid[i].index == sub_leaf),
    ensures
        first_value(cpuid, leaf, sub_leaf, register) == cpuid[position].register(register),
    decreases cpuid.len(),
{
    assert(cpuid[0] == cpuid[0]);
    if position > 0 {
        let rest = cpuid.drop_first();
        assert forall|i: int| 0 <= i <= position - 1 implies (i == position - 1 <==> (
        #[trigger] rest[i]).function == leaf && rest[i].index == sub_leaf) by {
            assert(rest[i] == cpuid[i + 1]);
        }
        lemma_first_value(rest, leaf, sub_leaf, register, position - 1);
    }
}

/// A state component from 2 on that the first entries of the leaf `0xd` list must have an entry
/// of its own where an adjustment puts a value into it, and one that they do not list need not.
/// User state components are listed in EAX and EDX of sub-leaf 0, supervisor ones in ECX and EDX
/// of sub-leaf 1.
pub proof fn law_listed_component_must_be_found(
    cpuid: Seq<CpuIdEntry>,
    user: int,
    supervisor: int,
    adjustment: (Parameters, CpuidOutputRegisterAdjustments),
    component: u32,
)
    requires
        0 <= user < cpuid.len(),
        0 <= supervisor < cpuid.len(),
        forall|i: int|
            0 <= i <= user ==> (i == user <==> (#[trigger] cpuid[i]).function == 0xd
                && cpuid[i].index == 0),
        forall|i: int|
            0 <= i <= supervisor ==> (i == supervisor <==> (#[trigger] cpuid[i]).function == 0xd
                && cpuid[i].index == 1),
        adjustment.0.leaf == 0xd,
        adjustment.0.sub_leaf@.start == component,
        adjustment.0.sub_leaf@.end == component,
        adjustment.1.replacements != 0,
        2 <= component < 64,
        forall|i: int|
            0 <= i < cpuid.len() ==> !((#[trigger] cpuid[i]).function == 0xd && cpuid[i].index
                == component),
    ensures
        is_found(cpuid, adjustment) <==> !(if component < 32 {
            bit32(cpuid[user].eax, component) || bit32(cpuid[supervisor].ecx, component)
        } else {
            bit32(cpuid[user].edx, (component - 32) as u32) || bit32(
                cpuid[supervisor].edx,
                (component - 32) as u32,
            )
        }),
{
    lemma_first_value(cpuid, 0xd, 0, CpuidReg::EAX, user);
    lemma_first_value(cpuid, 0xd, 0, CpuidReg::EDX, user);
    lemma_first_value(cpuid, 0xd, 1, CpuidReg::ECX, supervisor);
    lemma_first_value(cpuid, 0xd, 1, CpuidReg::EDX, supervisor);
    assert(!has_selected(cpuid, adjustment.0));
    let listed = if component < 32 {
        bit32(cpuid[user].eax, component) || bit32(cpuid[supervisor].ecx, component)
    } else {
        bit32(cpuid[user].edx, (component - 32) as u32) || bit32(
            cpuid[supervisor].edx,
            (component - 32) as u32,
        )
    };
    assert(is_valid_component(cpuid, component) == listed);
    if listed {
        assert(!selects_invalid_components(cpuid, adjustment.0));
    } else {
        assert(selects_invalid_components(cpuid, adjustment.0));
    }
}

/// An adjustment that is about neither the lists of state components nor the tile state
/// components stays as it is without AMX.
pub proof fn law_other_adjustments_are_kept(
    adjustment: (Parameters, CpuidOutputRegisterAdjustments),
)
    requires
        adjustment.0.leaf != 0xd || adjustment.0.sub_leaf@.start != adjustment.0.sub_leaf@.end || (
        adjustment.0.sub_leaf@.start != 17 && adjustment.0.sub_leaf@.start != 18 && !(
        adjustment.0.sub_leaf@.start == 0 && adjustment.0.register == CpuidReg::EAX) && !(
        adjustment.0.sub_leaf@.start == 1 && adjustment.0.register == CpuidReg::ECX)),
    ensures
        without_amx(adjustment) == adjustment,
{
}

/// Without AMX no adjustment puts a flag of a tile state component into the registers that list
/// the valid components, nor anything into the sub-leaves of those components. Every other flag
/// stays as it was.
pub proof fn law_tile_components_are_zeroed(
    adjustment: (Parameters, CpuidOutputRegisterAdjustments),
    component: u32,
)
    requires
        component < 32,
    ensures
        selects_component(adjustment.0, 0) && adjustment.0.register == CpuidReg::EAX ==> bit32(
            without_amx(adjustment).1.replacements,
            component,
        ) == (bit32(adjustment.1.replacements, component) && component != 17 && component != 18),
        selects_component(adjustment.0, 1) && adjustment.0.register == CpuidReg::ECX ==> bit32(
            without_amx(adjustment).1.replacements,
            component,
        ) == (bit32(adjustment.1.replacements, component) && component != 17 && component != 18),
        selects_component(adjustment.0, 17) ==> without_amx(adjustment).1.replacements == 0,
        selects_component(adjustment.0, 18) ==> without_amx(adjustment).1.replacements == 0,
        without_amx(adjustment).0 == adjustment.0,
        without_amx(adjustment).1.mask == adjustment.1.mask,
{
    let w = adjustment.1.replacements;
    assert((((w & !((1u32 << 17) | (1u32 << 18))) >> component) & 1 == 1) == ((w >> component) & 1
        == 1 && component != 17 && component != 18)) by (bit_vector)
        requires
            component < 32,
    ;
}

} // verus!
