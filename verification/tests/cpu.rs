use cloud_hypervisor::cpu_profile::{
    CpuIdProfileData, CpuProfile, CpuVendor, CpuidOutputRegisterAdjustments, HypervisorType,
    MissingCpuidEntriesError,
};
use cloud_hypervisor::cpu_profiles::{self, CascadeLakeServerV1CpuIdFeatures};
use cloud_hypervisor::cpuid::{
    deserialize_from_hex, serialize_as_hex, set_bit_positions, CpuIdEntry, CpuidReg, NotHex,
    Parameters, CPUID_FLAG_VALID_INDEX, EAX, EBX, ECX, EDX,
};
use cloud_hypervisor::cpuid_feature_flags::{
    CpuIdEntryRegister, CpuIdFeatureFlags, AVX, AVX512VNNI, FPU, INVTSC, PKU, SSE2, SSSE3, VME,
    XSAVES,
};

fn entry(function: u32, index: u32, registers: [u32; 4]) -> CpuIdEntry {
    CpuIdEntry {
        function,
        index,
        flags: CPUID_FLAG_VALID_INDEX,
        eax: registers[0],
        ebx: registers[1],
        ecx: registers[2],
        edx: registers[3],
    }
}

fn adjustment(
    leaf: u32,
    sub_leaf: std::ops::RangeInclusive<u32>,
    register: CpuidReg,
    replacements: u32,
    mask: u32,
) -> (Parameters, CpuidOutputRegisterAdjustments) {
    (
        Parameters {
            leaf,
            sub_leaf,
            register,
        },
        CpuidOutputRegisterAdjustments { replacements, mask },
    )
}

#[test]
fn numbers_are_serialized_with_the_same_length() {
    assert_eq!(serialize_as_hex(0), "0x00000000");
    assert_eq!(serialize_as_hex(0xd), "0x0000000d");
    assert_eq!(serialize_as_hex(u32::MAX), "0xffffffff");
    for n in [0, 1, 0x8000_0001, 0x1234_abcd, u32::MAX] {
        assert_eq!(deserialize_from_hex(&serialize_as_hex(n)), Ok(n));
        assert_eq!(serialize_as_hex(n), format!("{n:#010x}"));
    }
}

#[test]
fn hexadecimal_numbers_are_parsed() {
    assert_eq!(deserialize_from_hex("0xA"), Ok(10));
    assert_eq!(deserialize_from_hex("0x+fF"), Ok(255));
    assert_eq!(deserialize_from_hex("0x0000000000000001"), Ok(1));
    for text in ["", "0x", "0x+", "12", "0X1", "0x1_0", "0x100000000", "0x-1", " 0x1"] {
        assert_eq!(deserialize_from_hex(text), Err(NotHex));
    }
}

#[test]
fn bit_positions_are_ascending() {
    assert!(set_bit_positions(0).is_empty());
    assert_eq!(set_bit_positions(0x8000_0005), [0, 2, 31]);
}

#[test]
fn registers_are_adjusted() {
    let adjustments = [
        adjustment(1, 0..=0, CpuidReg::EAX, 0x10, 0xff00),
        // Only the first match counts.
        adjustment(1, 0..=5, CpuidReg::EAX, 0x1, 0),
        adjustment(1, 0..=5, CpuidReg::EDX, 0, u32::MAX),
    ];
    let cpuid = vec![
        entry(1, 0, [0xabcd, 1, 2, 3]),
        entry(1, 5, [0xabcd, 1, 2, 4]),
        entry(2, 0, [5, 6, 7, 8]),
    ];
    let adjusted =
        CpuidOutputRegisterAdjustments::adjust_cpuid_entries(cpuid, &adjustments).unwrap();
    assert_eq!(
        adjusted,
        [
            entry(1, 0, [0xab10, 0, 0, 3]),
            entry(1, 5, [1, 0, 0, 4]),
            entry(2, 0, [0, 0, 0, 0]),
        ]
    );
    let mut register = 0xffff_ffff;
    adjustments[0].1.adjust(&mut register);
    assert_eq!(register, 0xff10);
}

#[test]
fn adjusting_twice_changes_nothing() {
    let adjustments = [
        adjustment(7, 0..=1, CpuidReg::EBX, 0x3, 0xf0),
        adjustment(7, 0..=1, CpuidReg::ECX, 0x30, 0x3f),
    ];
    let once = CpuidOutputRegisterAdjustments::adjust_cpuid_entries(
        vec![entry(7, 0, [1, 0xfff, 0xfff, 4])],
        &adjustments,
    )
    .unwrap();
    let twice =
        CpuidOutputRegisterAdjustments::adjust_cpuid_entries(once.clone(), &adjustments).unwrap();
    assert_eq!(once, twice);
}

#[test]
fn missing_entries_are_errors() {
    let required = [adjustment(7, 1..=1, CpuidReg::EAX, 1, 0)];
    let cpuid = vec![entry(7, 0, [1, 1, 1, 1])];
    assert_eq!(
        CpuidOutputRegisterAdjustments::adjust_cpuid_entries(cpuid.clone(), &required),
        Err(MissingCpuidEntriesError)
    );
    // Nothing is required where nothing is put.
    let optional = [adjustment(7, 1..=1, CpuidReg::EAX, 0, 0)];
    assert!(CpuidOutputRegisterAdjustments::adjust_cpuid_entries(cpuid, &optional).is_ok());
}

#[test]
fn invalid_state_components_are_not_required() {
    let components = [adjustment(0xd, 2..=63, CpuidReg::EAX, 0x40, 0)];
    let found = |eax_0: u32, ecx_1: u32, edx_0: u32, edx_1: u32| {
        CpuidOutputRegisterAdjustments::expected_entries_found(
            &[
                entry(0xd, 0, [eax_0, 0, 0, edx_0]),
                entry(0xd, 1, [0, 0, ecx_1, edx_1]),
            ],
            &components,
        )
        .is_ok()
    };
    // Components 0 and 1 are not meant.
    assert!(found(0b11, 0, 0, 0));
    assert!(!found(0b111, 0, 0, 0));
    assert!(!found(0, 1 << 31, 0, 0));
    assert!(!found(0, 0, 1, 0));
    assert!(!found(0, 0, 0, 1 << 31));
    // A valid component needs an entry.
    assert!(CpuidOutputRegisterAdjustments::expected_entries_found(
        &[entry(0xd, 0, [0b111, 0, 0, 0]), entry(0xd, 2, [0, 0, 0, 0])],
        &components,
    )
    .is_ok());
    // So it is with components of one half alone.
    let required = |sub_leaves: std::ops::RangeInclusive<u32>, eax_0: u32, edx_0: u32| {
        CpuidOutputRegisterAdjustments::expected_entries_found(
            &[entry(0xd, 0, [eax_0, 0, 0, edx_0])],
            &[adjustment(0xd, sub_leaves, CpuidReg::EAX, 1, 0)],
        )
        .is_err()
    };
    assert!(!required(5..=5, 0b11, 0));
    assert!(required(5..=5, 1 << 5, 0));
    assert!(!required(40..=41, u32::MAX, 0));
    assert!(required(40..=41, 0, 1 << 9));
    // Other sub-leaves are always required.
    assert!(!required(0..=0, 0, 0));
    assert!(required(1..=1, 0, 0));
    assert!(required(2..=64, 0, 0));
    assert!(CpuidOutputRegisterAdjustments::expected_entries_found(
        &[],
        &[adjustment(0xd, 5..=5, CpuidReg::EAX, 1, 0)],
    )
    .is_ok());
}

fn generated() -> CpuIdProfileData {
    CpuIdProfileData {
        hypervisor: HypervisorType::Kvm,
        cpu_vendor: CpuVendor::Intel,
        adjustments: vec![
            adjustment(0xd, 0..=0, CpuidReg::EAX, 0x6_02e7, 1),
            adjustment(0xd, 0..=0, CpuidReg::EBX, 0x6_02e7, 2),
            adjustment(0xd, 1..=1, CpuidReg::ECX, 0x7_ffff, 3),
            adjustment(0xd, 17..=17, CpuidReg::EAX, 64, 4),
            adjustment(0xd, 18..=18, CpuidReg::EDX, 8192, 5),
            adjustment(0xd, 17..=18, CpuidReg::EAX, 99, 6),
            adjustment(0xe, 17..=17, CpuidReg::EAX, 77, 7),
        ],
    }
}

#[test]
fn tile_components_are_zeroed_without_amx() {
    let data = CpuProfile::SapphireRapids
        .cpuid_data(false, generated())
        .unwrap();
    let replacements: Vec<u32> = data.adjustments.iter().map(|a| a.1.replacements).collect();
    assert_eq!(
        replacements,
        [0x2e7, 0x6_02e7, 0x1_ffff, 0, 0, 99, 77]
    );
    let masks: Vec<u32> = data.adjustments.iter().map(|a| a.1.mask).collect();
    assert_eq!(masks, [1, 2, 3, 4, 5, 6, 7]);

    let data = CpuProfile::Skylake.cpuid_data(true, generated()).unwrap();
    let replacements: Vec<u32> = data.adjustments.iter().map(|a| a.1.replacements).collect();
    assert_eq!(
        replacements,
        [0x6_02e7, 0x6_02e7, 0x7_ffff, 64, 8192, 99, 77]
    );
    assert_eq!(data.hypervisor, HypervisorType::Kvm);
    assert_eq!(data.cpu_vendor, CpuVendor::Intel);
}

#[test]
fn host_has_no_profile_data() {
    assert_eq!(CpuProfile::default(), CpuProfile::Host);
    assert!(CpuProfile::Host.cpuid_data(true, generated()).is_none());
    assert!(CpuProfile::Host.cpuid_data(false, generated()).is_none());
}

#[test]
fn flags_are_intersected_and_missing_ones_reported() {
    let set: CpuIdEntryRegister<1, 0, EDX> = CpuIdEntryRegister::from_raw(FPU)
        .or(CpuIdEntryRegister::from_raw(VME))
        .or(CpuIdEntryRegister::from_raw(SSE2));
    assert_eq!(set.register_name(), "edx");
    assert_eq!(set.into_raw(), 0x0400_0003);
    let mut cpuid = vec![
        entry(1, 0, [9, 9, 9, 0xffff_0002]),
        entry(1, 1, [9, 9, 9, 9]),
        entry(1, 0, [9, 9, 9, u32::MAX]),
        CpuIdEntry {
            flags: 0,
            ..entry(1, 0, [9, 9, 9, 9])
        },
    ];
    let missing = set.intersect_matching(&mut cpuid);
    assert_eq!(missing, [Some(vec![0]), None, Some(vec![]), None]);
    assert_eq!(cpuid[0], entry(1, 0, [9, 9, 9, 0x0400_0002]));
    assert_eq!(cpuid[1], entry(1, 1, [9, 9, 9, 9]));
    assert_eq!(cpuid[2], entry(1, 0, [9, 9, 9, 0x0400_0003]));
    assert_eq!(cpuid[3].edx, 9);
}

#[test]
fn names_of_registers() {
    assert_eq!(
        CpuIdEntryRegister::<1, 0, EAX>::null().register_name(),
        "eax"
    );
    assert_eq!(
        CpuIdEntryRegister::<1, 0, EBX>::null().register_name(),
        "ebx"
    );
    assert_eq!(
        CpuIdEntryRegister::<1, 0, ECX>::null().register_name(),
        "ecx"
    );
    assert_eq!(CpuIdEntryRegister::<1, 0, EDX>::null().into_raw(), 0);
}

#[test]
fn positions_of_flags() {
    assert_eq!(FPU, 1);
    assert_eq!(SSSE3, 1 << 9);
    assert_eq!(AVX, 1 << 28);
    assert_eq!(PKU | AVX512VNNI, 0x808);
    assert_eq!(XSAVES, 1 << 3);
    assert_eq!(INVTSC, 1 << 8);
}

#[test]
fn flags_of_cascade_lake() {
    let flags = CpuIdFeatureFlags::intel_cascadelake_v1();
    assert_eq!(flags.edx_1.into_raw(), 0x078b_fbff);
    assert_eq!(flags.ecx_1.into_raw(), 0x77fa_3203);
    assert_eq!(flags.edx_8000_0001h.into_raw(), 0x2c10_0800);
    assert_eq!(flags.ecx_8000_0001h.into_raw(), 0x121);
    assert_eq!(flags.ebx_7_0.into_raw(), 0xd19f_0fb9);
    assert_eq!(flags.ecx_7_0.into_raw(), 0x808);
    assert_eq!(flags.edx_7_0.into_raw(), 0x8400_0000);
    assert_eq!(flags.eax_0dh_1.into_raw(), 0x7);
    assert_eq!(flags.eax_7_1.into_raw(), 0);
    assert_eq!(flags.ecx_7_1.into_raw(), 0);
    assert_eq!(flags.edx_7_1.into_raw(), 0);
    assert_eq!(flags.edx_7_2.into_raw(), 0);
    assert_eq!(flags.ecx_14h.into_raw(), 0);
    assert_eq!(flags.ecx_24h_1.into_raw(), 0);
    assert_eq!(flags.edx_8000_0007h.into_raw(), 0);
    assert_eq!(flags.ebx_8000_0008h.into_raw(), 0);
    assert_eq!(flags.edx_8000_000ah.into_raw(), 0);
    assert_eq!(flags.eax_8000_0021h.into_raw(), 0);
}

#[test]
fn entries_are_restricted() {
    let flags = CpuIdFeatureFlags::intel_cascadelake_v1();
    let all = [u32::MAX; 4];
    let mut cpuid = vec![
        entry(1, 0, all),
        entry(7, 0, all),
        entry(7, 1, all),
        entry(0xd, 1, all),
        entry(0x8000_0007, 0, all),
        entry(3, 0, all),
    ];
    flags.restrict(&mut cpuid);
    let expected = vec![
        entry(1, 0, [u32::MAX, u32::MAX, 0x77fa_3203, 0x078b_fbff]),
        entry(7, 0, [u32::MAX, 0xd19f_0fb9, 0x808, 0x8400_0000]),
        entry(7, 1, [0, u32::MAX, 0, 0]),
        entry(0xd, 1, [7, u32::MAX, u32::MAX, u32::MAX]),
        entry(0x8000_0007, 0, [u32::MAX, u32::MAX, u32::MAX, 0]),
        entry(3, 0, all),
    ];
    assert_eq!(cpuid, expected);
    // Once more changes nothing.
    flags.restrict(&mut cpuid);
    assert_eq!(cpuid, expected);
}

#[test]
fn features_of_the_cascade_lake_profile() {
    let all = [u32::MAX; 4];
    let mut cpuid = vec![entry(1, 0, all), entry(7, 1, all), entry(0x8000_0001, 0, all)];
    CascadeLakeServerV1CpuIdFeatures::new().restrict(&mut cpuid);
    assert_eq!(
        cpuid,
        [
            entry(1, 0, [u32::MAX, u32::MAX, 0x77fa_3203, 0x078b_fbff]),
            entry(7, 1, all),
            entry(0x8000_0001, 0, [u32::MAX, u32::MAX, 0x121, 0x2c10_0800]),
        ]
    );
    let entries =
        CascadeLakeServerV1CpuIdFeatures::new().into_cpuid_entries(CPUID_FLAG_VALID_INDEX);
    assert_eq!(
        entries,
        [
            entry(1, 0, [0, 0, 0x77fa_3203, 0x078b_fbff]),
            entry(0x8000_0001, 0, [0, 0, 0x121, 0x2c10_0800]),
            entry(7, 0, [0, 0xd19f_0fb9, 0x808, 0x8400_0000]),
            entry(0xd, 1, [7, 0, 0, 0]),
        ]
    );
    assert_eq!(
        cpu_profiles::CpuProfile::default(),
        cpu_profiles::CpuProfile::Host
    );
    assert_eq!(CpuIdEntry::default().function, 0);
}
