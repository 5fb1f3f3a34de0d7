//! CPUID feature flags: bitsets per leaf, sub-leaf and register, and restricting the output of
//! the CPUID instruction to them.

use vstd::prelude::*;

use crate::bits::bit32;
use crate::cpuid::{
    law_positions_are_those_of_set_bits, set_bit_positions, set_bits_below, CpuIdEntry, CpuidReg, CPUID_FLAG_VALID_INDEX, EAX, EBX, ECX,
    EDX,
};

verus! {

// Register `edx` of CPUID function = `1`, index = `0`, see
// https://en.wikipedia.org/wiki/CPUID#EAX=1:_Processor_Info_and_Feature_Bits.

/// Bit `0` in register `edx` of CPUID function = `1`, index = `0`.
pub const FPU: u32 = 1u32 << 0;

/// Bit `1` in register `edx` of CPUID function = `1`, index = `0`.
pub const VME: u32 = 1u32 << 1;

/// Bit `2` in register `edx` of CPUID function = `1`, index = `0`.
pub const DE: u32 = 1u32 << 2;

/// Bit `3` in register `edx` of CPUID function = `1`, index = `0`.
pub const PSE: u32 = 1u32 << 3;

/// Bit `4` in register `edx` of CPUID function = `1`, index = `0`.
pub const TSC: u32 = 1u32 << 4;

/// Bit `5` in register `edx` of CPUID function = `1`, index = `0`.
pub const MSR: u32 = 1u32 << 5;

/// Bit `6` in register `edx` of CPUID function = `1`, index = `0`.
pub const PAE: u32 = 1u32 << 6;

/// Bit `7` in register `edx` of CPUID function = `1`, index = `0`.
pub const MCE: u32 = 1u32 << 7;

/// Bit `8` in register `edx` of CPUID function = `1`, index = `0`.
pub const CX8: u32 = 1u32 << 8;

/// Bit `9` in register `edx` of CPUID function = `1`, index = `0`.
pub const APIC: u32 = 1u32 << 9;

/// Bit `11` in register `edx` of CPUID function = `1`, index = `0`.
pub const SEP: u32 = 1u32 << 11;

/// Bit `12` in register `edx` of CPUID function = `1`, index = `0`.
pub const MTRR: u32 = 1u32 << 12;

/// Bit `13` in register `edx` of CPUID function = `1`, index = `0`.
pub const PGE: u32 = 1u32 << 13;

/// Bit `14` in register `edx` of CPUID function = `1`, index = `0`.
pub const MCA: u32 = 1u32 << 14;

/// Bit `15` in register `edx` of CPUID function = `1`, index = `0`.
pub const CMOV: u32 = 1u32 << 15;

/// Bit `16` in register `edx` of CPUID function = `1`, index = `0`.
pub const PAT: u32 = 1u32 << 16;

/// Bit `17` in register `edx` of CPUID function = `1`, index = `0`.
pub const PSE36: u32 = 1u32 << 17;

/// Bit `18` in register `edx` of CPUID function = `1`, index = `0`.
pub const PN: u32 = 1u32 << 18;

/// Bit `19` in register `edx` of CPUID function = `1`, index = `0`.
pub const CLFLUSH: u32 = 1u32 << 19;

/// Bit `21` in register `edx` of CPUID function = `1`, index = `0`.
pub const DS: u32 = 1u32 << 21;

/// Bit `22` in register `edx` of CPUID function = `1`, index = `0`.
pub const ACPI: u32 = 1u32 << 22;

/// Bit `23` in register `edx` of CPUID function = `1`, index = `0`.
pub const MMX: u32 = 1u32 << 23;

/// Bit `24` in register `edx` of CPUID function = `1`, index = `0`.
pub const FXSR: u32 = 1u32 << 24;

/// Bit `25` in register `edx` of CPUID function = `1`, index = `0`.
pub const SSE: u32 = 1u32 << 25;

/// Bit `26` in register `edx` of CPUID function = `1`, index = `0`.
pub const SSE2: u32 = 1u32 << 26;

/// Bit `27` in register `edx` of CPUID function = `1`, index = `0`.
pub const SS: u32 = 1u32 << 27;

/// Bit `28` in register `edx` of CPUID function = `1`, index = `0`.
pub const HT: u32 = 1u32 << 28;

/// Bit `29` in register `edx` of CPUID function = `1`, index = `0`.
pub const TM: u32 = 1u32 << 29;

/// Bit `30` in register `edx` of CPUID function = `1`, index = `0`.
pub const IA64: u32 = 1u32 << 30;

/// Bit `31` in register `edx` of CPUID function = `1`, index = `0`.
pub const PBE: u32 = 1u32 << 31;

// Register `ecx` of CPUID function = `1`, index = `0`, see
// https://en.wikipedia.org/wiki/CPUID#EAX=1:_Processor_Info_and_Feature_Bits.

/// Bit `0` in register `ecx` of CPUID function = `1`, index = `0`.
pub const SSE3: u32 = 1u32 << 0;

/// Bit `1` in register `ecx` of CPUID function = `1`, index = `0`.
pub const PCLMULQDQ: u32 = 1u32 << 1;

/// Bit `2` in register `ecx` of CPUID function = `1`, index = `0`.
pub const DTES64: u32 = 1u32 << 2;

/// Bit `3` in register `ecx` of CPUID function = `1`, index = `0`.
pub const MONITOR: u32 = 1u32 << 3;

/// Bit `4` in register `ecx` of CPUID function = `1`, index = `0`.
pub const DS_CPL: u32 = 1u32 << 4;

/// Bit `5` in register `ecx` of CPUID function = `1`, index = `0`.
pub const VMX: u32 = 1u32 << 5;

/// Bit `6` in register `ecx` of CPUID function = `1`, index = `0`.
pub const SMX: u32 = 1u32 << 6;

/// Bit `7` in register `ecx` of CPUID function = `1`, index = `0`.
pub const EST: u32 = 1u32 << 7;

/// Bit `8` in register `ecx` of CPUID function = `1`, index = `0`.
pub const TM2: u32 = 1u32 << 8;

/// Bit `9` in register `ecx` of CPUID function = `1`, index = `0`.
pub const SSSE3: u32 = 1u32 << 9;

/// Bit `10` in register `ecx` of CPUID function = `1`, index = `0`.
pub const CID: u32 = 1u32 << 10;

/// Bit `12` in register `ecx` of CPUID function = `1`, index = `0`.
pub const FMA: u32 = 1u32 << 12;

/// Bit `13` in register `ecx` of CPUID function = `1`, index = `0`.
pub const CX16: u32 = 1u32 << 13;

/// Bit `14` in register `ecx` of CPUID function = `1`, index = `0`.
pub const XTPR: u32 = 1u32 << 14;

/// Bit `15` in register `ecx` of CPUID function = `1`, index = `0`.
pub const PDCM: u32 = 1u32 << 15;

/// Bit `17` in register `ecx` of CPUID function = `1`, index = `0`.
pub const PCID: u32 = 1u32 << 17;

/// Bit `18` in register `ecx` of CPUID function = `1`, index = `0`.
pub const DCA: u32 = 1u32 << 18;

/// Bit `19` in register `ecx` of CPUID function = `1`, index = `0`.
pub const SSE4_1: u32 = 1u32 << 19;

/// Bit `20` in register `ecx` of CPUID function = `1`, index = `0`.
pub const SSE4_2: u32 = 1u32 << 20;

/// Bit `21` in register `ecx` of CPUID function = `1`, index = `0`.
pub const X2APIC: u32 = 1u32 << 21;

/// Bit `22` in register `ecx` of CPUID function = `1`, index = `0`.
pub const MOVBE: u32 = 1u32 << 22;

/// Bit `23` in register `ecx` of CPUID function = `1`, index = `0`.
pub const POPCNT: u32 = 1u32 << 23;

/// Bit `24` in register `ecx` of CPUID function = `1`, index = `0`.
pub const TSC_DEADLINE: u32 = 1u32 << 24;

/// Bit `25` in register `ecx` of CPUID function = `1`, index = `0`.
pub const AES: u32 = 1u32 << 25;

/// Bit `26` in register `ecx` of CPUID function = `1`, index = `0`.
pub const XSAVE: u32 = 1u32 << 26;

/// Bit `28` in register `ecx` of CPUID function = `1`, index = `0`.
pub const AVX: u32 = 1u32 << 28;

/// Bit `29` in register `ecx` of CPUID function = `1`, index = `0`.
pub const F16C: u32 = 1u32 << 29;

/// Bit `30` in register `ecx` of CPUID function = `1`, index = `0`.
pub const RDRAND: u32 = 1u32 << 30;

/// Bit `31` in register `ecx` of CPUID function = `1`, index = `0`.
pub const HYPERVISOR: u32 = 1u32 << 31;

// Register `eax` of CPUID function = `6`, index = `0`, see
// https://en.wikipedia.org/wiki/CPUID#EAX=6:_Thermal_and_Power_Management.

/// Bit `2` in register `eax` of CPUID function = `6`, index = `0`.
pub const ARAT: u32 = 1u32 << 2;

// Register `ebx` of CPUID function = `7`, index = `0`, see
// https://en.wikipedia.org/wiki/CPUID#EAX=7,_ECX=0:_Extended_Features.

/// Bit `0` in register `ebx` of CPUID function = `7`, index = `0`.
pub const FSGSBASE: u32 = 1u32 << 0;

/// Bit `1` in register `ebx` of CPUID function = `7`, index = `0`.
pub const TSC_ADJUST: u32 = 1u32 << 1;

/// Bit `2` in register `ebx` of CPUID function = `7`, index = `0`.
pub const SGX: u32 = 1u32 << 2;

/// Bit `3` in register `ebx` of CPUID function = `7`, index = `0`.
pub const BMI1: u32 = 1u32 << 3;

/// Bit `4` in register `ebx` of CPUID function = `7`, index = `0`.
pub const HLE: u32 = 1u32 << 4;

/// Bit `5` in register `ebx` of CPUID function = `7`, index = `0`.
pub const AVX2: u32 = 1u32 << 5;

/// Bit `6` in register `ebx` of CPUID function = `7`, index = `0`.
pub const FDP_EXCPTN_ONLY: u32 = 1u32 << 6;

/// Bit `7` in register `ebx` of CPUID function = `7`, index = `0`.
pub const SMEP: u32 = 1u32 << 7;

/// Bit `8` in register `ebx` of CPUID function = `7`, index = `0`.
pub const BMI2: u32 = 1u32 << 8;

/// Bit `9` in register `ebx` of CPUID function = `7`, index = `0`.
pub const ERMS: u32 = 1u32 << 9;

/// Bit `10` in register `ebx` of CPUID function = `7`, index = `0`.
pub const INVPCID: u32 = 1u32 << 10;

/// Bit `11` in register `ebx` of CPUID function = `7`, index = `0`.
pub const RTM: u32 = 1u32 << 11;

/// Bit `13` in register `ebx` of CPUID function = `7`, index = `0`.
pub const ZERO_FCS_FDS: u32 = 1u32 << 13;

/// Bit `14` in register `ebx` of CPUID function = `7`, index = `0`.
pub const MPX: u32 = 1u32 << 14;

/// Bit `16` in register `ebx` of CPUID function = `7`, index = `0`.
pub const AVX512F: u32 = 1u32 << 16;

/// Bit `17` in register `ebx` of CPUID function = `7`, index = `0`.
pub const AVX512DQ: u32 = 1u32 << 17;

/// Bit `18` in register `ebx` of CPUID function = `7`, index = `0`.
pub const RDSEED: u32 = 1u32 << 18;

/// Bit `19` in register `ebx` of CPUID function = `7`, index = `0`.
pub const ADX: u32 = 1u32 << 19;

/// Bit `20` in register `ebx` of CPUID function = `7`, index = `0`.
pub const SMAP: u32 = 1u32 << 20;

/// Bit `21` in register `ebx` of CPUID function = `7`, index = `0`.
pub const AVX512IFMA: u32 = 1u32 << 21;

/// Bit `22` in register `ebx` of CPUID function = `7`, index = `0`.
pub const PCOMMIT: u32 = 1u32 << 22;

/// Bit `23` in register `ebx` of CPUID function = `7`, index = `0`.
pub const CLFLUSHOPT: u32 = 1u32 << 23;

/// Bit `24` in register `ebx` of CPUID function = `7`, index = `0`.
pub const CLWB: u32 = 1u32 << 24;

/// Bit `25` in register `ebx` of CPUID function = `7`, index = `0`.
pub const INTEL_PT: u32 = 1u32 << 25;

/// Bit `26` in register `ebx` of CPUID function = `7`, index = `0`.
pub const AVX512PF: u32 = 1u32 << 26;

/// Bit `27` in register `ebx` of CPUID function = `7`, index = `0`.
pub const AVX512ER: u32 = 1u32 << 27;

/// Bit `28` in register `ebx` of CPUID function = `7`, index = `0`.
pub const AVX512CD: u32 = 1u32 << 28;

/// Bit `29` in register `ebx` of CPUID function = `7`, index = `0`.
pub const SHA_NI: u32 = 1u32 << 29;

/// Bit `30` in register `ebx` of CPUID function = `7`, index = `0`.
pub const AVX512BW: u32 = 1u32 << 30;

/// Bit `31` in register `ebx` of CPUID function = `7`, index = `0`.
pub const AVX512VL: u32 = 1u32 << 31;

// Register `ecx` of CPUID function = `7`, index = `0`, see
// https://en.wikipedia.org/wiki/CPUID#EAX=7,_ECX=0:_Extended_Features.

/// Bit `1` in register `ecx` of CPUID function = `7`, index = `0`.
pub const AVX512VBMI: u32 = 1u32 << 1;

/// Bit `2` in register `ecx` of CPUID function = `7`, index = `0`.
pub const UMIP: u32 = 1u32 << 2;

/// Bit `3` in register `ecx` of CPUID function = `7`, index = `0`.
pub const PKU: u32 = 1u32 << 3;

/// Bit `5` in register `ecx` of CPUID function = `7`, index = `0`.
pub const WAITPKG: u32 = 1u32 << 5;

/// Bit `6` in register `ecx` of CPUID function = `7`, index = `0`.
pub const AVX512VBMI2: u32 = 1u32 << 6;

/// Bit `8` in register `ecx` of CPUID function = `7`, index = `0`.
pub const GFNI: u32 = 1u32 << 8;

/// Bit `9` in register `ecx` of CPUID function = `7`, index = `0`.
pub const VAES: u32 = 1u32 << 9;

/// Bit `10` in register `ecx` of CPUID function = `7`, index = `0`.
pub const VPCLMULQDQ: u32 = 1u32 << 10;

/// Bit `11` in register `ecx` of CPUID function = `7`, index = `0`.
pub const AVX512VNNI: u32 = 1u32 << 11;

/// Bit `12` in register `ecx` of CPUID function = `7`, index = `0`.
pub const AVX512BITALG: u32 = 1u32 << 12;

/// Bit `14` in register `ecx` of CPUID function = `7`, index = `0`.
pub const AVX512_VPOPCNTDQ: u32 = 1u32 << 14;

/// Bit `16` in register `ecx` of CPUID function = `7`, index = `0`.
pub const LA57: u32 = 1u32 << 16;

/// Bit `22` in register `ecx` of CPUID function = `7`, index = `0`.
pub const RDPID: u32 = 1u32 << 22;

/// Bit `24` in register `ecx` of CPUID function = `7`, index = `0`.
pub const BUS_LOCK_DETECT: u32 = 1u32 << 24;

/// Bit `25` in register `ecx` of CPUID function = `7`, index = `0`.
pub const CLDEMOTE: u32 = 1u32 << 25;

/// Bit `27` in register `ecx` of CPUID function = `7`, index = `0`.
pub const MOVDIRI: u32 = 1u32 << 27;

/// Bit `28` in register `ecx` of CPUID function = `7`, index = `0`.
pub const MOVDIR64B: u32 = 1u32 << 28;

/// Bit `30` in register `ecx` of CPUID function = `7`, index = `0`.
pub const SGXLC: u32 = 1u32 << 30;

/// Bit `31` in register `ecx` of CPUID function = `7`, index = `0`.
pub const PKS: u32 = 1u32 << 31;

// Register `edx` of CPUID function = `7`, index = `0`, see
// https://en.wikipedia.org/wiki/CPUID#EAX=7,_ECX=0:_Extended_Features.

/// Bit `2` in register `edx` of CPUID function = `7`, index = `0`.
pub const AVX512_4VNNIW: u32 = 1u32 << 2;

/// Bit `3` in register `edx` of CPUID function = `7`, index = `0`.
pub const AVX512_4FMAPS: u32 = 1u32 << 3;

/// Bit `4` in register `edx` of CPUID function = `7`, index = `0`.
pub const FSRM: u32 = 1u32 << 4;

/// Bit `8` in register `edx` of CPUID function = `7`, index = `0`.
pub const AVX512_VP2INTERSECT: u32 = 1u32 << 8;

/// Bit `10` in register `edx` of CPUID function = `7`, index = `0`.
pub const MD_CLEAR: u32 = 1u32 << 10;

/// Bit `14` in register `edx` of CPUID function = `7`, index = `0`.
pub const SERIALIZE: u32 = 1u32 << 14;

/// Bit `16` in register `edx` of CPUID function = `7`, index = `0`.
pub const TSX_LDTRK: u32 = 1u32 << 16;

/// Bit `19` in register `edx` of CPUID function = `7`, index = `0`.
pub const ARCH_LBR: u32 = 1u32 << 19;

/// Bit `22` in register `edx` of CPUID function = `7`, index = `0`.
pub const AMX_BF16: u32 = 1u32 << 22;

/// Bit `23` in register `edx` of CPUID function = `7`, index = `0`.
pub const AVX512_FP16: u32 = 1u32 << 23;

/// Bit `24` in register `edx` of CPUID function = `7`, index = `0`.
pub const AMX_TILE: u32 = 1u32 << 24;

/// Bit `25` in register `edx` of CPUID function = `7`, index = `0`.
pub const AMX_INT8: u32 = 1u32 << 25;

/// Bit `26` in register `edx` of CPUID function = `7`, index = `0`.
pub const SPEC_CTRL: u32 = 1u32 << 26;

/// Bit `27` in register `edx` of CPUID function = `7`, index = `0`.
pub const STIBP: u32 = 1u32 << 27;

/// Bit `28` in register `edx` of CPUID function = `7`, index = `0`.
pub const FLUSH_L1D: u32 = 1u32 << 28;

/// Bit `29` in register `edx` of CPUID function = `7`, index = `0`.
pub const ARCH_CAPABILITIES: u32 = 1u32 << 29;

/// Bit `30` in register `edx` of CPUID function = `7`, index = `0`.
pub const CORE_CAPABILITY: u32 = 1u32 << 30;

/// Bit `31` in register `edx` of CPUID function = `7`, index = `0`.
pub const SSBD: u32 = 1u32 << 31;

// Register `ecx` of CPUID function = `7`, index = `1`, see
// https://en.wikipedia.org/wiki/CPUID#EAX=7,_ECX=1:_Extended_Features.

/// Bit `5` in register `ecx` of CPUID function = `7`, index = `1`.
pub const MSR_IMM: u32 = 1u32 << 5;

// Register `eax` of CPUID function = `7`, index = `1`, see
// https://en.wikipedia.org/wiki/CPUID#EAX=7,_ECX=1:_Extended_Features.

/// Bit `0` in register `eax` of CPUID function = `7`, index = `1`.
pub const SHA512: u32 = 1u32 << 0;

/// Bit `1` in register `eax` of CPUID function = `7`, index = `1`.
pub const SM3: u32 = 1u32 << 1;

/// Bit `2` in register `eax` of CPUID function = `7`, index = `1`.
pub const SM4: u32 = 1u32 << 2;

/// Bit `4` in register `eax` of CPUID function = `7`, index = `1`.
pub const AVX_VNNI: u32 = 1u32 << 4;

/// Bit `5` in register `eax` of CPUID function = `7`, index = `1`.
pub const AVX512_BF16: u32 = 1u32 << 5;

/// Bit `7` in register `eax` of CPUID function = `7`, index = `1`.
pub const CMPCCXADD: u32 = 1u32 << 7;

/// Bit `10` in register `eax` of CPUID function = `7`, index = `1`.
pub const FZRM: u32 = 1u32 << 10;

/// Bit `11` in register `eax` of CPUID function = `7`, index = `1`.
pub const FSRS: u32 = 1u32 << 11;

/// Bit `12` in register `eax` of CPUID function = `7`, index = `1`.
pub const FSRC: u32 = 1u32 << 12;

/// Bit `17` in register `eax` of CPUID function = `7`, index = `1`.
pub const FRED: u32 = 1u32 << 17;

/// Bit `18` in register `eax` of CPUID function = `7`, index = `1`.
pub const LKGS: u32 = 1u32 << 18;

/// Bit `19` in register `eax` of CPUID function = `7`, index = `1`.
pub const WRMSRNS: u32 = 1u32 << 19;

/// Bit `21` in register `eax` of CPUID function = `7`, index = `1`.
pub const AMX_FP16: u32 = 1u32 << 21;

/// Bit `23` in register `eax` of CPUID function = `7`, index = `1`.
pub const AVX_IFMA: u32 = 1u32 << 23;

/// Bit `26` in register `eax` of CPUID function = `7`, index = `1`.
pub const LAM: u32 = 1u32 << 26;

// Register `edx` of CPUID function = `7`, index = `1`, see
// https://en.wikipedia.org/wiki/CPUID#EAX=7,_ECX=1:_Extended_Features.

/// Bit `4` in register `edx` of CPUID function = `7`, index = `1`.
pub const AVX_VNNI_INT8: u32 = 1u32 << 4;

/// Bit `5` in register `edx` of CPUID function = `7`, index = `1`.
pub const AVX_NE_CONVERT: u32 = 1u32 << 5;

/// Bit `8` in register `edx` of CPUID function = `7`, index = `1`.
pub const AMX_COMPLEX: u32 = 1u32 << 8;

/// Bit `10` in register `edx` of CPUID function = `7`, index = `1`.
pub const AVX_VNNI_INT16: u32 = 1u32 << 10;

/// Bit `14` in register `edx` of CPUID function = `7`, index = `1`.
pub const PREFETCHITI: u32 = 1u32 << 14;

/// Bit `19` in register `edx` of CPUID function = `7`, index = `1`.
pub const AVX10: u32 = 1u32 << 19;

// Register `edx` of CPUID function = `7`, index = `2`, see
// https://en.wikipedia.org/wiki/CPUID#EAX=7,_ECX=2:_Extended_Features.

/// Bit `0` in register `edx` of CPUID function = `7`, index = `2`.
pub const INTEL_PSFD: u32 = 1u32 << 0;

/// Bit `1` in register `edx` of CPUID function = `7`, index = `2`.
pub const IPRED_CTRL: u32 = 1u32 << 1;

/// Bit `2` in register `edx` of CPUID function = `7`, index = `2`.
pub const RRSBA_CTRL: u32 = 1u32 << 2;

/// Bit `3` in register `edx` of CPUID function = `7`, index = `2`.
pub const DDPD_U: u32 = 1u32 << 3;

/// Bit `4` in register `edx` of CPUID function = `7`, index = `2`.
pub const BHI_CTRL: u32 = 1u32 << 4;

/// Bit `5` in register `edx` of CPUID function = `7`, index = `2`.
pub const MCDT_NO: u32 = 1u32 << 5;

// Register `eax` of CPUID function = `0xd`, index = `1`, see
// https://en.wikipedia.org/wiki/CPUID#EAX=0Dh:_XSAVE_Features_and_State_Components.

/// Bit `0` in register `eax` of CPUID function = `0xd`, index = `1`.
pub const XSAVEOPT: u32 = 1u32 << 0;

/// Bit `1` in register `eax` of CPUID function = `0xd`, index = `1`.
pub const XSAVEC: u32 = 1u32 << 1;

/// Bit `2` in register `eax` of CPUID function = `0xd`, index = `1`.
pub const XGETBV1: u32 = 1u32 << 2;

/// Bit `3` in register `eax` of CPUID function = `0xd`, index = `1`.
pub const XSAVES: u32 = 1u32 << 3;

/// Bit `4` in register `eax` of CPUID function = `0xd`, index = `1`.
pub const XFD: u32 = 1u32 << 4;

// Register `ecx` of CPUID function = `0x24`, index = `1`, see
// https://en.wikipedia.org/wiki/CPUID#EAX=24h,_ECX=1:_Discrete_AVX10_Features.

/// Bit `0` in register `ecx` of CPUID function = `0x24`, index = `1`.
pub const VPMM: u32 = 1u32 << 0;

/// Bit `2` in register `ecx` of CPUID function = `0x24`, index = `1`.
pub const AVX_10_VNNI_INT: u32 = 1u32 << 2;

// Register `edx` of CPUID function = `0x8000_0001`, index = `0`, see
// https://en.wikipedia.org/wiki/CPUID#EAX=8000'0001h:_Extended_Processor_Info_and_Feature_Bits.

/// Bit `11` in register `edx` of CPUID function = `0x8000_0001`, index = `0`.
pub const SYSCALL: u32 = 1u32 << 11;

/// Bit `20` in register `edx` of CPUID function = `0x8000_0001`, index = `0`.
pub const NX: u32 = 1u32 << 20;

/// Bit `22` in register `edx` of CPUID function = `0x8000_0001`, index = `0`.
pub const MMXEXT: u32 = 1u32 << 22;

/// Bit `25` in register `edx` of CPUID function = `0x8000_0001`, index = `0`.
pub const FXSR_OPT: u32 = 1u32 << 25;

/// Bit `26` in register `edx` of CPUID function = `0x8000_0001`, index = `0`.
pub const PDPE1GB: u32 = 1u32 << 26;

/// Bit `27` in register `edx` of CPUID function = `0x8000_0001`, index = `0`.
pub const RDTSCP: u32 = 1u32 << 27;

/// Bit `29` in register `edx` of CPUID function = `0x8000_0001`, index = `0`.
pub const LM: u32 = 1u32 << 29;

/// Bit `30` in register `edx` of CPUID function = `0x8000_0001`, index = `0`.
pub const EXT_3DNOW: u32 = 1u32 << 30;

/// Bit `31` in register `edx` of CPUID function = `0x8000_0001`, index = `0`.
pub const FIRST_3DNOW: u32 = 1u32 << 31;

// Register `ecx` of CPUID function = `0x8000_0001`, index = `0`, see
// https://en.wikipedia.org/wiki/CPUID#EAX=8000'0001h:_Extended_Processor_Info_and_Feature_Bits.

/// Bit `0` in register `ecx` of CPUID function = `0x8000_0001`, index = `0`.
pub const LAHF_LM: u32 = 1u32 << 0;

/// Bit `1` in register `ecx` of CPUID function = `0x8000_0001`, index = `0`.
pub const CMP_LEGACY: u32 = 1u32 << 1;

/// Bit `2` in register `ecx` of CPUID function = `0x8000_0001`, index = `0`.
pub const SVM: u32 = 1u32 << 2;

/// Bit `3` in register `ecx` of CPUID function = `0x8000_0001`, index = `0`.
pub const EXTAPIC: u32 = 1u32 << 3;

/// Bit `4` in register `ecx` of CPUID function = `0x8000_0001`, index = `0`.
pub const CR8LEGACY: u32 = 1u32 << 4;

/// Bit `5` in register `ecx` of CPUID function = `0x8000_0001`, index = `0`.
pub const ABM: u32 = 1u32 << 5;

/// Bit `6` in register `ecx` of CPUID function = `0x8000_0001`, index = `0`.
pub const SSE4A: u32 = 1u32 << 6;

/// Bit `7` in register `ecx` of CPUID function = `0x8000_0001`, index = `0`.
pub const MISALIGNSSE: u32 = 1u32 << 7;

/// Bit `8` in register `ecx` of CPUID function = `0x8000_0001`, index = `0`.
pub const PREFETCH_3DNOW: u32 = 1u32 << 8;

/// Bit `9` in register `ecx` of CPUID function = `0x8000_0001`, index = `0`.
pub const OSVW: u32 = 1u32 << 9;

/// Bit `10` in register `ecx` of CPUID function = `0x8000_0001`, index = `0`.
pub const IBS: u32 = 1u32 << 10;

/// Bit `11` in register `ecx` of CPUID function = `0x8000_0001`, index = `0`.
pub const XOP: u32 = 1u32 << 11;

/// Bit `12` in register `ecx` of CPUID function = `0x8000_0001`, index = `0`.
pub const SKINIT: u32 = 1u32 << 12;

/// Bit `13` in register `ecx` of CPUID function = `0x8000_0001`, index = `0`.
pub const WDT: u32 = 1u32 << 13;

/// Bit `15` in register `ecx` of CPUID function = `0x8000_0001`, index = `0`.
pub const LWP: u32 = 1u32 << 15;

/// Bit `16` in register `ecx` of CPUID function = `0x8000_0001`, index = `0`.
pub const FMA4: u32 = 1u32 << 16;

/// Bit `17` in register `ecx` of CPUID function = `0x8000_0001`, index = `0`.
pub const TCE: u32 = 1u32 << 17;

/// Bit `19` in register `ecx` of CPUID function = `0x8000_0001`, index = `0`.
pub const NODEID_MSR: u32 = 1u32 << 19;

/// Bit `21` in register `ecx` of CPUID function = `0x8000_0001`, index = `0`.
pub const TBM: u32 = 1u32 << 21;

/// Bit `22` in register `ecx` of CPUID function = `0x8000_0001`, index = `0`.
pub const TOPOEXT: u32 = 1u32 << 22;

/// Bit `23` in register `ecx` of CPUID function = `0x8000_0001`, index = `0`.
pub const PERFCTR_CORE: u32 = 1u32 << 23;

/// Bit `24` in register `ecx` of CPUID function = `0x8000_0001`, index = `0`.
pub const PERFCTR_NB: u32 = 1u32 << 24;

// Register `edx` of CPUID function = `0x8000_0007`, index = `0`, see
// https://en.wikipedia.org/wiki/CPUID#EAX=8000'0007h:_Processor_Power_Management_Information_and_RAS_Capabilities.

/// Bit `8` in register `edx` of CPUID function = `0x8000_0007`, index = `0`.
pub const INVTSC: u32 = 1u32 << 8;

/// The flags of Intel Cascade Lake (version 1) in register `edx` of CPUID function = `1`,
/// index = `0`.
pub const CASCADELAKE_V1_EDX_1: u32 = VME | SSE2 | SSE | FXSR | MMX | CLFLUSH | PSE36 | PAT | CMOV | MCA | PGE | MTRR | SEP | APIC | CX8 | MCE | PAE | MSR | TSC | PSE | DE | FPU;

/// The flags of Intel Cascade Lake (version 1) in register `ecx` of CPUID function = `1`,
/// index = `0`.
pub const CASCADELAKE_V1_ECX_1: u32 = AVX | XSAVE | AES | POPCNT | X2APIC | SSE4_2 | SSE4_1 | CX16 | SSSE3 | PCLMULQDQ | SSE3 | TSC_DEADLINE | FMA | MOVBE | PCID | F16C | RDRAND;

/// The flags of Intel Cascade Lake (version 1) in register `ebx` of CPUID function = `7`,
/// index = `0`.
pub const CASCADELAKE_V1_EBX_7_0: u32 = FSGSBASE | BMI1 | HLE | AVX2 | SMEP | BMI2 | ERMS | INVPCID | RTM | RDSEED | ADX | SMAP | CLWB | AVX512F | AVX512DQ | AVX512BW | AVX512CD | AVX512VL | CLFLUSHOPT;

/// The flags of Intel Cascade Lake (version 1) in register `ecx` of CPUID function = `7`,
/// index = `0`.
pub const CASCADELAKE_V1_ECX_7_0: u32 = PKU | AVX512VNNI;

/// The flags of Intel Cascade Lake (version 1) in register `edx` of CPUID function = `7`,
/// index = `0`.
pub const CASCADELAKE_V1_EDX_7_0: u32 = SPEC_CTRL | SSBD;

/// The flags of Intel Cascade Lake (version 1) in register `eax` of CPUID function = `0xd`,
/// index = `1`.
pub const CASCADELAKE_V1_EAX_0DH_1: u32 = XSAVEOPT | XSAVEC | XGETBV1;

/// The flags of Intel Cascade Lake (version 1) in register `edx` of CPUID function = `0x8000_0001`,
/// index = `0`.
pub const CASCADELAKE_V1_EDX_8000_0001H: u32 = LM | PDPE1GB | RDTSCP | NX | SYSCALL;

/// The flags of Intel Cascade Lake (version 1) in register `ecx` of CPUID function = `0x8000_0001`,
/// index = `0`.
pub const CASCADELAKE_V1_ECX_8000_0001H: u32 = ABM | LAHF_LM | PREFETCH_3DNOW;


/// A bitset of CPUID feature flags for a given leaf, sub-leaf and register triple
/// (or function, index, register in KVM terms).
pub struct CpuIdEntryRegister<const FUNCTION: u32, const INDEX: u32, const REG: u8>(u32);

/// The value of the register with a number.
pub open spec fn register_of(entry: CpuIdEntry, reg: u8) -> u32 {
    if reg == EAX {
        entry.eax
    } else if reg == EBX {
        entry.ebx
    } else if reg == ECX {
        entry.ecx
    } else {
        entry.edx
    }
}

/// An entry in which the register with a number holds a value.
pub open spec fn with_register(entry: CpuIdEntry, reg: u8, value: u32) -> CpuIdEntry {
    if reg == EAX {
        CpuIdEntry { eax: value, ..entry }
    } else if reg == EBX {
        CpuIdEntry { ebx: value, ..entry }
    } else if reg == ECX {
        CpuIdEntry { ecx: value, ..entry }
    } else {
        CpuIdEntry { edx: value, ..entry }
    }
}

impl<const FUNCTION: u32, const INDEX: u32, const REG: u8> CpuIdEntryRegister<
    FUNCTION,
    INDEX,
    REG,
> {
    /// The bitset.
    pub closed spec fn raw(self) -> u32 {
        self.0
    }

    /// The set with the given bits.
    pub fn from_raw(raw: u32) -> (set: Self)
        ensures
            set.raw() == raw,
    {
        Self(raw)
    }

    /// The empty set.
    pub fn null() -> (set: Self)
        ensures
            set.raw() == 0,
    {
        Self(0)
    }

    /// The name of the register.
    pub fn register_name(&self) -> (name: &'static str)
        requires
            REG < 4,
        ensures
            name@ == (if REG == EAX {
                "eax"@
            } else if REG == EBX {
                "ebx"@
            } else if REG == ECX {
                "ecx"@
            } else {
                "edx"@
            }),
    {
        if REG == EAX {
            "eax"
        } else if REG == EBX {
            "ebx"
        } else if REG == ECX {
            "ecx"
        } else {
            "edx"
        }
    }

    /// The flags of both sets.
    pub fn or(self, other: Self) -> (set: Self)
        ensures
            set.raw() == self.raw() | other.raw(),
    {
        Self(self.0 | other.0)
    }

    /// Represents this set as a bitset in terms of a [`u32`].
    ///
    /// The returned representation does not track the metadata consisting of the
    /// function/leaf, index/subleaf and register name.
    pub fn into_raw(&self) -> (raw: u32)
        ensures
            raw == self.raw(),
    {
        self.0
    }

    /// The set is about an entry: function and index are the same, and the index counts.
    pub open spec fn is_about(entry: CpuIdEntry) -> bool {
        entry.function == FUNCTION && entry.index == INDEX && entry.flags == CPUID_FLAG_VALID_INDEX
    }

    /// The entry with its register intersected with the set, if the set is about it.
    pub open spec fn intersected(self, entry: CpuIdEntry) -> CpuIdEntry {
        if Self::is_about(entry) {
            with_register(entry, REG, register_of(entry, REG) & self.raw())
        } else {
            entry
        }
    }

    /// Intersects the register of every entry that the set is about with the set. For each
    /// of them the positions of the permitted flags that it does not have are returned.
    pub fn intersect_matching(&self, cpuid: &mut Vec<CpuIdEntry>) -> (missing: Vec<Option<Vec<u8>>>)
        requires
            REG < 4,
        ensures
            final(cpuid)@ == Seq::new(
                old(cpuid)@.len(),
                |i: int| self.intersected(old(cpuid)@[i]),
            ),
            missing@.len() == old(cpuid)@.len(),
            forall|i: int|
                0 <= i < missing@.len() ==> match #[trigger] missing@[i] {
                    Some(positions) => Self::is_about(old(cpuid)@[i]) && positions@
                        == set_bits_below(
                        self.raw() & !register_of(old(cpuid)@[i], REG),
                        32,
                    ),
                    None => !Self::is_about(old(cpuid)@[i]),
                },
            forall|i: int, b: u8|
                0 <= i < missing@.len() && missing@[i] is Some ==> (
                #[trigger] missing@[i]->0@.contains(b) <==> b < 32 && bit32(self.raw(), b as u32)
                    && !bit32(register_of(old(cpuid)@[i], REG), b as u32)),
    {
        let ghost before = cpuid@;
        let mut missing: Vec<Option<Vec<u8>>> = Vec::new();
        let mut i: usize = 0;
        while i < cpuid.len()
            invariant
                REG < 4,
                i <= cpuid@.len() == before.len(),
                missing@.len() == i,
                forall|j: int| 0 <= j < i ==> cpuid@[j] == self.intersected(#[trigger] before[j]),
                forall|j: int| i <= j < before.len() ==> cpuid@[j] == #[trigger] before[j],
                forall|j: int|
                    0 <= j < i ==> match #[trigger] missing@[j] {
                        Some(positions) => Self::is_about(before[j]) && positions@
                            == set_bits_below(self.raw() & !register_of(before[j], REG), 32),
                        None => !Self::is_about(before[j]),
                    },
            decreases cpuid@.len() - i,
        {
            let mut entry: CpuIdEntry = cpuid[i];
            if entry.function == FUNCTION && entry.index == INDEX && entry.flags
                == CPUID_FLAG_VALID_INDEX {
                let ghost value = register_of(entry, REG);
                let updated: u32 = if REG == EAX {
                    entry.eax = entry.eax & self.0;
                    entry.eax
                } else if REG == EBX {
                    entry.ebx = entry.ebx & self.0;
                    entry.ebx
                } else if REG == ECX {
                    entry.ecx = entry.ecx & self.0;
                    entry.ecx
                } else {
                    entry.edx = entry.edx & self.0;
                    entry.edx
                };
                proof {
                    let raw = self.0;
                    assert((value & raw) ^ raw == raw & !value) by (bit_vector);
                }
                missing.push(Some(set_bit_positions(updated ^ self.0)));
                cpuid.set(i, entry);
            } else {
                missing.push(None);
            }
            i = i + 1;
        }
        assert(cpuid@ =~= Seq::new(before.len(), |i: int| self.intersected(before[i])));
        assert forall|i: int, b: u8| 0 <= i < missing@.len() && missing@[i] is Some implies (
        #[trigger] missing@[i]->0@.contains(b) <==> b < 32 && bit32(self.raw(), b as u32)
            && !bit32(register_of(before[i], REG), b as u32)) by {
            law_missing_flags_are_permitted_but_absent(self.raw(), register_of(before[i], REG), b);
        }
        missing
    }
}

/// A set of CPUID feature flags consisting of the registers for the various leaves describing
/// CPU feature flags.
///
/// # Feature related registers that are ignored
///
/// - 0x12: SGX capabilities
/// - 0x19: Intel key locker features
/// - 0x1E, ECX=1: TMUL information (this is handled separately)
/// - 0x8000_001F: Encrypted Memory Capabilities
/// - 0xC000_0000: Highest Centaur Extended Function
/// - 0xC000_0001: Centaur Feature Information
///
/// # Constructors
///
/// This struct has constructors for each of the supported CPU profiles.
pub struct CpuIdFeatureFlags {
    pub edx_1: CpuIdEntryRegister<1, 0, EDX>,
    pub ecx_1: CpuIdEntryRegister<1, 0, ECX>,
    pub ebx_7_0: CpuIdEntryRegister<7, 0, EBX>,
    pub ecx_7_0: CpuIdEntryRegister<7, 0, ECX>,
    pub edx_7_0: CpuIdEntryRegister<7, 0, EDX>,
    pub eax_7_1: CpuIdEntryRegister<7, 1, EAX>,
    pub ecx_7_1: CpuIdEntryRegister<7, 1, ECX>,
    pub edx_7_1: CpuIdEntryRegister<7, 1, EDX>,
    pub edx_7_2: CpuIdEntryRegister<7, 2, EDX>,
    pub eax_0dh_1: CpuIdEntryRegister<0xd, 1, EAX>,
    pub ecx_14h: CpuIdEntryRegister<0x14, 0, ECX>,
    pub ecx_24h_1: CpuIdEntryRegister<0x24, 1, ECX>,
    pub edx_8000_0001h: CpuIdEntryRegister<0x8000_0001, 0, EDX>,
    pub ecx_8000_0001h: CpuIdEntryRegister<0x8000_0001, 0, ECX>,
    pub edx_8000_0007h: CpuIdEntryRegister<0x8000_0007, 0, EDX>,
    pub ebx_8000_0008h: CpuIdEntryRegister<0x8000_0008, 0, EBX>,
    /// FEAT_SVM in QEMU
    pub edx_8000_000ah: CpuIdEntryRegister<0x8000_000A, 0, EDX>,
    pub eax_8000_0021h: CpuIdEntryRegister<0x8000_0021, 0, EAX>,
}

impl CpuIdFeatureFlags {
    /// The flags that may stay in a register: those of the set that is about it, or every
    /// flag where there is no such set.
    pub open spec fn permitted(self, function: u32, index: u32, register: CpuidReg) -> u32 {
        match (function, index, register) {
            (1, 0, CpuidReg::EDX) => self.edx_1.raw(),
            (1, 0, CpuidReg::ECX) => self.ecx_1.raw(),
            (7, 0, CpuidReg::EBX) => self.ebx_7_0.raw(),
            (7, 0, CpuidReg::ECX) => self.ecx_7_0.raw(),
            (7, 0, CpuidReg::EDX) => self.edx_7_0.raw(),
            (7, 1, CpuidReg::EAX) => self.eax_7_1.raw(),
            (7, 1, CpuidReg::ECX) => self.ecx_7_1.raw(),
            (7, 1, CpuidReg::EDX) => self.edx_7_1.raw(),
            (7, 2, CpuidReg::EDX) => self.edx_7_2.raw(),
            (0xd, 1, CpuidReg::EAX) => self.eax_0dh_1.raw(),
            (0x14, 0, CpuidReg::ECX) => self.ecx_14h.raw(),
            (0x24, 1, CpuidReg::ECX) => self.ecx_24h_1.raw(),
            (0x8000_0001, 0, CpuidReg::EDX) => self.edx_8000_0001h.raw(),
            (0x8000_0001, 0, CpuidReg::ECX) => self.ecx_8000_0001h.raw(),
            (0x8000_0007, 0, CpuidReg::EDX) => self.edx_8000_0007h.raw(),
            (0x8000_0008, 0, CpuidReg::EBX) => self.ebx_8000_0008h.raw(),
            (0x8000_000A, 0, CpuidReg::EDX) => self.edx_8000_000ah.raw(),
            (0x8000_0021, 0, CpuidReg::EAX) => self.eax_8000_0021h.raw(),
            _ => u32::MAX,
        }
    }

    /// An entry with every register intersected with the flags that may stay in it. An entry
    /// whose index does not count stays as it is.
    pub open spec fn restricted(self, entry: CpuIdEntry) -> CpuIdEntry {
        if entry.flags == CPUID_FLAG_VALID_INDEX {
            CpuIdEntry {
                eax: entry.eax & self.permitted(entry.function, entry.index, CpuidReg::EAX),
                ebx: entry.ebx & self.permitted(entry.function, entry.index, CpuidReg::EBX),
                ecx: entry.ecx & self.permitted(entry.function, entry.index, CpuidReg::ECX),
                edx: entry.edx & self.permitted(entry.function, entry.index, CpuidReg::EDX),
                ..entry
            }
        } else {
            entry
        }
    }

    /// The flags of Intel Cascade Lake, version 1.
    pub fn intel_cascadelake_v1() -> (flags: Self)
        ensures
            flags.edx_1.raw() == CASCADELAKE_V1_EDX_1,
            flags.ecx_1.raw() == CASCADELAKE_V1_ECX_1,
            flags.ebx_7_0.raw() == CASCADELAKE_V1_EBX_7_0,
            flags.ecx_7_0.raw() == CASCADELAKE_V1_ECX_7_0,
            flags.edx_7_0.raw() == CASCADELAKE_V1_EDX_7_0,
            flags.eax_7_1.raw() == 0,
            flags.ecx_7_1.raw() == 0,
            flags.edx_7_1.raw() == 0,
            flags.edx_7_2.raw() == 0,
            flags.eax_0dh_1.raw() == CASCADELAKE_V1_EAX_0DH_1,
            flags.ecx_14h.raw() == 0,
            flags.ecx_24h_1.raw() == 0,
            flags.edx_8000_0001h.raw() == CASCADELAKE_V1_EDX_8000_0001H,
            flags.ecx_8000_0001h.raw() == CASCADELAKE_V1_ECX_8000_0001H,
            flags.edx_8000_0007h.raw() == 0,
            flags.ebx_8000_0008h.raw() == 0,
            flags.edx_8000_000ah.raw() == 0,
            flags.eax_8000_0021h.raw() == 0,
    {
        CpuIdFeatureFlags {
            edx_1: CpuIdEntryRegister::from_raw(CASCADELAKE_V1_EDX_1),
            ecx_1: CpuIdEntryRegister::from_raw(CASCADELAKE_V1_ECX_1),
            ebx_7_0: CpuIdEntryRegister::from_raw(CASCADELAKE_V1_EBX_7_0),
            ecx_7_0: CpuIdEntryRegister::from_raw(CASCADELAKE_V1_ECX_7_0),
            edx_7_0: CpuIdEntryRegister::from_raw(CASCADELAKE_V1_EDX_7_0),
            eax_7_1: CpuIdEntryRegister::null(),
            ecx_7_1: CpuIdEntryRegister::null(),
            edx_7_1: CpuIdEntryRegister::null(),
            edx_7_2: CpuIdEntryRegister::null(),
            eax_0dh_1: CpuIdEntryRegister::from_raw(CASCADELAKE_V1_EAX_0DH_1),
            ecx_14h: CpuIdEntryRegister::null(),
            ecx_24h_1: CpuIdEntryRegister::null(),
            edx_8000_0001h: CpuIdEntryRegister::from_raw(CASCADELAKE_V1_EDX_8000_0001H),
            ecx_8000_0001h: CpuIdEntryRegister::from_raw(CASCADELAKE_V1_ECX_8000_0001H),
            edx_8000_0007h: CpuIdEntryRegister::null(),
            ebx_8000_0008h: CpuIdEntryRegister::null(),
            edx_8000_000ah: CpuIdEntryRegister::null(),
            eax_8000_0021h: CpuIdEntryRegister::null(),
        }
    }

    /// Restricts the given entries by performing bitwise intersections of registers per set of
    /// matching parameters.
    pub fn restrict(&self, cpuid: &mut Vec<CpuIdEntry>)
        ensures
            final(cpuid)@ == Seq::new(
                old(cpuid)@.len(),
                |i: int| self.restricted(old(cpuid)@[i]),
            ),
    {
        let ghost before = cpuid@;
        self.edx_1.intersect_matching(cpuid);
        self.ecx_1.intersect_matching(cpuid);
        self.ebx_7_0.intersect_matching(cpuid);
        self.ecx_7_0.intersect_matching(cpuid);
        self.edx_7_0.intersect_matching(cpuid);
        self.eax_7_1.intersect_matching(cpuid);
        self.ecx_7_1.intersect_matching(cpuid);
        self.edx_7_1.intersect_matching(cpuid);
        self.edx_7_2.intersect_matching(cpuid);
        self.eax_0dh_1.intersect_matching(cpuid);
        self.ecx_14h.intersect_matching(cpuid);
        self.ecx_24h_1.intersect_matching(cpuid);
        self.edx_8000_0001h.intersect_matching(cpuid);
        self.ecx_8000_0001h.intersect_matching(cpuid);
        self.edx_8000_0007h.intersect_matching(cpuid);
        self.ebx_8000_0008h.intersect_matching(cpuid);
        self.edx_8000_000ah.intersect_matching(cpuid);
        self.eax_8000_0021h.intersect_matching(cpuid);
        assert forall|i: int| 0 <= i < before.len() implies cpuid@[i] == self.restricted(
            #[trigger] before[i],
        ) by {
            lemma_and_ones(before[i].eax);
            lemma_and_ones(before[i].ebx);
            lemma_and_ones(before[i].ecx);
            lemma_and_ones(before[i].edx);
        }
        assert(cpuid@ =~= Seq::new(before.len(), |i: int| self.restricted(before[i])));
    }
}

/// Intersecting with every flag keeps a value.
pub proof fn lemma_and_ones(value: u32)
    ensures
        value & u32::MAX == value,
{
    assert(value & 0xffff_ffffu32 == value) by (bit_vector);
}

/// The flags that are missing in a register are those that are permitted and that it does not have.
pub proof fn law_missing_flags_are_permitted_but_absent(permitted: u32, value: u32, b: u8)
    ensures
        set_bits_below(permitted & !value, 32).contains(b) <==> b < 32 && bit32(
            permitted,
            b as u32,
        ) && !bit32(value, b as u32),
{
    law_positions_are_those_of_set_bits(permitted & !value, 32);
    let p = b as u32;
    assert(p < 32 ==> (((permitted & !value) >> p) & 1u32 == 1u32) == ((permitted >> p) & 1u32
        == 1u32 && !((value >> p) & 1u32 == 1u32))) by (bit_vector);
}

/// Every set restricts the register that it is about, and nothing else is changed: of an entry
/// whose index counts, a register keeps those of its flags that its set permits, and a register
/// without a set keeps all of them.
pub proof fn law_every_set_restricts_its_register(flags: CpuIdFeatureFlags, entry: CpuIdEntry)
    ensures
        entry.flags == CPUID_FLAG_VALID_INDEX && entry.function == 1 && entry.index == 0 ==> {
            let after = flags.restricted(entry);
            &&& after.eax == entry.eax
            &&& after.ebx == entry.ebx
            &&& after.ecx == entry.ecx & flags.ecx_1.raw()
            &&& after.edx == entry.edx & flags.edx_1.raw()
        },
        entry.flags == CPUID_FLAG_VALID_INDEX && entry.function == 7 && entry.index == 0 ==> {
            let after = flags.restricted(entry);
            &&& after.eax == entry.eax
            &&& after.ebx == entry.ebx & flags.ebx_7_0.raw()
            &&& after.ecx == entry.ecx & flags.ecx_7_0.raw()
            &&& after.edx == entry.edx & flags.edx_7_0.raw()
        },
        entry.flags == CPUID_FLAG_VALID_INDEX && entry.function == 7 && entry.index == 1 ==> {
            let after = flags.restricted(entry);
            &&& after.eax == entry.eax & flags.eax_7_1.raw()
            &&& after.ebx == entry.ebx
            &&& after.ecx == entry.ecx & flags.ecx_7_1.raw()
            &&& after.edx == entry.edx & flags.edx_7_1.raw()
        },
        entry.flags == CPUID_FLAG_VALID_INDEX && entry.function == 7 && entry.index == 2 ==> {
            let after = flags.restricted(entry);
            &&& after.eax == entry.eax
            &&& after.ebx == entry.ebx
            &&& after.ecx == entry.ecx
            &&& after.edx == entry.edx & flags.edx_7_2.raw()
        },
        entry.flags == CPUID_FLAG_VALID_INDEX && entry.function == 0xd && entry.index == 1 ==> {
            let after = flags.restricted(entry);
            &&& after.eax == entry.eax & flags.eax_0dh_1.raw()
            &&& after.ebx == entry.ebx
            &&& after.ecx == entry.ecx
            &&& after.edx == entry.edx
        },
        entry.flags == CPUID_FLAG_VALID_INDEX && entry.function == 0x14 && entry.index == 0 ==> {
            let after = flags.restricted(entry);
            &&& after.eax == entry.eax
            &&& after.ebx == entry.ebx
            &&& after.ecx == entry.ecx & flags.ecx_14h.raw()
            &&& after.edx == entry.edx
        },
        entry.flags == CPUID_FLAG_VALID_INDEX && entry.function == 0x24 && entry.index == 1 ==> {
            let after = flags.restricted(entry);
            &&& after.eax == entry.eax
            &&& after.ebx == entry.ebx
            &&& after.ecx == entry.ecx & flags.ecx_24h_1.raw()
            &&& after.edx == entry.edx
        },
        entry.flags == CPUID_FLAG_VALID_INDEX && entry.function == 0x8000_0001 && entry.index == 0 ==> {
            let after = flags.restricted(entry);
            &&& after.eax == entry.eax
            &&& after.ebx == entry.ebx
            &&& after.ecx == entry.ecx & flags.ecx_8000_0001h.raw()
            &&& after.edx == entry.edx & flags.edx_8000_0001h.raw()
        },
        entry.flags == CPUID_FLAG_VALID_INDEX && entry.function == 0x8000_0007 && entry.index == 0 ==> {
            let after = flags.restricted(entry);
            &&& after.eax == entry.eax
            &&& after.ebx == entry.ebx
            &&& after.ecx == entry.ecx
            &&& after.edx == entry.edx & flags.edx_8000_0007h.raw()
        },
        entry.flags == CPUID_FLAG_VALID_INDEX && entry.function == 0x8000_0008 && entry.index == 0 ==> {
            let after = flags.restricted(entry);
            &&& after.eax == entry.eax
            &&& after.ebx == entry.ebx & flags.ebx_8000_0008h.raw()
            &&& after.ecx == entry.ecx
            &&& after.edx == entry.edx
        },
        entry.flags == CPUID_FLAG_VALID_INDEX && entry.function == 0x8000_000A && entry.index == 0 ==> {
            let after = flags.restricted(entry);
            &&& after.eax == entry.eax
            &&& after.ebx == entry.ebx
            &&& after.ecx == entry.ecx
            &&& after.edx == entry.edx & flags.edx_8000_000ah.raw()
        },
        entry.flags == CPUID_FLAG_VALID_INDEX && entry.function == 0x8000_0021 && entry.index == 0 ==> {
            let after = flags.restricted(entry);
            &&& after.eax == entry.eax & flags.eax_8000_0021h.raw()
            &&& after.ebx == entry.ebx
            &&& after.ecx == entry.ecx
            &&& after.edx == entry.edx
        },
        entry.flags != CPUID_FLAG_VALID_INDEX ==> flags.restricted(entry) == entry,
        !((entry.function == 1 && entry.index == 0) || (entry.function == 7 && entry.index == 0) || (entry.function == 7 && entry.index == 1) || (entry.function == 7 && entry.index == 2) || (entry.function == 0xd && entry.index == 1) || (entry.function == 0x14 && entry.index == 0) || (entry.function == 0x24 && entry.index == 1) || (entry.function == 0x8000_0001 && entry.index == 0) || (entry.function == 0x8000_0007 && entry.index == 0) || (entry.function == 0x8000_0008 && entry.index == 0) || (entry.function == 0x8000_000A && entry.index == 0) || (entry.function == 0x8000_0021 && entry.index == 0)) ==> flags.restricted(entry) == entry,
{
    lemma_and_ones(entry.eax);
    lemma_and_ones(entry.ebx);
    lemma_and_ones(entry.ecx);
    lemma_and_ones(entry.edx);
}

/// Restricting an entry sets no flag: each register keeps a part of the flags that it had, and
/// whatever else the entry holds stays as it is.
pub proof fn law_restricting_sets_no_flag(flags: CpuIdFeatureFlags, entry: CpuIdEntry)
    ensures
        flags.restricted(entry).eax & entry.eax == flags.restricted(entry).eax,
        flags.restricted(entry).ebx & entry.ebx == flags.restricted(entry).ebx,
        flags.restricted(entry).ecx & entry.ecx == flags.restricted(entry).ecx,
        flags.restricted(entry).edx & entry.edx == flags.restricted(entry).edx,
        flags.restricted(entry).function == entry.function,
        flags.restricted(entry).index == entry.index,
        flags.restricted(entry).flags == entry.flags,
{
    assert forall|a: u32, b: u32| #[trigger] (a & b) & a == a & b by {
        assert((a & b) & a == a & b) by (bit_vector);
    }
    assert forall|a: u32| #[trigger] (a & a) == a by {
        assert(a & a == a) by (bit_vector);
    }
}

/// Restricting an entry once more with the same flags changes nothing.
pub proof fn law_restricting_is_stable(flags: CpuIdFeatureFlags, entry: CpuIdEntry)
    ensures
        flags.restricted(flags.restricted(entry)) == flags.restricted(entry),
{
    assert forall|a: u32, b: u32| #[trigger] ((a & b) & b) == a & b by {
        assert(((a & b) & b) == a & b) by (bit_vector);
    }
}

/// Entries of two hosts that offer the permitted flags of a profile are equal after they have
/// been restricted to it, if nothing else tells them apart.
pub proof fn law_restricted_entries_agree(
    flags: CpuIdFeatureFlags,
    one: CpuIdEntry,
    other: CpuIdEntry,
)
    requires
        one.flags == CPUID_FLAG_VALID_INDEX,
        other.flags == CPUID_FLAG_VALID_INDEX,
        one.function == other.function,
        one.index == other.index,
        forall|register: CpuidReg|
            {
                let permitted = #[trigger] flags.permitted(one.function, one.index, register);
                one.register(register) & permitted == other.register(register) & permitted
            },
    ensures
        flags.restricted(one) == flags.restricted(other),
{
}

} // verus!
