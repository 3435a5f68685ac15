//! Selection of the SIMD code path from the processor's capabilities.
use vstd::prelude::*;

verus! {

/// SIMD capability level.
#[derive(Debug, Clone, Copy, PartialEq, Eq, Structural)]
pub enum SimdLevel {
    /// No SIMD.
    Scalar,
    /// SSE 4.1.
    Sse41,
    /// AVX2.
    Avx2,
    /// ARM NEON.
    Neon,
}

/// The architecture a program runs on, as far as SIMD selection cares.
#[derive(Debug, Clone, Copy, PartialEq, Eq, Structural)]
pub enum CpuArch {
    /// 32- or 64-bit x86.
    X86,
    /// 64-bit ARM.
    Aarch64,
    /// Anything else.
    Other,
}

impl SimdLevel {
    /// The level to use: on x86 the best of AVX2 and SSE 4.1 that the CPU
    /// reports, on 64-bit ARM NEON, elsewhere scalar code.
    pub fn select(arch: CpuArch, has_avx2: bool, has_sse41: bool) -> (r: Self)
        ensures
            r == (match arch {
                CpuArch::X86 => if has_avx2 {
                    SimdLevel::Avx2
                } else if has_sse41 {
                    SimdLevel::Sse41
                } else {
                    SimdLevel::Scalar
                },
                CpuArch::Aarch64 => SimdLevel::Neon,
                CpuArch::Other => SimdLevel::Scalar,
            }),
    {
        match arch {
            CpuArch::X86 => if has_avx2 {
                SimdLevel::Avx2
            } else if has_sse41 {
                SimdLevel::Sse41
            } else {
                SimdLevel::Scalar
            },
            CpuArch::Aarch64 => SimdLevel::Neon,
            CpuArch::Other => SimdLevel::Scalar,
        }
    }
}

} // verus!
