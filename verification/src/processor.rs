//! Processor settings.
use vstd::prelude::*;

verus! {

/// Optimization level for processors.
#[derive(Debug, Clone, Copy, PartialEq, Eq, Structural)]
pub enum OptimizationLevel {
    /// No optimization.
    NoOptimization,
    /// Lossless optimization only (matrix combination, identity removal).
    Lossless,
    /// Good quality (may combine LUTs).
    Good,
    /// Best quality.
    Best,
    /// Draft quality (faster, less accurate).
    Draft,
}

impl Default for OptimizationLevel {
    /// Lossless optimization.
    fn default() -> (r: Self)
        ensures
            r == OptimizationLevel::Lossless,
    {
        OptimizationLevel::Lossless
    }
}

/// Built-in transfer function styles.
#[derive(Debug, Clone, Copy, PartialEq, Eq, Structural)]
pub enum TransferStyle {
    /// sRGB OETF.
    Srgb,
    /// Rec.709 OETF.
    Rec709,
    /// Rec.2020 OETF.
    Rec2020,
    /// Gamma 2.2.
    Gamma22,
    /// Gamma 2.4.
    Gamma24,
    /// Gamma 2.6 (DCI).
    Gamma26,
    /// Rec.1886 (gamma 2.4 for broadcast).
    Rec1886,
    /// Linear (passthrough).
    Linear,
    /// PQ (SMPTE ST 2084).
    Pq,
    /// HLG (ARIB STD-B67).
    Hlg,
    /// ACEScct.
    AcesCct,
    /// ACEScc.
    AcesCc,
    /// Log3G10.
    Log3G10,
    /// LogC3 (ARRI).
    LogC3,
    /// LogC4 (ARRI).
    LogC4,
    /// S-Log3 (Sony).
    SLog3,
    /// V-Log (Panasonic).
    VLog,
    /// Film Gen5 (Blackmagic).
    BmdFilmGen5,
    /// Apple Log.
    AppleLog,
    /// Canon C-Log2.
    CanonCLog2,
    /// Canon C-Log3.
    CanonCLog3,
}

} // verus!
