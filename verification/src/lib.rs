//! Color management configuration model: color spaces, roles, displays,
//! looks, context variables and config files.
use vstd::prelude::*;

pub mod text;
pub mod seqs;
pub mod error;
pub mod look;
pub mod yaml;
pub mod yaml_load;
pub mod strmap;
pub mod role;
pub mod context;
pub mod colorspace;
pub mod display;
pub mod transform;
pub mod gpu;
pub mod simd;
pub mod builtin;
pub mod patterns;
pub mod file_rules;
pub mod config;
pub mod config_parse;
pub mod config_check;
pub mod config_text;
pub mod chain;
pub mod validate;
pub mod config_builder;
pub mod processor;
pub mod builtin_transforms;
pub mod dynamic;
pub mod grading_hue_curve;
pub mod config_laws;

pub use error::{OcioError, OcioResult};
pub use config::{Config, ConfigVersion, FileRule, FileRuleKind, NamedTransform, SharedView, ViewingRule};
pub use config_builder::ConfigBuilder;
pub use colorspace::{AllocationType, BitDepth, ColorSpace, ColorSpaceBuilder, Encoding, Family};
pub use transform::{
    BuiltinTransferTransform, BuiltinTransform, CdlStyle, ColorSpaceTransform, DisplayViewTransform,
    ExposureContrastStyle, FileTransform, FixedFunctionStyle, Interpolation, LookTransform,
    NegativeStyle, RangeStyle, TransformDirection,
};
pub use processor::OptimizationLevel;
pub use display::{Display, DisplayManager, View, ViewTransform};
pub use look::{Look, LookManager, parse_looks};
pub use role::{Roles, names as role_names};
pub use context::Context;
pub use chain::ChainStep;
pub use validate::{check as validate_config, has_errors, has_warnings, Issue, IssueCategory, Severity};

verus! {
}
