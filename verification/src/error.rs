//! Errors of config parsing, lookup and processing.
use vstd::prelude::*;
use crate::text::{push_str, string_of};

verus! {

/// Errors that can occur during color management operations.
#[derive(Debug)]
pub enum OcioError {
    /// I/O error reading config files (its message).
    Io(String),
    /// YAML parsing error.
    Yaml(String),
    /// Config file not found.
    ConfigNotFound {
        /// Path that was searched.
        path: String,
    },
    /// Invalid config version.
    UnsupportedVersion {
        /// Version string from config.
        version: String,
    },
    /// Color space not found in config.
    ColorSpaceNotFound {
        /// Name of the missing color space.
        name: String,
    },
    /// Role not defined in config.
    RoleNotDefined {
        /// Name of the undefined role.
        role: String,
    },
    /// Display not found in config.
    DisplayNotFound {
        /// Name of the missing display.
        name: String,
    },
    /// View not found for display.
    ViewNotFound {
        /// Display name.
        display: String,
        /// View name.
        view: String,
    },
    /// Look not found in config.
    LookNotFound {
        /// Name of the missing look.
        name: String,
    },
    /// Invalid transform definition.
    InvalidTransform {
        /// Description of what's wrong.
        reason: String,
    },
    /// File reference in transform not found.
    TransformFileNotFound {
        /// Path to the missing file.
        path: String,
    },
    /// Circular reference detected in transforms.
    CircularReference {
        /// Description of the circular chain.
        chain: String,
    },
    /// Context variable not set.
    ContextVariableNotSet {
        /// Name of the missing variable.
        name: String,
    },
    /// Invalid environment variable reference.
    InvalidEnvReference {
        /// The invalid expression.
        expr: String,
    },
    /// Transform processing error.
    Transform(String),
    /// LUT loading error (its message).
    Lut(String),
    /// General validation error.
    Validation(String),
}

/// The result of color management operations.
pub type OcioResult<T> = Result<T, OcioError>;

/// What an error holds, by kind and text.
pub enum ErrorModel {
    Io(Seq<char>),
    Yaml(Seq<char>),
    ConfigNotFound(Seq<char>),
    UnsupportedVersion(Seq<char>),
    ColorSpaceNotFound(Seq<char>),
    RoleNotDefined(Seq<char>),
    DisplayNotFound(Seq<char>),
    ViewNotFound(Seq<char>, Seq<char>),
    LookNotFound(Seq<char>),
    InvalidTransform(Seq<char>),
    TransformFileNotFound(Seq<char>),
    CircularReference(Seq<char>),
    ContextVariableNotSet(Seq<char>),
    InvalidEnvReference(Seq<char>),
    Transform(Seq<char>),
    Lut(Seq<char>),
    Validation(Seq<char>),
}

impl View for OcioError {
    type V = ErrorModel;

    open spec fn view(&self) -> ErrorModel {
        match self {
            OcioError::Io(s) => ErrorModel::Io(s@),
            OcioError::Yaml(s) => ErrorModel::Yaml(s@),
            OcioError::ConfigNotFound { path } => ErrorModel::ConfigNotFound(path@),
            OcioError::UnsupportedVersion { version } => ErrorModel::UnsupportedVersion(version@),
            OcioError::ColorSpaceNotFound { name } => ErrorModel::ColorSpaceNotFound(name@),
            OcioError::RoleNotDefined { role } => ErrorModel::RoleNotDefined(role@),
            OcioError::DisplayNotFound { name } => ErrorModel::DisplayNotFound(name@),
            OcioError::ViewNotFound { display, view } => ErrorModel::ViewNotFound(display@, view@),
            OcioError::LookNotFound { name } => ErrorModel::LookNotFound(name@),
            OcioError::InvalidTransform { reason } => ErrorModel::InvalidTransform(reason@),
            OcioError::TransformFileNotFound { path } => ErrorModel::TransformFileNotFound(path@),
            OcioError::CircularReference { chain } => ErrorModel::CircularReference(chain@),
            OcioError::ContextVariableNotSet { name } => ErrorModel::ContextVariableNotSet(name@),
            OcioError::InvalidEnvReference { expr } => ErrorModel::InvalidEnvReference(expr@),
            OcioError::Transform(s) => ErrorModel::Transform(s@),
            OcioError::Lut(s) => ErrorModel::Lut(s@),
            OcioError::Validation(s) => ErrorModel::Validation(s@),
        }
    }
}

/// The message of an error.
pub open spec fn error_message(e: ErrorModel) -> Seq<char> {
    match e {
        ErrorModel::Io(s) => "I/O error: "@ + s,
        ErrorModel::Yaml(s) => "YAML parse error: "@ + s,
        ErrorModel::ConfigNotFound(p) => "config file not found: "@ + p,
        ErrorModel::UnsupportedVersion(v) => "unsupported config version: "@ + v
            + " (supported: 1.x, 2.x)"@,
        ErrorModel::ColorSpaceNotFound(n) => "color space not found: "@ + n,
        ErrorModel::RoleNotDefined(r) => "role not defined: "@ + r,
        ErrorModel::DisplayNotFound(n) => "display not found: "@ + n,
        ErrorModel::ViewNotFound(d, v) => "view '"@ + v + "' not found for display '"@ + d + "'"@,
        ErrorModel::LookNotFound(n) => "look not found: "@ + n,
        ErrorModel::InvalidTransform(r) => "invalid transform: "@ + r,
        ErrorModel::TransformFileNotFound(p) => "transform file not found: "@ + p,
        ErrorModel::CircularReference(c) => "circular reference detected: "@ + c,
        ErrorModel::ContextVariableNotSet(n) => "context variable not set: "@ + n,
        ErrorModel::InvalidEnvReference(x) => "invalid environment reference: "@ + x,
        ErrorModel::Transform(s) => "transform error: "@ + s,
        ErrorModel::Lut(s) => "LUT error: "@ + s,
        ErrorModel::Validation(s) => "validation error: "@ + s,
    }
}

/// `a` followed by `b`.
fn cat2(a: &str, b: &str) -> (r: String)
    ensures
        r@ == a@ + b@,
{
    let mut s = string_of(a);
    push_str(&mut s, b);
    s
}

impl OcioError {
    /// The human-readable message of this error.
    pub fn message(&self) -> (r: String)
        ensures
            r@ == error_message(self@),
    {
        match self {
            OcioError::Io(s) => cat2("I/O error: ", s.as_str()),
            OcioError::Yaml(s) => cat2("YAML parse error: ", s.as_str()),
            OcioError::ConfigNotFound { path } => cat2("config file not found: ", path.as_str()),
            OcioError::UnsupportedVersion { version } => {
                let mut s = cat2("unsupported config version: ", version.as_str());
                push_str(&mut s, " (supported: 1.x, 2.x)");
                s
            },
            OcioError::ColorSpaceNotFound { name } => cat2("color space not found: ", name.as_str()),
            OcioError::RoleNotDefined { role } => cat2("role not defined: ", role.as_str()),
            OcioError::DisplayNotFound { name } => cat2("display not found: ", name.as_str()),
            OcioError::ViewNotFound { display, view } => {
                let mut s = cat2("view '", view.as_str());
                push_str(&mut s, "' not found for display '");
                push_str(&mut s, display.as_str());
                push_str(&mut s, "'");
                s
            },
            OcioError::LookNotFound { name } => cat2("look not found: ", name.as_str()),
            OcioError::InvalidTransform { reason } => cat2("invalid transform: ", reason.as_str()),
            OcioError::TransformFileNotFound { path } => cat2("transform file not found: ", path.as_str()),
            OcioError::CircularReference { chain } => cat2("circular reference detected: ", chain.as_str()),
            OcioError::ContextVariableNotSet { name } => cat2("context variable not set: ", name.as_str()),
            OcioError::InvalidEnvReference { expr } => cat2("invalid environment reference: ", expr.as_str()),
            OcioError::Transform(s) => cat2("transform error: ", s.as_str()),
            OcioError::Lut(s) => cat2("LUT error: ", s.as_str()),
            OcioError::Validation(s) => cat2("validation error: ", s.as_str()),
        }
    }
}

} // verus!
