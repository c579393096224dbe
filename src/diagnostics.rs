//! Configuration errors: what went wrong and where in the text.

use vstd::prelude::*;
use crate::configuration::Span;

verus! {

/// A span with the text shown beside it.
#[derive(Clone, Debug)]
pub struct LabeledSpan {
    pub label: String,
    pub span: Span,
}

impl View for LabeledSpan {
    type V = (Seq<char>, Span);

    open spec fn view(&self) -> (Seq<char>, Span) {
        (self.label@, self.span)
    }
}

/// Why a configuration does not resolve to an environment.
#[derive(Clone, Debug)]
pub enum ConfigError {
    /// The text is not TOML, or not of the expected shape.
    TomlParse { msg: String, span: Span },
    /// A merged environment breaks a rule on its fields.
    EnvironmentValidation { msg: String, span: Span },
    /// The requested environment is not declared.
    EnvironmentSearch { msg: String, span: Span },
    /// The declared Dockerfile is not an existing file.
    InvalidDockerfilePath { msg: String, span: Span },
    /// An environment names a preset that is not declared.
    UnknownPreset { msg: String, span: Span },
    /// A scalar field has a value in more than one source.
    DuplicateFieldsFromPresets { spans: Vec<LabeledSpan> },
    /// The Dockerfile could not be read.
    FailedToInteractWithDockerfile(String),
}

/// A configuration error as mathematical values.
pub ghost enum ConfigErrorView {
    TomlParse { msg: Seq<char>, span: Span },
    EnvironmentValidation { msg: Seq<char>, span: Span },
    EnvironmentSearch { msg: Seq<char>, span: Span },
    InvalidDockerfilePath { msg: Seq<char>, span: Span },
    UnknownPreset { msg: Seq<char>, span: Span },
    DuplicateFieldsFromPresets { spans: Seq<(Seq<char>, Span)> },
    FailedToInteractWithDockerfile(Seq<char>),
}

impl View for ConfigError {
    type V = ConfigErrorView;

    open spec fn view(&self) -> ConfigErrorView {
        match self {
            ConfigError::TomlParse { msg, span } => ConfigErrorView::TomlParse { msg: msg@, span: *span },
            ConfigError::EnvironmentValidation { msg, span } => ConfigErrorView::EnvironmentValidation {
                msg: msg@,
                span: *span,
            },
            ConfigError::EnvironmentSearch { msg, span } => ConfigErrorView::EnvironmentSearch {
                msg: msg@,
                span: *span,
            },
            ConfigError::InvalidDockerfilePath { msg, span } => ConfigErrorView::InvalidDockerfilePath {
                msg: msg@,
                span: *span,
            },
            ConfigError::UnknownPreset { msg, span } => ConfigErrorView::UnknownPreset {
                msg: msg@,
                span: *span,
            },
            ConfigError::DuplicateFieldsFromPresets { spans } => ConfigErrorView::DuplicateFieldsFromPresets {
                spans: spans@.map_values(|l: LabeledSpan| l@),
            },
            ConfigError::FailedToInteractWithDockerfile(p) => ConfigErrorView::FailedToInteractWithDockerfile(p@),
        }
    }
}

impl ConfigError {
    /// The title under which the error is shown.
    pub fn title(&self) -> (r: &'static str) {
        match self {
            ConfigError::TomlParse { .. } => "Malformed TOML",
            ConfigError::EnvironmentValidation { .. } => "Malformed Environment",
            ConfigError::EnvironmentSearch { .. } => "Environment Not Present",
            ConfigError::InvalidDockerfilePath { .. } => "Nonexistent Dockerfile",
            ConfigError::UnknownPreset { .. } => "Unknown Preset",
            ConfigError::DuplicateFieldsFromPresets { .. } => "Duplicate Fields From Presets",
            ConfigError::FailedToInteractWithDockerfile(_) => "Couldn't read provided dockerfile for hashing",
        }
    }

    /// The diagnostic code of the error.
    pub fn code(&self) -> (r: &'static str) {
        match self {
            ConfigError::TomlParse { .. } => "configuration::parsing",
            ConfigError::EnvironmentValidation { .. } => "configuration::environment::validation",
            ConfigError::EnvironmentSearch { .. } => "configuration::environment::search",
            ConfigError::InvalidDockerfilePath { .. } => "configuration::environment::dockerfile",
            ConfigError::UnknownPreset { .. } => "configuration::preset::unknown",
            ConfigError::DuplicateFieldsFromPresets { .. } => "configuration::preset::duplication",
            ConfigError::FailedToInteractWithDockerfile(_) => "configuration::environment::dockerfile::read",
        }
    }
}

pub open spec fn unknown_preset_msg() -> Seq<char> {
    "Failed to find provided preset"@
}

pub open spec fn missing_entry_cmd_msg() -> Seq<char> {
    "An environment requires a 'entry_cmd' field"@
}

pub open spec fn missing_image_msg() -> Seq<char> {
    "An environment requires an 'image' or 'dockerfile' field"@
}

pub open spec fn both_image_msg() -> Seq<char> {
    "An environment can only have an 'image' or 'dockerfile' field"@
}

pub open spec fn lone_build_context_msg() -> Seq<char> {
    "'build_context' can only be used with a 'dockerfile'"@
}

pub open spec fn missing_dockerfile_msg() -> Seq<char> {
    "Could not find dockerfile"@
}

/// The message for a requested environment that is not declared.
pub open spec fn missing_environment_msg(name: Seq<char>) -> Seq<char> {
    "Failed to find provided environment '"@ + name + "' in config"@
}

} // verus!
