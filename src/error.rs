//! Failures of a bindings build, tagged with the stage that failed.
use vstd::prelude::*;
use crate::arch::{FlutterArch, Mode};

verus! {

/// Why a build was refused before any step ran.
#[derive(Clone, Copy, Debug, PartialEq, Eq, Structural)]
pub enum ConfigIssue {
    /// The host architecture belongs to neither known family.
    UnsupportedHost,
    /// A requested architecture name names no target of the platform.
    UnknownArch,
    /// No architecture was requested.
    NoArchs,
}

/// What went wrong with a manifest.
#[derive(Clone, Copy, Debug, PartialEq, Eq, Structural)]
pub enum ManifestIssue {
    /// The manifest could not be read or written.
    Io,
    /// The manifest is not a TOML document.
    Parse,
    /// The document could not be written back as TOML.
    Render,
    /// A value the build needs is missing from the manifest.
    MissingEntry,
}

/// A failed build; `code` is the exit status of the failing tool, when it
/// exited with one.
#[derive(Clone, Copy, Debug, PartialEq, Eq, Structural)]
pub enum BuildError {
    Configuration(ConfigIssue),
    Scaffold { code: Option<i32> },
    Manifest(ManifestIssue),
    DependencyRegistration { code: Option<i32> },
    Compile { arch: FlutterArch, mode: Mode, code: Option<i32> },
    Merge { group: usize, code: Option<i32> },
    Codegen { code: Option<i32> },
}

} // verus!
