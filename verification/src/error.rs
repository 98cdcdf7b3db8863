//! The error type of the orchestrator, one variant per failure the build
//! sequence can report, each carrying the path or code involved.
use vstd::prelude::*;

use crate::decimal::{dec_int, i32_to_dec};

verus! {

/// Why a build attempt stopped.
#[derive(Debug, Clone)]
pub enum BuildError {
    /// The target was never set on the builder.
    MissingTarget,
    /// The caller-supplied project manifest does not exist.
    ManifestMissing { path: String },
    /// The target names a specification file that does not exist.
    TargetSpecMissing { path: String },
    /// The caller-supplied source tree does not exist.
    RustSrcMissing { path: String },
    /// The auto-detected source tree does not exist.
    RustSrcNotInstalled,
    /// The host toolchain's installation root could not be parsed.
    SourcePathParse,
    /// The host toolchain is not a nightly one.
    NotNightly,
    /// The host compiler could not be spawned for a query.
    ProbeSpawn,
    /// A host compiler query printed something that is not text.
    ProbeNonUtf8,
    /// The target has no stem to name the artifact directory after.
    InvalidTargetSpec,
    /// The target has no stem to name the scratch directory after.
    TargetTripleParse,
    /// A directory could not be created.
    CreateDir { path: String },
    /// A file could not be written.
    WriteFile { path: String },
    /// The caller-supplied project manifest could not be parsed.
    ProfileParse { path: String },
    /// The external build tool could not be spawned.
    CargoSpawn,
    /// The external build tool exited unsuccessfully; `code` is its exit
    /// code, or `None` when it was ended by a signal.
    CompileFailed { code: Option<i32> },
    /// The compiled-artifact directory could not be read.
    ArtifactDirRead { path: String },
    /// An entry of the compiled-artifact directory could not be read.
    ArtifactEntry,
    /// An artifact's file name is not text; `name` is its lossy rendering.
    NonUnicodeName { name: String },
    /// One artifact could not be copied into the sysroot.
    CopyArtifact { from: String, to: String },
    /// The host triple could not be read off the host library directory.
    HostTripleParse,
    /// A directory's metadata could not be read while staging host tools.
    Metadata { path: String },
    /// The host-tool directory tree could not be copied.
    HostToolsCopy { from: String, to: String },
    /// The finished sysroot's canonical path could not be resolved.
    CanonicalizeFailed { path: String },
}

/// The message `BuildError::message` renders for `e`.
pub open spec fn spec_message(e: BuildError) -> Seq<char> {
    match e {
        BuildError::MissingTarget => "SysrootBuilder::target was not called"@,
        BuildError::ManifestMissing { path } => "Provided manifest did not exist. Path: "@
            + path@,
        BuildError::TargetSpecMissing { path } =>
        "Provided JSON Target Specification did not exist: "@ + path@,
        BuildError::RustSrcMissing { path } => "The provided rust-src directory did not exist: "@
            + path@,
        BuildError::RustSrcNotInstalled => "Rust-src component not installed?"@,
        BuildError::SourcePathParse => "Error parsing rust-src path"@,
        BuildError::NotNightly => "A nightly Rust version is required to build the sysroot"@,
        BuildError::ProbeSpawn => "Couldn't run rustc"@,
        BuildError::ProbeNonUtf8 => "Failed to convert sysroot path to utf-8"@,
        BuildError::InvalidTargetSpec => "Invalid Target Specification"@,
        BuildError::TargetTripleParse => "Failed to parse target triple"@,
        BuildError::CreateDir { path } => "Couldn't create directory: "@ + path@,
        BuildError::WriteFile { path } => "Failed writing file: "@ + path@,
        BuildError::ProfileParse { path } => "Failed to parse manifest: "@ + path@,
        BuildError::CargoSpawn => "Couldn't find/run cargo command"@,
        BuildError::CompileFailed { code } => match code {
            Some(c) => "Failed to build sysroot: Exit code "@ + dec_int(c as int),
            None => "Failed to build sysroot: Exit code Killed by signal"@,
        },
        BuildError::ArtifactDirRead { path } => "Failure to read artifact directory: "@ + path@,
        BuildError::ArtifactEntry => "Failure to read artifact directory entry"@,
        BuildError::NonUnicodeName { name } => "Invalid Unicode in path: "@ + name@,
        BuildError::CopyArtifact { from, to } => "Copying sysroot artifact from "@ + from@
            + " to "@ + to@ + " failed"@,
        BuildError::HostTripleParse => "Error parsing host target triple"@,
        BuildError::Metadata { path } => "Couldn't get metadata for "@ + path@,
        BuildError::HostToolsCopy { from, to } => "Couldn't copy from `"@ + from@ + "` to `"@
            + to@ + "`"@,
        BuildError::CanonicalizeFailed { path } => "Couldn't get canonical path to sysroot: "@
            + path@,
    }
}

impl BuildError {
    /// Renders the error as one line of text.
    pub fn message(&self) -> (r: String)
        ensures
            r@ == spec_message(*self),
    {
        match self {
            BuildError::MissingTarget => String::from_str(
                "SysrootBuilder::target was not called",
            ),
            BuildError::ManifestMissing { path } => {
                let mut s = String::from_str("Provided manifest did not exist. Path: ");
                s.append(path.as_str());
                s
            },
            BuildError::TargetSpecMissing { path } => {
                let mut s = String::from_str(
                    "Provided JSON Target Specification did not exist: ",
                );
                s.append(path.as_str());
                s
            },
            BuildError::RustSrcMissing { path } => {
                let mut s = String::from_str("The provided rust-src directory did not exist: ");
                s.append(path.as_str());
                s
            },
            BuildError::RustSrcNotInstalled => String::from_str(
                "Rust-src component not installed?",
            ),
            BuildError::SourcePathParse => String::from_str("Error parsing rust-src path"),
            BuildError::NotNightly => String::from_str(
                "A nightly Rust version is required to build the sysroot",
            ),
            BuildError::ProbeSpawn => String::from_str("Couldn't run rustc"),
            BuildError::ProbeNonUtf8 => String::from_str(
                "Failed to convert sysroot path to utf-8",
            ),
            BuildError::InvalidTargetSpec => String::from_str("Invalid Target Specification"),
            BuildError::TargetTripleParse => String::from_str("Failed to parse target triple"),
            BuildError::CreateDir { path } => {
                let mut s = String::from_str("Couldn't create directory: ");
                s.append(path.as_str());
                s
            },
            BuildError::WriteFile { path } => {
                let mut s = String::from_str("Failed writing file: ");
                s.append(path.as_str());
                s
            },
            BuildError::ProfileParse { path } => {
                let mut s = String::from_str("Failed to parse manifest: ");
                s.append(path.as_str());
                s
            },
            BuildError::CargoSpawn => String::from_str("Couldn't find/run cargo command"),
            BuildError::CompileFailed { code } => match code {
                Some(c) => {
                    let mut s = String::from_str("Failed to build sysroot: Exit code ");
                    let digits = i32_to_dec(*c);
                    s.append(digits.as_str());
                    s
                },
                None => String::from_str("Failed to build sysroot: Exit code Killed by signal"),
            },
            BuildError::ArtifactDirRead { path } => {
                let mut s = String::from_str("Failure to read artifact directory: ");
                s.append(path.as_str());
                s
            },
            BuildError::ArtifactEntry => String::from_str(
                "Failure to read artifact directory entry",
            ),
            BuildError::NonUnicodeName { name } => {
                let mut s = String::from_str("Invalid Unicode in path: ");
                s.append(name.as_str());
                s
            },
            BuildError::CopyArtifact { from, to } => {
                let mut s = String::from_str("Copying sysroot artifact from ");
                s.append(from.as_str());
                s.append(" to ");
                s.append(to.as_str());
                s.append(" failed");
                s
            },
            BuildError::HostTripleParse => String::from_str("Error parsing host target triple"),
            BuildError::Metadata { path } => {
                let mut s = String::from_str("Couldn't get metadata for ");
                s.append(path.as_str());
                s
            },
            BuildError::HostToolsCopy { from, to } => {
                let mut s = String::from_str("Couldn't copy from `");
                s.append(from.as_str());
                s.append("` to `");
                s.append(to.as_str());
                s.append("`");
                s
            },
            BuildError::CanonicalizeFailed { path } => {
                let mut s = String::from_str("Couldn't get canonical path to sysroot: ");
                s.append(path.as_str());
                s
            },
        }
    }
}

} // verus!
