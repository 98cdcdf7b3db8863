//! The orchestration state machine.
//!
//! A build is a strict sequence of outside operations — existence
//! checks, toolchain probes, directory creation, file writes, one
//! compiler invocation, artifact copies, host-tool staging — with a
//! decision after each. The machine holds the decisions: [`start`]
//! consumes a configuration snapshot and returns the first
//! [`BuildAction`]; the caller performs it, reports what happened as a
//! [`BuildEvent`], and hands both back to [`step`] for the next action,
//! until the state is [`BuildState::Done`] or [`BuildState::Failed`].
//! Every transition is pinned by [`step_rel`].
use vstd::prelude::*;

use crate::driver;
use crate::driver::{
    spec_cargo_args, spec_copy_plan, spec_rustflags, ExitOutcome,
};
use crate::error::BuildError;
use crate::locator;
use crate::locator::{spec_host_triple, spec_is_nightly_root, spec_rust_src_path, spec_trim};
use crate::manifest;
use crate::manifest::{spec_manifest_for, SysrootManifest};
use crate::pathops;
use crate::pathops::{spec_extension, spec_file_stem, spec_join};
use crate::stager;
use crate::stager::{spec_host_tools_dest, spec_up_to_date};
use crate::{artifact_dir, spec_artifact_dir, SysrootBuilder};

verus! {

/// What a toolchain probe handed back.
#[derive(Debug, Clone)]
pub enum ProbeResult {
    /// The compiler could not be spawned.
    SpawnFailed,
    /// Its output was not text.
    NonUtf8,
    /// Its output, not yet trimmed.
    Output(String),
}

/// How writing the synthesized manifest went.
#[derive(Debug, Clone)]
pub enum ManifestWriteOutcome {
    /// The manifest is on disk.
    Written,
    /// The caller's own manifest could not be parsed for its profiles.
    ProfileUnreadable,
    /// The manifest file could not be written.
    WriteFailed,
}

/// What listing the compiled-artifact directory handed back.
#[derive(Debug, Clone)]
pub enum ListingOutcome {
    /// The directory could not be read.
    ReadFailed,
    /// One of its entries could not be read.
    EntryFailed,
    /// An entry's name is not text; `name` is its lossy rendering.
    NonUnicode { name: String },
    /// The file names of all entries.
    Names { names: Vec<String> },
}

/// One outside operation for the caller to perform.
#[derive(Debug, Clone)]
pub enum BuildAction {
    /// Report whether `path` exists.
    CheckPath { path: String },
    /// Ask the host compiler for its installation root and report its
    /// output.
    RunRustcPrintSysroot,
    /// Create the directory `path` and every missing parent.
    CreateDir { path: String },
    /// Write `contents` to the file `path`.
    WriteStub { path: String, contents: String },
    /// Serialize `manifest` to the file `path`, copying the build
    /// profiles out of the manifest it names, if any.
    WriteManifest { path: String, manifest: SysrootManifest },
    /// Resolve `path` to canonical absolute form, reporting failure as
    /// an absent result.
    Canonicalize { path: String },
    /// Report the build-tool override and inherited compiler flags of
    /// the environment.
    ReadEnv,
    /// Run `program` with `args`, the composed compiler flags in the
    /// environment, and await it; report how it ended.
    RunCompiler { program: String, args: Vec<String>, rustflags: String },
    /// List the file names in the directory `path`.
    ReadDir { path: String },
    /// Copy each `(from, to)` pair, whole files, overwriting.
    CopyFiles { files: Vec<(String, String)> },
    /// Ask the host compiler for its own per-target library directory
    /// and report its output.
    RunRustcPrintLibdir,
    /// Report the modification times of `source` and `dest`.
    StatTimes { source: String, dest: String },
    /// Copy the directory tree `source` into `dest_parent`, overwriting.
    CopyTree { source: String, dest_parent: String },
}

/// The outcome of one performed [`BuildAction`].
#[derive(Debug, Clone)]
pub enum BuildEvent {
    /// Whether the checked path exists.
    Exists { yes: bool },
    /// What a toolchain probe handed back.
    Probe { result: ProbeResult },
    /// Whether the directory was created.
    DirMade { ok: bool },
    /// Whether the stub file was written.
    StubWritten { ok: bool },
    /// How writing the synthesized manifest went.
    ManifestWritten { outcome: ManifestWriteOutcome },
    /// The canonical form of the path, or nothing when resolution
    /// failed.
    Canonical { path: Option<String> },
    /// The build-tool override and the inherited compiler flags, each
    /// when set.
    Env { cargo: Option<String>, rustflags: Option<String> },
    /// How the compiler invocation ended.
    CompilerFinished { outcome: ExitOutcome },
    /// What listing the artifact directory handed back.
    DepsListed { outcome: ListingOutcome },
    /// The first copy that failed, or nothing when all went through.
    Copied { failed: Option<(String, String)> },
    /// The modification times of source and staged copy, each when
    /// readable.
    Times { source: Option<u64>, dest: Option<u64> },
    /// Whether the host-tool tree was copied.
    TreeCopied { ok: bool },
}

/// Where in the build sequence a run stands; the carried strings are
/// values resolved by earlier transitions.
#[derive(Debug, Clone)]
pub enum BuildState {
    /// Awaiting the existence check of the caller's manifest.
    CheckingManifest,
    /// Awaiting the existence check of the target-specification file.
    CheckingTargetSpec,
    /// Awaiting the existence check of the configured source tree.
    CheckingRustSrc,
    /// Awaiting the installation-root probe.
    ProbingSysroot,
    /// Awaiting the existence check of the detected source tree `src`.
    CheckingDetectedSrc { src: String },
    /// Awaiting creation of the output directory.
    CreatingOutputDir { src: String },
    /// Awaiting creation of the artifact directory `adir`.
    CreatingArtifactDir { src: String, adir: String },
    /// Awaiting the stub source write.
    WritingStub { src: String },
    /// Awaiting the manifest write.
    WritingManifest,
    /// Awaiting canonicalization of the target path.
    ResolvingTarget,
    /// Awaiting the environment report; the compiler will be pointed at
    /// `target_arg`.
    ReadingEnv { target_arg: String },
    /// Awaiting the compiler invocation's end.
    Compiling,
    /// Awaiting the artifact-directory listing.
    ReadingDeps,
    /// Awaiting the artifact copies.
    CopyingArtifacts,
    /// Awaiting the library-directory probe.
    ProbingLibdir,
    /// Awaiting the staleness times; host tools come from `source`.
    CheckingFreshness { source: String },
    /// Awaiting the host-tool tree copy from `source`.
    StagingHostTools { source: String },
    /// Awaiting canonicalization of the output directory.
    CanonicalizingOutput,
    /// The build went through; `sysroot` is the canonical output path.
    Done { sysroot: String },
    /// The build stopped on `error`.
    Failed { error: BuildError },
}

/// One build in flight: the configuration snapshot it consumes and where
/// it stands.
#[derive(Debug, Clone)]
pub struct BuildRun {
    /// The configuration, unchanged for the whole run.
    pub config: SysrootBuilder,
    /// Where the run stands.
    pub state: BuildState,
}

/// The configured target; meaningful only when one is set.
pub open spec fn spec_target(c: SysrootBuilder) -> Seq<char> {
    c.target->0@
}

/// Where the stub source file is written.
pub open spec fn spec_stub_path(c: SysrootBuilder) -> Seq<char> {
    spec_join(c.output@, "lib.rs"@)
}

/// Where the synthesized manifest is written.
pub open spec fn spec_manifest_path(c: SysrootBuilder) -> Seq<char> {
    spec_join(c.output@, "Cargo.toml"@)
}

/// The compiler's scratch directory.
pub open spec fn spec_target_dir(c: SysrootBuilder) -> Seq<char> {
    spec_join(c.output@, "target"@)
}

/// Where the compiler leaves produced artifacts, or nothing when the
/// target has no stem.
pub open spec fn spec_deps_dir(c: SysrootBuilder) -> Option<Seq<char>> {
    match spec_file_stem(spec_target(c)) {
        None => None,
        Some(stem) => Some(
            spec_join(spec_join(spec_join(spec_target_dir(c), stem), "release"@), "deps"@),
        ),
    }
}

/// Where the host-tool tree is copied into.
pub open spec fn spec_staging_parent(c: SysrootBuilder) -> Seq<char> {
    spec_join(spec_join(c.output@, "lib"@), "rustlib"@)
}

impl BuildRun {
    /// The configuration is well formed, only failed runs may lack a
    /// target, and states that check a configured path carry one.
    pub open spec fn wf(self) -> bool {
        &&& self.config.wf()
        &&& !(self.state is Failed) ==> self.config.target is Some
        &&& self.state is CheckingManifest ==> self.config.manifest is Some
        &&& self.state is CheckingRustSrc ==> self.config.rust_src is Some
    }
}

/// Which event shape the state awaits. Terminal states await nothing.
pub open spec fn accepts(run: BuildRun, event: BuildEvent) -> bool {
    match run.state {
        BuildState::CheckingManifest => event is Exists,
        BuildState::CheckingTargetSpec => event is Exists,
        BuildState::CheckingRustSrc => event is Exists,
        BuildState::ProbingSysroot => event is Probe,
        BuildState::CheckingDetectedSrc { .. } => event is Exists,
        BuildState::CreatingOutputDir { .. } => event is DirMade,
        BuildState::CreatingArtifactDir { .. } => event is DirMade,
        BuildState::WritingStub { .. } => event is StubWritten,
        BuildState::WritingManifest => match event {
            BuildEvent::ManifestWritten { outcome } => outcome is ProfileUnreadable
                ==> run.config.manifest is Some,
            _ => false,
        },
        BuildState::ResolvingTarget => event is Canonical,
        BuildState::ReadingEnv { .. } => event is Env,
        BuildState::Compiling => event is CompilerFinished,
        BuildState::ReadingDeps => event is DepsListed,
        BuildState::CopyingArtifacts => event is Copied,
        BuildState::ProbingLibdir => event is Probe,
        BuildState::CheckingFreshness { .. } => event is Times,
        BuildState::StagingHostTools { .. } => event is TreeCopied,
        BuildState::CanonicalizingOutput => event is Canonical,
        BuildState::Done { .. } => false,
        BuildState::Failed { .. } => false,
    }
}

/// The transition into source-tree resolution: a configured tree is
/// checked for existence, an unconfigured one starts the root probe.
pub open spec fn rel_begin_src(
    config: SysrootBuilder,
    state: BuildState,
    action: Option<BuildAction>,
) -> bool {
    match config.rust_src {
        Some(s) => state is CheckingRustSrc && (action matches Some(
            BuildAction::CheckPath { path },
        ) && path@ == s@),
        None => state is ProbingSysroot && action == Some(BuildAction::RunRustcPrintSysroot),
    }
}

/// The transition into the target-specification check: a target with an
/// extension names a file and is checked for existence, any other target
/// is taken as a built-in name and the source-tree resolution begins.
pub open spec fn rel_begin_target_check(
    config: SysrootBuilder,
    state: BuildState,
    action: Option<BuildAction>,
) -> bool {
    if spec_extension(spec_target(config)) is Some {
        state is CheckingTargetSpec && (action matches Some(BuildAction::CheckPath { path })
            && path@ == spec_target(config))
    } else {
        rel_begin_src(config, state, action)
    }
}

/// The first transition: without a target the run fails at once, before
/// any action; otherwise a configured manifest is checked for existence
/// first, then the target specification, then the source tree.
pub open spec fn rel_begin_validation(
    config: SysrootBuilder,
    state: BuildState,
    action: Option<BuildAction>,
) -> bool {
    match config.target {
        None => state matches BuildState::Failed { error } && error is MissingTarget
            && action is None,
        Some(_) => match config.manifest {
            Some(m) => state is CheckingManifest && (action matches Some(
                BuildAction::CheckPath { path },
            ) && path@ == m@),
            None => rel_begin_target_check(config, state, action),
        },
    }
}

/// The transition out of a resolved source tree `src`: the output
/// directory is created.
pub open spec fn rel_after_src(
    config: SysrootBuilder,
    src: Seq<char>,
    state: BuildState,
    action: Option<BuildAction>,
) -> bool {
    &&& state matches BuildState::CreatingOutputDir { src: s } && s@ == src
    &&& action matches Some(BuildAction::CreateDir { path }) && path@ == config.output@
}

/// The transition into output canonicalization, the run's last action.
pub open spec fn rel_begin_canonicalize(
    config: SysrootBuilder,
    state: BuildState,
    action: Option<BuildAction>,
) -> bool {
    &&& state is CanonicalizingOutput
    &&& action matches Some(BuildAction::Canonicalize { path }) && path@ == config.output@
}

/// The full transition relation: what [`step`] makes of each state and
/// event. The configuration never changes; every new state, action and
/// error is pinned by the old state, the event, and the configuration.
pub open spec fn step_rel(
    pre: BuildRun,
    event: BuildEvent,
    post: BuildRun,
    action: Option<BuildAction>,
) -> bool {
    &&& post.config == pre.config
    &&& match pre.state {
        BuildState::CheckingManifest => match event {
            BuildEvent::Exists { yes } => if yes {
                rel_begin_target_check(pre.config, post.state, action)
            } else {
                &&& post.state matches BuildState::Failed { error }
                &&& error matches BuildError::ManifestMissing { path }
                &&& path@ == pre.config.manifest->0@
                &&& action is None
            },
            _ => false,
        },
        BuildState::CheckingTargetSpec => match event {
            BuildEvent::Exists { yes } => if yes {
                rel_begin_src(pre.config, post.state, action)
            } else {
                &&& post.state matches BuildState::Failed { error }
                &&& error matches BuildError::TargetSpecMissing { path }
                &&& path@ == spec_target(pre.config)
                &&& action is None
            },
            _ => false,
        },
        BuildState::CheckingRustSrc => match event {
            BuildEvent::Exists { yes } => if yes {
                rel_after_src(pre.config, pre.config.rust_src->0@, post.state, action)
            } else {
                &&& post.state matches BuildState::Failed { error }
                &&& error matches BuildError::RustSrcMissing { path }
                &&& path@ == pre.config.rust_src->0@
                &&& action is None
            },
            _ => false,
        },
        BuildState::ProbingSysroot => match event {
            BuildEvent::Probe { result } => match result {
                ProbeResult::SpawnFailed => post.state matches BuildState::Failed { error }
                    && error is ProbeSpawn && action is None,
                ProbeResult::NonUtf8 => post.state matches BuildState::Failed { error }
                    && error is ProbeNonUtf8 && action is None,
                ProbeResult::Output(out) => {
                    let root = spec_trim(out@);
                    if spec_file_stem(root) is None {
                        post.state matches BuildState::Failed { error }
                            && error is SourcePathParse && action is None
                    } else if !spec_is_nightly_root(root) {
                        post.state matches BuildState::Failed { error } && error is NotNightly
                            && action is None
                    } else {
                        &&& post.state matches BuildState::CheckingDetectedSrc { src }
                        &&& src@ == spec_rust_src_path(root)
                        &&& action matches Some(BuildAction::CheckPath { path })
                        &&& path@ == spec_rust_src_path(root)
                    }
                },
            },
            _ => false,
        },
        BuildState::CheckingDetectedSrc { src } => match event {
            BuildEvent::Exists { yes } => if yes {
                rel_after_src(pre.config, src@, post.state, action)
            } else {
                post.state matches BuildState::Failed { error }
                    && error is RustSrcNotInstalled && action is None
            },
            _ => false,
        },
        BuildState::CreatingOutputDir { src } => match event {
            BuildEvent::DirMade { ok } => if !ok {
                &&& post.state matches BuildState::Failed { error }
                &&& error matches BuildError::CreateDir { path }
                &&& path@ == pre.config.output@
                &&& action is None
            } else {
                match spec_artifact_dir(pre.config.output@, spec_target(pre.config)) {
                    None => post.state matches BuildState::Failed { error }
                        && error is InvalidTargetSpec && action is None,
                    Some(ad) => {
                        &&& post.state matches BuildState::CreatingArtifactDir {
                            src: s,
                            adir,
                        }
                        &&& s@ == src@
                        &&& adir@ == ad
                        &&& action matches Some(BuildAction::CreateDir { path })
                        &&& path@ == ad
                    },
                }
            },
            _ => false,
        },
        BuildState::CreatingArtifactDir { src, adir } => match event {
            BuildEvent::DirMade { ok } => if !ok {
                &&& post.state matches BuildState::Failed { error }
                &&& error matches BuildError::CreateDir { path }
                &&& path@ == adir@
                &&& action is None
            } else {
                &&& post.state matches BuildState::WritingStub { src: s }
                &&& s@ == src@
                &&& action matches Some(BuildAction::WriteStub { path, contents })
                &&& path@ == spec_stub_path(pre.config)
                &&& contents@ == "#![feature(no_core)]\n#![no_core]"@
            },
            _ => false,
        },
        BuildState::WritingStub { src } => match event {
            BuildEvent::StubWritten { ok } => if !ok {
                &&& post.state matches BuildState::Failed { error }
                &&& error matches BuildError::WriteFile { path }
                &&& path@ == spec_stub_path(pre.config)
                &&& action is None
            } else {
                &&& post.state is WritingManifest
                &&& action matches Some(BuildAction::WriteManifest { path, manifest })
                &&& path@ == spec_manifest_path(pre.config)
                &&& spec_manifest_for(pre.config, src@, manifest)
            },
            _ => false,
        },
        BuildState::WritingManifest => match event {
            BuildEvent::ManifestWritten { outcome } => match outcome {
                ManifestWriteOutcome::Written => {
                    &&& post.state is ResolvingTarget
                    &&& action matches Some(BuildAction::Canonicalize { path })
                    &&& path@ == spec_target(pre.config)
                },
                ManifestWriteOutcome::ProfileUnreadable => {
                    &&& post.state matches BuildState::Failed { error }
                    &&& error matches BuildError::ProfileParse { path }
                    &&& path@ == pre.config.manifest->0@
                    &&& action is None
                },
                ManifestWriteOutcome::WriteFailed => {
                    &&& post.state matches BuildState::Failed { error }
                    &&& error matches BuildError::WriteFile { path }
                    &&& path@ == spec_manifest_path(pre.config)
                    &&& action is None
                },
            },
            _ => false,
        },
        BuildState::ResolvingTarget => match event {
            BuildEvent::Canonical { path } => {
                let ta = match path {
                    Some(c) => c@,
                    None => spec_target(pre.config),
                };
                &&& post.state matches BuildState::ReadingEnv { target_arg }
                &&& target_arg@ == ta
                &&& action == Some(BuildAction::ReadEnv)
            },
            _ => false,
        },
        BuildState::ReadingEnv { target_arg } => match event {
            BuildEvent::Env { cargo, rustflags } => {
                let program = match cargo {
                    Some(c) => c@,
                    None => "cargo"@,
                };
                let inherited = match rustflags {
                    Some(f) => Some(f@),
                    None => None,
                };
                &&& post.state is Compiling
                &&& action matches Some(BuildAction::RunCompiler { program: p, args, rustflags: rf })
                &&& p@ == program
                &&& args.deep_view() == spec_cargo_args(
                    target_arg@,
                    spec_target_dir(pre.config),
                    spec_manifest_path(pre.config),
                )
                &&& rf@ == spec_rustflags(inherited, pre.config.rustc_flags.deep_view())
            },
            _ => false,
        },
        BuildState::Compiling => match event {
            BuildEvent::CompilerFinished { outcome } => match outcome {
                ExitOutcome::SpawnFailed => post.state matches BuildState::Failed { error }
                    && error is CargoSpawn && action is None,
                ExitOutcome::Exited { success, code } => if !success {
                    &&& post.state matches BuildState::Failed { error }
                    &&& error matches BuildError::CompileFailed { code: c }
                    &&& c == code
                    &&& action is None
                } else {
                    match spec_deps_dir(pre.config) {
                        None => post.state matches BuildState::Failed { error }
                            && error is TargetTripleParse && action is None,
                        Some(dd) => {
                            &&& post.state is ReadingDeps
                            &&& action matches Some(BuildAction::ReadDir { path })
                            &&& path@ == dd
                        },
                    }
                },
            },
            _ => false,
        },
        BuildState::ReadingDeps => match event {
            BuildEvent::DepsListed { outcome } => match spec_deps_dir(pre.config) {
                None => post.state matches BuildState::Failed { error }
                    && error is TargetTripleParse && action is None,
                Some(dd) => match outcome {
                    ListingOutcome::ReadFailed => {
                        &&& post.state matches BuildState::Failed { error }
                        &&& error matches BuildError::ArtifactDirRead { path }
                        &&& path@ == dd
                        &&& action is None
                    },
                    ListingOutcome::EntryFailed => post.state matches BuildState::Failed {
                        error,
                    } && error is ArtifactEntry && action is None,
                    ListingOutcome::NonUnicode { name } => {
                        &&& post.state matches BuildState::Failed { error }
                        &&& error matches BuildError::NonUnicodeName { name: n }
                        &&& n@ == name@
                        &&& action is None
                    },
                    ListingOutcome::Names { names } => {
                        &&& post.state is CopyingArtifacts
                        &&& action matches Some(BuildAction::CopyFiles { files })
                        &&& files.deep_view() == spec_copy_plan(
                            names.deep_view(),
                            dd,
                            spec_artifact_dir(pre.config.output@, spec_target(pre.config))->0,
                        )
                    },
                },
            },
            _ => false,
        },
        BuildState::CopyingArtifacts => match event {
            BuildEvent::Copied { failed } => match failed {
                Some(pair) => {
                    &&& post.state matches BuildState::Failed { error }
                    &&& error matches BuildError::CopyArtifact { from, to }
                    &&& from@ == pair.0@
                    &&& to@ == pair.1@
                    &&& action is None
                },
                None => post.state is ProbingLibdir && action == Some(
                    BuildAction::RunRustcPrintLibdir,
                ),
            },
            _ => false,
        },
        BuildState::ProbingLibdir => match event {
            BuildEvent::Probe { result } => match result {
                ProbeResult::SpawnFailed => post.state matches BuildState::Failed { error }
                    && error is ProbeSpawn && action is None,
                ProbeResult::NonUtf8 => post.state matches BuildState::Failed { error }
                    && error is ProbeNonUtf8 && action is None,
                ProbeResult::Output(out) => {
                    let libdir = spec_trim(out@);
                    match spec_host_triple(libdir) {
                        None => post.state matches BuildState::Failed { error }
                            && error is HostTripleParse && action is None,
                        Some(host) => {
                            &&& post.state matches BuildState::CheckingFreshness { source }
                            &&& source@ == libdir
                            &&& action matches Some(BuildAction::StatTimes { source: s, dest })
                            &&& s@ == libdir
                            &&& dest@ == spec_host_tools_dest(pre.config.output@, host)
                        },
                    }
                },
            },
            _ => false,
        },
        BuildState::CheckingFreshness { source } => match event {
            BuildEvent::Times { source: st, dest: dt } => match st {
                None => {
                    &&& post.state matches BuildState::Failed { error }
                    &&& error matches BuildError::Metadata { path }
                    &&& path@ == source@
                    &&& action is None
                },
                Some(sv) => if spec_up_to_date(dt, sv) {
                    rel_begin_canonicalize(pre.config, post.state, action)
                } else {
                    &&& post.state matches BuildState::StagingHostTools { source: s }
                    &&& s@ == source@
                    &&& action matches Some(BuildAction::CopyTree { source: cs, dest_parent })
                    &&& cs@ == source@
                    &&& dest_parent@ == spec_staging_parent(pre.config)
                },
            },
            _ => false,
        },
        BuildState::StagingHostTools { source } => match event {
            BuildEvent::TreeCopied { ok } => if !ok {
                &&& post.state matches BuildState::Failed { error }
                &&& error matches BuildError::HostToolsCopy { from, to }
                &&& from@ == source@
                &&& to@ == spec_staging_parent(pre.config)
                &&& action is None
            } else {
                rel_begin_canonicalize(pre.config, post.state, action)
            },
            _ => false,
        },
        BuildState::CanonicalizingOutput => match event {
            BuildEvent::Canonical { path } => match path {
                None => {
                    &&& post.state matches BuildState::Failed { error }
                    &&& error matches BuildError::CanonicalizeFailed { path: p }
                    &&& p@ == pre.config.output@
                    &&& action is None
                },
                Some(c) => post.state matches BuildState::Done { sysroot } && sysroot@ == c@
                    && action is None,
            },
            _ => false,
        },
        BuildState::Done { .. } => false,
        BuildState::Failed { .. } => false,
    }
}

/// The transition into source-tree resolution.
fn begin_src(config: SysrootBuilder) -> (r: (BuildRun, Option<BuildAction>))
    requires
        config.wf(),
        config.target is Some,
    ensures
        r.0.config == config,
        r.0.wf(),
        rel_begin_src(config, r.0.state, r.1),
{
    match &config.rust_src {
        Some(s) => {
            let path = s.clone();
            (
                BuildRun { config, state: BuildState::CheckingRustSrc },
                Some(BuildAction::CheckPath { path }),
            )
        },
        None => (
            BuildRun { config, state: BuildState::ProbingSysroot },
            Some(BuildAction::RunRustcPrintSysroot),
        ),
    }
}

/// The transition into the target-specification check.
fn begin_target_check(config: SysrootBuilder) -> (r: (BuildRun, Option<BuildAction>))
    requires
        config.wf(),
        config.target is Some,
    ensures
        r.0.config == config,
        r.0.wf(),
        rel_begin_target_check(config, r.0.state, r.1),
{
    let has_ext = match &config.target {
        Some(t) => pathops::has_extension(t.as_str()),
        None => false,
    };
    if has_ext {
        let path = match &config.target {
            Some(t) => t.clone(),
            None => String::new(),
        };
        (
            BuildRun { config, state: BuildState::CheckingTargetSpec },
            Some(BuildAction::CheckPath { path }),
        )
    } else {
        begin_src(config)
    }
}

/// The transition out of a resolved source tree.
fn after_src(config: SysrootBuilder, src: String) -> (r: (BuildRun, Option<BuildAction>))
    requires
        config.wf(),
        config.target is Some,
    ensures
        r.0.config == config,
        r.0.wf(),
        rel_after_src(config, src@, r.0.state, r.1),
{
    let path = config.output.clone();
    (
        BuildRun { config, state: BuildState::CreatingOutputDir { src } },
        Some(BuildAction::CreateDir { path }),
    )
}

/// The transition into output canonicalization.
fn begin_canonicalize(config: SysrootBuilder) -> (r: (BuildRun, Option<BuildAction>))
    requires
        config.wf(),
        config.target is Some,
    ensures
        r.0.config == config,
        r.0.wf(),
        rel_begin_canonicalize(config, r.0.state, r.1),
{
    let path = config.output.clone();
    (
        BuildRun { config, state: BuildState::CanonicalizingOutput },
        Some(BuildAction::Canonicalize { path }),
    )
}

/// A run that stopped on `error`.
fn halt(config: SysrootBuilder, error: BuildError) -> (r: (BuildRun, Option<BuildAction>))
    requires
        config.wf(),
    ensures
        r.0.config == config,
        r.0.wf(),
        r.0.state matches BuildState::Failed { error: e } && e == error,
        r.1 is None,
{
    (BuildRun { config, state: BuildState::Failed { error } }, None)
}

/// Begins a build over the configuration snapshot `builder`: validates
/// that a target is set and hands out the first outside operation. A
/// missing target fails the run at once, before any action — in
/// particular before anything is created on disk.
pub fn start(builder: SysrootBuilder) -> (r: (BuildRun, Option<BuildAction>))
    requires
        builder.wf(),
    ensures
        r.0.config == builder,
        r.0.wf(),
        rel_begin_validation(builder, r.0.state, r.1),
{
    if builder.target.is_none() {
        return halt(builder, BuildError::MissingTarget);
    }
    match &builder.manifest {
        Some(m) => {
            let path = m.clone();
            (
                BuildRun { config: builder, state: BuildState::CheckingManifest },
                Some(BuildAction::CheckPath { path }),
            )
        },
        None => begin_target_check(builder),
    }
}

/// Advances the run `run` on the outcome `event` of its pending action,
/// handing back the new run and the next action, if any. The behavior is
/// exactly [`step_rel`].
pub fn step(run: BuildRun, event: BuildEvent) -> (r: (BuildRun, Option<BuildAction>))
    requires
        run.wf(),
        accepts(run, event),
    ensures
        r.0.config == run.config,
        r.0.wf(),
        step_rel(run, event, r.0, r.1),
{
    let BuildRun { config, state } = run;
    match state {
        BuildState::CheckingManifest => match event {
            BuildEvent::Exists { yes } => if yes {
                begin_target_check(config)
            } else {
                let path = match &config.manifest {
                    Some(m) => m.clone(),
                    None => String::new(),
                };
                halt(config, BuildError::ManifestMissing { path })
            },
            _ => unreached(),
        },
        BuildState::CheckingTargetSpec => match event {
            BuildEvent::Exists { yes } => if yes {
                begin_src(config)
            } else {
                let path = match &config.target {
                    Some(t) => t.clone(),
                    None => String::new(),
                };
                halt(config, BuildError::TargetSpecMissing { path })
            },
            _ => unreached(),
        },
        BuildState::CheckingRustSrc => match event {
            BuildEvent::Exists { yes } => {
                let src = match &config.rust_src {
                    Some(s) => s.clone(),
                    None => String::new(),
                };
                if yes {
                    after_src(config, src)
                } else {
                    halt(config, BuildError::RustSrcMissing { path: src })
                }
            },
            _ => unreached(),
        },
        BuildState::ProbingSysroot => match event {
            BuildEvent::Probe { result } => match result {
                ProbeResult::SpawnFailed => halt(config, BuildError::ProbeSpawn),
                ProbeResult::NonUtf8 => halt(config, BuildError::ProbeNonUtf8),
                ProbeResult::Output(out) => {
                    let root = locator::trim(out.as_str());
                    match locator::get_rust_src(root.as_str()) {
                        Err(e) => halt(config, e),
                        Ok(src) => {
                            let path = src.clone();
                            (
                                BuildRun {
                                    config,
                                    state: BuildState::CheckingDetectedSrc { src },
                                },
                                Some(BuildAction::CheckPath { path }),
                            )
                        },
                    }
                },
            },
            _ => unreached(),
        },
        BuildState::CheckingDetectedSrc { src } => match event {
            BuildEvent::Exists { yes } => if yes {
                after_src(config, src)
            } else {
                halt(config, BuildError::RustSrcNotInstalled)
            },
            _ => unreached(),
        },
        BuildState::CreatingOutputDir { src } => match event {
            BuildEvent::DirMade { ok } => if !ok {
                let path = config.output.clone();
                halt(config, BuildError::CreateDir { path })
            } else {
                let target = match &config.target {
                    Some(t) => t.clone(),
                    None => String::new(),
                };
                match artifact_dir(config.output.as_str(), target.as_str()) {
                    Err(e) => halt(config, e),
                    Ok(adir) => {
                        let path = adir.clone();
                        (
                            BuildRun {
                                config,
                                state: BuildState::CreatingArtifactDir { src, adir },
                            },
                            Some(BuildAction::CreateDir { path }),
                        )
                    },
                }
            },
            _ => unreached(),
        },
        BuildState::CreatingArtifactDir { src, adir } => match event {
            BuildEvent::DirMade { ok } => if !ok {
                halt(config, BuildError::CreateDir { path: adir })
            } else {
                let path = pathops::join(config.output.as_str(), "lib.rs");
                let contents = manifest::stub_source();
                (
                    BuildRun { config, state: BuildState::WritingStub { src } },
                    Some(BuildAction::WriteStub { path, contents }),
                )
            },
            _ => unreached(),
        },
        BuildState::WritingStub { src } => match event {
            BuildEvent::StubWritten { ok } => if !ok {
                let path = pathops::join(config.output.as_str(), "lib.rs");
                halt(config, BuildError::WriteFile { path })
            } else {
                let m = manifest::synthesize_manifest(&config, src.as_str());
                let path = pathops::join(config.output.as_str(), "Cargo.toml");
                (
                    BuildRun { config, state: BuildState::WritingManifest },
                    Some(BuildAction::WriteManifest { path, manifest: m }),
                )
            },
            _ => unreached(),
        },
        BuildState::WritingManifest => match event {
            BuildEvent::ManifestWritten { outcome } => match outcome {
                ManifestWriteOutcome::Written => {
                    let path = match &config.target {
                        Some(t) => t.clone(),
                        None => String::new(),
                    };
                    (
                        BuildRun { config, state: BuildState::ResolvingTarget },
                        Some(BuildAction::Canonicalize { path }),
                    )
                },
                ManifestWriteOutcome::ProfileUnreadable => {
                    let path = match &config.manifest {
                        Some(m) => m.clone(),
                        None => String::new(),
                    };
                    halt(config, BuildError::ProfileParse { path })
                },
                ManifestWriteOutcome::WriteFailed => {
                    let path = pathops::join(config.output.as_str(), "Cargo.toml");
                    halt(config, BuildError::WriteFile { path })
                },
            },
            _ => unreached(),
        },
        BuildState::ResolvingTarget => match event {
            BuildEvent::Canonical { path } => {
                let target = match &config.target {
                    Some(t) => t.clone(),
                    None => String::new(),
                };
                let target_arg = driver::resolve_target_arg(target.as_str(), path);
                (
                    BuildRun { config, state: BuildState::ReadingEnv { target_arg } },
                    Some(BuildAction::ReadEnv),
                )
            },
            _ => unreached(),
        },
        BuildState::ReadingEnv { target_arg } => match event {
            BuildEvent::Env { cargo, rustflags } => {
                let program = match cargo {
                    Some(c) => c,
                    None => String::from_str("cargo"),
                };
                let target_dir = pathops::join(config.output.as_str(), "target");
                let manifest_path = pathops::join(config.output.as_str(), "Cargo.toml");
                let args = driver::cargo_args(
                    target_arg.as_str(),
                    target_dir.as_str(),
                    manifest_path.as_str(),
                );
                let rf = driver::compose_rustflags(&rustflags, &config.rustc_flags);
                (
                    BuildRun { config, state: BuildState::Compiling },
                    Some(BuildAction::RunCompiler { program, args, rustflags: rf }),
                )
            },
            _ => unreached(),
        },
        BuildState::Compiling => match event {
            BuildEvent::CompilerFinished { outcome } => match driver::interpret_exit(
                &outcome,
            ) {
                Err(e) => halt(config, e),
                Ok(()) => {
                    let target = match &config.target {
                        Some(t) => t.clone(),
                        None => String::new(),
                    };
                    match pathops::file_stem(target.as_str()) {
                        None => halt(config, BuildError::TargetTripleParse),
                        Some(stem) => {
                            let target_dir = pathops::join(config.output.as_str(), "target");
                            let p1 = pathops::join(target_dir.as_str(), stem.as_str());
                            let p2 = pathops::join(p1.as_str(), "release");
                            let deps = pathops::join(p2.as_str(), "deps");
                            (
                                BuildRun { config, state: BuildState::ReadingDeps },
                                Some(BuildAction::ReadDir { path: deps }),
                            )
                        },
                    }
                },
            },
            _ => unreached(),
        },
        BuildState::ReadingDeps => match event {
            BuildEvent::DepsListed { outcome } => {
                let target = match &config.target {
                    Some(t) => t.clone(),
                    None => String::new(),
                };
                match pathops::file_stem(target.as_str()) {
                    None => halt(config, BuildError::TargetTripleParse),
                    Some(stem) => {
                        let target_dir = pathops::join(config.output.as_str(), "target");
                        let p1 = pathops::join(target_dir.as_str(), stem.as_str());
                        let p2 = pathops::join(p1.as_str(), "release");
                        let deps = pathops::join(p2.as_str(), "deps");
                        match outcome {
                            ListingOutcome::ReadFailed => halt(
                                config,
                                BuildError::ArtifactDirRead { path: deps },
                            ),
                            ListingOutcome::EntryFailed => halt(
                                config,
                                BuildError::ArtifactEntry,
                            ),
                            ListingOutcome::NonUnicode { name } => halt(
                                config,
                                BuildError::NonUnicodeName { name },
                            ),
                            ListingOutcome::Names { names } => {
                                match artifact_dir(config.output.as_str(), target.as_str()) {
                                    Err(e) => halt(config, e),
                                    Ok(adir) => {
                                        let files = driver::copy_plan(
                                            &names,
                                            deps.as_str(),
                                            adir.as_str(),
                                        );
                                        (
                                            BuildRun {
                                                config,
                                                state: BuildState::CopyingArtifacts,
                                            },
                                            Some(BuildAction::CopyFiles { files }),
                                        )
                                    },
                                }
                            },
                        }
                    },
                }
            },
            _ => unreached(),
        },
        BuildState::CopyingArtifacts => match event {
            BuildEvent::Copied { failed } => match failed {
                Some(pair) => {
                    let (from, to) = pair;
                    halt(config, BuildError::CopyArtifact { from, to })
                },
                None => (
                    BuildRun { config, state: BuildState::ProbingLibdir },
                    Some(BuildAction::RunRustcPrintLibdir),
                ),
            },
            _ => unreached(),
        },
        BuildState::ProbingLibdir => match event {
            BuildEvent::Probe { result } => match result {
                ProbeResult::SpawnFailed => halt(config, BuildError::ProbeSpawn),
                ProbeResult::NonUtf8 => halt(config, BuildError::ProbeNonUtf8),
                ProbeResult::Output(out) => {
                    let libdir = locator::trim(out.as_str());
                    match locator::host_triple_from_libdir(libdir.as_str()) {
                        Err(e) => halt(config, e),
                        Ok(host) => {
                            let dest = stager::host_tools_dest(
                                config.output.as_str(),
                                host.as_str(),
                            );
                            let source = libdir.clone();
                            (
                                BuildRun {
                                    config,
                                    state: BuildState::CheckingFreshness { source: libdir },
                                },
                                Some(BuildAction::StatTimes { source, dest }),
                            )
                        },
                    }
                },
            },
            _ => unreached(),
        },
        BuildState::CheckingFreshness { source } => match event {
            BuildEvent::Times { source: st, dest: dt } => match st {
                None => halt(config, BuildError::Metadata { path: source }),
                Some(sv) => if stager::staging_up_to_date(dt, sv) {
                    begin_canonicalize(config)
                } else {
                    let dest_parent = stager::host_tools_dest_parent(config.output.as_str());
                    let cs = source.clone();
                    (
                        BuildRun {
                            config,
                            state: BuildState::StagingHostTools { source },
                        },
                        Some(BuildAction::CopyTree { source: cs, dest_parent }),
                    )
                },
            },
            _ => unreached(),
        },
        BuildState::StagingHostTools { source } => match event {
            BuildEvent::TreeCopied { ok } => if !ok {
                let to = stager::host_tools_dest_parent(config.output.as_str());
                halt(config, BuildError::HostToolsCopy { from: source, to })
            } else {
                begin_canonicalize(config)
            },
            _ => unreached(),
        },
        BuildState::CanonicalizingOutput => match event {
            BuildEvent::Canonical { path } => match path {
                None => {
                    let p = config.output.clone();
                    halt(config, BuildError::CanonicalizeFailed { path: p })
                },
                Some(c) => (
                    BuildRun { config, state: BuildState::Done { sysroot: c } },
                    None,
                ),
            },
            _ => unreached(),
        },
        BuildState::Done { .. } => unreached(),
        BuildState::Failed { .. } => unreached(),
    }
}

/// A terminal run takes no further event: nothing happens after the
/// build has failed or finished.
pub proof fn lemma_terminal_accepts_nothing(run: BuildRun, event: BuildEvent)
    requires
        run.state is Failed || run.state is Done,
    ensures
        !accepts(run, event),
{
}

/// A configuration without a target fails the run at once: no action is
/// handed out — in particular nothing is created on disk — and no event
/// is taken afterwards.
pub proof fn lemma_unset_target_halts(
    builder: SysrootBuilder,
    state: BuildState,
    action: Option<BuildAction>,
)
    requires
        builder.target is None,
        rel_begin_validation(builder, state, action),
    ensures
        state matches BuildState::Failed { error } && error is MissingTarget,
        action is None,
        forall|e: BuildEvent| !accepts(BuildRun { config: builder, state }, e),
{
}

/// An unsuccessful compiler exit fails the run with that exit code, hands
/// out no action — in particular no artifact collection — and takes no
/// event afterwards.
pub proof fn lemma_failed_compile_halts(
    pre: BuildRun,
    post: BuildRun,
    action: Option<BuildAction>,
    code: Option<i32>,
)
    requires
        pre.state is Compiling,
        step_rel(
            pre,
            BuildEvent::CompilerFinished {
                outcome: ExitOutcome::Exited { success: false, code },
            },
            post,
            action,
        ),
    ensures
        post.state matches BuildState::Failed { error } && (error
            matches BuildError::CompileFailed { code: c } && c == code),
        action is None,
        forall|e: BuildEvent| !accepts(post, e),
{
}

/// When the staged host tools are strictly newer than their source, the
/// freshness check skips straight to output canonicalization: no copy of
/// any kind is performed.
pub proof fn lemma_staging_skipped_when_fresh(
    pre: BuildRun,
    post: BuildRun,
    action: Option<BuildAction>,
    source: String,
    src_mtime: u64,
    dest_mtime: u64,
)
    requires
        pre.state matches BuildState::CheckingFreshness { source: s } && s == source,
        step_rel(
            pre,
            BuildEvent::Times { source: Some(src_mtime), dest: Some(dest_mtime) },
            post,
            action,
        ),
        dest_mtime > src_mtime,
    ensures
        post.state is CanonicalizingOutput,
        action matches Some(BuildAction::Canonicalize { path }) && path@ == pre.config.output@,
{
}

/// Collecting twice under one configuration over listings with the same
/// names plans the same copies: the artifact set a run stages is a
/// function of the configuration and the listing alone, so repeating a
/// build against the same output directory leaves the same file names
/// in place, each overwritten by its copy.
pub proof fn lemma_rerun_collects_the_same(
    pre1: BuildRun,
    pre2: BuildRun,
    names1: Vec<String>,
    names2: Vec<String>,
    post1: BuildRun,
    a1: Option<BuildAction>,
    post2: BuildRun,
    a2: Option<BuildAction>,
)
    requires
        pre1.config == pre2.config,
        pre1.state is ReadingDeps,
        pre2.state is ReadingDeps,
        step_rel(
            pre1,
            BuildEvent::DepsListed { outcome: ListingOutcome::Names { names: names1 } },
            post1,
            a1,
        ),
        step_rel(
            pre2,
            BuildEvent::DepsListed { outcome: ListingOutcome::Names { names: names2 } },
            post2,
            a2,
        ),
        names1.deep_view() == names2.deep_view(),
    ensures
        a1 matches Some(BuildAction::CopyFiles { files: f1 }) ==> (a2 matches Some(
            BuildAction::CopyFiles { files: f2 },
        ) ==> f1.deep_view() == f2.deep_view()),
{
}

/// The states at or after the compiler invocation.
pub open spec fn at_or_after_compile(s: BuildState) -> bool {
    ||| s is Compiling
    ||| s is ReadingDeps
    ||| at_or_after_copy(s)
}

/// The states at or after artifact collection.
pub open spec fn at_or_after_copy(s: BuildState) -> bool {
    ||| s is CopyingArtifacts
    ||| s is ProbingLibdir
    ||| s is CheckingFreshness
    ||| s is StagingHostTools
    ||| s is CanonicalizingOutput
    ||| s is Done
}

/// A run begins before the compiler invocation: what [`start`] hands out
/// satisfies the premise of [`lemma_no_silent_success`].
pub proof fn lemma_start_before_compile(
    config: SysrootBuilder,
    state: BuildState,
    action: Option<BuildAction>,
)
    requires
        rel_begin_validation(config, state, action),
    ensures
        !at_or_after_compile(state),
{
}

/// A chain of transitions under one configuration: `states` are the
/// stations passed, `events[i]` and `actions[i]` what the step from
/// `states[i]` to `states[i + 1]` took and handed out.
pub open spec fn trace_ok(
    config: SysrootBuilder,
    states: Seq<BuildState>,
    events: Seq<BuildEvent>,
    actions: Seq<Option<BuildAction>>,
) -> bool {
    &&& states.len() == events.len() + 1
    &&& actions.len() == events.len()
    &&& forall|i: int|
        0 <= i < events.len() ==> #[trigger] step_rel(
            BuildRun { config, state: states[i] },
            events[i],
            BuildRun { config, state: states[i + 1] },
            actions[i],
        )
}

/// One step only enters the compiled region through the compiler
/// invocation itself.
proof fn lemma_step_into_compile(
    pre: BuildRun,
    event: BuildEvent,
    post: BuildRun,
    action: Option<BuildAction>,
)
    requires
        step_rel(pre, event, post, action),
        at_or_after_compile(post.state),
    ensures
        at_or_after_compile(pre.state) || (action matches Some(BuildAction::RunCompiler { .. })),
{
}

/// One step only enters the collected region through handing out the
/// artifact copies.
proof fn lemma_step_into_copy(
    pre: BuildRun,
    event: BuildEvent,
    post: BuildRun,
    action: Option<BuildAction>,
)
    requires
        step_rel(pre, event, post, action),
        at_or_after_copy(post.state),
    ensures
        at_or_after_copy(pre.state) || (action matches Some(BuildAction::CopyFiles { .. })),
{
}

/// A trace that ends at or after artifact collection, having started
/// before it, handed out the artifact copies somewhere along the way.
pub proof fn lemma_trace_has_copy(
    config: SysrootBuilder,
    states: Seq<BuildState>,
    events: Seq<BuildEvent>,
    actions: Seq<Option<BuildAction>>,
)
    requires
        trace_ok(config, states, events, actions),
        states.len() > 0,
        at_or_after_copy(states.last()),
        !at_or_after_copy(states.first()),
    ensures
        exists|i: int|
            0 <= i < actions.len() && (#[trigger] actions[i]) matches Some(
                BuildAction::CopyFiles { .. },
            ),
    decreases states.len(),
{
    let n = events.len() as int;
    if n == 0 {
        assert(states.last() == states.first());
    } else {
        assert(step_rel(
            BuildRun { config, state: states[n - 1] },
            events[n - 1],
            BuildRun { config, state: states[(n - 1) + 1] },
            actions[n - 1],
        ));
        lemma_step_into_copy(
            BuildRun { config, state: states[n - 1] },
            events[n - 1],
            BuildRun { config, state: states[n] },
            actions[n - 1],
        );
        if actions[n - 1] matches Some(BuildAction::CopyFiles { .. }) {
            assert(0 <= n - 1 < actions.len() && actions[n - 1] matches Some(
                BuildAction::CopyFiles { .. },
            ));
        } else {
            let states2 = states.drop_last();
            let events2 = events.drop_last();
            let actions2 = actions.drop_last();
            assert forall|i: int| 0 <= i < events2.len() implies #[trigger] step_rel(
                BuildRun { config, state: states2[i] },
                events2[i],
                BuildRun { config, state: states2[i + 1] },
                actions2[i],
            ) by {
                assert(step_rel(
                    BuildRun { config, state: states[i] },
                    events[i],
                    BuildRun { config, state: states[i + 1] },
                    actions[i],
                ));
            };
            assert(states2.last() == states[n - 1]);
            lemma_trace_has_copy(config, states2, events2, actions2);
            let i = choose|i: int|
                0 <= i < actions2.len() && (#[trigger] actions2[i]) matches Some(
                    BuildAction::CopyFiles { .. },
                );
            assert(actions[i] == actions2[i]);
        }
    }
}

/// A trace that ends at or after the compiler invocation, having started
/// before it, handed out the compiler invocation somewhere along the way.
pub proof fn lemma_trace_has_compile(
    config: SysrootBuilder,
    states: Seq<BuildState>,
    events: Seq<BuildEvent>,
    actions: Seq<Option<BuildAction>>,
)
    requires
        trace_ok(config, states, events, actions),
        states.len() > 0,
        at_or_after_compile(states.last()),
        !at_or_after_compile(states.first()),
    ensures
        exists|i: int|
            0 <= i < actions.len() && (#[trigger] actions[i]) matches Some(
                BuildAction::RunCompiler { .. },
            ),
    decreases states.len(),
{
    let n = events.len() as int;
    if n == 0 {
        assert(states.last() == states.first());
    } else {
        assert(step_rel(
            BuildRun { config, state: states[n - 1] },
            events[n - 1],
            BuildRun { config, state: states[(n - 1) + 1] },
            actions[n - 1],
        ));
        lemma_step_into_compile(
            BuildRun { config, state: states[n - 1] },
            events[n - 1],
            BuildRun { config, state: states[n] },
            actions[n - 1],
        );
        if actions[n - 1] matches Some(BuildAction::RunCompiler { .. }) {
            assert(0 <= n - 1 < actions.len() && actions[n - 1] matches Some(
                BuildAction::RunCompiler { .. },
            ));
        } else {
            let states2 = states.drop_last();
            let events2 = events.drop_last();
            let actions2 = actions.drop_last();
            assert forall|i: int| 0 <= i < events2.len() implies #[trigger] step_rel(
                BuildRun { config, state: states2[i] },
                events2[i],
                BuildRun { config, state: states2[i + 1] },
                actions2[i],
            ) by {
                assert(step_rel(
                    BuildRun { config, state: states[i] },
                    events[i],
                    BuildRun { config, state: states[i + 1] },
                    actions[i],
                ));
            };
            assert(states2.last() == states[n - 1]);
            lemma_trace_has_compile(config, states2, events2, actions2);
            let i = choose|i: int|
                0 <= i < actions2.len() && (#[trigger] actions2[i]) matches Some(
                    BuildAction::RunCompiler { .. },
                );
            assert(actions[i] == actions2[i]);
        }
    }
}

/// A run never finishes silently: whatever the tier, a trace that starts
/// before the compiler invocation and ends in the finished state handed
/// out the compiler invocation and the artifact copies along the way; a
/// run that does neither can only stop in the failed state.
pub proof fn lemma_no_silent_success(
    config: SysrootBuilder,
    states: Seq<BuildState>,
    events: Seq<BuildEvent>,
    actions: Seq<Option<BuildAction>>,
)
    requires
        trace_ok(config, states, events, actions),
        states.len() > 0,
        states.last() is Done,
        !at_or_after_compile(states.first()),
    ensures
        exists|i: int|
            0 <= i < actions.len() && (#[trigger] actions[i]) matches Some(
                BuildAction::RunCompiler { .. },
            ),
        exists|i: int|
            0 <= i < actions.len() && (#[trigger] actions[i]) matches Some(
                BuildAction::CopyFiles { .. },
            ),
{
    lemma_trace_has_compile(config, states, events, actions);
    lemma_trace_has_copy(config, states, events, actions);
}

impl SysrootBuilder {
    /// Begins building the sysroot this configuration describes,
    /// consuming the configuration as the run's snapshot; see [`start`].
    pub fn build(self) -> (r: (BuildRun, Option<BuildAction>))
        requires
            self.wf(),
        ensures
            r.0.config == self,
            r.0.wf(),
            rel_begin_validation(self, r.0.state, r.1),
    {
        start(self)
    }
}

} // verus!
