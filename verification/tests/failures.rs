//! Each way an outside operation can go wrong stops the run with the
//! matching error.
use cargo_sysroot::error::BuildError;
use cargo_sysroot::orchestrate::{
    start, step, BuildAction, BuildEvent, BuildRun, BuildState, ListingOutcome,
    ManifestWriteOutcome, ProbeResult,
};
use cargo_sysroot::driver::ExitOutcome;
use cargo_sysroot::{Sysroot, SysrootBuilder};

fn base_builder() -> SysrootBuilder {
    let mut b = SysrootBuilder::new(Sysroot::Alloc);
    b.output("out".to_string());
    b.target("x86_64-unknown-linux-gnu".to_string());
    b.rust_src("/src/tree".to_string());
    b
}

fn happy_event(a: &BuildAction) -> BuildEvent {
    match a {
        BuildAction::CheckPath { .. } => BuildEvent::Exists { yes: true },
        BuildAction::RunRustcPrintSysroot => BuildEvent::Probe {
            result: ProbeResult::Output("/tc/nightly-x86_64-unknown-linux-gnu\n".to_string()),
        },
        BuildAction::CreateDir { .. } => BuildEvent::DirMade { ok: true },
        BuildAction::WriteStub { .. } => BuildEvent::StubWritten { ok: true },
        BuildAction::WriteManifest { .. } => {
            BuildEvent::ManifestWritten { outcome: ManifestWriteOutcome::Written }
        }
        BuildAction::Canonicalize { path } => {
            BuildEvent::Canonical { path: Some(format!("/abs/{}", path)) }
        }
        BuildAction::ReadEnv => BuildEvent::Env { cargo: None, rustflags: None },
        BuildAction::RunCompiler { .. } => BuildEvent::CompilerFinished {
            outcome: ExitOutcome::Exited { success: true, code: Some(0) },
        },
        BuildAction::ReadDir { .. } => BuildEvent::DepsListed {
            outcome: ListingOutcome::Names { names: vec!["libcore-1.rlib".to_string()] },
        },
        BuildAction::CopyFiles { .. } => BuildEvent::Copied { failed: None },
        BuildAction::RunRustcPrintLibdir => BuildEvent::Probe {
            result: ProbeResult::Output(
                "/tc/nightly/lib/rustlib/x86_64-unknown-linux-gnu/lib\n".to_string(),
            ),
        },
        BuildAction::StatTimes { .. } => BuildEvent::Times { source: Some(100), dest: None },
        BuildAction::CopyTree { .. } => BuildEvent::TreeCopied { ok: true },
    }
}

fn drive(
    b: SysrootBuilder,
    answer: impl Fn(&BuildAction) -> BuildEvent,
) -> (BuildRun, Vec<BuildAction>) {
    let mut actions: Vec<BuildAction> = Vec::new();
    let (mut run, mut action) = start(b);
    while let Some(a) = action {
        let event = answer(&a);
        actions.push(a);
        let (next_run, next_action) = step(run, event);
        run = next_run;
        action = next_action;
    }
    (run, actions)
}

fn error_of(run: BuildRun) -> BuildError {
    match run.state {
        BuildState::Failed { error } => error,
        other => panic!("expected a failed run, got {:?}", other),
    }
}

#[test]
fn a_missing_configured_source_tree_is_an_error() {
    let (run, _) = drive(base_builder(), |a| match a {
        BuildAction::CheckPath { path } if path == "/src/tree" => {
            BuildEvent::Exists { yes: false }
        }
        other => happy_event(other),
    });
    assert_eq!(
        error_of(run).message(),
        "The provided rust-src directory did not exist: /src/tree"
    );
}

#[test]
fn a_missing_detected_source_tree_is_an_error() {
    let mut b = base_builder();
    b.rust_src = None;
    let (run, _) = drive(b, |a| match a {
        BuildAction::CheckPath { .. } => BuildEvent::Exists { yes: false },
        other => happy_event(other),
    });
    let e = error_of(run);
    assert!(matches!(e, BuildError::RustSrcNotInstalled));
    assert_eq!(e.message(), "Rust-src component not installed?");
}

#[test]
fn an_unspawnable_probe_is_an_error() {
    let mut b = base_builder();
    b.rust_src = None;
    let (run, _) = drive(b, |a| match a {
        BuildAction::RunRustcPrintSysroot => {
            BuildEvent::Probe { result: ProbeResult::SpawnFailed }
        }
        other => happy_event(other),
    });
    assert!(matches!(error_of(run), BuildError::ProbeSpawn));
}

#[test]
fn a_failed_output_directory_creation_is_an_error() {
    let (run, _) = drive(base_builder(), |a| match a {
        BuildAction::CreateDir { path } if path == "out" => BuildEvent::DirMade { ok: false },
        other => happy_event(other),
    });
    assert_eq!(error_of(run).message(), "Couldn't create directory: out");
}

#[test]
fn a_failed_artifact_directory_creation_is_an_error() {
    let (run, _) = drive(base_builder(), |a| match a {
        BuildAction::CreateDir { path } if path != "out" => BuildEvent::DirMade { ok: false },
        other => happy_event(other),
    });
    assert_eq!(
        error_of(run).message(),
        "Couldn't create directory: out/lib/rustlib/x86_64-unknown-linux-gnu/lib"
    );
}

#[test]
fn a_failed_stub_write_is_an_error() {
    let (run, _) = drive(base_builder(), |a| match a {
        BuildAction::WriteStub { .. } => BuildEvent::StubWritten { ok: false },
        other => happy_event(other),
    });
    assert_eq!(error_of(run).message(), "Failed writing file: out/lib.rs");
}

#[test]
fn a_failed_manifest_write_is_an_error() {
    let (run, _) = drive(base_builder(), |a| match a {
        BuildAction::WriteManifest { .. } => {
            BuildEvent::ManifestWritten { outcome: ManifestWriteOutcome::WriteFailed }
        }
        other => happy_event(other),
    });
    assert_eq!(error_of(run).message(), "Failed writing file: out/Cargo.toml");
}

#[test]
fn an_unreadable_profile_source_is_an_error() {
    let mut b = base_builder();
    b.manifest("proj/Cargo.toml".to_string());
    let (run, _) = drive(b, |a| match a {
        BuildAction::WriteManifest { .. } => {
            BuildEvent::ManifestWritten { outcome: ManifestWriteOutcome::ProfileUnreadable }
        }
        other => happy_event(other),
    });
    assert_eq!(
        error_of(run).message(),
        "Failed to parse manifest: proj/Cargo.toml"
    );
}

#[test]
fn an_unreadable_artifact_directory_is_an_error() {
    let (run, _) = drive(base_builder(), |a| match a {
        BuildAction::ReadDir { .. } => {
            BuildEvent::DepsListed { outcome: ListingOutcome::ReadFailed }
        }
        other => happy_event(other),
    });
    assert_eq!(
        error_of(run).message(),
        "Failure to read artifact directory: out/target/x86_64-unknown-linux-gnu/release/deps"
    );
}

#[test]
fn an_unreadable_artifact_entry_is_an_error() {
    let (run, _) = drive(base_builder(), |a| match a {
        BuildAction::ReadDir { .. } => {
            BuildEvent::DepsListed { outcome: ListingOutcome::EntryFailed }
        }
        other => happy_event(other),
    });
    assert!(matches!(error_of(run), BuildError::ArtifactEntry));
}

#[test]
fn unreadable_host_tool_source_times_are_an_error() {
    let (run, _) = drive(base_builder(), |a| match a {
        BuildAction::StatTimes { .. } => BuildEvent::Times { source: None, dest: None },
        other => happy_event(other),
    });
    assert_eq!(
        error_of(run).message(),
        "Couldn't get metadata for /tc/nightly/lib/rustlib/x86_64-unknown-linux-gnu/lib"
    );
}

#[test]
fn a_failed_host_tool_copy_is_an_error() {
    let (run, _) = drive(base_builder(), |a| match a {
        BuildAction::CopyTree { .. } => BuildEvent::TreeCopied { ok: false },
        other => happy_event(other),
    });
    assert_eq!(
        error_of(run).message(),
        "Couldn't copy from `/tc/nightly/lib/rustlib/x86_64-unknown-linux-gnu/lib` to \
         `out/lib/rustlib`"
    );
}

#[test]
fn an_uncanonicalizable_output_is_an_error() {
    let (run, _) = drive(base_builder(), |a| match a {
        BuildAction::Canonicalize { path } if path == "out" => {
            BuildEvent::Canonical { path: None }
        }
        other => happy_event(other),
    });
    assert_eq!(
        error_of(run).message(),
        "Couldn't get canonical path to sysroot: out"
    );
}

#[test]
fn an_uncanonicalizable_target_falls_back_to_the_raw_name() {
    let (run, actions) = drive(base_builder(), |a| match a {
        BuildAction::Canonicalize { path } if path == "x86_64-unknown-linux-gnu" => {
            BuildEvent::Canonical { path: None }
        }
        other => happy_event(other),
    });
    assert!(matches!(run.state, BuildState::Done { .. }));
    let args = actions
        .iter()
        .find_map(|a| match a {
            BuildAction::RunCompiler { args, .. } => Some(args.clone()),
            _ => None,
        })
        .expect("no compiler invocation");
    assert_eq!(args[3], "x86_64-unknown-linux-gnu");
}
