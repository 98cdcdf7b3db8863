use cargo_sysroot::decimal::{i32_to_dec, u64_to_dec};
use cargo_sysroot::driver::{
    cargo_args, compose_rustflags, copy_plan, interpret_exit, is_lib_name, resolve_target_arg,
    ExitOutcome,
};
use cargo_sysroot::error::BuildError;

#[test]
fn cargo_args_are_the_fixed_invocation() {
    let args = cargo_args("t.json", "out/target", "out/Cargo.toml");
    assert_eq!(
        args,
        vec![
            "rustc".to_string(),
            "--release".to_string(),
            "--target".to_string(),
            "t.json".to_string(),
            "--target-dir".to_string(),
            "out/target".to_string(),
            "--manifest-path".to_string(),
            "out/Cargo.toml".to_string(),
            "--".to_string(),
            "-Z".to_string(),
            "force-unstable-if-unmarked".to_string(),
        ]
    );
}

#[test]
fn rustflags_start_with_embed_bitcode() {
    assert_eq!(compose_rustflags(&None, &vec![]), "-Cembed-bitcode=yes");
}

#[test]
fn rustflags_keep_inherited_then_extra_flags_last() {
    let composed = compose_rustflags(
        &Some("-Cforce-frame-pointers=yes".to_string()),
        &vec!["-Copt-level=3".to_string(), "-Cdebuginfo=0".to_string()],
    );
    assert_eq!(
        composed,
        "-Cembed-bitcode=yes -Cforce-frame-pointers=yes -Copt-level=3 -Cdebuginfo=0"
    );
}

#[test]
fn rustflags_without_inherited_value() {
    let composed = compose_rustflags(&None, &vec!["-Copt-level=3".to_string()]);
    assert_eq!(composed, "-Cembed-bitcode=yes -Copt-level=3");
}

#[test]
fn target_argument_prefers_the_canonical_path() {
    assert_eq!(resolve_target_arg("t.json", Some("/abs/t.json".to_string())), "/abs/t.json");
    assert_eq!(resolve_target_arg("t.json", None), "t.json");
}

#[test]
fn success_exit_passes() {
    let r = interpret_exit(&ExitOutcome::Exited { success: true, code: Some(0) });
    assert!(r.is_ok());
}

#[test]
fn failure_exit_reports_the_code() {
    let r = interpret_exit(&ExitOutcome::Exited { success: false, code: Some(101) });
    match r {
        Err(e) => {
            let msg = e.message();
            assert_eq!(msg, "Failed to build sysroot: Exit code 101");
            assert!(msg.contains("101"));
        }
        Ok(()) => panic!("expected an error"),
    }
}

#[test]
fn signal_exit_reports_the_signal() {
    let r = interpret_exit(&ExitOutcome::Exited { success: false, code: None });
    match r {
        Err(e) => assert_eq!(e.message(), "Failed to build sysroot: Exit code Killed by signal"),
        Ok(()) => panic!("expected an error"),
    }
}

#[test]
fn spawn_failure_is_its_own_error() {
    let r = interpret_exit(&ExitOutcome::SpawnFailed);
    match r {
        Err(e) => {
            assert!(matches!(e, BuildError::CargoSpawn));
            assert_eq!(e.message(), "Couldn't find/run cargo command");
        }
        Ok(()) => panic!("expected an error"),
    }
}

#[test]
fn library_artifacts_carry_the_name_prefix() {
    assert!(is_lib_name("libcore-abc123.rlib"));
    assert!(is_lib_name("lib"));
    assert!(!is_lib_name("li"));
    assert!(!is_lib_name("core.rlib"));
    assert!(!is_lib_name(""));
}

#[test]
fn copy_plan_keeps_lib_entries_in_listing_order() {
    let names = vec![
        "libcore.rlib".to_string(),
        "build-script".to_string(),
        "liballoc.rlib".to_string(),
    ];
    let plan = copy_plan(&names, "deps", "art");
    assert_eq!(
        plan,
        vec![
            ("deps/libcore.rlib".to_string(), "art/libcore.rlib".to_string()),
            ("deps/liballoc.rlib".to_string(), "art/liballoc.rlib".to_string()),
        ]
    );
}

#[test]
fn copy_plan_of_an_empty_listing_is_empty() {
    let plan = copy_plan(&vec![], "deps", "art");
    assert!(plan.is_empty());
}

#[test]
fn decimal_rendering() {
    assert_eq!(u64_to_dec(0), "0");
    assert_eq!(u64_to_dec(101), "101");
    assert_eq!(u64_to_dec(18446744073709551615), "18446744073709551615");
    assert_eq!(i32_to_dec(101), "101");
    assert_eq!(i32_to_dec(-7), "-7");
    assert_eq!(i32_to_dec(-2147483648), "-2147483648");
}

#[test]
fn error_messages_name_the_paths_involved() {
    assert_eq!(
        BuildError::ManifestMissing { path: "p/Cargo.toml".to_string() }.message(),
        "Provided manifest did not exist. Path: p/Cargo.toml"
    );
    assert_eq!(
        BuildError::TargetSpecMissing { path: "t.json".to_string() }.message(),
        "Provided JSON Target Specification did not exist: t.json"
    );
    assert_eq!(
        BuildError::RustSrcMissing { path: "src".to_string() }.message(),
        "The provided rust-src directory did not exist: src"
    );
    assert_eq!(
        BuildError::RustSrcNotInstalled.message(),
        "Rust-src component not installed?"
    );
    assert_eq!(BuildError::SourcePathParse.message(), "Error parsing rust-src path");
    assert_eq!(BuildError::ProbeSpawn.message(), "Couldn't run rustc");
    assert_eq!(
        BuildError::ProbeNonUtf8.message(),
        "Failed to convert sysroot path to utf-8"
    );
    assert_eq!(BuildError::TargetTripleParse.message(), "Failed to parse target triple");
    assert_eq!(
        BuildError::CreateDir { path: "out".to_string() }.message(),
        "Couldn't create directory: out"
    );
    assert_eq!(
        BuildError::WriteFile { path: "out/lib.rs".to_string() }.message(),
        "Failed writing file: out/lib.rs"
    );
    assert_eq!(
        BuildError::ProfileParse { path: "p/Cargo.toml".to_string() }.message(),
        "Failed to parse manifest: p/Cargo.toml"
    );
    assert_eq!(
        BuildError::ArtifactDirRead { path: "deps".to_string() }.message(),
        "Failure to read artifact directory: deps"
    );
    assert_eq!(
        BuildError::ArtifactEntry.message(),
        "Failure to read artifact directory entry"
    );
    assert_eq!(
        BuildError::NonUnicodeName { name: "bad".to_string() }.message(),
        "Invalid Unicode in path: bad"
    );
    assert_eq!(
        BuildError::CopyArtifact { from: "a".to_string(), to: "b".to_string() }.message(),
        "Copying sysroot artifact from a to b failed"
    );
    assert_eq!(BuildError::HostTripleParse.message(), "Error parsing host target triple");
    assert_eq!(
        BuildError::Metadata { path: "libdir".to_string() }.message(),
        "Couldn't get metadata for libdir"
    );
    assert_eq!(
        BuildError::HostToolsCopy { from: "a".to_string(), to: "b".to_string() }.message(),
        "Couldn't copy from `a` to `b`"
    );
    assert_eq!(
        BuildError::CanonicalizeFailed { path: "out".to_string() }.message(),
        "Couldn't get canonical path to sysroot: out"
    );
}
