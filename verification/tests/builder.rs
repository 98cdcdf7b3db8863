use cargo_sysroot::config::{
    cargo_config_for, configured_target, should_write_config, CargoSysroot, CargoToml, Lib,
    Metadata, Package,
};
use cargo_sysroot::error::BuildError;
use cargo_sysroot::orchestrate::{BuildState, BuildAction};
use cargo_sysroot::{artifact_dir, get_rust_src, Features, Sysroot, SysrootBuilder};

#[test]
fn new_builder_defaults() {
    let b = SysrootBuilder::new(Sysroot::Alloc);
    assert!(b.manifest.is_none());
    assert_eq!(b.output, "./target/sysroot");
    assert!(b.target.is_none());
    assert!(b.rust_src.is_none());
    assert_eq!(b.sysroot_crate, Sysroot::Alloc);
    assert!(b.features.is_empty());
    assert!(b.rustc_flags.is_empty());
}

#[test]
fn setters_store_their_values() {
    let mut b = SysrootBuilder::new(Sysroot::Core);
    b.manifest("Cargo.toml".to_string());
    b.output("out".to_string());
    b.target("t.json".to_string());
    b.rust_src("src".to_string());
    assert_eq!(b.manifest.as_deref(), Some("Cargo.toml"));
    assert_eq!(b.output, "out");
    assert_eq!(b.target.as_deref(), Some("t.json"));
    assert_eq!(b.rust_src.as_deref(), Some("src"));
}

#[test]
fn features_are_ordered_and_deduplicated() {
    let mut b = SysrootBuilder::new(Sysroot::Alloc);
    b.features(&[Features::CompilerBuiltinsNoAsm, Features::CompilerBuiltinsMem]);
    b.features(&[Features::CompilerBuiltinsMem, Features::CompilerBuiltinsC]);
    assert_eq!(
        b.features,
        vec![
            Features::CompilerBuiltinsMem,
            Features::CompilerBuiltinsC,
            Features::CompilerBuiltinsNoAsm,
        ]
    );
}

#[test]
fn rustc_flags_accumulate_in_order() {
    let mut b = SysrootBuilder::new(Sysroot::Alloc);
    b.rustc_flags(&["-Copt-level=2".to_string()]);
    b.rustc_flags(&["-Cdebuginfo=0".to_string()]);
    assert_eq!(b.rustc_flags, vec!["-Copt-level=2".to_string(), "-Cdebuginfo=0".to_string()]);
}

#[test]
fn build_without_target_fails_before_any_action() {
    let b = SysrootBuilder::new(Sysroot::Alloc);
    let (run, action) = b.build();
    assert!(action.is_none());
    match run.state {
        BuildState::Failed { error } => {
            assert!(matches!(error, BuildError::MissingTarget));
            assert_eq!(error.message(), "SysrootBuilder::target was not called");
        }
        other => panic!("expected a failed run, got {:?}", other),
    }
}

#[test]
fn build_with_target_starts_with_a_check_or_probe() {
    let mut b = SysrootBuilder::new(Sysroot::Alloc);
    b.target("x86_64-unknown-linux-gnu".to_string());
    let (run, action) = b.build();
    assert!(matches!(run.state, BuildState::ProbingSysroot));
    assert!(matches!(action, Some(BuildAction::RunRustcPrintSysroot)));
}

#[test]
fn artifact_dir_is_the_canonical_layout() {
    assert_eq!(
        artifact_dir("out", "x86_64-unknown-linux-gnu").unwrap(),
        "out/lib/rustlib/x86_64-unknown-linux-gnu/lib"
    );
    assert_eq!(
        artifact_dir("out", "specs/my-target.json").unwrap(),
        "out/lib/rustlib/my-target/lib"
    );
    match artifact_dir("out", "specs/") {
        Err(e) => {
            assert!(matches!(e, BuildError::InvalidTargetSpec));
            assert_eq!(e.message(), "Invalid Target Specification");
        }
        Ok(p) => panic!("expected an error, got {}", p),
    }
}

#[test]
fn rust_src_of_a_nightly_root() {
    let src = get_rust_src("/home/u/.rustup/toolchains/nightly-x86_64-unknown-linux-gnu");
    assert_eq!(
        src.unwrap(),
        "/home/u/.rustup/toolchains/nightly-x86_64-unknown-linux-gnu/lib/rustlib/src/rust/library"
    );
}

#[test]
fn rust_src_refuses_a_stable_root() {
    let src = get_rust_src("/home/u/.rustup/toolchains/stable-x86_64-unknown-linux-gnu");
    match src {
        Err(e) => {
            assert!(matches!(e, BuildError::NotNightly));
            assert_eq!(e.message(), "A nightly Rust version is required to build the sysroot");
        }
        Ok(p) => panic!("expected an error, got {}", p),
    }
}

#[test]
fn rust_src_refuses_an_unparsable_root() {
    match get_rust_src("/toolchains/") {
        Err(e) => assert!(matches!(e, BuildError::SourcePathParse)),
        Ok(p) => panic!("expected an error, got {}", p),
    }
}

#[test]
fn configured_target_reads_the_metadata_section() {
    let toml = CargoToml {
        package: Some(Package {
            name: "demo".to_string(),
            version: "0.1.0".to_string(),
            metadata: Some(Metadata {
                cargo_sysroot: CargoSysroot { target: "t.json".to_string() },
            }),
        }),
        dependencies: vec![],
        patch: vec![],
        lib: Lib { name: String::new(), path: String::new() },
    };
    assert_eq!(configured_target(&toml), Some("t.json".to_string()));

    let bare = CargoToml {
        package: Some(Package {
            name: "demo".to_string(),
            version: "0.1.0".to_string(),
            metadata: None,
        }),
        dependencies: vec![],
        patch: vec![],
        lib: Lib { name: String::new(), path: String::new() },
    };
    assert_eq!(configured_target(&bare), None);
}

#[test]
fn cargo_config_points_at_the_sysroot() {
    let c = cargo_config_for("t.json", "/abs/sysroot");
    assert_eq!(c.build.target, "t.json");
    assert_eq!(c.build.rustflags, vec!["--sysroot".to_string(), "/abs/sysroot".to_string()]);
}

#[test]
fn config_file_is_written_once_only() {
    assert!(should_write_config(false));
    assert!(!should_write_config(true));
}
