use cargo_sysroot::manifest::{stub_source, synthesize_manifest};
use cargo_sysroot::{Features, Sysroot, SysrootBuilder};

fn builder(tier: Sysroot, mem: bool) -> SysrootBuilder {
    let mut b = SysrootBuilder::new(tier);
    b.target("t".to_string());
    if mem {
        b.features(&[Features::CompilerBuiltinsMem]);
    }
    b
}

#[test]
fn stub_disables_implicit_core_linkage() {
    assert_eq!(stub_source(), "#![feature(no_core)]\n#![no_core]");
}

#[test]
fn fixed_package_and_library_sections() {
    let m = synthesize_manifest(&builder(Sysroot::Core, false), "/src");
    assert_eq!(m.package_name, "Sysroot");
    assert_eq!(m.package_version, "0.0.0");
    assert_eq!(
        m.authors,
        vec!["The Rust Project Developers".to_string(), "DianaNites".to_string()]
    );
    assert_eq!(m.edition, "2018");
    assert!(!m.autotests);
    assert!(!m.autobenches);
    assert_eq!(m.lib_name, "sysroot");
    assert_eq!(m.lib_path, "lib.rs");
    assert!(m.workspace_root);
    assert!(m.profile_source.is_none());
}

#[test]
fn profile_source_follows_the_configured_manifest() {
    let mut b = builder(Sysroot::Core, false);
    b.manifest("proj/Cargo.toml".to_string());
    let m = synthesize_manifest(&b, "/src");
    assert_eq!(m.profile_source.as_deref(), Some("proj/Cargo.toml"));
}

#[test]
fn core_depends_on_the_core_sources_and_patches_nothing() {
    let m = synthesize_manifest(&builder(Sysroot::Core, false), "/src");
    assert_eq!(m.dependencies.len(), 1);
    let (name, dep) = &m.dependencies[0];
    assert_eq!(name, "core");
    assert_eq!(dep.path.as_deref(), Some("/src/core"));
    assert!(dep.version.is_none());
    assert!(dep.features.is_none());
    assert!(m.patch_crates_io.is_empty());
}

#[test]
fn compiler_builtins_depends_on_the_published_package() {
    let m = synthesize_manifest(&builder(Sysroot::CompilerBuiltins, false), "/src");
    let (name, dep) = &m.dependencies[0];
    assert_eq!(name, "compiler_builtins");
    assert!(dep.path.is_none());
    assert_eq!(dep.version.as_deref(), Some("0.1"));
    assert_eq!(dep.features.as_deref(), Some(&["rustc-dep-of-std".to_string()][..]));
}

#[test]
fn compiler_builtins_with_the_memory_feature() {
    let m = synthesize_manifest(&builder(Sysroot::CompilerBuiltins, true), "/src");
    let (_, dep) = &m.dependencies[0];
    assert_eq!(
        dep.features.as_deref(),
        Some(&["rustc-dep-of-std".to_string(), "mem".to_string()][..])
    );
}

#[test]
fn alloc_with_the_memory_feature_declares_the_feature_string() {
    let m = synthesize_manifest(&builder(Sysroot::Alloc, true), "/src");
    let (name, dep) = &m.dependencies[0];
    assert_eq!(name, "alloc");
    assert_eq!(dep.path.as_deref(), Some("/src/alloc"));
    assert!(dep.version.is_none());
    assert_eq!(dep.features.as_deref(), Some(&["compiler-builtins-mem".to_string()][..]));
}

#[test]
fn alloc_without_the_memory_feature_declares_none() {
    let m = synthesize_manifest(&builder(Sysroot::Alloc, false), "/src");
    let (_, dep) = &m.dependencies[0];
    assert!(dep.features.is_none());
}

#[test]
fn std_depends_on_the_standard_library_sources() {
    let m = synthesize_manifest(&builder(Sysroot::Std, true), "/src");
    let (name, dep) = &m.dependencies[0];
    assert_eq!(name, "std");
    assert_eq!(dep.path.as_deref(), Some("/src/std"));
    assert_eq!(dep.features.as_deref(), Some(&["compiler-builtins-mem".to_string()][..]));
}

#[test]
fn every_tier_but_core_patches_the_workspace_core_placeholder() {
    for tier in [Sysroot::CompilerBuiltins, Sysroot::Alloc, Sysroot::Std] {
        let m = synthesize_manifest(&builder(tier, false), "/src");
        assert_eq!(m.patch_crates_io.len(), 1, "tier {:?}", tier);
        let (name, patch) = &m.patch_crates_io[0];
        assert_eq!(name, "rustc-std-workspace-core");
        assert_eq!(patch.path, "/src/rustc-std-workspace-core");
    }
    let m = synthesize_manifest(&builder(Sysroot::Core, false), "/src");
    assert!(m.patch_crates_io.is_empty());
}
