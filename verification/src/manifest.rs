//! Synthesis of the build manifest for one sysroot tier.
//!
//! The synthesized package has no source of its own beyond a stub file;
//! it exists to host the dependency declarations that pull the selected
//! tier's real sources in, and, for every tier above the minimal core, a
//! source patch that redirects the registry's workspace-core placeholder
//! package to the local core sources, so that the externally versioned
//! compiler-intrinsics crate resolves against the same core being built.
use vstd::prelude::*;

use crate::config::{Dependency, Patch};
use crate::pathops::spec_join;
use crate::{pathops, Features, Sysroot, SysrootBuilder};

verus! {

/// The manifest synthesized for one tier: a fixed package and library
/// section, one tier-dependent dependency, the workspace-core patch list,
/// and where to copy build profiles from.
#[derive(Debug, Clone)]
pub struct SysrootManifest {
    /// Name of the synthesized package.
    pub package_name: String,
    /// Version of the synthesized package.
    pub package_version: String,
    /// Authors recorded on the synthesized package.
    pub authors: Vec<String>,
    /// Edition of the synthesized package.
    pub edition: String,
    /// Whether test targets are auto-discovered; always off.
    pub autotests: bool,
    /// Whether bench targets are auto-discovered; always off.
    pub autobenches: bool,
    /// Name of the stub library target.
    pub lib_name: String,
    /// Path of the stub source file, relative to the manifest.
    pub lib_path: String,
    /// The package declares its own empty workspace, so an enclosing one
    /// cannot claim it.
    pub workspace_root: bool,
    /// Exactly one entry: the selected tier's root crate.
    pub dependencies: Vec<(String, Dependency)>,
    /// Source patches against the registry, keyed by package name.
    pub patch_crates_io: Vec<(String, Patch)>,
    /// The caller's manifest whose build profiles are to be copied in.
    pub profile_source: Option<String>,
}

/// The stub source the synthesized package compiles: a marker that no
/// implicit core-crate linkage is wanted.
pub fn stub_source() -> (r: String)
    ensures
        r@ == "#![feature(no_core)]\n#![no_core]"@,
{
    String::from_str("#![feature(no_core)]\n#![no_core]")
}

fn has_feature(v: &Vec<Features>, f: Features) -> (r: bool)
    ensures
        r == v@.contains(f),
{
    let n = v.len();
    let mut i: usize = 0;
    while i < n
        invariant
            n == v@.len(),
            i <= n,
            forall|j: int| 0 <= j < i ==> v@[j] != f,
        decreases n - i,
    {
        if v[i] == f {
            return true;
        }
        i = i + 1;
    }
    false
}

/// What the manifest synthesized for `builder` against the resolved
/// source tree holds.
///
/// The dependency list holds exactly the selected tier's root crate. The
/// core and allocation tiers and the standard library depend on their
/// own directory under the resolved source tree; the compiler-intrinsics tier
/// depends on the published package instead, always with the
/// rustc-is-the-consumer marker feature. The memory-intrinsics feature
/// toggle adds the corresponding feature string to every tier that can
/// carry it, and to no tier when it is off. Every tier except the
/// minimal core also patches the workspace-core placeholder package to
/// the local core sources; the minimal core patches nothing.
pub open spec fn spec_manifest_for(
    builder: SysrootBuilder,
    rust_src: Seq<char>,
    m: SysrootManifest,
) -> bool {
    &&& m.package_name@ == "Sysroot"@
    &&& m.package_version@ == "0.0.0"@
    &&& m.authors@.len() == 2
    &&& m.authors@[0]@ == "The Rust Project Developers"@
    &&& m.authors@[1]@ == "DianaNites"@
    &&& m.edition@ == "2018"@
    &&& !m.autotests
    &&& !m.autobenches
    &&& m.lib_name@ == "sysroot"@
    &&& m.lib_path@ == "lib.rs"@
    &&& m.workspace_root
    &&& m.profile_source is Some <==> builder.manifest is Some
    &&& m.profile_source matches Some(p) ==> p@ == builder.manifest->0@
    &&& m.dependencies@.len() == 1
    &&& builder.sysroot_crate is Core ==> ({
        let d = m.dependencies@[0];
        &&& d.0@ == "core"@
        &&& d.1.path matches Some(p) && p@ == spec_join(rust_src, "core"@)
        &&& d.1.version is None
        &&& d.1.features is None
    })
    &&& builder.sysroot_crate is CompilerBuiltins ==> ({
        let d = m.dependencies@[0];
        &&& d.0@ == "compiler_builtins"@
        &&& d.1.path is None
        &&& d.1.version matches Some(v) && v@ == "0.1"@
        &&& d.1.features matches Some(fs) && ({
            &&& fs@.len() == (
                if builder.features@.contains(Features::CompilerBuiltinsMem) {
                    2int
                } else {
                    1int
                }
            )
            &&& fs@[0]@ == "rustc-dep-of-std"@
            &&& builder.features@.contains(Features::CompilerBuiltinsMem) ==> fs@[1]@ == "mem"@
        })
    })
    &&& builder.sysroot_crate is Alloc ==> ({
        let d = m.dependencies@[0];
        &&& d.0@ == "alloc"@
        &&& d.1.path matches Some(p) && p@ == spec_join(rust_src, "alloc"@)
        &&& d.1.version is None
        &&& (if builder.features@.contains(Features::CompilerBuiltinsMem) {
            d.1.features matches Some(fs) && fs@.len() == 1 && fs@[0]@
                == "compiler-builtins-mem"@
        } else {
            d.1.features is None
        })
    })
    &&& builder.sysroot_crate is Std ==> ({
        let d = m.dependencies@[0];
        &&& d.0@ == "std"@
        &&& d.1.path matches Some(p) && p@ == spec_join(rust_src, "std"@)
        &&& d.1.version is None
        &&& (if builder.features@.contains(Features::CompilerBuiltinsMem) {
            d.1.features matches Some(fs) && fs@.len() == 1 && fs@[0]@
                == "compiler-builtins-mem"@
        } else {
            d.1.features is None
        })
    })
    &&& builder.sysroot_crate is Core ==> m.patch_crates_io@.len() == 0
    &&& !(builder.sysroot_crate is Core) ==> ({
        &&& m.patch_crates_io@.len() == 1
        &&& m.patch_crates_io@[0].0@ == "rustc-std-workspace-core"@
        &&& m.patch_crates_io@[0].1.path@ == spec_join(rust_src, "rustc-std-workspace-core"@)
    })
}

/// Synthesizes the manifest for the tier and features `builder` selects,
/// against the resolved source tree; see [`spec_manifest_for`]
/// for everything the result holds.
pub fn synthesize_manifest(builder: &SysrootBuilder, rust_src: &str) -> (m: SysrootManifest)
    ensures
        spec_manifest_for(*builder, rust_src@, m),
{
    let mem = has_feature(&builder.features, Features::CompilerBuiltinsMem);
    let mut dependencies: Vec<(String, Dependency)> = Vec::new();
    match builder.sysroot_crate {
        Sysroot::Core => {
            dependencies.push(
                (
                    String::from_str("core"),
                    Dependency {
                        path: Some(pathops::join(rust_src, "core")),
                        version: None,
                        features: None,
                    },
                ),
            );
        },
        Sysroot::CompilerBuiltins => {
            let mut fs: Vec<String> = Vec::new();
            fs.push(String::from_str("rustc-dep-of-std"));
            if mem {
                fs.push(String::from_str("mem"));
            }
            dependencies.push(
                (
                    String::from_str("compiler_builtins"),
                    Dependency {
                        path: None,
                        version: Some(String::from_str("0.1")),
                        features: Some(fs),
                    },
                ),
            );
        },
        Sysroot::Alloc => {
            let features = if mem {
                let mut fs: Vec<String> = Vec::new();
                fs.push(String::from_str("compiler-builtins-mem"));
                Some(fs)
            } else {
                None
            };
            dependencies.push(
                (
                    String::from_str("alloc"),
                    Dependency {
                        path: Some(pathops::join(rust_src, "alloc")),
                        version: None,
                        features,
                    },
                ),
            );
        },
        Sysroot::Std => {
            let features = if mem {
                let mut fs: Vec<String> = Vec::new();
                fs.push(String::from_str("compiler-builtins-mem"));
                Some(fs)
            } else {
                None
            };
            dependencies.push(
                (
                    String::from_str("std"),
                    Dependency {
                        path: Some(pathops::join(rust_src, "std")),
                        version: None,
                        features,
                    },
                ),
            );
        },
    }
    let mut patch_crates_io: Vec<(String, Patch)> = Vec::new();
    match builder.sysroot_crate {
        Sysroot::Core => {},
        _ => {
            patch_crates_io.push(
                (
                    String::from_str("rustc-std-workspace-core"),
                    Patch { path: pathops::join(rust_src, "rustc-std-workspace-core") },
                ),
            );
        },
    }
    let profile_source = match &builder.manifest {
        Some(p) => Some(p.clone()),
        None => None,
    };
    let mut authors: Vec<String> = Vec::new();
    authors.push(String::from_str("The Rust Project Developers"));
    authors.push(String::from_str("DianaNites"));
    SysrootManifest {
        package_name: String::from_str("Sysroot"),
        package_version: String::from_str("0.0.0"),
        authors,
        edition: String::from_str("2018"),
        autotests: false,
        autobenches: false,
        lib_name: String::from_str("sysroot"),
        lib_path: String::from_str("lib.rs"),
        workspace_root: true,
        dependencies,
        patch_crates_io,
        profile_source,
    }
}

} // verus!
