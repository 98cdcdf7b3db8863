//! Configuration data read from and written for the caller's project:
//! the caller's own manifest, reduced to the fields the orchestrator
//! reads, and the linker-configuration file the orchestrator writes.
use vstd::prelude::*;

verus! {

/// A project manifest, reduced to what the orchestrator reads of one.
#[derive(Debug, Clone)]
pub struct CargoToml {
    pub package: Option<Package>,
    pub dependencies: Vec<(String, Dependency)>,
    pub patch: Vec<(String, Vec<(String, Patch)>)>,
    pub lib: Lib,
}

/// The library section of a manifest.
#[derive(Debug, Clone)]
pub struct Lib {
    pub name: String,
    pub path: String,
}

/// The package section of a manifest.
#[derive(Debug, Clone)]
pub struct Package {
    pub name: String,
    pub version: String,
    pub metadata: Option<Metadata>,
}

/// The tool-specific metadata section of a manifest.
#[derive(Debug, Clone)]
pub struct Metadata {
    pub cargo_sysroot: CargoSysroot,
}

/// This tool's own metadata: the target to build the sysroot for.
#[derive(Debug, Clone)]
pub struct CargoSysroot {
    pub target: String,
}

/// A dependency declaration: a local path, a published version, and the
/// features to enable.
#[derive(Debug, Clone)]
pub struct Dependency {
    pub path: Option<String>,
    pub version: Option<String>,
    pub features: Option<Vec<String>>,
}

/// A source-patch entry redirecting one package to a local path.
#[derive(Debug, Clone)]
pub struct Patch {
    pub path: String,
}

/// The linker-configuration file pointing a downstream build at the
/// produced sysroot.
#[derive(Debug, Clone)]
pub struct CargoConfig {
    pub build: Build,
}

/// The build section of the linker-configuration file.
#[derive(Debug, Clone)]
pub struct Build {
    pub rustflags: Vec<String>,
    pub target: String,
}

/// The target named under the manifest's tool-specific metadata section,
/// if every level of that section is present.
pub open spec fn spec_configured_target(t: CargoToml) -> Option<Seq<char>> {
    match t.package {
        None => None,
        Some(p) => match p.metadata {
            None => None,
            Some(m) => Some(m.cargo_sysroot.target@),
        },
    }
}

/// Reads the target this tool's metadata section names, if present.
pub fn configured_target(t: &CargoToml) -> (r: Option<String>)
    ensures
        r is Some <==> spec_configured_target(*t) is Some,
        r is Some ==> (r->0)@ == spec_configured_target(*t)->0,
{
    match &t.package {
        None => None,
        Some(p) => match &p.metadata {
            None => None,
            Some(m) => Some(m.cargo_sysroot.target.clone()),
        },
    }
}

/// Whether the linker-configuration file is to be written: it is
/// created once only, and one already present is left untouched.
pub fn should_write_config(exists: bool) -> (r: bool)
    ensures
        r == !exists,
{
    !exists
}

/// The linker-configuration contents for `target` and the canonical
/// sysroot path `sysroot_dir`: the target, and a flag pair pointing the
/// compiler at the sysroot.
pub fn cargo_config_for(target: &str, sysroot_dir: &str) -> (r: CargoConfig)
    ensures
        r.build.target@ == target@,
        r.build.rustflags@.len() == 2,
        r.build.rustflags@[0]@ == "--sysroot"@,
        r.build.rustflags@[1]@ == sysroot_dir@,
{
    let mut rustflags: Vec<String> = Vec::new();
    rustflags.push(String::from_str("--sysroot"));
    rustflags.push(String::from_str(sysroot_dir));
    CargoConfig { build: Build { rustflags, target: String::from_str(target) } }
}

} // verus!
