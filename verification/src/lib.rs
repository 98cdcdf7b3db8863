//! Building blocks for assembling a custom compilation sysroot: the
//! configuration builder, the manifest synthesizer, the build-driver
//! command assembly, artifact collection planning, host-tool staging
//! decisions, and the orchestration state machine that ties them together.
//!
//! All filesystem and subprocess work is performed by the caller: the
//! orchestration state machine hands out one [`orchestrate::BuildAction`]
//! describing each outside operation, and is fed the outcome of each as a
//! [`orchestrate::BuildEvent`].
use vstd::prelude::*;

pub mod config;
pub mod decimal;
pub mod driver;
pub mod error;
pub mod locator;
pub mod manifest;
pub mod orchestrate;
pub mod pathops;
pub mod stager;

pub use locator::get_rust_src;

use crate::error::BuildError;
use crate::pathops::{spec_file_stem, spec_join};

verus! {

/// The sysroot tier to build. Each tier implies the lower ones: its crate
/// pulls them in as dependencies of its own source, so only one tier is
/// ever built explicitly.
#[derive(Debug, Copy, Clone, PartialEq, Eq, Structural)]
pub enum Sysroot {
    /// The minimal-core crate alone.
    Core,
    /// The compiler-intrinsics crate, which implies `Core`.
    CompilerBuiltins,
    /// The heap-allocation crate, which implies the two below it.
    Alloc,
    /// The full standard library, which implies all the others.
    Std,
}

/// Feature toggles passed through to the sysroot crates being compiled.
#[derive(Debug, Copy, Clone, PartialEq, Eq, Structural)]
pub enum Features {
    /// Enables the memory-intrinsics implementation of the
    /// compiler-intrinsics crate (`memcpy` and friends).
    CompilerBuiltinsMem,
    /// Enables the C-sourced implementations of the compiler-intrinsics
    /// crate.
    CompilerBuiltinsC,
    /// Disables inline-assembly paths of the compiler-intrinsics crate.
    CompilerBuiltinsNoAsm,
}

/// Position of `f` in the fixed order the feature list is kept in.
pub open spec fn feature_rank(f: Features) -> int {
    match f {
        Features::CompilerBuiltinsMem => 0,
        Features::CompilerBuiltinsC => 1,
        Features::CompilerBuiltinsNoAsm => 2,
    }
}

/// A feature list kept strictly ordered, hence without repeats.
pub open spec fn features_wf(s: Seq<Features>) -> bool {
    forall|i: int, j: int|
        0 <= i < j < s.len() ==> feature_rank(s[i]) < feature_rank(s[j])
}

proof fn lemma_feature_rank_injective(f: Features, g: Features)
    requires
        feature_rank(f) == feature_rank(g),
    ensures
        f == g,
{
}

fn feature_rank_x(f: Features) -> (r: u8)
    ensures
        r as int == feature_rank(f),
{
    match f {
        Features::CompilerBuiltinsMem => 0,
        Features::CompilerBuiltinsC => 1,
        Features::CompilerBuiltinsNoAsm => 2,
    }
}

/// Adds `f` to the ordered feature list `v` if not yet present.
fn insert_feature(v: &mut Vec<Features>, f: Features)
    requires
        features_wf(old(v)@),
    ensures
        features_wf(final(v)@),
        forall|g: Features| final(v)@.contains(g) <==> (old(v)@.contains(g) || g == f),
{
    let rf = feature_rank_x(f);
    let mut i: usize = 0;
    while i < v.len() && feature_rank_x(v[i]) < rf
        invariant
            i <= v@.len(),
            v@ == old(v)@,
            rf as int == feature_rank(f),
            forall|j: int| 0 <= j < i ==> feature_rank(v@[j]) < feature_rank(f),
        decreases v@.len() - i,
    {
        i = i + 1;
    }
    if i < v.len() {
        if v[i] == f {
            proof {
                assert(old(v)@[i as int] == f);
                assert(old(v)@.contains(f));
            }
            return ;
        }
    }
    proof {
        if i < v@.len() {
            if feature_rank(v@[i as int]) == feature_rank(f) {
                lemma_feature_rank_injective(v@[i as int], f);
                assert(false);
            }
        }
    }
    let ghost s = v@;
    v.insert(i, f);
    proof {
        s.insert_ensures(i as int, f);
        let t = v@;
        assert forall|a: int, b: int| 0 <= a < b < t.len() implies feature_rank(t[a])
            < feature_rank(t[b]) by {
            if b < i {
            } else if a < i && b == i {
            } else if a < i && b > i {
                assert(t[b] == s[b - 1]);
            } else if a == i {
                assert(t[b] == s[b - 1]);
                if b - 1 > i {
                    assert(feature_rank(s[i as int]) < feature_rank(s[b - 1]));
                }
            } else {
                assert(t[a] == s[a - 1] && t[b] == s[b - 1]);
            }
        };
        assert forall|g: Features| t.contains(g) implies (s.contains(g) || g == f) by {
            let k = choose|k: int| 0 <= k < t.len() && t[k] == g;
            if k < i {
                assert(s[k] == g);
            } else if k > i {
                assert(s[k - 1] == g);
            }
        };
        assert forall|g: Features| s.contains(g) || g == f implies t.contains(g) by {
            if s.contains(g) {
                let k = choose|k: int| 0 <= k < s.len() && s[k] == g;
                if k < i {
                    assert(t[k] == g);
                } else {
                    assert(t[k + 1] == g);
                }
            } else {
                assert(t[i as int] == g);
            }
        };
    }
}

/// The configuration a build consumes: where to place the sysroot, what
/// to compile it for, from which sources, which tier, and what to pass on
/// to the compiler.
#[derive(Debug, Clone)]
pub struct SysrootBuilder {
    /// Project manifest whose build profiles the sysroot build copies.
    pub manifest: Option<String>,
    /// Where the built sysroot is anchored.
    pub output: String,
    /// Target triple, or path to a target-specification file.
    pub target: Option<String>,
    /// The source tree to compile, auto-detected when absent.
    pub rust_src: Option<String>,
    /// Which tier of sysroot crates to build.
    pub sysroot_crate: Sysroot,
    /// Feature toggles, kept ordered and without repeats.
    pub features: Vec<Features>,
    /// Extra compiler flags, appended in order.
    pub rustc_flags: Vec<String>,
}

impl SysrootBuilder {
    /// The feature list is kept strictly ordered.
    pub open spec fn wf(self) -> bool {
        features_wf(self.features@)
    }

    /// A fresh configuration for building the tier `sysroot_crate`, with
    /// the output anchored under the conventional scratch directory and
    /// everything else unset.
    pub fn new(sysroot_crate: Sysroot) -> (r: SysrootBuilder)
        ensures
            r.manifest is None,
            r.output@ == "./target/sysroot"@,
            r.target is None,
            r.rust_src is None,
            r.sysroot_crate == sysroot_crate,
            r.features@.len() == 0,
            r.rustc_flags@.len() == 0,
            r.wf(),
    {
        SysrootBuilder {
            manifest: None,
            output: String::from_str("./target/sysroot"),
            target: None,
            rust_src: None,
            sysroot_crate,
            features: Vec::with_capacity(3),
            rustc_flags: Vec::new(),
        }
    }

    /// Sets the path of the project manifest whose build profiles are to
    /// be copied into the synthesized manifest.
    pub fn manifest(&mut self, manifest: String)
        ensures
            *final(self) == (SysrootBuilder { manifest: Some(manifest), ..*old(self) }),
    {
        self.manifest = Some(manifest);
    }

    /// Sets where the sysroot directory will be placed.
    pub fn output(&mut self, output: String)
        ensures
            *final(self) == (SysrootBuilder { output, ..*old(self) }),
    {
        self.output = output;
    }

    /// Sets the target to compile for: a triple name, or the path of a
    /// target-specification file.
    pub fn target(&mut self, target: String)
        ensures
            *final(self) == (SysrootBuilder { target: Some(target), ..*old(self) }),
    {
        self.target = Some(target);
    }

    /// Sets the source tree the sysroot crates are compiled from.
    pub fn rust_src(&mut self, rust_src: String)
        ensures
            *final(self) == (SysrootBuilder { rust_src: Some(rust_src), ..*old(self) }),
    {
        self.rust_src = Some(rust_src);
    }

    /// Adds to the enabled features; earlier additions are kept.
    pub fn features(&mut self, features: &[Features])
        requires
            old(self).wf(),
        ensures
            final(self).wf(),
            forall|f: Features|
                final(self).features@.contains(f) <==> (old(self).features@.contains(f)
                    || features@.contains(f)),
            final(self).manifest == old(self).manifest,
            final(self).output == old(self).output,
            final(self).target == old(self).target,
            final(self).rust_src == old(self).rust_src,
            final(self).sysroot_crate == old(self).sysroot_crate,
            final(self).rustc_flags == old(self).rustc_flags,
    {
        let n = features.len();
        let mut k: usize = 0;
        while k < n
            invariant
                n == features@.len(),
                k <= n,
                features_wf(self.features@),
                forall|f: Features|
                    self.features@.contains(f) <==> (old(self).features@.contains(f) || exists|j: int|
                        0 <= j < k && features@[j] == f),
                self.manifest == old(self).manifest,
                self.output == old(self).output,
                self.target == old(self).target,
                self.rust_src == old(self).rust_src,
                self.sysroot_crate == old(self).sysroot_crate,
                self.rustc_flags == old(self).rustc_flags,
            decreases n - k,
        {
            let ghost before = self.features@;
            insert_feature(&mut self.features, features[k]);
            proof {
                assert forall|f: Features|
                    self.features@.contains(f) <==> (old(self).features@.contains(f) || exists|j: int|
                        0 <= j < k + 1 && features@[j] == f) by {
                    if self.features@.contains(f) {
                        if !before.contains(f) {
                            assert(features@[k as int] == f);
                        }
                    }
                    if old(self).features@.contains(f) {
                        assert(before.contains(f));
                    }
                    if exists|j: int| 0 <= j < k + 1 && features@[j] == f {
                        let j = choose|j: int| 0 <= j < k + 1 && features@[j] == f;
                        if j < k {
                            assert(before.contains(f));
                        } else {
                            assert(f == features@[k as int]);
                        }
                    }
                };
            }
            k = k + 1;
        }
    }

    /// Appends custom flags to pass to every compiler invocation.
    pub fn rustc_flags(&mut self, flags: &[String])
        ensures
            final(self).rustc_flags@ == old(self).rustc_flags@ + flags@,
            final(self).manifest == old(self).manifest,
            final(self).output == old(self).output,
            final(self).target == old(self).target,
            final(self).rust_src == old(self).rust_src,
            final(self).sysroot_crate == old(self).sysroot_crate,
            final(self).features == old(self).features,
    {
        let n = flags.len();
        let mut k: usize = 0;
        while k < n
            invariant
                n == flags@.len(),
                k <= n,
                self.rustc_flags@ == old(self).rustc_flags@ + flags@.subrange(0, k as int),
                self.manifest == old(self).manifest,
                self.output == old(self).output,
                self.target == old(self).target,
                self.rust_src == old(self).rust_src,
                self.sysroot_crate == old(self).sysroot_crate,
                self.features == old(self).features,
            decreases n - k,
        {
            self.rustc_flags.push(flags[k].clone());
            proof {
                assert(self.rustc_flags@ =~= old(self).rustc_flags@ + flags@.subrange(
                    0,
                    k + 1,
                ));
            }
            k = k + 1;
        }
        proof {
            assert(flags@.subrange(0, n as int) =~= flags@);
        }
    }
}

/// The canonical artifact directory for `target` under `sysroot_dir`:
/// `lib/rustlib/<target stem>/lib`, or nothing when the target has no stem.
pub open spec fn spec_artifact_dir(sysroot_dir: Seq<char>, target: Seq<char>) -> Option<
    Seq<char>,
> {
    match spec_file_stem(target) {
        None => None,
        Some(stem) => Some(
            spec_join(spec_join(spec_join(spec_join(sysroot_dir, "lib"@), "rustlib"@), stem), "lib"@),
        ),
    }
}

/// The directory the built tier artifacts are staged into for `target`.
pub fn artifact_dir(sysroot_dir: &str, target: &str) -> (r: Result<String, BuildError>)
    ensures
        spec_file_stem(target@) is None ==> (r matches Err(e) && e is InvalidTargetSpec),
        spec_file_stem(target@) is Some ==> (r matches Ok(p) && Some(p@) == spec_artifact_dir(
            sysroot_dir@,
            target@,
        )),
{
    match pathops::file_stem(target) {
        None => Err(BuildError::InvalidTargetSpec),
        Some(stem) => {
            let p1 = pathops::join(sysroot_dir, "lib");
            let p2 = pathops::join(p1.as_str(), "rustlib");
            let p3 = pathops::join(p2.as_str(), stem.as_str());
            Ok(pathops::join(p3.as_str(), "lib"))
        },
    }
}

} // verus!
