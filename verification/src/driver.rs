//! Assembling the external build-tool invocation and interpreting its
//! outcome, and planning which produced artifacts to collect.
use vstd::prelude::*;

use crate::error::BuildError;
use crate::pathops;
use crate::pathops::spec_join;

verus! {

/// How the external build tool ended.
#[derive(Debug, Clone)]
pub enum ExitOutcome {
    /// The tool could not be spawned at all.
    SpawnFailed,
    /// The tool ran to an end; `code` is its exit code, or `None` when it
    /// was ended by a signal.
    Exited { success: bool, code: Option<i32> },
}

/// `base` with each of `flags` appended after a space.
pub open spec fn spec_space_join_onto(base: Seq<char>, flags: Seq<Seq<char>>) -> Seq<char>
    decreases flags.len(),
{
    if flags.len() == 0 {
        base
    } else {
        spec_space_join_onto(base, flags.drop_last()) + " "@ + flags.last()
    }
}

/// The composed compiler-flags variable: the fixed embed-bitcode flag
/// first, any inherited value after it, the caller's extra flags last, so
/// that the caller's win where flags conflict.
pub open spec fn spec_rustflags(inherited: Option<Seq<char>>, extra: Seq<Seq<char>>) -> Seq<
    char,
> {
    let base = match inherited {
        Some(e) => "-Cembed-bitcode=yes"@ + " "@ + e,
        None => "-Cembed-bitcode=yes"@,
    };
    spec_space_join_onto(base, extra)
}

/// Composes the compiler-flags variable for the build-tool invocation
/// from the inherited value, if any, and the configured extra flags.
pub fn compose_rustflags(inherited: &Option<String>, extra: &Vec<String>) -> (r: String)
    ensures
        r@ == spec_rustflags(
            match *inherited {
                Some(e) => Some(e@),
                None => None,
            },
            extra.deep_view(),
        ),
{
    let ghost dv = extra.deep_view();
    let mut s = String::from_str("-Cembed-bitcode=yes");
    match inherited {
        Some(e) => {
            s.append(" ");
            s.append(e.as_str());
        },
        None => {},
    }
    let ghost base = s@;
    let n = extra.len();
    let mut k: usize = 0;
    proof {
        assert(dv.subrange(0, 0) =~= Seq::<Seq<char>>::empty());
    }
    while k < n
        invariant
            n == extra@.len(),
            k <= n,
            dv == extra.deep_view(),
            dv.len() == n,
            s@ == spec_space_join_onto(base, dv.subrange(0, k as int)),
        decreases n - k,
    {
        s.append(" ");
        s.append(extra[k].as_str());
        proof {
            let part = dv.subrange(0, k + 1);
            assert(part.drop_last() =~= dv.subrange(0, k as int));
            assert(part.last() == dv[k as int]);
            assert(dv[k as int] == extra@[k as int]@);
            assert(s@ =~= spec_space_join_onto(base, part));
        }
        k = k + 1;
    }
    proof {
        assert(dv.subrange(0, n as int) =~= dv);
    }
    s
}

/// The argument list of the build-tool invocation: compile one package in
/// release mode for `target_arg`, scratch work under `target_dir`, from
/// the manifest at `manifest_path`, and force instability markers onto
/// the otherwise stable-looking sysroot sources.
pub open spec fn spec_cargo_args(
    target_arg: Seq<char>,
    target_dir: Seq<char>,
    manifest_path: Seq<char>,
) -> Seq<Seq<char>> {
    seq![
        "rustc"@,
        "--release"@,
        "--target"@,
        target_arg,
        "--target-dir"@,
        target_dir,
        "--manifest-path"@,
        manifest_path,
        "--"@,
        "-Z"@,
        "force-unstable-if-unmarked"@,
    ]
}

/// Assembles the build-tool argument list.
pub fn cargo_args(target_arg: &str, target_dir: &str, manifest_path: &str) -> (r: Vec<String>)
    ensures
        r.deep_view() == spec_cargo_args(target_arg@, target_dir@, manifest_path@),
{
    let mut v: Vec<String> = Vec::new();
    v.push(String::from_str("rustc"));
    v.push(String::from_str("--release"));
    v.push(String::from_str("--target"));
    v.push(String::from_str(target_arg));
    v.push(String::from_str("--target-dir"));
    v.push(String::from_str(target_dir));
    v.push(String::from_str("--manifest-path"));
    v.push(String::from_str(manifest_path));
    v.push(String::from_str("--"));
    v.push(String::from_str("-Z"));
    v.push(String::from_str("force-unstable-if-unmarked"));
    proof {
        assert(v.deep_view() =~~= spec_cargo_args(target_arg@, target_dir@, manifest_path@));
    }
    v
}

/// The target argument handed to the build tool: the canonical form of a
/// target-specification path when one could be resolved, else the
/// configured value as written, assuming it names a built-in target.
pub fn resolve_target_arg(target: &str, canonical: Option<String>) -> (r: String)
    ensures
        canonical matches Some(c) ==> r@ == c@,
        canonical is None ==> r@ == target@,
{
    match canonical {
        Some(c) => c,
        None => String::from_str(target),
    }
}

/// Reads the build tool's ending: success passes, a spawn failure and an
/// unsuccessful exit each report their own error, the latter carrying the
/// exit code when there is one.
pub fn interpret_exit(outcome: &ExitOutcome) -> (r: Result<(), BuildError>)
    ensures
        outcome is SpawnFailed ==> (r matches Err(e) && e is CargoSpawn),
        outcome matches ExitOutcome::Exited { success: true, .. } ==> r is Ok,
        outcome matches ExitOutcome::Exited { success: false, code } ==> (r matches Err(e)
            && e matches BuildError::CompileFailed { code: c } && c == code),
{
    match outcome {
        ExitOutcome::SpawnFailed => Err(BuildError::CargoSpawn),
        ExitOutcome::Exited { success, code } => {
            if *success {
                Ok(())
            } else {
                Err(BuildError::CompileFailed { code: *code })
            }
        },
    }
}

/// Whether a produced file's name marks it as a library artifact.
pub open spec fn spec_is_lib_name(name: Seq<char>) -> bool {
    name.len() >= 3 && name.subrange(0, 3) == "lib"@
}

/// Tests the library-name prefix convention on one file name.
pub fn is_lib_name(name: &str) -> (r: bool)
    ensures
        r == spec_is_lib_name(name@),
{
    let len = name.unicode_len();
    if len < 3 {
        return false;
    }
    let c0 = name.get_char(0);
    let c1 = name.get_char(1);
    let c2 = name.get_char(2);
    let r = c0 == 'l' && c1 == 'i' && c2 == 'b';
    proof {
        reveal_strlit("lib");
        assert(name@.subrange(0, 3).len() == 3);
        assert(name@.subrange(0, 3)[0] == c0);
        assert(name@.subrange(0, 3)[1] == c1);
        assert(name@.subrange(0, 3)[2] == c2);
        if r {
            assert(name@.subrange(0, 3) =~= "lib"@);
        }
    }
    r
}

/// The copy plan over a directory listing: for each name carrying the
/// library prefix, in listing order, the pair of its path under
/// `deps_dir` and its destination under `art_dir`.
pub open spec fn spec_copy_plan(
    names: Seq<Seq<char>>,
    deps_dir: Seq<char>,
    art_dir: Seq<char>,
) -> Seq<(Seq<char>, Seq<char>)>
    decreases names.len(),
{
    if names.len() == 0 {
        Seq::empty()
    } else {
        let rest = spec_copy_plan(names.drop_last(), deps_dir, art_dir);
        if spec_is_lib_name(names.last()) {
            rest.push((spec_join(deps_dir, names.last()), spec_join(art_dir, names.last())))
        } else {
            rest
        }
    }
}

/// The copy plan is exactly the lib-prefixed names of the listing, in
/// listing order, each mapped to its source under the scratch directory
/// and its destination under the artifact directory. The planned file
/// set is thus a function of the listing and the two directories alone:
/// a second collection over the same listing plans the same files, and
/// each copy overwrites its destination, so repeating a build leaves the
/// same artifact names in place.
pub proof fn lemma_copy_plan_is_filter_map(
    names: Seq<Seq<char>>,
    deps_dir: Seq<char>,
    art_dir: Seq<char>,
)
    ensures
        spec_copy_plan(names, deps_dir, art_dir) == names.filter(
            |n: Seq<char>| spec_is_lib_name(n),
        ).map_values(|n: Seq<char>| (spec_join(deps_dir, n), spec_join(art_dir, n))),
    decreases names.len(),
{
    reveal(Seq::<Seq<char>>::filter);
    let p = |n: Seq<char>| spec_is_lib_name(n);
    let f = |n: Seq<char>| (spec_join(deps_dir, n), spec_join(art_dir, n));
    if names.len() == 0 {
        assert(names.filter(p).map_values(f) =~= Seq::<(Seq<char>, Seq<char>)>::empty());
        assert(spec_copy_plan(names, deps_dir, art_dir) =~= Seq::<
            (Seq<char>, Seq<char>),
        >::empty());
    } else {
        lemma_copy_plan_is_filter_map(names.drop_last(), deps_dir, art_dir);
        let sub = names.drop_last();
        let x = names.last();
        assert(names.filter(p) == if p(x) {
            sub.filter(p).push(x)
        } else {
            sub.filter(p)
        });
        if p(x) {
            assert(sub.filter(p).push(x).map_values(f) =~= sub.filter(p).map_values(f).push(
                f(x),
            ));
        }
    }
    assert(spec_copy_plan(names, deps_dir, art_dir) =~= names.filter(
        |n: Seq<char>| spec_is_lib_name(n),
    ).map_values(|n: Seq<char>| (spec_join(deps_dir, n), spec_join(art_dir, n))));
}

/// Plans the artifact copies for the directory listing `names`.
pub fn copy_plan(names: &Vec<String>, deps_dir: &str, art_dir: &str) -> (r: Vec<
    (String, String),
>)
    ensures
        r.deep_view() == spec_copy_plan(names.deep_view(), deps_dir@, art_dir@),
{
    let ghost dv = names.deep_view();
    let mut r: Vec<(String, String)> = Vec::new();
    let n = names.len();
    let mut k: usize = 0;
    proof {
        assert(dv.subrange(0, 0) =~= Seq::<Seq<char>>::empty());
    }
    while k < n
        invariant
            n == names@.len(),
            k <= n,
            dv == names.deep_view(),
            dv.len() == n,
            r.deep_view() == spec_copy_plan(dv.subrange(0, k as int), deps_dir@, art_dir@),
        decreases n - k,
    {
        proof {
            let part = dv.subrange(0, k + 1);
            assert(part.drop_last() =~= dv.subrange(0, k as int));
            assert(part.last() == dv[k as int]);
            assert(dv[k as int] == names@[k as int]@);
        }
        if is_lib_name(names[k].as_str()) {
            let from = pathops::join(deps_dir, names[k].as_str());
            let to = pathops::join(art_dir, names[k].as_str());
            r.push((from, to));
        }
        proof {
            assert(r.deep_view() =~~= spec_copy_plan(
                dv.subrange(0, k + 1),
                deps_dir@,
                art_dir@,
            ));
        }
        k = k + 1;
    }
    proof {
        assert(dv.subrange(0, n as int) =~= dv);
    }
    r
}

} // verus!
