//! Locating the host toolchain's source tree and host triple.
//!
//! The host compiler itself is queried by the caller; the functions here
//! take the text such a query printed and compute paths and names from it.
use vstd::prelude::*;

use crate::error::BuildError;
use crate::pathops;
use crate::pathops::{
    spec_file_stem, spec_join, spec_parent, spec_prefix_before,
};

verus! {

/// An ASCII whitespace character.
pub open spec fn is_space(c: char) -> bool {
    c == ' ' || c == '\t' || c == '\n' || c == '\r'
}

/// `s` without its leading whitespace.
pub open spec fn trim_start(s: Seq<char>) -> Seq<char>
    decreases s.len(),
{
    if s.len() > 0 && is_space(s.first()) {
        trim_start(s.drop_first())
    } else {
        s
    }
}

/// `s` without its trailing whitespace.
pub open spec fn trim_end(s: Seq<char>) -> Seq<char>
    decreases s.len(),
{
    if s.len() > 0 && is_space(s.last()) {
        trim_end(s.drop_last())
    } else {
        s
    }
}

/// `s` without leading and trailing whitespace.
pub open spec fn spec_trim(s: Seq<char>) -> Seq<char> {
    trim_end(trim_start(s))
}

fn is_space_char(c: char) -> (r: bool)
    ensures
        r == is_space(c),
{
    c == ' ' || c == '\t' || c == '\n' || c == '\r'
}

/// Removes the whitespace around `s`, as a compiler query's printed output
/// carries a trailing line break.
pub fn trim(s: &str) -> (r: String)
    ensures
        r@ == spec_trim(s@),
{
    let len = s.unicode_len();
    proof {
        assert(s@.subrange(0, len as int) =~= s@);
    }
    let mut a: usize = 0;
    while a < len && is_space_char(s.get_char(a))
        invariant
            a <= len,
            len == s@.len(),
            trim_start(s@) == trim_start(s@.subrange(a as int, len as int)),
        decreases len - a,
    {
        proof {
            assert(s@.subrange(a as int, len as int).drop_first() =~= s@.subrange(
                a + 1,
                len as int,
            ));
        }
        a = a + 1;
    }
    proof {
        if a < len {
            assert(trim_start(s@.subrange(a as int, len as int)) == s@.subrange(
                a as int,
                len as int,
            ));
        } else {
            assert(s@.subrange(a as int, len as int) =~= Seq::<char>::empty());
        }
    }
    let mut b: usize = len;
    while b > a && is_space_char(s.get_char(b - 1))
        invariant
            a <= b <= len,
            len == s@.len(),
            trim_start(s@) == s@.subrange(a as int, len as int),
            spec_trim(s@) == trim_end(s@.subrange(a as int, b as int)),
        decreases b,
    {
        proof {
            assert(s@.subrange(a as int, b as int).drop_last() =~= s@.subrange(
                a as int,
                b - 1,
            ));
        }
        b = b - 1;
    }
    proof {
        if b > a {
            assert(trim_end(s@.subrange(a as int, b as int)) == s@.subrange(a as int, b as int));
        } else {
            assert(s@.subrange(a as int, b as int) =~= Seq::<char>::empty());
        }
    }
    String::from_str(s.substring_char(a, b))
}

/// The source-tree directory under the toolchain root `root`.
pub open spec fn spec_rust_src_path(root: Seq<char>) -> Seq<char> {
    spec_join(
        spec_join(spec_join(spec_join(spec_join(root, "lib"@), "rustlib"@), "src"@), "rust"@),
        "library"@,
    )
}

/// Whether the toolchain root `root` names a nightly toolchain: the part
/// of its stem before the first dash reads "nightly".
pub open spec fn spec_is_nightly_root(root: Seq<char>) -> bool {
    match spec_file_stem(root) {
        None => false,
        Some(stem) => spec_prefix_before(stem, '-') == "nightly"@,
    }
}

/// The source tree that the toolchain rooted at `root` carries, provided
/// `root` names a nightly toolchain.
///
/// `root` is what the host compiler printed for its installation root,
/// already trimmed. The returned path is not checked for existence here.
pub fn get_rust_src(root: &str) -> (r: Result<String, BuildError>)
    ensures
        spec_file_stem(root@) is None ==> (r matches Err(e) && e is SourcePathParse),
        spec_file_stem(root@) is Some && !spec_is_nightly_root(root@) ==> (r matches Err(e)
            && e is NotNightly),
        spec_is_nightly_root(root@) ==> (r matches Ok(p) && p@ == spec_rust_src_path(root@)),
{
    let stem = match pathops::file_stem(root) {
        None => {
            return Err(BuildError::SourcePathParse);
        },
        Some(s) => s,
    };
    let pre = pathops::prefix_before(stem.as_str(), '-');
    let nightly = String::from_str("nightly");
    if !(pre == nightly) {
        return Err(BuildError::NotNightly);
    }
    let p1 = pathops::join(root, "lib");
    let p2 = pathops::join(p1.as_str(), "rustlib");
    let p3 = pathops::join(p2.as_str(), "src");
    let p4 = pathops::join(p3.as_str(), "rust");
    let p5 = pathops::join(p4.as_str(), "library");
    Ok(p5)
}

/// The host triple as read off the host library directory's path: the stem
/// of that path's parent directory.
pub open spec fn spec_host_triple(libdir: Seq<char>) -> Option<Seq<char>> {
    match spec_parent(libdir) {
        None => None,
        Some(par) => spec_file_stem(par),
    }
}

/// Reads the host triple off `libdir`, what the host compiler printed for
/// its own per-target library directory, already trimmed.
pub fn host_triple_from_libdir(libdir: &str) -> (r: Result<String, BuildError>)
    ensures
        spec_host_triple(libdir@) is None ==> (r matches Err(e) && e is HostTripleParse),
        spec_host_triple(libdir@) matches Some(t) ==> (r matches Ok(s) && s@ == t),
{
    let par = match pathops::parent(libdir) {
        None => {
            return Err(BuildError::HostTripleParse);
        },
        Some(p) => p,
    };
    match pathops::file_stem(par.as_str()) {
        None => Err(BuildError::HostTripleParse),
        Some(stem) => Ok(stem),
    }
}

} // verus!
