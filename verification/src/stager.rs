//! Staging the host toolchain's support files into the sysroot, guarded
//! by a modification-time staleness heuristic.
//!
//! Host tools (linkers, proc-macro support) are not produced by the
//! sysroot compilation; they are copied whole from the host toolchain,
//! and only when the staged copy is not already strictly newer than the
//! source. The heuristic can over-copy, which is harmless; the skip is
//! the observable behavior callers rely on.
use vstd::prelude::*;

use crate::pathops;
use crate::pathops::spec_join;

verus! {

/// Whether the staged copy, with modification time `dest_mtime` (or none
/// when it does not exist), is already strictly newer than a source with
/// modification time `src_mtime`.
pub open spec fn spec_up_to_date(dest_mtime: Option<u64>, src_mtime: u64) -> bool {
    dest_mtime matches Some(d) && d > src_mtime
}

/// Decides whether staging may be skipped: only when the staged copy
/// exists and is strictly newer than the source. Times are in
/// nanoseconds of the system clock's epoch.
pub fn staging_up_to_date(dest_mtime: Option<u64>, src_mtime: u64) -> (r: bool)
    ensures
        r == spec_up_to_date(dest_mtime, src_mtime),
{
    match dest_mtime {
        Some(d) => d > src_mtime,
        None => false,
    }
}

/// Where the host tools for `host` are staged under `output`.
pub open spec fn spec_host_tools_dest(output: Seq<char>, host: Seq<char>) -> Seq<char> {
    spec_join(spec_join(spec_join(output, "lib"@), "rustlib"@), host)
}

/// The staged host-tool directory for the host triple `host` under the
/// sysroot at `output`.
pub fn host_tools_dest(output: &str, host: &str) -> (r: String)
    ensures
        r@ == spec_host_tools_dest(output@, host@),
{
    let p1 = pathops::join(output, "lib");
    let p2 = pathops::join(p1.as_str(), "rustlib");
    pathops::join(p2.as_str(), host)
}

/// The directory a host-tool copy lands in: the staged directory's
/// parent, as the copy brings the source directory in whole.
pub fn host_tools_dest_parent(output: &str) -> (r: String)
    ensures
        r@ == spec_join(spec_join(output@, "lib"@), "rustlib"@),
{
    let p1 = pathops::join(output, "lib");
    pathops::join(p1.as_str(), "rustlib")
}

} // verus!
