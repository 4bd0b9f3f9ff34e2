//! Filesystem probing. Whether a candidate path exists is a fact of the
//! machine at the moment of the call, so nothing can be promised of one
//! probe's answer; the logic that consumes the answers is verified against
//! every possible combination of them in `resolve`.

use vstd::prelude::*;

verus! {

/// Relies on `std::path::Path::is_file`: true when the path names an
/// existing regular file. The answer depends on the filesystem at the time
/// of the call, so no ensures can pin it.
#[verifier::external_body]
fn path_is_file(p: &str) -> bool {
    std::path::Path::new(p).is_file()
}

/// Probes every path in `paths`, answering for each whether it names an
/// existing regular file, in the same order.
pub fn probe_paths(paths: &Vec<String>) -> (r: Vec<bool>)
    ensures
        r@.len() == paths@.len(),
{
    let mut r: Vec<bool> = Vec::new();
    let mut i: usize = 0;
    while i < paths.len()
        invariant
            i <= paths@.len(),
            r@.len() == i,
        decreases paths@.len() - i,
    {
        r.push(path_is_file(paths[i].as_str()));
        i = i + 1;
    }
    r
}

} // verus!
