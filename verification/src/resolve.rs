//! Path resolver: picks the installation directory from an ordered list
//! of probed well-known locations, falling back to a command lookup.
//!
//! The caller probes the real filesystem and hands in, for each
//! candidate, whether it exists and is a directory; the choice itself
//! is verified.

use vstd::prelude::*;

verus! {

/// One probed candidate location: its path and whether the probe found
/// an existing directory there.
pub struct ProbeResult {
    pub path: String,
    pub present_dir: bool,
}

/// No probed candidate was an existing directory.
pub open spec fn no_probe_hit(probes: Seq<ProbeResult>) -> bool {
    forall|i: int| 0 <= i < probes.len() ==> !(#[trigger] probes[i]).present_dir
}

/// Candidate `i` is the first probe that found an existing directory.
pub open spec fn first_probe_hit(probes: Seq<ProbeResult>, i: int) -> bool {
    &&& 0 <= i < probes.len()
    &&& probes[i].present_dir
    &&& forall|j: int| 0 <= j < i ==> !(#[trigger] probes[j]).present_dir
}

/// The command-lookup fallback produced an existing directory.
pub open spec fn lookup_hit(lookup: Option<ProbeResult>) -> bool {
    lookup is Some && lookup->0.present_dir
}

/// First matching candidate wins; the command lookup is consulted only
/// when every candidate missed; `None` exactly when both fail.
pub fn resolve_installation(probes: &Vec<ProbeResult>, lookup: &Option<ProbeResult>) -> (r: Option<
    String,
>)
    ensures
        r is None <==> no_probe_hit(probes@) && !lookup_hit(*lookup),
        r is Some && !no_probe_hit(probes@) ==> exists|i: int|
            first_probe_hit(probes@, i) && r->0@ == probes@[i].path@,
        r is Some && no_probe_hit(probes@) ==> lookup_hit(*lookup) && r->0@ == lookup->0.path@,
{
    let mut i: usize = 0;
    while i < probes.len()
        invariant
            i <= probes@.len(),
            forall|j: int| 0 <= j < i ==> !(#[trigger] probes@[j]).present_dir,
        decreases probes@.len() - i,
    {
        if probes[i].present_dir {
            proof {
                assert(first_probe_hit(probes@, i as int));
            }
            return Some(probes[i].path.clone());
        }
        i = i + 1;
    }
    match lookup {
        Some(candidate) => {
            if candidate.present_dir {
                Some(candidate.path.clone())
            } else {
                None
            }
        },
        None => None,
    }
}

} // verus!
