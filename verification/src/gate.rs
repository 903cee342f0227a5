//! Privilege gate: decides whether a resolved installation path lives
//! under a system-owned root and therefore needs elevated rights.

use vstd::prelude::*;

verus! {

/// `p` is a leading run of characters of `s`.
pub open spec fn char_prefix(s: Seq<char>, p: Seq<char>) -> bool {
    p.len() <= s.len() && s.subrange(0, p.len() as int) == p
}

/// `s` names `p` itself or a path strictly below the directory `p`:
/// the characters of `p` followed by nothing or by a path separator.
pub open spec fn under_dir(s: Seq<char>, p: Seq<char>) -> bool {
    char_prefix(s, p) && (s.len() == p.len() || s[p.len() as int] == '/')
}

/// The system-owned roots: an installation under either of these may
/// only be touched by a process with elevated rights.
pub open spec fn opt_root() -> Seq<char> {
    seq!['/', 'o', 'p', 't']
}

pub open spec fn usr_root() -> Seq<char> {
    seq!['/', 'u', 's', 'r']
}

/// A path requires elevated rights iff it falls under a system-owned root.
pub open spec fn elevation_required(path: Seq<char>) -> bool {
    under_dir(path, opt_root()) || under_dir(path, usr_root())
}

/// Whether `s` starts with the characters of `p`.
pub fn has_char_prefix(s: &str, p: &str) -> (r: bool)
    ensures
        r == char_prefix(s@, p@),
{
    let sn = s.unicode_len();
    let pn = p.unicode_len();
    if sn < pn {
        return false;
    }
    let mut i: usize = 0;
    while i < pn
        invariant
            i <= pn,
            pn == p@.len(),
            sn == s@.len(),
            pn <= sn,
            forall|j: int| 0 <= j < i ==> s@[j] == p@[j],
        decreases pn - i,
    {
        let sc = s.get_char(i);
        let pc = p.get_char(i);
        if sc != pc {
            proof {
                assert(!char_prefix(s@, p@)) by {
                    if char_prefix(s@, p@) {
                        assert(s@.subrange(0, p@.len() as int)[i as int] == s@[i as int]);
                    }
                }
            }
            return false;
        }
        i = i + 1;
    }
    proof {
        assert(s@.subrange(0, p@.len() as int) =~= p@);
    }
    true
}

/// Whether `s` is `p` or lies strictly below the directory `p`.
fn is_under_dir(s: &str, p: &str) -> (r: bool)
    ensures
        r == under_dir(s@, p@),
{
    if !has_char_prefix(s, p) {
        return false;
    }
    let sn = s.unicode_len();
    let pn = p.unicode_len();
    if sn == pn {
        true
    } else {
        let c = s.get_char(pn);
        c == '/'
    }
}

/// Whether the path needs elevated rights: true iff it falls under one
/// of the fixed system-owned roots.
pub fn requires_root(path: &str) -> (r: bool)
    ensures
        r == elevation_required(path@),
{
    proof {
        reveal_strlit("/opt");
        reveal_strlit("/usr");
        assert("/opt"@ =~= opt_root());
        assert("/usr"@ =~= usr_root());
    }
    let under_opt = is_under_dir(path, "/opt");
    let under_usr = is_under_dir(path, "/usr");
    under_opt || under_usr
}

/// The run has to stop before any mutating step, because the path
/// needs rights that the process does not have.
pub open spec fn gate_blocks(path: Seq<char>, process_elevated: bool) -> bool {
    elevation_required(path) && !process_elevated
}

/// Whether the run must be aborted before any mutating step.
pub fn must_abort(path: &str, process_elevated: bool) -> (r: bool)
    ensures
        r == gate_blocks(path@, process_elevated),
{
    requires_root(path) && !process_elevated
}

} // verus!
