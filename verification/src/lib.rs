//! A sandboxed code-execution engine: submissions tagged with a language run
//! inside ephemeral, network-disabled containers, and their output comes
//! back as a rendered result.
//!
//! The library holds everything that can be decided without touching the
//! container daemon: the gzip-compressed tar codec that moves files in and
//! out of a container ([`codec`]), the language catalog and its templates
//! ([`language`], [`template`]), the idle-container pool and the orphan
//! sweep ([`pool`]), the output-drain bookkeeping ([`monitor`]), the
//! step-by-step execution pipeline ([`pipeline`]), and the result formatting
//! ([`report`]). The surrounding program performs the daemon calls each
//! [`pipeline::PipelineAction`] asks for and reports back what happened.

use vstd::prelude::*;
use vstd::string::StrSliceExecFns;

pub mod codec;
pub mod container;
pub mod errors;
pub mod language;
pub mod monitor;
pub mod pipeline;
pub mod pool;
pub mod report;
pub mod template;

verus! {

/// The fixed literal prefix carried by every sandbox container's name.
/// The orphan sweep recognises sandbox containers by this prefix alone,
/// so it must stay stable across versions.
pub open spec fn sandbox_prefix() -> Seq<char> {
    "dockerbot-"@
}

/// Whether `s` starts with `prefix`.
pub open spec fn spec_has_prefix(s: Seq<char>, prefix: Seq<char>) -> bool {
    s.len() >= prefix.len() && s.subrange(0, prefix.len() as int) == prefix
}

/// Whether `s` starts with `prefix`, character by character.
pub fn str_has_prefix(s: &str, prefix: &str) -> (r: bool)
    ensures
        r == spec_has_prefix(s@, prefix@),
{
    let n = prefix.unicode_len();
    if s.unicode_len() < n {
        return false;
    }
    for i in 0..n
        invariant
            n == prefix@.len(),
            s@.len() >= n,
            forall|j: int| 0 <= j < i ==> s@[j] == prefix@[j],
    {
        if s.get_char(i) != prefix.get_char(i) {
            proof {
                assert(s@.subrange(0, prefix@.len() as int)[i as int] == s@[i as int]);
            }
            return false;
        }
    }
    proof {
        assert(s@.subrange(0, prefix@.len() as int) =~= prefix@);
    }
    true
}

} // verus!
