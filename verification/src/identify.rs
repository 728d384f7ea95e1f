//! Identified contracts: cross-references the contract creations observed
//! in traces against the project-wide artifact table, yielding an
//! address-to-name map used to label counterexamples.

use vstd::prelude::*;
use vstd::string::*;

use crate::types::{CreatedContract, KnownContract, Trace, TraceKind};

verus! {

/// The contract creations observed in the first `n` tagged traces.
pub open spec fn creations_upto(traces: Seq<(TraceKind, Trace)>, n: int) -> Seq<CreatedContract>
    decreases n,
{
    if n <= 0 || n > traces.len() {
        Seq::empty()
    } else {
        creations_upto(traces, n - 1) + traces[n - 1].1.created@
    }
}

/// All contract creations observed in the tagged traces.
pub open spec fn creations_of(traces: Seq<(TraceKind, Trace)>) -> Seq<CreatedContract> {
    creations_upto(traces, traces.len() as int)
}

/// The position of the first artifact whose code identity matches, or the
/// table's length when none does, scanning from `i`.
pub open spec fn first_known(known: Seq<KnownContract>, code_id: u64, i: int) -> int
    decreases known.len() - i,
{
    if i < 0 || i >= known.len() {
        known.len() as int
    } else if known[i].code_id == code_id {
        i
    } else {
        first_known(known, code_id, i + 1)
    }
}

pub proof fn lemma_first_known_advance(known: Seq<KnownContract>, code_id: u64, k: int, i: int)
    requires
        0 <= k <= i <= known.len(),
        forall|j: int| k <= j < i ==> known[j].code_id != code_id,
    ensures
        first_known(known, code_id, k) == first_known(known, code_id, i),
    decreases i - k,
{
    if k < i {
        lemma_first_known_advance(known, code_id, k + 1, i);
    }
}

/// The address-to-name identifications a creation list yields: each
/// created contract whose code matches an artifact is identified by that
/// artifact's name, the first matching artifact winning.
pub open spec fn identify(known: Seq<KnownContract>, cs: Seq<CreatedContract>) -> Seq<
    (u64, String),
>
    decreases cs.len(),
{
    if cs.len() == 0 {
        Seq::empty()
    } else {
        let rest = identify(known, cs.drop_last());
        let c = cs.last();
        let k = first_known(known, c.code_id, 0);
        if k < known.len() {
            rest.push((c.address, known[k].name))
        } else {
            rest
        }
    }
}

/// The name identified for an address, the latest identification winning.
pub open spec fn ided_lookup(m: Seq<(u64, String)>, addr: u64) -> Option<String>
    decreases m.len(),
{
    if m.len() == 0 {
        None
    } else if m.last().0 == addr {
        Some(m.last().1)
    } else {
        ided_lookup(m.drop_last(), addr)
    }
}

/// Finds the first artifact with this code identity.
#[verifier::loop_isolation(false)]
fn find_known(known: &Vec<KnownContract>, code_id: u64) -> (r: Option<usize>)
    ensures
        match r {
            Some(k) => k == first_known(known@, code_id, 0) && k < known@.len(),
            None => first_known(known@, code_id, 0) == known@.len(),
        },
{
    let n: usize = known.len();
    let mut k: usize = 0;
    while k < n
        invariant
            k <= n,
            forall|j: int| 0 <= j < k ==> known@[j].code_id != code_id,
        decreases n - k,
    {
        if known[k].code_id == code_id {
            proof {
                lemma_first_known_advance(known@, code_id, 0, k as int);
            }
            return Some(k);
        }
        k += 1;
    }
    proof {
        lemma_first_known_advance(known@, code_id, 0, n as int);
    }
    None
}

/// Derives the identified contracts of a trace list: every observed
/// creation whose code matches a known artifact, labeled with the
/// artifact's name.
#[verifier::loop_isolation(false)]
pub fn load_contracts(traces: &Vec<(TraceKind, Trace)>, known: &Vec<KnownContract>) -> (r: Vec<
    (u64, String),
>)
    ensures
        r@ == identify(known@, creations_of(traces@)),
{
    let n_traces: usize = traces.len();
    let mut created: Vec<CreatedContract> = Vec::new();
    let mut i: usize = 0;
    while i < n_traces
        invariant
            i <= n_traces,
            created@ == creations_upto(traces@, i as int),
        decreases n_traces - i,
    {
        let list = &traces[i].1.created;
        let m: usize = list.len();
        let mut j: usize = 0;
        while j < m
            invariant
                j <= m,
                created@ == creations_upto(traces@, i as int) + traces@[i as int].1.created@
                    .subrange(0, j as int),
            decreases m - j,
        {
            created.push(list[j]);
            proof {
                assert(created@ =~= creations_upto(traces@, i as int) + traces@[
                    i as int
                ].1.created@.subrange(0, j as int + 1));
            }
            j += 1;
        }
        proof {
            assert(traces@[i as int].1.created@.subrange(
                0,
                traces@[i as int].1.created@.len() as int,
            ) =~= traces@[i as int].1.created@);
            assert(created@ =~= creations_upto(traces@, i as int + 1));
        }
        i += 1;
    }

    identify_creations(known, &created)
}

/// Identifies each created contract whose code matches a known artifact.
#[verifier::loop_isolation(false)]
pub fn identify_creations(known: &Vec<KnownContract>, created: &Vec<CreatedContract>) -> (r: Vec<
    (u64, String),
>)
    ensures
        r@ == identify(known@, created@),
{
    let n_created: usize = created.len();
    let mut out: Vec<(u64, String)> = Vec::new();
    let mut c: usize = 0;
    while c < n_created
        invariant
            c <= n_created,
            out@ == identify(known@, created@.subrange(0, c as int)),
        decreases n_created - c,
    {
        match find_known(known, created[c].code_id) {
            Some(k) => {
                out.push((created[c].address, known[k].name.clone()));
            },
            None => {},
        }
        proof {
            assert(created@.subrange(0, c as int + 1).drop_last() =~= created@.subrange(
                0,
                c as int,
            ));
            assert(created@.subrange(0, c as int + 1).last() == created@[c as int]);
        }
        c += 1;
    }
    proof {
        assert(created@.subrange(0, created@.len() as int) =~= created@);
    }
    out
}

/// Looks up the name identified for an address, the latest identification
/// winning.
#[verifier::loop_isolation(false)]
pub fn lookup_identified(m: &Vec<(u64, String)>, addr: u64) -> (r: Option<String>)
    ensures
        r == ided_lookup(m@, addr),
{
    let mut i: usize = m.len();
    proof {
        assert(m@.subrange(0, m@.len() as int) =~= m@);
    }
    while i > 0
        invariant
            i <= m@.len(),
            ided_lookup(m@, addr) == ided_lookup(m@.subrange(0, i as int), addr),
        decreases i,
    {
        i -= 1;
        if m[i].0 == addr {
            proof {
                assert(m@.subrange(0, i as int + 1).last() == m@[i as int]);
            }
            return Some(m[i].1.clone());
        }
        proof {
            assert(m@.subrange(0, i as int + 1).drop_last() =~= m@.subrange(0, i as int));
            assert(m@.subrange(0, i as int + 1).last() == m@[i as int]);
        }
    }
    proof {
        assert(ided_lookup(m@.subrange(0, 0), addr) is None);
    }
    None
}

} // verus!
