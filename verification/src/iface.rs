//! The closed set of foundational interfaces and the shape of an
//! interface-inheritance chain. An object's dispatch identity is the chain
//! of capability identifiers from its most-derived interface down to the
//! root reference-counting capability-query interface; a derived view and
//! every ancestor view share one address, so a chain position fully
//! describes a view.
use crate::guid::Guid;
use vstd::prelude::*;

verus! {

/// The fixed identifier of the root capability-query interface, the
/// stored form of `00000000-0000-0000-C000-000000000046`.
pub open spec fn spec_iunknown_guid() -> Guid {
    Guid { a: 0, b: 0, c: 0, d: 0xC0, e: 0, f: 0, g: 0, h: 0, i: 0, j: 0, k: 0x46 }
}

/// The fixed identifier of the weak-capable extension interface, the
/// stored form of `9d01e165-12b5-4190-bb46-3d78413de9a5`.
pub open spec fn spec_iweak_guid() -> Guid {
    Guid {
        a: 0x65e1019d,
        b: 0xb512,
        c: 0x9041,
        d: 0xbb,
        e: 0x46,
        f: 0x3d,
        g: 0x78,
        h: 0x41,
        i: 0x3d,
        j: 0xe9,
        k: 0xa5,
    }
}

/// The root capability-query interface identifier as a value.
pub fn iunknown_guid() -> (r: Guid)
    ensures
        r == spec_iunknown_guid(),
{
    Guid { a: 0, b: 0, c: 0, d: 0xC0, e: 0, f: 0, g: 0, h: 0, i: 0, j: 0, k: 0x46 }
}

/// The weak-capable extension interface identifier as a value.
pub fn iweak_guid() -> (r: Guid)
    ensures
        r == spec_iweak_guid(),
{
    Guid {
        a: 0x65e1019d,
        b: 0xb512,
        c: 0x9041,
        d: 0xbb,
        e: 0x46,
        f: 0x3d,
        g: 0x78,
        h: 0x41,
        i: 0x3d,
        j: 0xe9,
        k: 0xa5,
    }
}

/// A well-formed inheritance chain: most-derived interface first, and the
/// last entry is always the root capability-query interface.
pub open spec fn chain_wf(c: Seq<Guid>) -> bool {
    c.len() >= 1 && c[c.len() - 1] == spec_iunknown_guid()
}

/// The chain of a weak-capable object: well formed and offering the
/// weak-capable extension.
pub open spec fn chain_wf_weak(c: Seq<Guid>) -> bool {
    chain_wf(c) && c.contains(spec_iweak_guid())
}

/// The chain of a plain object: well formed and not offering the
/// weak-capable extension.
pub open spec fn chain_wf_plain(c: Seq<Guid>) -> bool {
    chain_wf(c) && !c.contains(spec_iweak_guid())
}

/// Every well-formed chain offers the root interface, so a query for the
/// root capability-query identifier succeeds on every object.
pub proof fn lemma_chain_offers_root(c: Seq<Guid>)
    requires
        chain_wf(c),
    ensures
        c.contains(spec_iunknown_guid()),
{
    assert(c[c.len() - 1] == spec_iunknown_guid());
}

/// The chain with the root interface alone: a plain object that offers
/// nothing beyond reference counting and capability query.
pub fn iunknown_chain() -> (r: Vec<Guid>)
    ensures
        r@ =~= seq![spec_iunknown_guid()],
        chain_wf_plain(r@),
{
    let mut v: Vec<Guid> = Vec::new();
    v.push(iunknown_guid());
    proof {
        assert(v@ =~= seq![spec_iunknown_guid()]);
        assert(!v@.contains(spec_iweak_guid())) by {
            if v@.contains(spec_iweak_guid()) {
                let n = choose|n: int| 0 <= n < v@.len() && v@[n] == spec_iweak_guid();
                assert(v@[n] == spec_iunknown_guid());
            }
        }
    }
    v
}

/// An element-wise copy of a chain, for handing one dispatch identity to
/// several handles.
pub fn clone_chain(c: &Vec<Guid>) -> (r: Vec<Guid>)
    ensures
        r@ == c@,
{
    let mut r: Vec<Guid> = Vec::new();
    let mut idx: usize = 0;
    while idx < c.len()
        invariant
            idx <= c@.len(),
            r@ =~= c@.take(idx as int),
        decreases c@.len() - idx,
    {
        r.push(c[idx]);
        idx = idx + 1;
    }
    proof {
        assert(r@ =~= c@);
    }
    r
}

/// The chain of the weak-capable extension over the root: the dispatch
/// identity of a weak-capable object with no further interfaces.
pub fn iweak_chain() -> (r: Vec<Guid>)
    ensures
        r@ =~= seq![spec_iweak_guid(), spec_iunknown_guid()],
        chain_wf_weak(r@),
{
    let mut v: Vec<Guid> = Vec::new();
    v.push(iweak_guid());
    v.push(iunknown_guid());
    proof {
        assert(v@[0] == spec_iweak_guid());
        assert(v@.contains(spec_iweak_guid()));
    }
    v
}

} // verus!
