//! Allocation envelopes: the block that binds a concrete value to its
//! dispatch identity, its allocator handle and its reference counters.
//!
//! `Object` carries a strong counter alone; `WeakObject` adds a weak
//! counter and the strong-to-weak conversion protocol. The payload is
//! constructed exactly while the strong count is positive; once the last
//! strong ticket is released the payload is destroyed, and a weak-capable
//! block survives until its weak count also reaches zero. The weak-capable
//! counter operations are each specified as one step of the
//! `refcount` transition system, whose lemmas state what holds over every
//! sequence of such steps.
use crate::com_ptr::{ComPtr, ComWeak};
use crate::guid::Guid;
use crate::hresult::{HResult, HResultE, spec_code};
use crate::iface::{chain_wf, chain_wf_plain, chain_wf_weak, clone_chain};
use crate::refcount::{RcEvent, RcState, rc_step, rc_upgrade_succeeds};
use vstd::prelude::*;

verus! {

/// Whether `part` is a tail of `whole`: the view an ancestor interface
/// pointer has of a derived object's chain.
pub open spec fn is_chain_suffix(part: Seq<Guid>, whole: Seq<Guid>) -> bool {
    exists|k: int| 0 <= k <= whole.len() && part == whole.skip(k)
}

/// The distance in bytes from a plain envelope to its payload: one
/// dispatch pointer and one strong counter.
pub const OBJECT_VALUE_OFFSET: usize = 12;

/// The distance in bytes from a weak-capable envelope to its payload: one
/// dispatch pointer and two counters.
pub const WEAK_OBJECT_VALUE_OFFSET: usize = 16;

/// A plain envelope: dispatch identity, allocator handle, strong counter
/// and payload, modeled at address `addr`.
pub struct Object<T, A> {
    pub chain: Vec<Guid>,
    pub allocator: A,
    pub strong: u32,
    pub val: Option<T>,
    pub addr: usize,
}

impl<T, A> Object<T, A> {
    /// The envelope invariant: a plain dispatch identity, and the payload
    /// constructed exactly while strong tickets live.
    pub open spec fn wf(&self) -> bool {
        &&& chain_wf_plain(self.chain@)
        &&& (self.val is Some <==> self.strong > 0)
    }

    /// Whether the two states are the same envelope: identity, dispatch
    /// chain and allocator never change over its life.
    pub open spec fn same_cell(&self, other: &Self) -> bool {
        self.chain@ == other.chain@ && self.addr == other.addr && self.allocator
            == other.allocator
    }

    /// Whether the owning handle points into this envelope, viewing some
    /// ancestor of its dispatch identity.
    pub open spec fn owns_ptr(&self, p: &ComPtr) -> bool {
        p.ptr == self.addr && is_chain_suffix(p.chain@, self.chain@)
    }

    /// Creates the envelope with one strong ticket and hands that ticket
    /// out as an owning handle over the most-derived view.
    pub fn new_with(val: T, allocator: A, chain: Vec<Guid>, addr: usize) -> (r: (Object<T, A>, ComPtr))
        requires
            chain_wf_plain(chain@),
        ensures
            r.0.wf(),
            r.0.strong == 1,
            r.0.val == Some(val),
            r.0.chain@ == chain@,
            r.0.addr == addr,
            r.0.allocator == allocator,
            r.1.ptr == addr,
            r.1.chain@ == chain@,
            r.0.owns_ptr(&r.1),
    {
        let handle_chain = clone_chain(&chain);
        let env = Object { chain, allocator, strong: 1, val: Some(val), addr };
        let p = ComPtr::new(addr, handle_chain);
        proof {
            assert(p.chain@ == env.chain@.skip(0));
        }
        (env, p)
    }

    /// Takes one more strong ticket; the caller must already hold one.
    /// Returns the count before the increment.
    pub fn AddRef(&mut self) -> (r: u32)
        requires
            old(self).wf(),
            old(self).strong >= 1,
            old(self).strong < u32::MAX,
        ensures
            final(self).wf(),
            final(self).same_cell(old(self)),
            r == old(self).strong,
            final(self).strong == old(self).strong + 1,
            final(self).val == old(self).val,
    {
        let r = self.strong;
        self.strong = r + 1;
        r
    }

    /// Gives back one strong ticket. If it was the last, the payload is
    /// destroyed and the block is freed. Returns the count before the
    /// decrement: the teardown ran exactly when 1 comes back.
    pub fn Release(&mut self) -> (r: u32)
        requires
            old(self).wf(),
            old(self).strong >= 1,
        ensures
            final(self).wf(),
            final(self).same_cell(old(self)),
            r == old(self).strong,
            final(self).strong == old(self).strong - 1,
            old(self).strong == 1 ==> final(self).val is None,
            old(self).strong > 1 ==> final(self).val == old(self).val,
    {
        let r = self.strong;
        self.strong = r - 1;
        if r == 1 {
            self.val = None;
        }
        r
    }

    /// The strong count right now.
    pub fn GetStrongCount(&self) -> (r: u32)
        ensures
            r == self.strong,
    {
        self.strong
    }

    /// The payload; callable only while a strong ticket keeps it alive.
    pub fn GetObject(&self) -> (r: &T)
        requires
            self.wf(),
            self.strong >= 1,
        ensures
            self.val == Some(*r),
    {
        match &self.val {
            Some(v) => v,
            None => vstd::pervasive::unreached(),
        }
    }

    /// The address of the payload inside the envelope: the fixed header
    /// offset past the envelope address.
    pub fn value_ptr(&self) -> (r: usize)
        requires
            self.addr + OBJECT_VALUE_OFFSET <= usize::MAX,
        ensures
            r == self.addr + OBJECT_VALUE_OFFSET,
    {
        self.addr + OBJECT_VALUE_OFFSET
    }

    /// Recovers the envelope address from the payload address: the
    /// inverse of `value_ptr`, by the same fixed offset.
    pub fn FromValue(value: usize) -> (r: usize)
        requires
            value >= OBJECT_VALUE_OFFSET,
        ensures
            r == value - OBJECT_VALUE_OFFSET,
    {
        value - OBJECT_VALUE_OFFSET
    }

    /// The capability query: walks the dispatch chain from the most
    /// derived interface to the root, comparing identifiers. On the first
    /// match it takes one strong ticket for the caller, writes the
    /// unreinterpreted pointer into the output slot and reports success;
    /// with no match it reports `NoInterface` and leaves the slot
    /// untouched.
    pub fn QueryInterface(&mut self, this_ptr: usize, guid: &Guid, out: &mut Option<usize>) -> (r:
        HResult)
        requires
            old(self).wf(),
            old(self).strong >= 1,
            old(self).strong < u32::MAX,
        ensures
            final(self).wf(),
            final(self).same_cell(old(self)),
            final(self).val == old(self).val,
            old(self).chain@.contains(*guid) ==> r.value == 0 && final(self).strong == old(
                self,
            ).strong + 1 && *final(out) == Some(this_ptr),
            !old(self).chain@.contains(*guid) ==> r.value == spec_code(HResultE::NoInterface)
                as i32 && final(self).strong == old(self).strong && *final(out) == *old(out),
    {
        let n = self.chain.len();
        let mut idx: usize = 0;
        while idx < n
            invariant
                n == self.chain@.len(),
                idx <= n,
                *self == *old(self),
                *out == *old(out),
                old(self).wf(),
                old(self).strong >= 1,
                old(self).strong < u32::MAX,
                forall|m: int| 0 <= m < idx ==> self.chain@[m] != *guid,
            decreases n - idx,
        {
            if self.chain[idx] == *guid {
                proof {
                    assert(old(self).chain@[idx as int] == *guid);
                }
                self.strong = self.strong + 1;
                *out = Some(this_ptr);
                return HResult::ok();
            }
            idx = idx + 1;
        }
        proof {
            if old(self).chain@.contains(*guid) {
                let w = choose|m: int|
                    0 <= m < old(self).chain@.len() && old(self).chain@[m] == *guid;
                assert(false);
            }
        }
        HResult::no_interface()
    }

    /// Clones an owning handle: takes one more strong ticket and yields
    /// an independent owner of the same view.
    pub fn clone_ptr(&mut self, p: &ComPtr) -> (r: ComPtr)
        requires
            old(self).wf(),
            old(self).owns_ptr(p),
            old(self).strong >= 1,
            old(self).strong < u32::MAX,
        ensures
            final(self).wf(),
            final(self).same_cell(old(self)),
            final(self).strong == old(self).strong + 1,
            final(self).val == old(self).val,
            r.ptr == p.ptr,
            r.chain@ == p.chain@,
            final(self).owns_ptr(&r),
    {
        self.AddRef();
        let c = clone_chain(&p.chain);
        ComPtr::new(p.ptr, c)
    }

    /// Drops an owning handle: gives its strong ticket back, tearing the
    /// envelope down if it was the last.
    pub fn release_ptr(&mut self, p: ComPtr) -> (r: u32)
        requires
            old(self).wf(),
            old(self).owns_ptr(&p),
            old(self).strong >= 1,
        ensures
            final(self).wf(),
            final(self).same_cell(old(self)),
            r == old(self).strong,
            final(self).strong == old(self).strong - 1,
            old(self).strong == 1 ==> final(self).val is None,
            old(self).strong > 1 ==> final(self).val == old(self).val,
    {
        self.Release()
    }
}

impl<T> Object<T, ()> {
    /// Creates the envelope with the process-wide default allocator
    /// handle.
    pub fn new(val: T, chain: Vec<Guid>, addr: usize) -> (r: (Object<T, ()>, ComPtr))
        requires
            chain_wf_plain(chain@),
        ensures
            r.0.wf(),
            r.0.strong == 1,
            r.0.val == Some(val),
            r.0.chain@ == chain@,
            r.0.addr == addr,
            r.1.ptr == addr,
            r.1.chain@ == chain@,
            r.0.owns_ptr(&r.1),
    {
        Self::new_with(val, (), chain, addr)
    }
}

/// A weak-capable envelope: a plain envelope plus a weak counter. A
/// strong ticket implicitly holds one weak ticket, so the block outlives
/// the payload until every weak ticket is gone.
pub struct WeakObject<T, A> {
    pub chain: Vec<Guid>,
    pub allocator: A,
    pub strong: u32,
    pub weak: u32,
    pub val: Option<T>,
    pub addr: usize,
}

impl<T, A> WeakObject<T, A> {
    /// The counter state this envelope is in, as the transition system
    /// sees it.
    pub open spec fn rc(&self) -> RcState {
        RcState { strong: self.strong as nat, weak: self.weak as nat, live: self.val is Some }
    }

    /// The envelope invariant: a weak-capable dispatch identity, the
    /// payload constructed exactly while strong tickets live, and the
    /// weak ticket the strong side holds.
    pub open spec fn wf(&self) -> bool {
        &&& chain_wf_weak(self.chain@)
        &&& (self.val is Some <==> self.strong > 0)
        &&& (self.strong > 0 ==> self.weak > 0)
    }

    /// Whether the two states are the same envelope.
    pub open spec fn same_cell(&self, other: &Self) -> bool {
        self.chain@ == other.chain@ && self.addr == other.addr && self.allocator
            == other.allocator
    }

    /// Whether the owning handle points into this envelope.
    pub open spec fn owns_ptr(&self, p: &ComPtr) -> bool {
        p.ptr == self.addr && is_chain_suffix(p.chain@, self.chain@)
    }

    /// Whether the weak handle points into this envelope.
    pub open spec fn owns_weak(&self, w: &ComWeak) -> bool {
        w.ptr == self.addr && is_chain_suffix(w.chain@, self.chain@)
    }

    /// Creates the envelope with one strong ticket and one weak ticket —
    /// the weak ticket the strong side holds — and hands the strong
    /// ticket out as an owning handle over the most-derived view.
    pub fn new_with(val: T, allocator: A, chain: Vec<Guid>, addr: usize) -> (r: (
        WeakObject<T, A>,
        ComPtr,
    ))
        requires
            chain_wf_weak(chain@),
        ensures
            r.0.wf(),
            r.0.strong == 1,
            r.0.weak == 1,
            r.0.rc() == crate::refcount::rc_init(),
            r.0.val == Some(val),
            r.0.chain@ == chain@,
            r.0.addr == addr,
            r.0.allocator == allocator,
            r.1.ptr == addr,
            r.1.chain@ == chain@,
            r.0.owns_ptr(&r.1),
    {
        let handle_chain = clone_chain(&chain);
        let env = WeakObject { chain, allocator, strong: 1, weak: 1, val: Some(val), addr };
        let p = ComPtr::new(addr, handle_chain);
        proof {
            assert(p.chain@ == env.chain@.skip(0));
        }
        (env, p)
    }

    /// Takes one more strong ticket; the caller must already hold one.
    /// Returns the count before the increment.
    pub fn AddRef(&mut self) -> (r: u32)
        requires
            old(self).wf(),
            old(self).strong >= 1,
            old(self).strong < u32::MAX,
        ensures
            final(self).wf(),
            final(self).same_cell(old(self)),
            r == old(self).strong,
            final(self).rc() == rc_step(old(self).rc(), RcEvent::AddRef),
            final(self).strong == old(self).strong + 1,
            final(self).weak == old(self).weak,
            final(self).val == old(self).val,
    {
        let r = self.strong;
        self.strong = r + 1;
        r
    }

    /// Gives back one strong ticket. If it was the last, the payload is
    /// destroyed and the weak ticket the strong side held is given back
    /// too; the block itself is freed only when the weak count reaches
    /// zero. Returns the count before the decrement.
    pub fn Release(&mut self) -> (r: u32)
        requires
            old(self).wf(),
            old(self).strong >= 1,
        ensures
            final(self).wf(),
            final(self).same_cell(old(self)),
            r == old(self).strong,
            final(self).rc() == rc_step(old(self).rc(), RcEvent::Release),
            final(self).strong == old(self).strong - 1,
            old(self).strong == 1 ==> final(self).val is None && final(self).weak == old(
                self,
            ).weak - 1,
            old(self).strong > 1 ==> final(self).val == old(self).val && final(self).weak == old(
                self,
            ).weak,
    {
        let r = self.strong;
        self.strong = r - 1;
        if r == 1 {
            self.val = None;
            self.weak = self.weak - 1;
        }
        r
    }

    /// Takes one more weak ticket; the caller must hold some ticket on
    /// the block. Returns the count before the increment.
    pub fn AddRefWeak(&mut self) -> (r: u32)
        requires
            old(self).wf(),
            old(self).weak >= 1,
            old(self).weak < u32::MAX,
        ensures
            final(self).wf(),
            final(self).same_cell(old(self)),
            r == old(self).weak,
            final(self).rc() == rc_step(old(self).rc(), RcEvent::AddRefWeak),
            final(self).weak == old(self).weak + 1,
            final(self).strong == old(self).strong,
            final(self).val == old(self).val,
    {
        let r = self.weak;
        self.weak = r + 1;
        r
    }

    /// Gives back one weak ticket; the ticket spent must be the caller's
    /// own, never the one the strong side holds. When the count reaches
    /// zero the block is deallocated. Returns the count before the
    /// decrement.
    pub fn ReleaseWeak(&mut self) -> (r: u32)
        requires
            old(self).wf(),
            old(self).weak >= 1,
            old(self).strong >= 1 ==> old(self).weak >= 2,
        ensures
            final(self).wf(),
            final(self).same_cell(old(self)),
            r == old(self).weak,
            final(self).rc() == rc_step(old(self).rc(), RcEvent::ReleaseWeak),
            final(self).weak == old(self).weak - 1,
            final(self).strong == old(self).strong,
            final(self).val == old(self).val,
    {
        let r = self.weak;
        self.weak = r - 1;
        r
    }

    /// Tries to mint a new strong ticket from a weak one: succeeds with
    /// an increment exactly while strong tickets live, and can never
    /// resurrect a payload whose strong count has reached zero.
    pub fn TryUpgrade(&mut self) -> (r: bool)
        requires
            old(self).wf(),
            old(self).weak >= 1,
            old(self).strong < u32::MAX,
        ensures
            final(self).wf(),
            final(self).same_cell(old(self)),
            r == rc_upgrade_succeeds(old(self).rc()),
            final(self).rc() == rc_step(old(self).rc(), RcEvent::TryUpgrade),
            r ==> final(self).strong == old(self).strong + 1,
            !r ==> *final(self) == *old(self),
            final(self).weak == old(self).weak,
            final(self).val == old(self).val,
    {
        if self.strong > 0 {
            self.strong = self.strong + 1;
            true
        } else {
            false
        }
    }

    /// Takes a weak ticket while holding a strong one. The strong ticket
    /// proves the envelope is not mid-teardown, so a plain increment
    /// suffices and the conversion always succeeds.
    pub fn TryDowngrade(&mut self) -> (r: bool)
        requires
            old(self).wf(),
            old(self).strong >= 1,
            old(self).weak < u32::MAX,
        ensures
            final(self).wf(),
            final(self).same_cell(old(self)),
            r == true,
            final(self).rc() == rc_step(old(self).rc(), RcEvent::TryDowngrade),
            final(self).weak == old(self).weak + 1,
            final(self).strong == old(self).strong,
            final(self).val == old(self).val,
    {
        self.weak = self.weak + 1;
        true
    }

    /// The strong count right now.
    pub fn GetStrongCount(&self) -> (r: u32)
        ensures
            r == self.strong,
    {
        self.strong
    }

    /// The weak count right now.
    pub fn GetWeakCount(&self) -> (r: u32)
        ensures
            r == self.weak,
    {
        self.weak
    }

    /// The payload; callable only while a strong ticket keeps it alive.
    pub fn GetObject(&self) -> (r: &T)
        requires
            self.wf(),
            self.strong >= 1,
        ensures
            self.val == Some(*r),
    {
        match &self.val {
            Some(v) => v,
            None => vstd::pervasive::unreached(),
        }
    }

    /// The address of the payload inside the envelope.
    pub fn value_ptr(&self) -> (r: usize)
        requires
            self.addr + WEAK_OBJECT_VALUE_OFFSET <= usize::MAX,
        ensures
            r == self.addr + WEAK_OBJECT_VALUE_OFFSET,
    {
        self.addr + WEAK_OBJECT_VALUE_OFFSET
    }

    /// Recovers the envelope address from the payload address.
    pub fn FromValue(value: usize) -> (r: usize)
        requires
            value >= WEAK_OBJECT_VALUE_OFFSET,
        ensures
            r == value - WEAK_OBJECT_VALUE_OFFSET,
    {
        value - WEAK_OBJECT_VALUE_OFFSET
    }

    /// The capability query, as on a plain envelope: first matching hop
    /// takes exactly one strong ticket; no match reports `NoInterface`
    /// with the output slot untouched.
    pub fn QueryInterface(&mut self, this_ptr: usize, guid: &Guid, out: &mut Option<usize>) -> (r:
        HResult)
        requires
            old(self).wf(),
            old(self).strong >= 1,
            old(self).strong < u32::MAX,
        ensures
            final(self).wf(),
            final(self).same_cell(old(self)),
            final(self).val == old(self).val,
            final(self).weak == old(self).weak,
            old(self).chain@.contains(*guid) ==> r.value == 0 && final(self).strong == old(
                self,
            ).strong + 1 && *final(out) == Some(this_ptr) && final(self).rc() == rc_step(
                old(self).rc(),
                RcEvent::AddRef,
            ),
            !old(self).chain@.contains(*guid) ==> r.value == spec_code(HResultE::NoInterface)
                as i32 && final(self).strong == old(self).strong && *final(out) == *old(out),
    {
        let n = self.chain.len();
        let mut idx: usize = 0;
        while idx < n
            invariant
                n == self.chain@.len(),
                idx <= n,
                *self == *old(self),
                *out == *old(out),
                old(self).wf(),
                old(self).strong >= 1,
                old(self).strong < u32::MAX,
                forall|m: int| 0 <= m < idx ==> self.chain@[m] != *guid,
            decreases n - idx,
        {
            if self.chain[idx] == *guid {
                proof {
                    assert(old(self).chain@[idx as int] == *guid);
                }
                self.strong = self.strong + 1;
                *out = Some(this_ptr);
                return HResult::ok();
            }
            idx = idx + 1;
        }
        proof {
            if old(self).chain@.contains(*guid) {
                let w = choose|m: int|
                    0 <= m < old(self).chain@.len() && old(self).chain@[m] == *guid;
                assert(false);
            }
        }
        HResult::no_interface()
    }

    /// Clones an owning handle: one more strong ticket, same view.
    pub fn clone_ptr(&mut self, p: &ComPtr) -> (r: ComPtr)
        requires
            old(self).wf(),
            old(self).owns_ptr(p),
            old(self).strong >= 1,
            old(self).strong < u32::MAX,
        ensures
            final(self).wf(),
            final(self).same_cell(old(self)),
            final(self).rc() == rc_step(old(self).rc(), RcEvent::AddRef),
            final(self).strong == old(self).strong + 1,
            final(self).weak == old(self).weak,
            final(self).val == old(self).val,
            r.ptr == p.ptr,
            r.chain@ == p.chain@,
            final(self).owns_ptr(&r),
    {
        self.AddRef();
        let c = clone_chain(&p.chain);
        ComPtr::new(p.ptr, c)
    }

    /// Drops an owning handle, giving its strong ticket back.
    pub fn release_ptr(&mut self, p: ComPtr) -> (r: u32)
        requires
            old(self).wf(),
            old(self).owns_ptr(&p),
            old(self).strong >= 1,
        ensures
            final(self).wf(),
            final(self).same_cell(old(self)),
            r == old(self).strong,
            final(self).rc() == rc_step(old(self).rc(), RcEvent::Release),
            final(self).strong == old(self).strong - 1,
            old(self).strong == 1 ==> final(self).val is None && final(self).weak == old(
                self,
            ).weak - 1,
            old(self).strong > 1 ==> final(self).val == old(self).val && final(self).weak == old(
                self,
            ).weak,
    {
        self.Release()
    }

    /// Turns an owning handle into a weak handle as well: takes one weak
    /// ticket and yields a weak handle over the same view. The owning
    /// handle stays untouched.
    pub fn downgrade(&mut self, p: &ComPtr) -> (r: ComWeak)
        requires
            old(self).wf(),
            old(self).owns_ptr(p),
            old(self).strong >= 1,
            old(self).weak < u32::MAX,
        ensures
            final(self).wf(),
            final(self).same_cell(old(self)),
            final(self).rc() == rc_step(old(self).rc(), RcEvent::AddRefWeak),
            final(self).weak == old(self).weak + 1,
            final(self).strong == old(self).strong,
            final(self).val == old(self).val,
            r.ptr == p.ptr,
            r.chain@ == p.chain@,
            final(self).owns_weak(&r),
    {
        proof {
            assert(old(self).weak >= 1);
        }
        self.AddRefWeak();
        let c = clone_chain(&p.chain);
        ComWeak::new(p.ptr, c)
    }

    /// Clones a weak handle: one more weak ticket, same view.
    pub fn clone_weak(&mut self, w: &ComWeak) -> (r: ComWeak)
        requires
            old(self).wf(),
            old(self).owns_weak(w),
            old(self).weak >= 1,
            old(self).weak < u32::MAX,
        ensures
            final(self).wf(),
            final(self).same_cell(old(self)),
            final(self).rc() == rc_step(old(self).rc(), RcEvent::AddRefWeak),
            final(self).weak == old(self).weak + 1,
            final(self).strong == old(self).strong,
            final(self).val == old(self).val,
            r.ptr == w.ptr,
            r.chain@ == w.chain@,
            final(self).owns_weak(&r),
    {
        self.AddRefWeak();
        let c = clone_chain(&w.chain);
        ComWeak::new(w.ptr, c)
    }

    /// Drops a weak handle, giving its weak ticket back; the last weak
    /// ticket frees the block.
    pub fn release_weak_ptr(&mut self, w: ComWeak) -> (r: u32)
        requires
            old(self).wf(),
            old(self).owns_weak(&w),
            old(self).weak >= 1,
            old(self).strong >= 1 ==> old(self).weak >= 2,
        ensures
            final(self).wf(),
            final(self).same_cell(old(self)),
            r == old(self).weak,
            final(self).rc() == rc_step(old(self).rc(), RcEvent::ReleaseWeak),
            final(self).weak == old(self).weak - 1,
            final(self).strong == old(self).strong,
            final(self).val == old(self).val,
    {
        self.ReleaseWeak()
    }

    /// Tries to obtain an owning handle from a weak handle. On success a
    /// freshly minted strong ticket backs the new handle; on failure the
    /// weak ticket is retained, not consumed, and the envelope is
    /// unchanged.
    pub fn upgrade(&mut self, w: &ComWeak) -> (r: Option<ComPtr>)
        requires
            old(self).wf(),
            old(self).owns_weak(w),
            old(self).weak >= 1,
            old(self).strong < u32::MAX,
        ensures
            final(self).wf(),
            final(self).same_cell(old(self)),
            final(self).rc() == rc_step(old(self).rc(), RcEvent::TryUpgrade),
            final(self).weak == old(self).weak,
            final(self).val == old(self).val,
            r is Some <==> rc_upgrade_succeeds(old(self).rc()),
            r is Some ==> final(self).strong == old(self).strong + 1,
            r is None ==> *final(self) == *old(self),
            r matches Some(p) ==> p.ptr == w.ptr && p.chain@ == w.chain@ && final(self).owns_ptr(
                &p,
            ),
    {
        if self.TryUpgrade() {
            let c = clone_chain(&w.chain);
            Some(ComPtr::new(w.ptr, c))
        } else {
            None
        }
    }
}

impl<T> WeakObject<T, ()> {
    /// Creates the envelope with the process-wide default allocator
    /// handle.
    pub fn new(val: T, chain: Vec<Guid>, addr: usize) -> (r: (WeakObject<T, ()>, ComPtr))
        requires
            chain_wf_weak(chain@),
        ensures
            r.0.wf(),
            r.0.strong == 1,
            r.0.weak == 1,
            r.0.rc() == crate::refcount::rc_init(),
            r.0.val == Some(val),
            r.0.chain@ == chain@,
            r.0.addr == addr,
            r.1.ptr == addr,
            r.1.chain@ == chain@,
            r.0.owns_ptr(&r.1),
    {
        Self::new_with(val, (), chain, addr)
    }
}

/// Query correctness, the half every object shows: a well-formed chain
/// always ends at the root capability-query interface, so a query for the
/// root identifier succeeds on every object, plain or weak-capable.
pub proof fn lemma_query_root_always_succeeds<T1, A1, T2, A2>(
    o: &Object<T1, A1>,
    w: &WeakObject<T2, A2>,
)
    requires
        o.wf(),
        w.wf(),
    ensures
        o.chain@.contains(crate::iface::spec_iunknown_guid()),
        w.chain@.contains(crate::iface::spec_iunknown_guid()),
{
    crate::iface::lemma_chain_offers_root(o.chain@);
    crate::iface::lemma_chain_offers_root(w.chain@);
}

/// Query correctness, the weak-capable half: a query for the weak-capable
/// extension identifier succeeds on every envelope constructed
/// weak-capable and fails on every plain one, so success tells the two
/// constructions apart.
pub proof fn lemma_query_weak_iff_weak_capable<T1, A1, T2, A2>(
    o: &Object<T1, A1>,
    w: &WeakObject<T2, A2>,
)
    requires
        o.wf(),
        w.wf(),
    ensures
        w.chain@.contains(crate::iface::spec_iweak_guid()),
        !o.chain@.contains(crate::iface::spec_iweak_guid()),
{
}

/// Construction sugar: any value can wrap itself into a plain envelope
/// under a given dispatch identity.
pub trait MakeObject: Sized {
    /// Wraps the value and keeps the typed pair of envelope and handle.
    fn make_object(self, chain: Vec<Guid>, addr: usize) -> (r: (Object<Self, ()>, ObjectPtr))
        requires
            chain_wf_plain(chain@),
        ensures
            r.0.wf(),
            r.0.strong == 1,
            r.0.val == Some(self),
            r.0.chain@ == chain@,
            r.0.addr == addr,
            r.1.0.ptr == addr,
            r.1.0.chain@ == chain@,
    ;

    /// Wraps the value and hands out the untyped owning handle.
    fn make_com(self, chain: Vec<Guid>, addr: usize) -> (r: (Object<Self, ()>, ComPtr))
        requires
            chain_wf_plain(chain@),
        ensures
            r.0.wf(),
            r.0.strong == 1,
            r.0.val == Some(self),
            r.0.chain@ == chain@,
            r.0.addr == addr,
            r.1.ptr == addr,
            r.1.chain@ == chain@,
            r.0.owns_ptr(&r.1),
    ;
}

impl<T> MakeObject for T {
    fn make_object(self, chain: Vec<Guid>, addr: usize) -> (r: (Object<Self, ()>, ObjectPtr)) {
        let (env, p) = Object::new(self, chain, addr);
        (env, ObjectPtr(p))
    }

    fn make_com(self, chain: Vec<Guid>, addr: usize) -> (r: (Object<Self, ()>, ComPtr)) {
        Object::new(self, chain, addr)
    }
}

/// Construction sugar: any value can wrap itself into a weak-capable
/// envelope under a given dispatch identity.
pub trait MakeObjectWeak: Sized {
    /// Wraps the value and keeps the typed pair of envelope and handle.
    fn make_object_weak(self, chain: Vec<Guid>, addr: usize) -> (r: (
        WeakObject<Self, ()>,
        WeakObjectPtr,
    ))
        requires
            chain_wf_weak(chain@),
        ensures
            r.0.wf(),
            r.0.strong == 1,
            r.0.weak == 1,
            r.0.val == Some(self),
            r.0.chain@ == chain@,
            r.0.addr == addr,
            r.1.0.ptr == addr,
            r.1.0.chain@ == chain@,
    ;

    /// Wraps the value and hands out the untyped owning handle.
    fn make_com_weak(self, chain: Vec<Guid>, addr: usize) -> (r: (WeakObject<Self, ()>, ComPtr))
        requires
            chain_wf_weak(chain@),
        ensures
            r.0.wf(),
            r.0.strong == 1,
            r.0.weak == 1,
            r.0.val == Some(self),
            r.0.chain@ == chain@,
            r.0.addr == addr,
            r.1.ptr == addr,
            r.1.chain@ == chain@,
            r.0.owns_ptr(&r.1),
    ;
}

impl<T> MakeObjectWeak for T {
    fn make_object_weak(self, chain: Vec<Guid>, addr: usize) -> (r: (
        WeakObject<Self, ()>,
        WeakObjectPtr,
    )) {
        let (env, p) = WeakObject::new(self, chain, addr);
        (env, WeakObjectPtr(p))
    }

    fn make_com_weak(self, chain: Vec<Guid>, addr: usize) -> (r: (WeakObject<Self, ()>, ComPtr)) {
        WeakObject::new(self, chain, addr)
    }
}

/// Construction sugar with an explicit allocator handle stored beside the
/// payload.
pub trait MakeObjectWith<A>: Sized {
    /// Wraps the value into a plain envelope carrying the allocator.
    fn make_com_with(self, allocator: A, chain: Vec<Guid>, addr: usize) -> (r: (
        Object<Self, A>,
        ComPtr,
    ))
        requires
            chain_wf_plain(chain@),
        ensures
            r.0.wf(),
            r.0.strong == 1,
            r.0.val == Some(self),
            r.0.chain@ == chain@,
            r.0.addr == addr,
            r.0.allocator == allocator,
            r.1.ptr == addr,
            r.1.chain@ == chain@,
            r.0.owns_ptr(&r.1),
    ;
}

impl<T, A> MakeObjectWith<A> for T {
    fn make_com_with(self, allocator: A, chain: Vec<Guid>, addr: usize) -> (r: (
        Object<Self, A>,
        ComPtr,
    )) {
        Object::new_with(self, allocator, chain, addr)
    }
}

/// Construction sugar for a weak-capable envelope with an explicit
/// allocator handle.
pub trait MakeObjectWeakWith<A>: Sized {
    /// Wraps the value into a weak-capable envelope carrying the
    /// allocator.
    fn make_com_weak_with(self, allocator: A, chain: Vec<Guid>, addr: usize) -> (r: (
        WeakObject<Self, A>,
        ComPtr,
    ))
        requires
            chain_wf_weak(chain@),
        ensures
            r.0.wf(),
            r.0.strong == 1,
            r.0.weak == 1,
            r.0.val == Some(self),
            r.0.chain@ == chain@,
            r.0.addr == addr,
            r.0.allocator == allocator,
            r.1.ptr == addr,
            r.1.chain@ == chain@,
            r.0.owns_ptr(&r.1),
    ;
}

impl<T, A> MakeObjectWeakWith<A> for T {
    fn make_com_weak_with(self, allocator: A, chain: Vec<Guid>, addr: usize) -> (r: (
        WeakObject<Self, A>,
        ComPtr,
    )) {
        WeakObject::new_with(self, allocator, chain, addr)
    }
}

/// A typed owning handle over a plain envelope, as handed out by the
/// construction helpers.
pub struct ObjectPtr(pub ComPtr);

impl ObjectPtr {
    /// Forfeits ownership without releasing.
    pub fn leak(self) -> (r: usize)
        ensures
            r == self.0.ptr,
    {
        self.0.leak()
    }

    /// The untyped owning handle over the same ticket.
    pub fn to_com(self) -> (r: ComPtr)
        ensures
            r == self.0,
    {
        self.0
    }

    /// A view of the untyped owning handle.
    pub fn as_com(&self) -> (r: &ComPtr)
        ensures
            r == &self.0,
    {
        &self.0
    }
}

/// A typed owning handle over a weak-capable envelope.
pub struct WeakObjectPtr(pub ComPtr);

impl WeakObjectPtr {
    /// Forfeits ownership without releasing.
    pub fn leak(self) -> (r: usize)
        ensures
            r == self.0.ptr,
    {
        self.0.leak()
    }

    /// The untyped owning handle over the same ticket.
    pub fn to_com(self) -> (r: ComPtr)
        ensures
            r == self.0,
    {
        self.0
    }
}

/// A typed weak handle over a weak-capable envelope.
pub struct WeakObjectWeak(pub ComWeak);

impl WeakObjectWeak {
    /// The untyped weak handle over the same ticket.
    pub fn to_weak(self) -> (r: ComWeak)
        ensures
            r == self.0,
    {
        self.0
    }
}

} // verus!
