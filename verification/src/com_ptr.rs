//! Owning and weak handles over an object envelope.
//!
//! A handle records the address it points at and the inheritance chain of
//! the interface view it holds; by the layout contract every ancestor view
//! of an object sits at the same address, so an upcast changes only the
//! chain, never the pointer. Each owning handle stands for exactly one
//! strong ticket and each weak handle for one weak ticket; the envelope
//! methods that create and spend handles account for the tickets.
use crate::guid::Guid;
use vstd::prelude::*;

verus! {

/// Reinterpreting a handle as a view of an ancestor interface, with no
/// data copied and no reference-count change: the ticket is transferred.
pub trait Upcast: Sized {
    /// The handle this upcast yields.
    type Output;

    fn upcast(self) -> Self::Output;
}

/// An owning handle: one strong ticket on the envelope at `ptr`, viewed
/// through the interface whose inheritance chain is `chain` (most derived
/// first, the root capability-query interface last).
pub struct ComPtr {
    pub ptr: usize,
    pub chain: Vec<Guid>,
}

impl ComPtr {
    /// Adopts an existing strong ticket: no increment happens. The caller
    /// must actually hold the ticket it hands over.
    pub fn new(ptr: usize, chain: Vec<Guid>) -> (r: Self)
        ensures
            r.ptr == ptr,
            r.chain == chain,
    {
        Self { ptr, chain }
    }

    /// Adopts an existing strong ticket behind a possibly null address:
    /// absent exactly on the null address, which carries no ticket.
    pub fn create(ptr: usize, chain: Vec<Guid>) -> (r: Option<ComPtr>)
        ensures
            ptr == 0 <==> r is None,
            r matches Some(p) ==> p.ptr == ptr && p.chain == chain,
    {
        if ptr == 0 {
            None
        } else {
            Some(Self { ptr, chain })
        }
    }

    /// The address of the interface view this handle holds.
    pub fn ptr(&self) -> (r: usize)
        ensures
            r == self.ptr,
    {
        self.ptr
    }

    /// The address of the interface view, for callers that mutate.
    pub fn mut_ptr(&self) -> (r: usize)
        ensures
            r == self.ptr,
    {
        self.ptr
    }

    /// The address of the interface view, for callers that only read.
    pub fn const_ptr(&self) -> (r: usize)
        ensures
            r == self.ptr,
    {
        self.ptr
    }

    /// Forfeits ownership without releasing: the strong ticket crosses to
    /// whoever receives the address.
    pub fn leak(self) -> (r: usize)
        ensures
            r == self.ptr,
    {
        self.ptr
    }
}

impl Upcast for ComPtr {
    type Output = ComPtr;

    /// Views the envelope as the immediate parent interface. The pointer
    /// is unchanged and no count moves: the one strong ticket transfers
    /// to the ancestor view. A root view upcasts to itself.
    fn upcast(self) -> (r: ComPtr)
        ensures
            r.ptr == self.ptr,
            self.chain@.len() >= 2 ==> r.chain@ =~= self.chain@.skip(1),
            self.chain@.len() < 2 ==> r.chain@ =~= self.chain@,
    {
        let ghost orig: Seq<Guid> = self.chain@;
        let ComPtr { ptr, chain: mut c } = self;
        if c.len() >= 2 {
            c.remove(0);
            proof {
                assert(c@ =~= orig.skip(1));
            }
        }
        ComPtr { ptr, chain: c }
    }
}

impl Upcast for ComWeak {
    type Output = ComWeak;

    /// Views the envelope as the immediate parent interface; the weak
    /// ticket transfers with the pointer unchanged.
    fn upcast(self) -> (r: ComWeak)
        ensures
            r.ptr == self.ptr,
            self.chain@.len() >= 2 ==> r.chain@ =~= self.chain@.skip(1),
            self.chain@.len() < 2 ==> r.chain@ =~= self.chain@,
    {
        let ghost orig: Seq<Guid> = self.chain@;
        let ComWeak { ptr, chain: mut c } = self;
        if c.len() >= 2 {
            c.remove(0);
            proof {
                assert(c@ =~= orig.skip(1));
            }
        }
        ComWeak { ptr, chain: c }
    }
}

/// A weak handle: one weak ticket on the envelope at `ptr`, remembering
/// the same interface view as the owning handle it came from.
pub struct ComWeak {
    pub ptr: usize,
    pub chain: Vec<Guid>,
}

impl ComWeak {
    /// Adopts an existing weak ticket: no increment happens.
    pub fn new(ptr: usize, chain: Vec<Guid>) -> (r: Self)
        ensures
            r.ptr == ptr,
            r.chain == chain,
    {
        Self { ptr, chain }
    }

    /// Adopts an existing weak ticket behind a possibly null address:
    /// absent exactly on the null address, which carries no ticket.
    pub fn create(ptr: usize, chain: Vec<Guid>) -> (r: Option<ComWeak>)
        ensures
            ptr == 0 <==> r is None,
            r matches Some(w) ==> w.ptr == ptr && w.chain == chain,
    {
        if ptr == 0 {
            None
        } else {
            Some(Self { ptr, chain })
        }
    }

    /// The address of the interface view this handle remembers.
    pub fn ptr(&self) -> (r: usize)
        ensures
            r == self.ptr,
    {
        self.ptr
    }

    /// Forfeits ownership without releasing: the weak ticket crosses to
    /// whoever receives the address.
    pub fn leak(self) -> (r: usize)
        ensures
            r == self.ptr,
    {
        self.ptr
    }
}

} // verus!
