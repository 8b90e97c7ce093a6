//! 32-bit signed result codes: bit 31 set means failure.
use vstd::prelude::*;

verus! {

/// The named result codes an object-model call can report.
#[derive(Debug, Clone, Copy, PartialEq, Eq, Structural, Hash)]
pub enum HResultE {
    Okay,
    NotImpl,
    NoInterface,
    Pointer,
    Abort,
    Fail,
    Unexpected,
    AccessDenied,
    Handle,
    OutOfMemory,
    InvalidArg,
}

/// The 32-bit value of each named code.
pub open spec fn spec_code(e: HResultE) -> u32 {
    match e {
        HResultE::Okay => 0u32,
        HResultE::NotImpl => 0x80004001u32,
        HResultE::NoInterface => 0x80004002u32,
        HResultE::Pointer => 0x80004003u32,
        HResultE::Abort => 0x80004004u32,
        HResultE::Fail => 0x80004005u32,
        HResultE::Unexpected => 0x8000FFFFu32,
        HResultE::AccessDenied => 0x80070005u32,
        HResultE::Handle => 0x80070006u32,
        HResultE::OutOfMemory => 0x8007000Eu32,
        HResultE::InvalidArg => 0x80070057u32,
    }
}

/// A result code, stored as the signed 32-bit value that crosses the ABI.
#[derive(Debug, Clone, Copy, PartialEq, Eq, Structural, Hash)]
pub struct HResult {
    pub value: i32,
}

impl HResult {
    pub fn new(value: i32) -> (r: Self)
        ensures
            r.value == value,
    {
        Self { value }
    }

    pub fn from_e(e: HResultE) -> (r: Self)
        ensures
            r.value == spec_code(e) as i32,
    {
        match e {
            HResultE::Okay => Self::new(0u32 as i32),
            HResultE::NotImpl => Self::new(0x80004001u32 as i32),
            HResultE::NoInterface => Self::new(0x80004002u32 as i32),
            HResultE::Pointer => Self::new(0x80004003u32 as i32),
            HResultE::Abort => Self::new(0x80004004u32 as i32),
            HResultE::Fail => Self::new(0x80004005u32 as i32),
            HResultE::Unexpected => Self::new(0x8000FFFFu32 as i32),
            HResultE::AccessDenied => Self::new(0x80070005u32 as i32),
            HResultE::Handle => Self::new(0x80070006u32 as i32),
            HResultE::OutOfMemory => Self::new(0x8007000Eu32 as i32),
            HResultE::InvalidArg => Self::new(0x80070057u32 as i32),
        }
    }

    pub fn ok() -> (r: Self)
        ensures
            r.value == 0,
    {
        Self::new(0)
    }

    pub fn not_impl() -> (r: Self)
        ensures
            r.value == 0x80004001u32 as i32,
    {
        Self::new(0x80004001u32 as i32)
    }

    pub fn no_interface() -> (r: Self)
        ensures
            r.value == 0x80004002u32 as i32,
    {
        Self::new(0x80004002u32 as i32)
    }

    pub fn pointer() -> (r: Self)
        ensures
            r.value == 0x80004003u32 as i32,
    {
        Self::new(0x80004003u32 as i32)
    }

    pub fn abort() -> (r: Self)
        ensures
            r.value == 0x80004004u32 as i32,
    {
        Self::new(0x80004004u32 as i32)
    }

    pub fn fail() -> (r: Self)
        ensures
            r.value == 0x80004005u32 as i32,
    {
        Self::new(0x80004005u32 as i32)
    }

    pub fn unexpected() -> (r: Self)
        ensures
            r.value == 0x8000FFFFu32 as i32,
    {
        Self::new(0x8000FFFFu32 as i32)
    }

    pub fn access_denied() -> (r: Self)
        ensures
            r.value == 0x80070005u32 as i32,
    {
        Self::new(0x80070005u32 as i32)
    }

    pub fn handle() -> (r: Self)
        ensures
            r.value == 0x80070006u32 as i32,
    {
        Self::new(0x80070006u32 as i32)
    }

    pub fn out_of_memory() -> (r: Self)
        ensures
            r.value == 0x8007000Eu32 as i32,
    {
        Self::new(0x8007000Eu32 as i32)
    }

    pub fn invalid_arg() -> (r: Self)
        ensures
            r.value == 0x80070057u32 as i32,
    {
        Self::new(0x80070057u32 as i32)
    }

    pub fn is_success(self) -> (r: bool)
        ensures
            r == (self.value >= 0),
    {
        self.value >= 0
    }

    pub fn is_failure(self) -> (r: bool)
        ensures
            r == (self.value < 0),
    {
        self.value < 0
    }
}

/// A code reports failure exactly when bit 31 of its value is set.
pub proof fn lemma_failure_is_bit31(h: HResult)
    ensures
        (h.value < 0) <==> (h.value as u32) & 0x8000_0000u32 != 0,
{
    let v: i32 = h.value;
    assert((v < 0) <==> (v as u32) & 0x8000_0000u32 != 0) by (bit_vector);
}

} // verus!
