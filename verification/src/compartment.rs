//! Read-only boolean settings of the shared settings store.
//!
//! The host stores compartment values as 32-bit integers. The unverified
//! shell queries the store and hands the raw answer over as a plain value;
//! absence or a read failure arrives as `None` and must read as `false`,
//! never as an error.

use vstd::prelude::*;

use crate::ImeError;
use crate::registration::Guid;

verus! {

/// One compartment of the shared settings store: the identifier of the
/// setting and the raw value the host reported for it, if any.
#[derive(Clone, Copy, Debug, PartialEq, Eq, Structural)]
pub struct Compartment {
    pub guid: Guid,
    pub value: Option<u32>,
}

impl Compartment {
    /// A compartment as the host answered for the given setting.
    pub fn new(guid: Guid, value: Option<u32>) -> (r: Compartment)
        ensures
            r.guid == guid,
            r.value == value,
    {
        Compartment { guid, value }
    }

    /// The raw value read as a boolean: any non-zero value is `true`. An
    /// absent or unreadable value is an error.
    pub fn get_bool(&self) -> (r: Result<bool, ImeError>)
        ensures
            match self.value {
                Option::Some(v) => r == Result::<bool, ImeError>::Ok(v != 0),
                Option::None => r == Result::<bool, ImeError>::Err(ImeError::Unavailable),
            },
    {
        match self.get_u32() {
            Result::Ok(v) => Result::Ok(v != 0),
            Result::Err(e) => Result::Err(e),
        }
    }

    /// The raw 32-bit value of the compartment.
    fn get_u32(&self) -> (r: Result<u32, ImeError>)
        ensures
            match self.value {
                Option::Some(v) => r == Result::<u32, ImeError>::Ok(v),
                Option::None => r == Result::<u32, ImeError>::Err(ImeError::Unavailable),
            },
    {
        match self.value {
            Option::Some(v) => Result::Ok(v),
            Option::None => Result::Err(ImeError::Unavailable),
        }
    }
}

/// The boolean a compartment reads as: a present, non-zero value.
pub open spec fn spec_read_bool(c: Compartment) -> bool {
    match c.value {
        Option::Some(v) => v != 0,
        Option::None => false,
    }
}

/// Read a compartment as a boolean flag: absence or a read failure counts as
/// `false` and is never surfaced.
pub fn read_bool(c: &Compartment) -> (r: bool)
    ensures
        r == spec_read_bool(*c),
{
    match c.get_bool() {
        Result::Ok(b) => b,
        Result::Err(_) => false,
    }
}

} // verus!
