//! The role a principal may hold. The store keeps roles as small
//! integers and the token wire format carries them as a single decimal
//! digit, so both conversions live here with exact contracts.

use vstd::prelude::*;

verus! {

/// A principal's role. Role values are restricted to standard (stored
/// as 1, sent on the wire as the digit '1') and admin (stored as 2,
/// sent as '2').
#[derive(Clone, Copy, PartialEq, Eq, Structural, Debug)]
pub enum Role {
    Standard,
    Admin,
}

impl Role {
    /// The byte that carries this role in a token's claims segment.
    pub open spec fn wire_byte(self) -> u8 {
        match self {
            Role::Standard => 49u8,
            Role::Admin => 50u8,
        }
    }

    /// The role denoted by a claims byte, if any.
    pub open spec fn from_wire_byte_spec(b: u8) -> Option<Role> {
        if b == 49u8 {
            Some(Role::Standard)
        } else if b == 50u8 {
            Some(Role::Admin)
        } else {
            None
        }
    }

    /// The small integer under which the store keeps this role.
    pub open spec fn code(self) -> i16 {
        match self {
            Role::Standard => 1i16,
            Role::Admin => 2i16,
        }
    }

    pub fn to_wire_byte(self) -> (r: u8)
        ensures
            r == self.wire_byte(),
    {
        match self {
            Role::Standard => 49u8,
            Role::Admin => 50u8,
        }
    }

    pub fn from_wire_byte(b: u8) -> (r: Option<Role>)
        ensures
            r == Role::from_wire_byte_spec(b),
    {
        if b == 49u8 {
            Some(Role::Standard)
        } else if b == 50u8 {
            Some(Role::Admin)
        } else {
            None
        }
    }

    pub fn to_code(self) -> (r: i16)
        ensures
            r == self.code(),
    {
        match self {
            Role::Standard => 1i16,
            Role::Admin => 2i16,
        }
    }

    /// The role kept under a store code, if the code is one of the two
    /// the data model allows.
    pub fn from_code(c: i16) -> (r: Option<Role>)
        ensures
            c == 1i16 ==> r == Some(Role::Standard),
            c == 2i16 ==> r == Some(Role::Admin),
            c != 1i16 && c != 2i16 ==> r is None,
    {
        if c == 1i16 {
            Some(Role::Standard)
        } else if c == 2i16 {
            Some(Role::Admin)
        } else {
            None
        }
    }
}

} // verus!
