//! Account addresses of the source ledger: 32 raw bytes on the wire,
//! displayed as `0x` followed by 64 lower-case hexadecimal digits.

use vstd::prelude::*;
use crate::text;

verus! {

/// Number of bytes in an address.
pub const ADDRESS_LENGTH: usize = 32;

/// A ledger address, held as its raw bytes.
#[derive(Debug, Clone)]
pub struct Address {
    bytes: Vec<u8>,
}

impl View for Address {
    type V = Seq<u8>;

    closed spec fn view(&self) -> Seq<u8> {
        self.bytes@
    }
}

impl DeepView for Address {
    type V = Seq<u8>;

    closed spec fn deep_view(&self) -> Seq<u8> {
        self.bytes@
    }
}

/// The display form of address bytes: `0x` then two lower-case hexadecimal
/// digits per byte.
pub open spec fn address_display(bytes: Seq<u8>) -> Seq<char> {
    seq!['0', 'x'] + text::hex_of(bytes)
}

impl Address {
    /// An address is exactly `ADDRESS_LENGTH` bytes.
    pub open spec fn wf(&self) -> bool {
        self@.len() == ADDRESS_LENGTH
    }

    /// Builds an address from its raw bytes; anything but exactly
    /// `ADDRESS_LENGTH` bytes is refused.
    pub fn from_bytes(bytes: Vec<u8>) -> (r: Option<Address>)
        ensures
            match r {
                Some(a) => a@ == bytes@ && a.wf(),
                None => bytes@.len() != ADDRESS_LENGTH,
            },
    {
        if bytes.len() == ADDRESS_LENGTH {
            Some(Address { bytes })
        } else {
            None
        }
    }

    /// The raw bytes of the address.
    pub fn as_bytes(&self) -> (r: &[u8])
        ensures
            r@ == self@,
    {
        self.bytes.as_slice()
    }

    /// Renders the address as `0x` followed by its bytes in lower-case
    /// hexadecimal.
    pub fn to_hex_string(&self) -> (r: String)
        ensures
            r@ == address_display(self@),
    {
        let mut s = String::new();
        s.append("0x");
        proof {
            reveal_strlit("0x");
            assert(s@ =~= seq!['0', 'x']);
        }
        text::append_hex(&mut s, self.bytes.as_slice());
        proof {
            assert(s@ =~= address_display(self@));
        }
        s
    }
}

} // verus!
