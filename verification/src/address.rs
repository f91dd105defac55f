//! Fixed-width account addresses and the wallet-string parser: a literal is
//! either `0x` followed by one to sixty-four hex digits (left-padded with
//! zeros), or exactly sixty-four bare hex digits.

use vstd::prelude::*;
use crate::codec::{hex_of, is_hex_digit, is_hex_seq, unhex, hex_decode, hex_encode};
use crate::errors::DeployError;

verus! {

/// A ledger account address: exactly thirty-two bytes.
pub struct Address {
    bytes: Vec<u8>,
}

impl View for Address {
    type V = Seq<u8>;

    closed spec fn view(&self) -> Seq<u8> {
        self.bytes@
    }
}

/// The string starts with the ASCII characters `0x`.
pub open spec fn has_hex_prefix(s: Seq<u8>) -> bool {
    s.len() >= 2 && s[0] == 48 && s[1] == 120
}

/// The hex digits of an address literal: what follows the `0x` prefix, or
/// the whole string when there is none.
pub open spec fn address_digits(s: Seq<u8>) -> Seq<u8> {
    if has_hex_prefix(s) {
        s.skip(2)
    } else {
        s
    }
}

/// A well-formed address literal: with a `0x` prefix, one to sixty-four hex
/// digits; without one, exactly sixty-four.
pub open spec fn valid_address_literal(s: Seq<u8>) -> bool {
    &&& is_hex_seq(address_digits(s))
    &&& if has_hex_prefix(s) {
        1 <= address_digits(s).len() <= 64
    } else {
        address_digits(s).len() == 64
    }
}

/// Digits left-padded with ASCII zeros to the full sixty-four places.
pub open spec fn padded_digits(d: Seq<u8>) -> Seq<u8>
    recommends
        d.len() <= 64,
{
    Seq::new(
        64,
        |i: int|
            if i < 64 - d.len() {
                48u8
            } else {
                d[i - (64 - d.len())]
            },
    )
}

/// The thirty-two address bytes spelled by a well-formed literal.
pub open spec fn parsed_address(s: Seq<u8>) -> Seq<u8> {
    unhex(padded_digits(address_digits(s)))
}

impl Address {
    /// The address is well formed: it holds exactly thirty-two bytes.
    pub open spec fn wf(&self) -> bool {
        self@.len() == 32
    }

    /// Wraps raw bytes as an address; rejects any length but thirty-two.
    pub fn from_bytes(bytes: Vec<u8>) -> (r: Result<Address, DeployError>)
        ensures
            r is Ok <==> bytes@.len() == 32,
            r is Ok ==> r->Ok_0.wf() && r->Ok_0@ == bytes@,
            r is Err ==> r->Err_0 == DeployError::InvalidAddress,
    {
        if bytes.len() == 32 {
            Ok(Address { bytes })
        } else {
            Err(DeployError::InvalidAddress)
        }
    }

    /// Wraps bytes already known to have the address width.
    pub fn from_fixed_bytes(bytes: Vec<u8>) -> (r: Address)
        requires
            bytes@.len() == 32,
        ensures
            r.wf(),
            r@ == bytes@,
    {
        Address { bytes }
    }

    /// The raw thirty-two address bytes.
    pub fn bytes(&self) -> (r: &Vec<u8>)
        ensures
            r@ == self@,
    {
        &self.bytes
    }

    /// Parses a wallet string (as its bytes); `Ok` exactly on well-formed
    /// literals, whose digits name the returned address.
    pub fn parse(s: &Vec<u8>) -> (r: Result<Address, DeployError>)
        ensures
            r is Ok <==> valid_address_literal(s@),
            r is Ok ==> r->Ok_0.wf() && r->Ok_0@ == parsed_address(s@),
            r is Err ==> r->Err_0 == DeployError::InvalidAddress,
    {
        let prefixed = s.len() >= 2 && s[0] == 48 && s[1] == 120;
        let start: usize = if prefixed {
            2
        } else {
            0
        };
        let digit_count = s.len() - start;
        if prefixed && (digit_count < 1 || digit_count > 64) {
            return Err(DeployError::InvalidAddress);
        }
        if !prefixed && digit_count != 64 {
            return Err(DeployError::InvalidAddress);
        }
        let mut padded: Vec<u8> = Vec::new();
        let mut i: usize = 0;
        while i < 64 - digit_count
            invariant
                digit_count <= 64,
                i <= 64 - digit_count,
                padded@.len() == i,
                forall|j: int| 0 <= j < padded@.len() ==> padded@[j] == 48u8,
            decreases 64 - digit_count - i,
        {
            padded.push(48);
            i += 1;
        }
        let mut j: usize = 0;
        while j < digit_count
            invariant
                start + digit_count == s@.len(),
                start <= 2,
                digit_count <= 64,
                j <= digit_count,
                padded@.len() == 64 - digit_count + j,
                forall|k: int| 0 <= k < 64 - digit_count ==> padded@[k] == 48u8,
                forall|k: int|
                    64 - digit_count <= k < padded@.len() ==> padded@[k] == s@[start + k - (64
                        - digit_count)],
            decreases digit_count - j,
        {
            padded.push(s[start + j]);
            j += 1;
        }
        proof {
            assert(padded@ =~= padded_digits(address_digits(s@)));
        }
        match hex_decode(&padded) {
            Some(bytes) => {
                proof {
                    assert forall|k: int|
                        0 <= k < address_digits(s@).len() implies (is_hex_digit(
                        #[trigger] address_digits(s@)[k],
                    ) == is_hex_digit(padded@[64 - address_digits(s@).len() + k])) by {}
                    assert(is_hex_seq(address_digits(s@)));
                    assert(valid_address_literal(s@));
                }
                Ok(Address { bytes })
            },
            None => {
                proof {
                    if valid_address_literal(s@) {
                        assert forall|k: int| 0 <= k < padded@.len() implies is_hex_digit(
                            #[trigger] padded@[k],
                        ) by {
                            let d = address_digits(s@);
                            if k >= 64 - d.len() {
                                assert(padded@[k] == d[k - (64 - d.len())]);
                            }
                        }
                        assert(is_hex_seq(padded@));
                        assert(false);
                    }
                }
                Err(DeployError::InvalidAddress)
            },
        }
    }

    /// The address spelled as `0x` followed by its sixty-four hex digits.
    pub fn to_hex_literal(&self) -> (r: Vec<u8>)
        ensures
            r@ == seq![48u8, 120u8] + hex_of(self@),
    {
        let mut r: Vec<u8> = Vec::new();
        r.push(48);
        r.push(120);
        let mut digits = hex_encode(&self.bytes);
        r.append(&mut digits);
        proof {
            assert(r@ =~= seq![48u8, 120u8] + hex_of(self@));
        }
        r
    }
}

impl Clone for Address {
    /// A clone spells the same address.
    fn clone(&self) -> (r: Self)
        ensures
            r@ == self@,
    {
        Address { bytes: self.bytes.clone() }
    }
}

} // verus!
