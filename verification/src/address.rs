//! Validation of the listen address for the foreign calling convention.
//!
//! The foreign core takes the address as a terminator-ended byte string, so an
//! address whose own bytes contain the terminator cannot be represented and is
//! rejected before any foreign call is made.

use vstd::prelude::*;
use vstd::slice::slice_to_vec;
use vstd::string::StringSliceAdditionalSpecFns;

use crate::errors::NanoNetError;

verus! {

/// Encodes an address for the foreign core: its bytes followed by a single
/// terminator byte. Fails with `AddressEncodingError`, and only with it, when
/// the address itself contains a terminator byte; succeeds on every other
/// address.
pub fn encode_address(addr: &str) -> (r: Result<Vec<u8>, NanoNetError>)
    ensures
        r is Ok <==> !addr.spec_bytes().contains(0u8),
        r matches Ok(v) ==> v@ == addr.spec_bytes().push(0u8),
        r matches Err(e) ==> e == NanoNetError::AddressEncodingError,
{
    let bytes: Vec<u8> = slice_to_vec(addr.as_bytes());
    let n: usize = bytes.len();
    let mut i: usize = 0;
    while i < n
        invariant
            n == bytes.len(),
            bytes@ == addr.spec_bytes(),
            i <= n,
            forall|j: int| 0 <= j < i ==> bytes@[j] != 0u8,
        decreases n - i,
    {
        if bytes[i] == 0 {
            proof {
                assert(addr.spec_bytes().contains(0u8)) by {
                    assert(addr.spec_bytes()[i as int] == 0u8);
                }
            }
            return Err(NanoNetError::AddressEncodingError);
        }
        i += 1;
    }
    let mut encoded = bytes;
    encoded.push(0u8);
    Ok(encoded)
}

} // verus!
