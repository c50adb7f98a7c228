//! Little-endian field writers and the optional-address codec.
//!
//! Instruction payloads are built by appending fields to a byte vector whose
//! length is the write cursor; the finished vector is the exact-length valid
//! prefix, with no uninitialized gaps.
//!
//! Two conventions for serializing an `Option<Address>` exist in the wire
//! format, and each instruction commits to exactly one:
//!
//! * presence flag: absent is the single byte `0`; present is the byte `1`
//!   followed by the 32 address bytes;
//! * zero fill: always exactly 32 bytes; the all-zero address is reserved to
//!   mean absent and can never be a legitimate value.

use vstd::prelude::*;

verus! {

use vstd::bytes::spec_u16_to_le_bytes;
use vstd::bytes::spec_u64_to_le_bytes;
use vstd::bytes::u16_to_le_bytes;
use vstd::bytes::u64_to_le_bytes;

use crate::Address;

/// The all-zero address, reserved by the zero-fill convention to mean
/// "no address".
pub open spec fn zero_address() -> Seq<u8> {
    Seq::new(32, |i: int| 0u8)
}

/// Byte form of an optional address under the presence-flag convention.
pub open spec fn flagged_option_bytes(o: Option<Seq<u8>>) -> Seq<u8> {
    match o {
        Some(a) => seq![1u8] + a,
        None => seq![0u8],
    }
}

/// Byte form of an optional address under the zero-fill convention.
pub open spec fn zero_fill_option_bytes(o: Option<Seq<u8>>) -> Seq<u8> {
    match o {
        Some(a) => a,
        None => zero_address(),
    }
}

/// The byte sequences of an optional borrowed address.
pub open spec fn opt_view(o: Option<&Address>) -> Option<Seq<u8>> {
    match o {
        Some(a) => Some(a@),
        None => None,
    }
}

/// The byte sequences of an optional owned address.
pub open spec fn opt_addr_view(o: Option<Address>) -> Option<Seq<u8>> {
    match o {
        Some(a) => Some(a@),
        None => None,
    }
}

/// Append a 16-bit integer in little-endian order.
pub fn write_u16_le(buf: &mut Vec<u8>, x: u16)
    ensures
        final(buf)@ == old(buf)@ + spec_u16_to_le_bytes(x),
{
    let mut b = u16_to_le_bytes(x);
    buf.append(&mut b);
}

/// Append a 64-bit integer in little-endian order.
pub fn write_u64_le(buf: &mut Vec<u8>, x: u64)
    ensures
        final(buf)@ == old(buf)@ + spec_u64_to_le_bytes(x),
{
    let mut b = u64_to_le_bytes(x);
    buf.append(&mut b);
}

/// Append a signed 16-bit integer in little-endian two's complement.
pub fn write_i16_le(buf: &mut Vec<u8>, x: i16)
    ensures
        final(buf)@ == old(buf)@ + spec_u16_to_le_bytes(x as u16),
{
    write_u16_le(buf, x as u16);
}

/// Append the 32 bytes of an address.
pub fn write_address(buf: &mut Vec<u8>, a: &Address)
    ensures
        final(buf)@ == old(buf)@ + a@,
{
    let mut i: usize = 0;
    while i < 32
        invariant
            i <= 32,
            buf@ == old(buf)@ + a@.subrange(0, i as int),
        decreases 32 - i,
    {
        buf.push(a[i]);
        i = i + 1;
    }
    proof {
        assert(a@.subrange(0, 32) =~= a@);
    }
}

/// Copy `N` bytes out of `s` starting at `off` into a fresh array.
pub fn read_array<const N: usize>(s: &[u8], off: usize) -> (r: [u8; N])
    requires
        off + N <= s@.len(),
    ensures
        r@ == s@.subrange(off as int, off as int + N as int),
{
    let mut r: [u8; N] = vstd::array::array_fill_for_copy_types(0u8);
    let slen = s.len();
    let mut i: usize = 0;
    while i < N
        invariant
            i <= N,
            slen == s@.len(),
            off + N <= slen,
            r@.len() == N,
            forall|j: int| 0 <= j < i ==> r@[j] == s@[off + j],
        decreases N - i,
    {
        r[i] = s[off + i];
        i = i + 1;
    }
    proof {
        assert(r@ =~= s@.subrange(off as int, off as int + N as int));
    }
    r
}

/// Append an optional address under the presence-flag convention and
/// return the number of bytes written: 1 when absent, 33 when present.
pub fn write_optional_pubkey(destination: &mut Vec<u8>, pubkey: Option<&Address>) -> (n: usize)
    ensures
        final(destination)@ == old(destination)@ + flagged_option_bytes(opt_view(pubkey)),
        n == flagged_option_bytes(opt_view(pubkey)).len(),
{
    match pubkey {
        Some(pk) => {
            destination.push(1);
            write_address(destination, pk);
            proof {
                assert(destination@ =~= old(destination)@ + flagged_option_bytes(opt_view(pubkey)));
            }
            33
        },
        None => {
            destination.push(0);
            proof {
                assert(destination@ =~= old(destination)@ + flagged_option_bytes(opt_view(pubkey)));
            }
            1
        },
    }
}

/// Append an optional address under the zero-fill convention and return the
/// number of bytes written, which is always 32.
pub fn write_optional_nonzero_pubkey(destination: &mut Vec<u8>, pubkey: Option<&Address>) -> (n:
    usize)
    ensures
        final(destination)@ == old(destination)@ + zero_fill_option_bytes(opt_view(pubkey)),
        n == 32,
{
    match pubkey {
        Some(pk) => {
            write_address(destination, pk);
        },
        None => {
            let mut i: usize = 0;
            while i < 32
                invariant
                    i <= 32,
                    destination@ == old(destination)@ + zero_address().subrange(0, i as int),
                decreases 32 - i,
            {
                destination.push(0);
                proof {
                    assert(destination@ =~= old(destination)@ + zero_address().subrange(
                        0,
                        i as int + 1,
                    ));
                }
                i = i + 1;
            }
            proof {
                assert(zero_address().subrange(0, 32) =~= zero_address());
            }
        },
    }
    32
}

} // verus!
