//! The persisted form of a parameter set.
//!
//! A parameter set is stored as four unsigned 32-bit numbers, each written
//! as a little-endian base-128 varint: memory size, iterations, parallelism
//! and the tag of the algorithm. The `postcard` crate writes and reads the
//! bytes; [`encoded`] and [`decoded`] say which bytes those are.

use vstd::prelude::*;

verus! {

/// The varint form of `n`: seven bits to a byte, lowest first, with the top
/// bit set on every byte but the last.
pub open spec fn varint(n: nat) -> Seq<u8>
    decreases n,
{
    if n < 128 {
        seq![n as u8]
    } else {
        seq![(n % 128 + 128) as u8] + varint(n / 128)
    }
}

/// What the seven value bits of the byte at position `i` of a varint stand
/// for: 128 to the power `i`.
pub open spec fn place_value(i: nat) -> nat {
    if i == 0 {
        1
    } else if i == 1 {
        0x80
    } else if i == 2 {
        0x4000
    } else if i == 3 {
        0x20_0000
    } else {
        0x1000_0000
    }
}

/// Reads on in a varint from its byte `i`, with the value of the bytes
/// before it in `value`. A varint of a `u32` has at most five bytes, the
/// fifth of them below 16.
pub open spec fn varint_read_from(bytes: Seq<u8>, i: nat, value: nat) -> Option<(u32, Seq<u8>)>
    decreases 5 - i,
{
    if i >= 5 || i >= bytes.len() {
        None
    } else {
        let byte = bytes[i as int];
        let value = value + (byte % 128) as nat * place_value(i);
        if byte >= 128 {
            varint_read_from(bytes, i + 1, value as nat)
        } else if i == 4 && byte > 15 {
            None
        } else {
            Some((value as u32, bytes.skip(i as int + 1)))
        }
    }
}

/// The number that `bytes` start with, and the bytes after it.
pub open spec fn varint_read(bytes: Seq<u8>) -> Option<(u32, Seq<u8>)> {
    varint_read_from(bytes, 0, 0)
}

/// The bytes that four numbers are stored as.
pub open spec fn encoded(fields: (u32, u32, u32, u32)) -> Seq<u8> {
    varint(fields.0 as nat) + varint(fields.1 as nat) + varint(fields.2 as nat) + varint(
        fields.3 as nat,
    )
}

/// The four numbers that `bytes` start with. Bytes after them are ignored.
pub open spec fn decoded(bytes: Seq<u8>) -> Option<(u32, u32, u32, u32)> {
    match varint_read(bytes) {
        None => None,
        Some((first, rest)) => match varint_read(rest) {
            None => None,
            Some((second, rest)) => match varint_read(rest) {
                None => None,
                Some((third, rest)) => match varint_read(rest) {
                    None => None,
                    Some((fourth, _)) => Some((first, second, third, fourth)),
                },
            },
        },
    }
}

/// `postcard::to_allocvec` on a tuple of four `u32`: the four varints, one
/// after another.
#[verifier::external_body]
pub(crate) fn postcard_write(fields: (u32, u32, u32, u32)) -> (bytes: Vec<u8>)
    ensures
        bytes@ == encoded(fields),
{
    postcard::to_allocvec(&fields).unwrap()
}

/// `postcard::from_bytes` for a tuple of four `u32`: four varints are read
/// from the start of the bytes; an error of the crate comes back as `None`.
#[verifier::external_body]
pub(crate) fn postcard_read(bytes: &[u8]) -> (fields: Option<(u32, u32, u32, u32)>)
    ensures
        fields == decoded(bytes@),
{
    postcard::from_bytes::<(u32, u32, u32, u32)>(bytes).ok()
}

/// A varint is read back as the number it was written for, and what
/// follows it is left over.
pub proof fn lemma_varint_round_trip(n: u32, rest: Seq<u8>)
    ensures
        varint_read(varint(n as nat) + rest) == Some((n, rest)),
{
    reveal_with_fuel(varint, 6);
    reveal_with_fuel(varint_read_from, 6);
    let bytes = varint(n as nat) + rest;
    let n0 = n as nat;
    let n1 = n0 / 128;
    let n2 = n1 / 128;
    let n3 = n2 / 128;
    let n4 = n3 / 128;
    assert(n4 < 16);
    if n0 < 128 {
        assert(varint(n0) =~= seq![n0 as u8]);
        assert(bytes.skip(1) =~= rest);
    } else if n1 < 128 {
        assert(varint(n0) =~= seq![(n0 % 128 + 128) as u8, n1 as u8]);
        assert(bytes.skip(2) =~= rest);
    } else if n2 < 128 {
        assert(varint(n0) =~= seq![(n0 % 128 + 128) as u8, (n1 % 128 + 128) as u8, n2 as u8]);
        assert(bytes.skip(3) =~= rest);
    } else if n3 < 128 {
        assert(varint(n0) =~= seq![
            (n0 % 128 + 128) as u8,
            (n1 % 128 + 128) as u8,
            (n2 % 128 + 128) as u8,
            n3 as u8,
        ]);
        assert(bytes.skip(4) =~= rest);
    } else {
        assert(varint(n0) =~= seq![
            (n0 % 128 + 128) as u8,
            (n1 % 128 + 128) as u8,
            (n2 % 128 + 128) as u8,
            (n3 % 128 + 128) as u8,
            n4 as u8,
        ]);
        assert(bytes.skip(5) =~= rest);
    }
}

/// Four numbers are read back from their stored form as they were written,
/// whatever follows them.
pub proof fn lemma_round_trip(fields: (u32, u32, u32, u32), rest: Seq<u8>)
    ensures
        decoded(encoded(fields) + rest) == Some(fields),
{
    let d = varint(fields.3 as nat) + rest;
    let c = varint(fields.2 as nat) + d;
    let b = varint(fields.1 as nat) + c;
    let a = varint(fields.0 as nat) + b;
    assert(a =~= encoded(fields) + rest);
    lemma_varint_round_trip(fields.0, b);
    lemma_varint_round_trip(fields.1, c);
    lemma_varint_round_trip(fields.2, d);
    lemma_varint_round_trip(fields.3, rest);
}

} // verus!
