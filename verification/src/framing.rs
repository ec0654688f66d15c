//! The framing of the client list that the delivery service sends: a TLS
//! vector with a 32-bit big-endian length whose elements are byte strings,
//! each with a variable-length prefix (one, two or four bytes, the prefix
//! size in the two top bits of the first byte, the value minimally
//! encoded). This module finds where reading that framing meets a first
//! prefix byte whose two top bits are both set, which the MLS profile of the
//! TLS encoding reserves.
use vstd::prelude::*;

verus! {

/// The big-endian value of the first four bytes.
pub open spec fn be32(b: Seq<u8>) -> int {
    ((b[0] as int * 256 + b[1] as int) * 256 + b[2] as int) * 256 + b[3] as int
}

/// The size of a variable-length prefix from its first byte, for the
/// sizes allowed (the two top bits 0, 1 or 2).
pub open spec fn prefix_size(first: u8) -> int {
    if first / 64 == 0 {
        1
    } else if first / 64 == 1 {
        2
    } else {
        4
    }
}

/// The value of the variable-length prefix of `size` bytes at `pos`: the
/// low six bits of the first byte, then the following bytes, big-endian.
pub open spec fn prefix_value(b: Seq<u8>, pos: int, size: int) -> int {
    if size == 1 {
        (b[pos] % 64) as int
    } else if size == 2 {
        (b[pos] % 64) as int * 256 + b[pos + 1] as int
    } else {
        (((b[pos] % 64) as int * 256 + b[pos + 1] as int) * 256 + b[pos + 2] as int) * 256
            + b[pos + 3] as int
    }
}

/// The minimal prefix size for a length.
pub open spec fn minimal_prefix_size(length: int) -> int {
    if length <= 0x3f {
        1
    } else if length <= 0x3fff {
        2
    } else {
        4
    }
}

/// Reading byte strings from `pos`, up to the end `end` of the vector's
/// content: whether a reserved prefix byte is met before the reading stops
/// (at the end of the content, at the end of the bytes, at a prefix that is
/// not minimal, or at a byte string that runs past the bytes).
pub open spec fn hits_reserved_prefix_from(b: Seq<u8>, pos: int, end: int) -> bool
    decreases b.len() - pos,
{
    if pos < 0 || pos >= end || pos >= b.len() {
        false
    } else if b[pos] / 64 == 3 {
        true
    } else {
        let size = prefix_size(b[pos]);
        if pos + size > b.len() {
            false
        } else {
            let length = prefix_value(b, pos, size);
            if minimal_prefix_size(length) != size || pos + size + length > b.len() {
                false
            } else {
                hits_reserved_prefix_from(b, pos + size + length, end)
            }
        }
    }
}

/// Reading byte strings from `pos` up to the end `end` of the vector's
/// content, as `tls_codec` reads them: the byte strings, or the name of
/// the error that stops the reading. A string is read whole even when it
/// runs past `end`; bytes after the vector are left unread. A reserved
/// prefix byte is an `InvalidVectorLength`, as `tls_codec` reports it when
/// built without debug assertions.
pub open spec fn read_byte_strings(b: Seq<u8>, pos: int, end: int) -> Result<
    Seq<Seq<u8>>,
    Seq<char>,
>
    decreases b.len() - pos,
{
    if pos < 0 || pos >= end {
        Ok(seq![])
    } else if pos >= b.len() {
        Err("InvalidVectorLength"@)
    } else if b[pos] / 64 == 3 {
        Err("InvalidVectorLength"@)
    } else {
        let size = prefix_size(b[pos]);
        if pos + size > b.len() {
            Err("EndOfStream"@)
        } else {
            let length = prefix_value(b, pos, size);
            if minimal_prefix_size(length) != size {
                Err("InvalidVectorLength"@)
            } else if pos + size + length > b.len() {
                Err("EndOfStream"@)
            } else {
                match read_byte_strings(b, pos + size + length, end) {
                    Ok(rest) => Ok(seq![b.subrange(pos + size, pos + size + length)] + rest),
                    Err(e) => Err(e),
                }
            }
        }
    }
}

/// The client list in `b`: a 32-bit big-endian content length, then byte
/// strings; or the name of the error that stops the reading.
pub open spec fn client_list(b: Seq<u8>) -> Result<Seq<Seq<u8>>, Seq<char>> {
    if b.len() < 4 {
        Err("EndOfStream"@)
    } else {
        read_byte_strings(b, 4, 4 + be32(b))
    }
}

proof fn lemma_reserved_reading(b: Seq<u8>, pos: int, end: int)
    requires
        hits_reserved_prefix_from(b, pos, end),
    ensures
        read_byte_strings(b, pos, end) == Err::<Seq<Seq<u8>>, Seq<char>>("InvalidVectorLength"@),
    decreases b.len() - pos,
{
    if !(b[pos] / 64 == 3) {
        let size = prefix_size(b[pos]);
        let length = prefix_value(b, pos, size);
        lemma_reserved_reading(b, pos + size + length, end);
    }
}

/// A reply whose reading meets a reserved prefix byte reads as an
/// `InvalidVectorLength`.
pub proof fn lemma_reserved_client_list(b: Seq<u8>)
    requires
        hits_reserved_prefix(b),
    ensures
        client_list(b) == Err::<Seq<Seq<u8>>, Seq<char>>("InvalidVectorLength"@),
{
    lemma_reserved_reading(b, 4, 4 + be32(b));
}

/// Whether reading `b` as a client list meets a reserved prefix byte.
pub open spec fn hits_reserved_prefix(b: Seq<u8>) -> bool {
    b.len() >= 4 && hits_reserved_prefix_from(b, 4, 4 + be32(b))
}

/// Whether reading `b` as a client list meets a reserved prefix byte.
pub fn has_reserved_prefix(b: &[u8]) -> (r: bool)
    ensures
        r == hits_reserved_prefix(b@),
{
    if b.len() < 4 {
        return false;
    }
    let end: u64 = 4 + (((b[0] as u64 * 256 + b[1] as u64) * 256 + b[2] as u64) * 256
        + b[3] as u64);
    let mut pos: usize = 4;
    while (pos as u64) < end && pos < b.len()
        invariant
            4 <= pos <= b.len(),
            end == 4 + be32(b@),
            hits_reserved_prefix(b@) == hits_reserved_prefix_from(b@, pos as int, end as int),
        decreases b.len() - pos,
    {
        let first = b[pos];
        if first / 64 == 3 {
            return true;
        }
        let size: usize = if first / 64 == 0 {
            1
        } else if first / 64 == 1 {
            2
        } else {
            4
        };
        if size > b.len() - pos {
            return false;
        }
        let length: u64 = if size == 1 {
            (first % 64) as u64
        } else if size == 2 {
            (first % 64) as u64 * 256 + b[pos + 1] as u64
        } else {
            ((((first % 64) as u64 * 256 + b[pos + 1] as u64) * 256) + b[pos + 2] as u64) * 256
                + b[pos + 3] as u64
        };
        let minimal: usize = if length <= 0x3f {
            1
        } else if length <= 0x3fff {
            2
        } else {
            4
        };
        if minimal != size || length > (b.len() - pos - size) as u64 {
            return false;
        }
        pos = pos + size + length as usize;
    }
    false
}

/// The variable-length prefix written before a byte string of length `n`
/// (below 2^30): the value in the minimal size, the size in the two top
/// bits of the first byte.
pub open spec fn length_prefix(n: nat) -> Seq<u8> {
    if n <= 0x3f {
        seq![n as u8]
    } else if n <= 0x3fff {
        seq![(0x40 + n / 0x100) as u8, (n % 0x100) as u8]
    } else {
        seq![
            (0x80 + n / 0x100_0000) as u8,
            (n / 0x1_0000 % 0x100) as u8,
            (n / 0x100 % 0x100) as u8,
            (n % 0x100) as u8,
        ]
    }
}

/// Byte strings written one after another, each after its prefix.
pub open spec fn encode_byte_strings(items: Seq<Seq<u8>>) -> Seq<u8>
    decreases items.len(),
{
    if items.len() == 0 {
        seq![]
    } else {
        length_prefix(items[0].len()) + items[0] + encode_byte_strings(items.drop_first())
    }
}

/// The four big-endian bytes of `n` (below 2^32).
pub open spec fn be32_bytes(n: nat) -> Seq<u8> {
    seq![
        (n / 0x100_0000) as u8,
        (n / 0x1_0000 % 0x100) as u8,
        (n / 0x100 % 0x100) as u8,
        (n % 0x100) as u8,
    ]
}

/// A client list as written: the content length in four big-endian bytes,
/// then the byte strings.
pub open spec fn encode_client_list(items: Seq<Seq<u8>>) -> Seq<u8> {
    be32_bytes(encode_byte_strings(items).len()) + encode_byte_strings(items)
}

proof fn lemma_be32_bytes(n: nat)
    requires
        n < 0x1_0000_0000,
    ensures
        be32(be32_bytes(n)) == n,
{
    let b = be32_bytes(n);
    let n1 = n / 0x100;
    let n2 = n1 / 0x100;
    assert(n / 0x1_0000 == n2) by (nonlinear_arith)
        requires n1 == n / 0x100, n2 == n1 / 0x100;
    assert(n / 0x100_0000 == n2 / 0x100) by (nonlinear_arith)
        requires n2 == n / 0x1_0000;
    assert(n == n1 * 0x100 + n % 0x100) by (nonlinear_arith)
        requires n1 == n / 0x100;
    assert(n1 == n2 * 0x100 + n1 % 0x100) by (nonlinear_arith)
        requires n2 == n1 / 0x100;
    assert(n2 == (n2 / 0x100) * 0x100 + n2 % 0x100) by (nonlinear_arith);
    assert(n2 / 0x100 < 0x100) by (nonlinear_arith)
        requires n2 == n / 0x1_0000, n < 0x1_0000_0000;
    assert(b[0] as int == n2 / 0x100);
    assert(b[1] as int == n2 % 0x100);
    assert(b[2] as int == n1 % 0x100);
    assert(b[3] as int == n % 0x100);
}

proof fn lemma_length_prefix(n: nat)
    requires
        n < 0x4000_0000,
    ensures
        length_prefix(n).len() == minimal_prefix_size(n as int),
        length_prefix(n)[0] / 64 != 3,
        prefix_size(length_prefix(n)[0]) == length_prefix(n).len(),
        prefix_value(length_prefix(n), 0, length_prefix(n).len() as int) == n,
{
    let p = length_prefix(n);
    if n <= 0x3f {
        assert(p[0] as int == n);
    } else if n <= 0x3fff {
        let q = n / 0x100;
        assert(q < 64 && n == q * 0x100 + n % 0x100) by (nonlinear_arith)
            requires q == n / 0x100, n <= 0x3fff;
        assert(p[0] as int == 0x40 + q);
        assert(p[1] as int == n % 0x100);
    } else {
        let n1 = n / 0x100;
        let n2 = n1 / 0x100;
        let n3 = n2 / 0x100;
        assert(n / 0x1_0000 == n2) by (nonlinear_arith)
            requires n1 == n / 0x100, n2 == n1 / 0x100;
        assert(n / 0x100_0000 == n3) by (nonlinear_arith)
            requires n2 == n / 0x1_0000, n3 == n2 / 0x100;
        assert(n == n1 * 0x100 + n % 0x100) by (nonlinear_arith)
            requires n1 == n / 0x100;
        assert(n1 == n2 * 0x100 + n1 % 0x100) by (nonlinear_arith)
            requires n2 == n1 / 0x100;
        assert(n2 == n3 * 0x100 + n2 % 0x100) by (nonlinear_arith)
            requires n3 == n2 / 0x100;
        assert(n3 < 64) by (nonlinear_arith)
            requires n3 == n / 0x100_0000, n < 0x4000_0000;
        assert(p[0] as int == 0x80 + n3);
        assert(p[1] as int == n2 % 0x100);
        assert(p[2] as int == n1 % 0x100);
        assert(p[3] as int == n % 0x100);
    }
}

proof fn lemma_read_encoded(b: Seq<u8>, pos: int, items: Seq<Seq<u8>>)
    requires
        0 <= pos,
        pos + encode_byte_strings(items).len() <= b.len(),
        b.subrange(pos, pos + encode_byte_strings(items).len()) == encode_byte_strings(items),
        forall|i: int| 0 <= i < items.len() ==> (#[trigger] items[i]).len() < 0x4000_0000,
    ensures
        read_byte_strings(b, pos, pos + encode_byte_strings(items).len()) == Ok::<
            Seq<Seq<u8>>,
            Seq<char>,
        >(items),
        !hits_reserved_prefix_from(b, pos, pos + encode_byte_strings(items).len()),
    decreases items.len(),
{
    let e = encode_byte_strings(items);
    let end = pos + e.len();
    if items.len() > 0 {
        let x = items[0];
        let rest = items.drop_first();
        let p = length_prefix(x.len());
        let size = p.len() as int;
        let er = encode_byte_strings(rest);
        lemma_length_prefix(x.len());
        assert(e == p + x + er);
        assert forall|k: int| 0 <= k < size implies b[pos + k] == p[k] by {
            assert(b.subrange(pos, end)[k] == e[k]);
        }
        assert(prefix_value(b, pos, size) == prefix_value(p, 0, size));
        assert(b.subrange(pos + size, pos + size + x.len()) =~= x) by {
            assert forall|k: int| 0 <= k < x.len() implies b.subrange(
                pos + size,
                pos + size + x.len(),
            )[k] == x[k] by {
                assert(b.subrange(pos, end)[size + k] == e[size + k]);
            }
        }
        let next = pos + size + x.len();
        assert(b.subrange(next, next + er.len()) =~= er) by {
            assert forall|k: int| 0 <= k < er.len() implies b.subrange(next, next + er.len())[k]
                == er[k] by {
                assert(b.subrange(pos, end)[size + x.len() + k] == e[size + x.len() + k]);
            }
        }
        assert forall|i: int| 0 <= i < rest.len() implies (#[trigger] rest[i]).len()
            < 0x4000_0000 by {
            assert(rest[i] == items[i + 1]);
        }
        lemma_read_encoded(b, next, rest);
        assert(next + er.len() == end);
        assert(b[pos] == p[0]);
        assert(prefix_size(b[pos]) == size);
        assert(prefix_value(b, pos, size) == x.len());
        assert(seq![x] + rest =~= items);
        assert(read_byte_strings(b, pos, end) == Ok::<Seq<Seq<u8>>, Seq<char>>(
            seq![b.subrange(pos + size, pos + size + x.len())] + rest,
        ));
    } else {
        assert(items =~= Seq::<Seq<u8>>::empty());
    }
}

/// A client list reads back as written: the list of byte strings (each
/// shorter than 2^30 bytes, together with their prefixes shorter than 2^32)
/// written with its length and prefixes is read back whole and in order,
/// and the reading meets no reserved prefix.
pub proof fn law_client_list_round_trip(items: Seq<Seq<u8>>)
    requires
        forall|i: int| 0 <= i < items.len() ==> (#[trigger] items[i]).len() < 0x4000_0000,
        encode_byte_strings(items).len() < 0x1_0000_0000,
    ensures
        client_list(encode_client_list(items)) == Ok::<Seq<Seq<u8>>, Seq<char>>(items),
        !hits_reserved_prefix(encode_client_list(items)),
{
    let e = encode_byte_strings(items);
    let b = encode_client_list(items);
    lemma_be32_bytes(e.len());
    assert(b.subrange(0, 4) =~= be32_bytes(e.len()));
    assert(be32(b) == be32(be32_bytes(e.len())));
    assert(b.subrange(4, 4 + e.len() as int) =~= e);
    lemma_read_encoded(b, 4, items);
}

/// A reply whose first byte string has a reserved prefix byte is refused
/// as an `InvalidVectorLength`.
pub proof fn law_reserved_first_prefix(b: Seq<u8>)
    requires
        b.len() > 4,
        be32(b) > 0,
        b[4] >= 0xc0,
    ensures
        hits_reserved_prefix(b),
        client_list(b) == Err::<Seq<Seq<u8>>, Seq<char>>("InvalidVectorLength"@),
{
    lemma_reserved_client_list(b);
}

} // verus!
