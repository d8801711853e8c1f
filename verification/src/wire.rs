//! The deterministic wire form the signing protocol serializes requests to:
//! numbered fields, each a base-128 varint or a length-delimited byte string,
//! emitted in ascending field order.  Fields holding their default value
//! (zero, or an empty byte string) are omitted; an embedded record is emitted
//! whenever it is present.  The layout is fixed, so equal requests always
//! serialize to equal bytes.

use vstd::prelude::*;
use vstd::string::StringSliceAdditionalSpecFns;

verus! {

/// Base-128 varint encoding, least significant group first.
pub open spec fn varint(v: nat) -> Seq<u8>
    decreases v,
{
    if v < 128 {
        seq![v as u8]
    } else {
        seq![(v % 128 + 128) as u8] + varint(v / 128)
    }
}

/// Key of a field: field number and wire type packed in one varint.
pub open spec fn key(field: nat, wire: nat) -> Seq<u8> {
    varint(field * 8 + wire)
}

/// An unsigned integer field; omitted when zero.
pub open spec fn uint_field(field: nat, v: nat) -> Seq<u8> {
    if v == 0 {
        Seq::empty()
    } else {
        key(field, 0) + varint(v)
    }
}

/// A length-delimited field; omitted when empty.
pub open spec fn bytes_field(field: nat, b: Seq<u8>) -> Seq<u8> {
    if b.len() == 0 {
        Seq::empty()
    } else {
        key(field, 2) + varint(b.len()) + b
    }
}

/// An embedded record: length-delimited and emitted even when empty.
pub open spec fn record_field(field: nat, b: Seq<u8>) -> Seq<u8> {
    key(field, 2) + varint(b.len()) + b
}

/// Append the varint encoding of `v`.
pub fn put_varint(buf: &mut Vec<u8>, v: u64)
    ensures
        final(buf)@ == old(buf)@ + varint(v as nat),
{
    let ghost base: Seq<u8> = buf@;
    let ghost mut emitted: Seq<u8> = Seq::empty();
    let mut x = v;
    proof {
        assert(buf@ =~= base + emitted);
    }
    while x >= 128
        invariant
            buf@ == base + emitted,
            varint(v as nat) == emitted + varint(x as nat),
        decreases x,
    {
        let byte: u8 = ((x % 128) + 128) as u8;
        buf.push(byte);
        proof {
            assert(varint(x as nat) == seq![byte] + varint((x / 128) as nat));
            emitted = emitted.push(byte);
            assert(buf@ =~= base + emitted);
            assert(emitted + varint((x / 128) as nat)
                =~= (emitted.drop_last() + seq![byte]) + varint((x / 128) as nat));
            assert(emitted.drop_last() + seq![byte] =~= emitted);
            assert(varint(v as nat) =~= emitted + varint((x / 128) as nat));
        }
        x = x / 128;
    }
    buf.push(x as u8);
    proof {
        assert(varint(x as nat) =~= seq![x as u8]);
        assert(buf@ =~= base + emitted + varint(x as nat));
        assert(buf@ =~= base + varint(v as nat));
    }
}

/// Append an unsigned integer field.
pub fn put_uint(buf: &mut Vec<u8>, field: u32, v: u64)
    requires
        1 <= field <= 1000,
    ensures
        final(buf)@ == old(buf)@ + uint_field(field as nat, v as nat),
{
    if v == 0 {
        proof {
            assert(buf@ =~= old(buf)@ + uint_field(field as nat, v as nat));
        }
        return ;
    }
    let ghost base: Seq<u8> = buf@;
    put_varint(buf, (field as u64) * 8);
    put_varint(buf, v);
    proof {
        assert(buf@ =~= base + uint_field(field as nat, v as nat));
    }
}

/// Append a length-delimited field from raw bytes.
pub fn put_bytes(buf: &mut Vec<u8>, field: u32, b: &[u8])
    requires
        1 <= field <= 1000,
    ensures
        final(buf)@ == old(buf)@ + bytes_field(field as nat, b@),
{
    if b.len() == 0 {
        proof {
            assert(buf@ =~= old(buf)@ + bytes_field(field as nat, b@));
        }
        return ;
    }
    let ghost base: Seq<u8> = buf@;
    put_varint(buf, (field as u64) * 8 + 2);
    put_varint(buf, b.len() as u64);
    buf.extend_from_slice(b);
    proof {
        assert(buf@ =~= base + bytes_field(field as nat, b@));
    }
}

/// Append a length-delimited field from string text (its UTF-8 bytes).
pub fn put_str(buf: &mut Vec<u8>, field: u32, s: &str)
    requires
        1 <= field <= 1000,
    ensures
        final(buf)@ == old(buf)@ + bytes_field(field as nat, s.spec_bytes()),
{
    let b = s.as_bytes();
    put_bytes(buf, field, b);
}

/// A repeated length-delimited field: one record per element, in order, each
/// emitted even when empty.
pub open spec fn repeated_bytes(field: nat, elems: Seq<Seq<u8>>) -> Seq<u8>
    decreases elems.len(),
{
    if elems.len() == 0 {
        Seq::empty()
    } else {
        repeated_bytes(field, elems.drop_last()) + record_field(field, elems.last())
    }
}

/// Append a repeated length-delimited field, element by element.
pub fn put_repeated(buf: &mut Vec<u8>, field: u32, elems: &Vec<Vec<u8>>)
    requires
        1 <= field <= 1000,
    ensures
        final(buf)@ == old(buf)@ + repeated_bytes(field as nat, elems.deep_view()),
{
    let ghost base: Seq<u8> = buf@;
    let mut i: usize = 0;
    proof {
        assert(elems.deep_view().take(0) =~= Seq::<Seq<u8>>::empty());
        assert(buf@ =~= base + repeated_bytes(field as nat, elems.deep_view().take(0)));
    }
    while i < elems.len()
        invariant
            1 <= field <= 1000,
            0 <= i <= elems@.len(),
            elems.deep_view().len() == elems@.len(),
            buf@ == base + repeated_bytes(field as nat, elems.deep_view().take(i as int)),
        decreases elems@.len() - i,
    {
        put_record(buf, field, &elems[i]);
        proof {
            assert(elems.deep_view().take(i + 1).drop_last() =~= elems.deep_view().take(i as int));
            assert(elems.deep_view().take(i + 1).last() == elems@[i as int]@);
            assert(buf@ =~= base + repeated_bytes(field as nat, elems.deep_view().take(i + 1)));
        }
        i = i + 1;
    }
    proof {
        assert(elems.deep_view().take(elems@.len() as int) =~= elems.deep_view());
    }
}

/// Append an embedded record that is present.
pub fn put_record(buf: &mut Vec<u8>, field: u32, b: &Vec<u8>)
    requires
        1 <= field <= 1000,
    ensures
        final(buf)@ == old(buf)@ + record_field(field as nat, b@),
{
    let ghost base: Seq<u8> = buf@;
    put_varint(buf, (field as u64) * 8 + 2);
    put_varint(buf, b.len() as u64);
    buf.extend_from_slice(b.as_slice());
    proof {
        assert(buf@ =~= base + record_field(field as nat, b@));
    }
}

} // verus!
