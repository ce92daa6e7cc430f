use vstd::prelude::*;
use vstd::bytes::lemma_auto_spec_u32_to_from_le_bytes;
use vstd::bytes::lemma_auto_spec_u64_to_from_le_bytes;
use vstd::bytes::spec_u32_from_le_bytes;
use vstd::bytes::spec_u32_to_le_bytes;
use vstd::bytes::spec_u64_from_le_bytes;
use vstd::bytes::spec_u64_to_le_bytes;
use vstd::bytes::u32_from_le_bytes;
use vstd::bytes::u32_to_le_bytes;
use vstd::bytes::u64_from_le_bytes;
use vstd::bytes::u64_to_le_bytes;
use vstd::slice::slice_subrange;
use vstd::slice::slice_to_vec;
use crate::principal::Principal;

verus! {

// The wire layer: every record is laid out as a concatenation of these
// pieces — fixed-width little-endian integers, 32-byte principals,
// length-prefixed byte strings, a presence byte before each optional
// field, and a one-byte discriminant for each enum.
//
// Each piece has a spec encoder `enc_*` over sequences, a spec decoder
// `dec_*` that consumes the front of a sequence and returns the value
// with the remainder, a pair of lemmas — decoding an encoding yields
// the value back, and whatever decodes re-encodes to the same bytes —
// and exec functions `put_*` / `read_*` proved against them.

/// Longest byte string a 32-bit length prefix can announce.
pub const MAX_WIRE_LEN: u64 = 0xFFFF_FFFF;

pub open spec fn enc_u8(x: u8) -> Seq<u8> {
    seq![x]
}

pub open spec fn dec_u8(s: Seq<u8>) -> Option<(u8, Seq<u8>)> {
    if s.len() >= 1 {
        Some((s[0], s.skip(1)))
    } else {
        None
    }
}

pub open spec fn enc_u32(x: u32) -> Seq<u8> {
    spec_u32_to_le_bytes(x)
}

pub open spec fn dec_u32(s: Seq<u8>) -> Option<(u32, Seq<u8>)> {
    if s.len() >= 4 {
        Some((spec_u32_from_le_bytes(s.subrange(0, 4)), s.skip(4)))
    } else {
        None
    }
}

pub open spec fn enc_u64(x: u64) -> Seq<u8> {
    spec_u64_to_le_bytes(x)
}

pub open spec fn dec_u64(s: Seq<u8>) -> Option<(u64, Seq<u8>)> {
    if s.len() >= 8 {
        Some((spec_u64_from_le_bytes(s.subrange(0, 8)), s.skip(8)))
    } else {
        None
    }
}

/// A signed timestamp on the wire: its 64-bit two's-complement image.
pub open spec fn wrap_i64(x: i64) -> u64 {
    if x >= 0 {
        x as u64
    } else {
        ((x as int) + 0x1_0000_0000_0000_0000) as u64
    }
}

/// The signed value a 64-bit two's-complement image stands for.
pub open spec fn unwrap_i64(y: u64) -> i64 {
    if y <= i64::MAX as u64 {
        y as i64
    } else {
        ((y as int) - 0x1_0000_0000_0000_0000) as i64
    }
}

pub open spec fn enc_i64(x: i64) -> Seq<u8> {
    enc_u64(wrap_i64(x))
}

pub open spec fn dec_i64(s: Seq<u8>) -> Option<(i64, Seq<u8>)> {
    match dec_u64(s) {
        Some(p) => Some((unwrap_i64(p.0), p.1)),
        None => None,
    }
}

pub open spec fn enc_principal(p: Principal) -> Seq<u8> {
    enc_u64(p.w0) + (enc_u64(p.w1) + (enc_u64(p.w2) + enc_u64(p.w3)))
}

pub open spec fn dec_principal(s: Seq<u8>) -> Option<(Principal, Seq<u8>)> {
    match dec_u64(s) {
        Some((w0, s1)) => match dec_u64(s1) {
            Some((w1, s2)) => match dec_u64(s2) {
                Some((w2, s3)) => match dec_u64(s3) {
                    Some((w3, s4)) => Some((Principal { w0, w1, w2, w3 }, s4)),
                    None => None,
                },
                None => None,
            },
            None => None,
        },
        None => None,
    }
}

/// A byte string: a 32-bit length prefix, then the bytes themselves.
pub open spec fn enc_bytes(t: Seq<u8>) -> Seq<u8>
    recommends
        t.len() <= MAX_WIRE_LEN,
{
    enc_u32(t.len() as u32) + t
}

/// Decoding caps the announced length at `cap`, the bound the record
/// declares for the field.
pub open spec fn dec_bytes(s: Seq<u8>, cap: int) -> Option<(Seq<u8>, Seq<u8>)> {
    match dec_u32(s) {
        Some((n, r)) => if n <= cap && r.len() >= n {
            Some((r.take(n as int), r.skip(n as int)))
        } else {
            None
        },
        None => None,
    }
}

/// An optional value: a presence byte, 0 for absent and 1 for present,
/// then the value itself.
pub open spec fn enc_opt_principal(o: Option<Principal>) -> Seq<u8> {
    match o {
        None => enc_u8(0),
        Some(p) => enc_u8(1) + enc_principal(p),
    }
}

pub open spec fn dec_opt_principal(s: Seq<u8>) -> Option<(Option<Principal>, Seq<u8>)> {
    match dec_u8(s) {
        Some((tag, r)) => if tag == 0 {
            Some((None, r))
        } else if tag == 1 {
            match dec_principal(r) {
                Some((p, r2)) => Some((Some(p), r2)),
                None => None,
            }
        } else {
            None
        },
        None => None,
    }
}

pub open spec fn enc_opt_i64(o: Option<i64>) -> Seq<u8> {
    match o {
        None => enc_u8(0),
        Some(x) => enc_u8(1) + enc_i64(x),
    }
}

pub open spec fn dec_opt_i64(s: Seq<u8>) -> Option<(Option<i64>, Seq<u8>)> {
    match dec_u8(s) {
        Some((tag, r)) => if tag == 0 {
            Some((None, r))
        } else if tag == 1 {
            match dec_i64(r) {
                Some((x, r2)) => Some((Some(x), r2)),
                None => None,
            }
        } else {
            None
        },
        None => None,
    }
}

pub open spec fn enc_opt_bytes(o: Option<Seq<u8>>) -> Seq<u8> {
    match o {
        None => enc_u8(0),
        Some(t) => enc_u8(1) + enc_bytes(t),
    }
}

pub open spec fn dec_opt_bytes(s: Seq<u8>, cap: int) -> Option<(Option<Seq<u8>>, Seq<u8>)> {
    match dec_u8(s) {
        Some((tag, r)) => if tag == 0 {
            Some((None, r))
        } else if tag == 1 {
            match dec_bytes(r, cap) {
                Some((t, r2)) => Some((Some(t), r2)),
                None => None,
            }
        } else {
            None
        },
        None => None,
    }
}

/// The byte strings an optional text field holds, stripped of the
/// vectors that carry them.
pub open spec fn opt_bytes_view(o: Option<Vec<u8>>) -> Option<Seq<u8>> {
    match o {
        Some(v) => Some(v@),
        None => None,
    }
}

pub proof fn lemma_concat_assoc(a: Seq<u8>, b: Seq<u8>, c: Seq<u8>)
    ensures
        (a + b) + c == a + (b + c),
{
    assert((a + b) + c =~= a + (b + c));
}

pub proof fn lemma_dec_enc_u8(x: u8, rest: Seq<u8>)
    ensures
        dec_u8(enc_u8(x) + rest) == Some((x, rest)),
{
    let s = enc_u8(x) + rest;
    assert(s.skip(1) =~= rest);
}

pub proof fn lemma_dec_u8_canonical(s: Seq<u8>)
    ensures
        dec_u8(s) matches Some(p) ==> s == enc_u8(p.0) + p.1,
{
    if s.len() >= 1 {
        assert(s =~= enc_u8(s[0]) + s.skip(1));
    }
}

pub proof fn lemma_dec_enc_u32(x: u32, rest: Seq<u8>)
    ensures
        dec_u32(enc_u32(x) + rest) == Some((x, rest)),
{
    lemma_auto_spec_u32_to_from_le_bytes();
    let s = enc_u32(x) + rest;
    assert(s.subrange(0, 4) =~= enc_u32(x));
    assert(s.skip(4) =~= rest);
}

pub proof fn lemma_dec_u32_canonical(s: Seq<u8>)
    ensures
        dec_u32(s) matches Some(p) ==> s == enc_u32(p.0) + p.1,
{
    lemma_auto_spec_u32_to_from_le_bytes();
    if s.len() >= 4 {
        assert(s.subrange(0, 4).len() == 4);
        assert(s =~= spec_u32_to_le_bytes(spec_u32_from_le_bytes(s.subrange(0, 4))) + s.skip(4));
    }
}

pub proof fn lemma_dec_enc_u64(x: u64, rest: Seq<u8>)
    ensures
        dec_u64(enc_u64(x) + rest) == Some((x, rest)),
{
    lemma_auto_spec_u64_to_from_le_bytes();
    let s = enc_u64(x) + rest;
    assert(s.subrange(0, 8) =~= enc_u64(x));
    assert(s.skip(8) =~= rest);
}

pub proof fn lemma_dec_u64_canonical(s: Seq<u8>)
    ensures
        dec_u64(s) matches Some(p) ==> s == enc_u64(p.0) + p.1,
{
    lemma_auto_spec_u64_to_from_le_bytes();
    if s.len() >= 8 {
        assert(s.subrange(0, 8).len() == 8);
        assert(s =~= spec_u64_to_le_bytes(spec_u64_from_le_bytes(s.subrange(0, 8))) + s.skip(8));
    }
}

pub proof fn lemma_unwrap_wrap_i64(x: i64)
    ensures
        unwrap_i64(wrap_i64(x)) == x,
{
}

pub proof fn lemma_wrap_unwrap_i64(y: u64)
    ensures
        wrap_i64(unwrap_i64(y)) == y,
{
}

pub proof fn lemma_dec_enc_i64(x: i64, rest: Seq<u8>)
    ensures
        dec_i64(enc_i64(x) + rest) == Some((x, rest)),
{
    lemma_dec_enc_u64(wrap_i64(x), rest);
    lemma_unwrap_wrap_i64(x);
}

pub proof fn lemma_dec_i64_canonical(s: Seq<u8>)
    ensures
        dec_i64(s) matches Some(p) ==> s == enc_i64(p.0) + p.1,
{
    lemma_dec_u64_canonical(s);
    if s.len() >= 8 {
        lemma_wrap_unwrap_i64(spec_u64_from_le_bytes(s.subrange(0, 8)));
    }
}

pub proof fn lemma_dec_enc_principal(p: Principal, rest: Seq<u8>)
    ensures
        dec_principal(enc_principal(p) + rest) == Some((p, rest)),
{
    let e0 = enc_u64(p.w0);
    let e1 = enc_u64(p.w1);
    let e2 = enc_u64(p.w2);
    let e3 = enc_u64(p.w3);
    lemma_concat_assoc(e0, e1 + (e2 + e3), rest);
    lemma_dec_enc_u64(p.w0, (e1 + (e2 + e3)) + rest);
    lemma_concat_assoc(e1, e2 + e3, rest);
    lemma_dec_enc_u64(p.w1, (e2 + e3) + rest);
    lemma_concat_assoc(e2, e3, rest);
    lemma_dec_enc_u64(p.w2, e3 + rest);
    lemma_dec_enc_u64(p.w3, rest);
}

pub proof fn lemma_dec_principal_canonical(s: Seq<u8>)
    ensures
        dec_principal(s) matches Some(p) ==> s == enc_principal(p.0) + p.1,
{
    if dec_principal(s) is Some {
        let rest = dec_principal(s)->Some_0.1;
        let (w0, s1) = dec_u64(s)->Some_0;
        let (w1, s2) = dec_u64(s1)->Some_0;
        let (w2, s3) = dec_u64(s2)->Some_0;
        let (w3, s4) = dec_u64(s3)->Some_0;
        lemma_dec_u64_canonical(s);
        lemma_dec_u64_canonical(s1);
        lemma_dec_u64_canonical(s2);
        lemma_dec_u64_canonical(s3);
        lemma_concat_assoc(enc_u64(w2), enc_u64(w3), rest);
        lemma_concat_assoc(enc_u64(w1), enc_u64(w2) + enc_u64(w3), rest);
        lemma_concat_assoc(enc_u64(w0), enc_u64(w1) + (enc_u64(w2) + enc_u64(w3)), rest);
    }
}

pub proof fn lemma_dec_enc_bytes(t: Seq<u8>, rest: Seq<u8>, cap: int)
    requires
        t.len() <= cap,
        cap <= MAX_WIRE_LEN,
    ensures
        dec_bytes(enc_bytes(t) + rest, cap) == Some((t, rest)),
{
    let n = t.len() as u32;
    lemma_concat_assoc(enc_u32(n), t, rest);
    lemma_dec_enc_u32(n, t + rest);
    assert((t + rest).take(n as int) =~= t);
    assert((t + rest).skip(n as int) =~= rest);
}

pub proof fn lemma_dec_bytes_canonical(s: Seq<u8>, cap: int)
    requires
        cap <= MAX_WIRE_LEN,
    ensures
        dec_bytes(s, cap) matches Some(p) ==> p.0.len() <= cap && s == enc_bytes(p.0) + p.1,
{
    if dec_bytes(s, cap) is Some {
        let (t, rest) = dec_bytes(s, cap)->Some_0;
        let (n, r) = dec_u32(s)->Some_0;
        lemma_dec_u32_canonical(s);
        assert(t.len() == n);
        assert(r =~= t + rest);
        lemma_concat_assoc(enc_u32(n), t, rest);
    }
}

pub proof fn lemma_dec_enc_opt_principal(o: Option<Principal>, rest: Seq<u8>)
    ensures
        dec_opt_principal(enc_opt_principal(o) + rest) == Some((o, rest)),
{
    match o {
        None => {
            lemma_dec_enc_u8(0, rest);
        }
        Some(p) => {
            lemma_concat_assoc(enc_u8(1), enc_principal(p), rest);
            lemma_dec_enc_u8(1, enc_principal(p) + rest);
            lemma_dec_enc_principal(p, rest);
        }
    }
}

pub proof fn lemma_dec_opt_principal_canonical(s: Seq<u8>)
    ensures
        dec_opt_principal(s) matches Some(p) ==> s == enc_opt_principal(p.0) + p.1,
{
    if dec_opt_principal(s) is Some {
        let (tag, r) = dec_u8(s)->Some_0;
        lemma_dec_u8_canonical(s);
        if tag == 1 {
            lemma_dec_principal_canonical(r);
            let (p, r2) = dec_principal(r)->Some_0;
            lemma_concat_assoc(enc_u8(1), enc_principal(p), r2);
        }
    }
}

pub proof fn lemma_dec_enc_opt_i64(o: Option<i64>, rest: Seq<u8>)
    ensures
        dec_opt_i64(enc_opt_i64(o) + rest) == Some((o, rest)),
{
    match o {
        None => {
            lemma_dec_enc_u8(0, rest);
        }
        Some(x) => {
            lemma_concat_assoc(enc_u8(1), enc_i64(x), rest);
            lemma_dec_enc_u8(1, enc_i64(x) + rest);
            lemma_dec_enc_i64(x, rest);
        }
    }
}

pub proof fn lemma_dec_opt_i64_canonical(s: Seq<u8>)
    ensures
        dec_opt_i64(s) matches Some(p) ==> s == enc_opt_i64(p.0) + p.1,
{
    if dec_opt_i64(s) is Some {
        let (tag, r) = dec_u8(s)->Some_0;
        lemma_dec_u8_canonical(s);
        if tag == 1 {
            lemma_dec_i64_canonical(r);
            let (x, r2) = dec_i64(r)->Some_0;
            lemma_concat_assoc(enc_u8(1), enc_i64(x), r2);
        }
    }
}

pub proof fn lemma_dec_enc_opt_bytes(o: Option<Seq<u8>>, rest: Seq<u8>, cap: int)
    requires
        o matches Some(t) ==> t.len() <= cap,
        cap <= MAX_WIRE_LEN,
    ensures
        dec_opt_bytes(enc_opt_bytes(o) + rest, cap) == Some((o, rest)),
{
    match o {
        None => {
            lemma_dec_enc_u8(0, rest);
        }
        Some(t) => {
            lemma_concat_assoc(enc_u8(1), enc_bytes(t), rest);
            lemma_dec_enc_u8(1, enc_bytes(t) + rest);
            lemma_dec_enc_bytes(t, rest, cap);
        }
    }
}

pub proof fn lemma_dec_opt_bytes_canonical(s: Seq<u8>, cap: int)
    requires
        cap <= MAX_WIRE_LEN,
    ensures
        dec_opt_bytes(s, cap) matches Some(p) ==> {
            &&& p.0 matches Some(t) ==> t.len() <= cap
            &&& s == enc_opt_bytes(p.0) + p.1
        },
{
    if dec_opt_bytes(s, cap) is Some {
        let (tag, r) = dec_u8(s)->Some_0;
        lemma_dec_u8_canonical(s);
        if tag == 1 {
            lemma_dec_bytes_canonical(r, cap);
            let (t, r2) = dec_bytes(r, cap)->Some_0;
            lemma_concat_assoc(enc_u8(1), enc_bytes(t), r2);
        }
    }
}

pub fn put_u8(out: &mut Vec<u8>, x: u8)
    ensures
        final(out)@ == old(out)@ + enc_u8(x),
{
    out.push(x);
    proof {
        assert(final(out)@ =~= old(out)@ + enc_u8(x));
    }
}

pub fn put_u32(out: &mut Vec<u8>, x: u32)
    ensures
        final(out)@ == old(out)@ + enc_u32(x),
{
    let mut b = u32_to_le_bytes(x);
    out.append(&mut b);
}

pub fn put_u64(out: &mut Vec<u8>, x: u64)
    ensures
        final(out)@ == old(out)@ + enc_u64(x),
{
    let mut b = u64_to_le_bytes(x);
    out.append(&mut b);
}

/// The two's-complement image a timestamp is written as.
pub fn i64_to_wire(x: i64) -> (r: u64)
    ensures
        r == wrap_i64(x),
{
    if x >= 0 {
        x as u64
    } else {
        ((x as i128) + 0x1_0000_0000_0000_0000i128) as u64
    }
}

/// The timestamp a two's-complement image stands for.
pub fn wire_to_i64(y: u64) -> (r: i64)
    ensures
        r == unwrap_i64(y),
{
    if y <= i64::MAX as u64 {
        y as i64
    } else {
        ((y as i128) - 0x1_0000_0000_0000_0000i128) as i64
    }
}

pub fn put_i64(out: &mut Vec<u8>, x: i64)
    ensures
        final(out)@ == old(out)@ + enc_i64(x),
{
    let w = i64_to_wire(x);
    put_u64(out, w);
}

pub fn put_principal(out: &mut Vec<u8>, p: Principal)
    ensures
        final(out)@ == old(out)@ + enc_principal(p),
{
    put_u64(out, p.w0);
    put_u64(out, p.w1);
    put_u64(out, p.w2);
    put_u64(out, p.w3);
    proof {
        let b = old(out)@;
        let e0 = enc_u64(p.w0);
        let e1 = enc_u64(p.w1);
        let e2 = enc_u64(p.w2);
        let e3 = enc_u64(p.w3);
        assert((((b + e0) + e1) + e2) + e3 =~= b + (e0 + (e1 + (e2 + e3))));
    }
}

pub fn put_bytes(out: &mut Vec<u8>, t: &Vec<u8>)
    requires
        t@.len() <= MAX_WIRE_LEN,
    ensures
        final(out)@ == old(out)@ + enc_bytes(t@),
{
    put_u32(out, t.len() as u32);
    let mut c = t.clone();
    out.append(&mut c);
    proof {
        assert((old(out)@ + enc_u32(t@.len() as u32)) + t@ =~= old(out)@ + enc_bytes(t@));
    }
}

pub fn put_opt_principal(out: &mut Vec<u8>, o: Option<Principal>)
    ensures
        final(out)@ == old(out)@ + enc_opt_principal(o),
{
    match o {
        None => {
            put_u8(out, 0);
        }
        Some(p) => {
            put_u8(out, 1);
            put_principal(out, p);
            proof {
                lemma_concat_assoc(old(out)@, enc_u8(1), enc_principal(p));
            }
        }
    }
}

pub fn put_opt_i64(out: &mut Vec<u8>, o: Option<i64>)
    ensures
        final(out)@ == old(out)@ + enc_opt_i64(o),
{
    match o {
        None => {
            put_u8(out, 0);
        }
        Some(x) => {
            put_u8(out, 1);
            put_i64(out, x);
            proof {
                lemma_concat_assoc(old(out)@, enc_u8(1), enc_i64(x));
            }
        }
    }
}

pub fn put_opt_bytes(out: &mut Vec<u8>, o: &Option<Vec<u8>>)
    requires
        o matches Some(t) ==> t@.len() <= MAX_WIRE_LEN,
    ensures
        final(out)@ == old(out)@ + enc_opt_bytes(opt_bytes_view(*o)),
{
    match o {
        None => {
            put_u8(out, 0);
        }
        Some(t) => {
            put_u8(out, 1);
            put_bytes(out, t);
            proof {
                lemma_concat_assoc(old(out)@, enc_u8(1), enc_bytes(t@));
            }
        }
    }
}

pub fn read_u8(data: &Vec<u8>, pos: usize) -> (r: Option<(u8, usize)>)
    requires
        pos <= data@.len(),
    ensures
        match r {
            Some(p) => pos < p.1 <= data@.len() && dec_u8(data@.skip(pos as int)) == Some(
                (p.0, data@.skip(p.1 as int)),
            ),
            None => dec_u8(data@.skip(pos as int)) is None,
        },
{
    if pos < data.len() {
        let v = data[pos];
        proof {
            assert(data@.skip(pos as int)[0] == v);
            assert(data@.skip(pos as int).skip(1) =~= data@.skip(pos as int + 1));
        }
        Some((v, pos + 1))
    } else {
        None
    }
}

pub fn read_u32(data: &Vec<u8>, pos: usize) -> (r: Option<(u32, usize)>)
    requires
        pos <= data@.len(),
    ensures
        match r {
            Some(p) => pos < p.1 <= data@.len() && dec_u32(data@.skip(pos as int)) == Some(
                (p.0, data@.skip(p.1 as int)),
            ),
            None => dec_u32(data@.skip(pos as int)) is None,
        },
{
    if data.len() - pos >= 4 {
        let s = slice_subrange(data.as_slice(), pos, pos + 4);
        let v = u32_from_le_bytes(s);
        proof {
            assert(data@.skip(pos as int).subrange(0, 4) =~= data@.subrange(
                pos as int,
                pos as int + 4,
            ));
            assert(data@.skip(pos as int).skip(4) =~= data@.skip(pos as int + 4));
        }
        Some((v, pos + 4))
    } else {
        None
    }
}

pub fn read_u64(data: &Vec<u8>, pos: usize) -> (r: Option<(u64, usize)>)
    requires
        pos <= data@.len(),
    ensures
        match r {
            Some(p) => pos < p.1 <= data@.len() && dec_u64(data@.skip(pos as int)) == Some(
                (p.0, data@.skip(p.1 as int)),
            ),
            None => dec_u64(data@.skip(pos as int)) is None,
        },
{
    if data.len() - pos >= 8 {
        let s = slice_subrange(data.as_slice(), pos, pos + 8);
        let v = u64_from_le_bytes(s);
        proof {
            assert(data@.skip(pos as int).subrange(0, 8) =~= data@.subrange(
                pos as int,
                pos as int + 8,
            ));
            assert(data@.skip(pos as int).skip(8) =~= data@.skip(pos as int + 8));
        }
        Some((v, pos + 8))
    } else {
        None
    }
}

pub fn read_i64(data: &Vec<u8>, pos: usize) -> (r: Option<(i64, usize)>)
    requires
        pos <= data@.len(),
    ensures
        match r {
            Some(p) => pos < p.1 <= data@.len() && dec_i64(data@.skip(pos as int)) == Some(
                (p.0, data@.skip(p.1 as int)),
            ),
            None => dec_i64(data@.skip(pos as int)) is None,
        },
{
    match read_u64(data, pos) {
        Some((w, p2)) => Some((wire_to_i64(w), p2)),
        None => None,
    }
}

pub fn read_principal(data: &Vec<u8>, pos: usize) -> (r: Option<(Principal, usize)>)
    requires
        pos <= data@.len(),
    ensures
        match r {
            Some(p) => pos < p.1 <= data@.len() && dec_principal(data@.skip(pos as int)) == Some(
                (p.0, data@.skip(p.1 as int)),
            ),
            None => dec_principal(data@.skip(pos as int)) is None,
        },
{
    let (w0, p1) = match read_u64(data, pos) {
        Some(p) => p,
        None => {
            return None;
        }
    };
    let (w1, p2) = match read_u64(data, p1) {
        Some(p) => p,
        None => {
            return None;
        }
    };
    let (w2, p3) = match read_u64(data, p2) {
        Some(p) => p,
        None => {
            return None;
        }
    };
    let (w3, p4) = match read_u64(data, p3) {
        Some(p) => p,
        None => {
            return None;
        }
    };
    Some((Principal { w0, w1, w2, w3 }, p4))
}

pub fn read_bytes(data: &Vec<u8>, pos: usize, cap: u32) -> (r: Option<(Vec<u8>, usize)>)
    requires
        pos <= data@.len(),
    ensures
        match r {
            Some(p) => pos < p.1 <= data@.len() && dec_bytes(data@.skip(pos as int), cap as int)
                == Some((p.0@, data@.skip(p.1 as int))),
            None => dec_bytes(data@.skip(pos as int), cap as int) is None,
        },
{
    let (n, p1) = match read_u32(data, pos) {
        Some(p) => p,
        None => {
            return None;
        }
    };
    if n <= cap && data.len() - p1 >= n as usize {
        let content = slice_to_vec(slice_subrange(data.as_slice(), p1, p1 + n as usize));
        proof {
            assert(data@.skip(p1 as int).take(n as int) =~= data@.subrange(
                p1 as int,
                p1 as int + n as int,
            ));
            assert(data@.skip(p1 as int).skip(n as int) =~= data@.skip(p1 as int + n as int));
        }
        Some((content, p1 + n as usize))
    } else {
        None
    }
}

pub fn read_opt_principal(data: &Vec<u8>, pos: usize) -> (r: Option<(Option<Principal>, usize)>)
    requires
        pos <= data@.len(),
    ensures
        match r {
            Some(p) => pos < p.1 <= data@.len() && dec_opt_principal(data@.skip(pos as int))
                == Some((p.0, data@.skip(p.1 as int))),
            None => dec_opt_principal(data@.skip(pos as int)) is None,
        },
{
    let (tag, p1) = match read_u8(data, pos) {
        Some(p) => p,
        None => {
            return None;
        }
    };
    if tag == 0 {
        Some((None, p1))
    } else if tag == 1 {
        match read_principal(data, p1) {
            Some((v, p2)) => Some((Some(v), p2)),
            None => None,
        }
    } else {
        None
    }
}

pub fn read_opt_i64(data: &Vec<u8>, pos: usize) -> (r: Option<(Option<i64>, usize)>)
    requires
        pos <= data@.len(),
    ensures
        match r {
            Some(p) => pos < p.1 <= data@.len() && dec_opt_i64(data@.skip(pos as int)) == Some(
                (p.0, data@.skip(p.1 as int)),
            ),
            None => dec_opt_i64(data@.skip(pos as int)) is None,
        },
{
    let (tag, p1) = match read_u8(data, pos) {
        Some(p) => p,
        None => {
            return None;
        }
    };
    if tag == 0 {
        Some((None, p1))
    } else if tag == 1 {
        match read_i64(data, p1) {
            Some((v, p2)) => Some((Some(v), p2)),
            None => None,
        }
    } else {
        None
    }
}

pub fn read_opt_bytes(data: &Vec<u8>, pos: usize, cap: u32) -> (r: Option<
    (Option<Vec<u8>>, usize),
>)
    requires
        pos <= data@.len(),
    ensures
        match r {
            Some(p) => pos < p.1 <= data@.len() && dec_opt_bytes(data@.skip(pos as int), cap as int)
                == Some((opt_bytes_view(p.0), data@.skip(p.1 as int))),
            None => dec_opt_bytes(data@.skip(pos as int), cap as int) is None,
        },
{
    let (tag, p1) = match read_u8(data, pos) {
        Some(p) => p,
        None => {
            return None;
        }
    };
    if tag == 0 {
        Some((None, p1))
    } else if tag == 1 {
        match read_bytes(data, p1, cap) {
            Some((v, p2)) => Some((Some(v), p2)),
            None => None,
        }
    } else {
        None
    }
}

} // verus!
