//! The byte encoding of records and stores.
//!
//! Integers are little-endian; a text is its UTF-8 length as a `u64`
//! followed by its UTF-8 bytes; an enumeration value is its position as a
//! `u32`. A store is its entry count as a `u64`, then each entry as its
//! 16-byte identifier followed by its record.
//!
//! Each `dec_*` spec function reads a value from the front of a byte
//! sequence and gives back the value and the bytes after it.
use vstd::bytes::*;
use vstd::prelude::*;
use vstd::slice::*;
use vstd::string::*;
use vstd::utf8::*;

use crate::error::StoreError;
use crate::store::{entries_view, keys_unique, Store};
use crate::calendar::{valid_hmsn, valid_ymd, Date, Time};
use crate::ingestions::{
    method_at, method_index, Dose, DoseView, Ingestion, IngestionMethod, IngestionView,
    INGESTION_METHOD_COUNT,
};
use crate::substances::{
    class_at, class_index, Substance, SubstanceClass, SubstanceView, SUBSTANCE_CLASS_COUNT,
};

verus! {

pub open spec fn enc_u32(x: u32) -> Seq<u8> {
    spec_u32_to_le_bytes(x)
}

pub open spec fn dec_u32(b: Seq<u8>) -> Option<(u32, Seq<u8>)> {
    if b.len() >= 4 {
        Some((spec_u32_from_le_bytes(b.subrange(0, 4)), b.subrange(4, b.len() as int)))
    } else {
        None
    }
}

pub open spec fn enc_u64(x: u64) -> Seq<u8> {
    spec_u64_to_le_bytes(x)
}

pub open spec fn dec_u64(b: Seq<u8>) -> Option<(u64, Seq<u8>)> {
    if b.len() >= 8 {
        Some((spec_u64_from_le_bytes(b.subrange(0, 8)), b.subrange(8, b.len() as int)))
    } else {
        None
    }
}

pub open spec fn enc_u128(x: u128) -> Seq<u8> {
    spec_u128_to_le_bytes(x)
}

pub open spec fn dec_u128(b: Seq<u8>) -> Option<(u128, Seq<u8>)> {
    if b.len() >= 16 {
        Some((spec_u128_from_le_bytes(b.subrange(0, 16)), b.subrange(16, b.len() as int)))
    } else {
        None
    }
}

/// The bytes are the UTF-8 encoding of some text.
pub open spec fn is_text(b: Seq<u8>) -> bool {
    exists|cs: Seq<char>| encode_utf8(cs) == b
}

/// The text that the bytes encode.
pub open spec fn text_of(b: Seq<u8>) -> Seq<char> {
    choose|cs: Seq<char>| encode_utf8(cs) == b
}

/// The text is short enough for its length to be written as a `u64`.
pub open spec fn text_fits(s: Seq<char>) -> bool {
    encode_utf8(s).len() <= u64::MAX
}

pub open spec fn enc_text(s: Seq<char>) -> Seq<u8> {
    enc_u64(encode_utf8(s).len() as u64) + encode_utf8(s)
}

pub open spec fn dec_text(b: Seq<u8>) -> Option<(Seq<char>, Seq<u8>)> {
    match dec_u64(b) {
        Some((n, r)) => if n <= r.len() && is_text(r.subrange(0, n as int)) {
            Some((text_of(r.subrange(0, n as int)), r.subrange(n as int, r.len() as int)))
        } else {
            None
        },
        None => None,
    }
}

proof fn lemma_u32(x: u32, rest: Seq<u8>)
    ensures
        dec_u32(enc_u32(x) + rest) == Some((x, rest)),
{
    lemma_auto_spec_u32_to_from_le_bytes();
    let b = enc_u32(x) + rest;
    assert(b.subrange(0, 4) =~= enc_u32(x));
    assert(b.subrange(4, b.len() as int) =~= rest);
}

proof fn lemma_u64(x: u64, rest: Seq<u8>)
    ensures
        dec_u64(enc_u64(x) + rest) == Some((x, rest)),
{
    lemma_auto_spec_u64_to_from_le_bytes();
    assert(spec_u64_to_le_bytes(x).len() == 8);
    let b = enc_u64(x) + rest;
    assert(b.subrange(0, 8) =~= enc_u64(x));
    assert(b.subrange(8, b.len() as int) =~= rest);
}

proof fn lemma_u128(x: u128, rest: Seq<u8>)
    ensures
        dec_u128(enc_u128(x) + rest) == Some((x, rest)),
{
    lemma_auto_spec_u128_to_from_le_bytes();
    let b = enc_u128(x) + rest;
    assert(b.subrange(0, 16) =~= enc_u128(x));
    assert(b.subrange(16, b.len() as int) =~= rest);
}

/// Two texts with the same encoding are the same text.
proof fn lemma_text_of(s: Seq<char>)
    ensures
        is_text(encode_utf8(s)),
        text_of(encode_utf8(s)) == s,
{
    let e = encode_utf8(s);
    assert(encode_utf8(s) == e);
    let t = text_of(e);
    encode_utf8_decode_utf8(s);
    encode_utf8_decode_utf8(t);
}

proof fn lemma_text(s: Seq<char>, rest: Seq<u8>)
    requires
        text_fits(s),
    ensures
        dec_text(enc_text(s) + rest) == Some((s, rest)),
{
    let e = encode_utf8(s);
    let n = e.len() as u64;
    lemma_u64(n, e + rest);
    assert(enc_text(s) + rest =~= enc_u64(n) + (e + rest));
    let r = e + rest;
    assert(r.subrange(0, n as int) =~= e);
    assert(r.subrange(n as int, r.len() as int) =~= rest);
    lemma_text_of(s);
}

/// Appends `b` to `out`.
fn push_bytes(out: &mut Vec<u8>, b: &[u8])
    ensures
        final(out)@ == old(out)@ + b@,
{
    let mut i: usize = 0;
    while i < b.len()
        invariant
            i <= b@.len(),
            out@ == old(out)@ + b@.subrange(0, i as int),
        decreases b@.len() - i,
    {
        out.push(b[i]);
        assert(b@.subrange(0, i + 1) =~= b@.subrange(0, i as int).push(b@[i as int]));
        i += 1;
    }
    assert(b@.subrange(0, b@.len() as int) =~= b@);
}

pub fn write_u32(out: &mut Vec<u8>, x: u32)
    ensures
        final(out)@ == old(out)@ + enc_u32(x),
{
    let v = u32_to_le_bytes(x);
    push_bytes(out, v.as_slice());
}

pub fn write_u64(out: &mut Vec<u8>, x: u64)
    ensures
        final(out)@ == old(out)@ + enc_u64(x),
{
    let v = u64_to_le_bytes(x);
    push_bytes(out, v.as_slice());
}

pub fn write_u128(out: &mut Vec<u8>, x: u128)
    ensures
        final(out)@ == old(out)@ + enc_u128(x),
{
    let v = u128_to_le_bytes(x);
    push_bytes(out, v.as_slice());
}

pub fn write_text(out: &mut Vec<u8>, s: &str)
    ensures
        final(out)@ == old(out)@ + enc_text(s@),
{
    let b = s.as_bytes();
    write_u64(out, b.len() as u64);
    push_bytes(out, b);
    assert(final(out)@ =~= old(out)@ + enc_text(s@));
}

/// The bytes of `b` from position `pos` on.
pub open spec fn tail(b: Seq<u8>, pos: int) -> Seq<u8> {
    b.subrange(pos, b.len() as int)
}

pub fn read_u32(b: &[u8], pos: usize) -> (r: Option<(u32, usize)>)
    requires
        pos <= b@.len(),
    ensures
        match dec_u32(tail(b@, pos as int)) {
            None => r is None,
            Some((x, rest)) => r matches Some((y, p)) && y == x && pos <= p <= b@.len() && rest
                == tail(b@, p as int),
        },
{
    if b.len() - pos >= 4 {
        let x = u32_from_le_bytes(slice_subrange(b, pos, pos + 4));
        proof {
            let t = tail(b@, pos as int);
            assert(t.subrange(0, 4) =~= b@.subrange(pos as int, pos + 4));
            assert(t.subrange(4, t.len() as int) =~= tail(b@, pos + 4));
        }
        Some((x, pos + 4))
    } else {
        None
    }
}

pub fn read_u64(b: &[u8], pos: usize) -> (r: Option<(u64, usize)>)
    requires
        pos <= b@.len(),
    ensures
        match dec_u64(tail(b@, pos as int)) {
            None => r is None,
            Some((x, rest)) => r matches Some((y, p)) && y == x && pos <= p <= b@.len() && rest
                == tail(b@, p as int),
        },
{
    if b.len() - pos >= 8 {
        let x = u64_from_le_bytes(slice_subrange(b, pos, pos + 8));
        proof {
            let t = tail(b@, pos as int);
            assert(t.subrange(0, 8) =~= b@.subrange(pos as int, pos + 8));
            assert(t.subrange(8, t.len() as int) =~= tail(b@, pos + 8));
        }
        Some((x, pos + 8))
    } else {
        None
    }
}

pub fn read_u128(b: &[u8], pos: usize) -> (r: Option<(u128, usize)>)
    requires
        pos <= b@.len(),
    ensures
        match dec_u128(tail(b@, pos as int)) {
            None => r is None,
            Some((x, rest)) => r matches Some((y, p)) && y == x && pos <= p <= b@.len() && rest
                == tail(b@, p as int),
        },
{
    if b.len() - pos >= 16 {
        let x = u128_from_le_bytes(slice_subrange(b, pos, pos + 16));
        proof {
            let t = tail(b@, pos as int);
            assert(t.subrange(0, 16) =~= b@.subrange(pos as int, pos + 16));
            assert(t.subrange(16, t.len() as int) =~= tail(b@, pos + 16));
        }
        Some((x, pos + 16))
    } else {
        None
    }
}

pub fn read_text(b: &[u8], pos: usize) -> (r: Option<(String, usize)>)
    requires
        pos <= b@.len(),
    ensures
        match dec_text(tail(b@, pos as int)) {
            None => r is None,
            Some((x, rest)) => r matches Some((y, p)) && y@ == x && pos <= p <= b@.len() && rest
                == tail(b@, p as int),
        },
{
    match read_u64(b, pos) {
        None => None,
        Some((n, p)) => {
            let ghost t = tail(b@, p as int);
            if n > (b.len() - p) as u64 {
                return None;
            }
            let end = p + n as usize;
            let bytes = slice_subrange(b, p, end);
            proof {
                assert(t.subrange(0, n as int) =~= bytes@);
                assert(t.subrange(n as int, t.len() as int) =~= tail(b@, end as int));
            }
            match utf8_text(bytes) {
                Some(s) => {
                    proof {
                        lemma_text_of(s@);
                    }
                    Some((String::from_str(s), end))
                },
                None => None,
            }
        },
    }
}

/// Relies on std's `str::from_utf8`: it accepts exactly the byte strings that
/// encode some text, and the text it gives back has those bytes.
#[verifier::external_body]
fn utf8_text(b: &[u8]) -> (r: Option<&str>)
    ensures
        r matches Some(s) ==> encode_utf8(s@) == b@,
        (exists|cs: Seq<char>| encode_utf8(cs) == b@) ==> r is Some,
{
    std::str::from_utf8(b).ok()
}


/// A record that can be written to and read back from bytes.
pub trait Record: View + Sized {
    /// The values a record of this kind can hold and have written.
    spec fn valid(v: Self::V) -> bool;

    spec fn enc(v: Self::V) -> Seq<u8>;

    spec fn dec(b: Seq<u8>) -> Option<(Self::V, Seq<u8>)>;

    /// Reading a written record gives it back, with the bytes after it.
    proof fn lemma_round_trip(v: Self::V, rest: Seq<u8>)
        requires
            Self::valid(v),
        ensures
            Self::dec(Self::enc(v) + rest) == Some((v, rest)),
    ;

    fn write(&self, out: &mut Vec<u8>)
        ensures
            final(out)@ == old(out)@ + Self::enc(self@),
    ;

    fn read(b: &[u8], pos: usize) -> (r: Option<(Self, usize)>)
        requires
            pos <= b@.len(),
        ensures
            match Self::dec(tail(b@, pos as int)) {
                None => r is None,
                Some((x, rest)) => r matches Some((y, p)) && y@ == x && pos <= p <= b@.len()
                    && rest == tail(b@, p as int),
            },
    ;
}

pub open spec fn dec_class(b: Seq<u8>) -> Option<(SubstanceClass, Seq<u8>)> {
    match dec_u32(b) {
        Some((i, r)) => if i < SUBSTANCE_CLASS_COUNT {
            Some((class_at(i), r))
        } else {
            None
        },
        None => None,
    }
}

pub open spec fn dec_method(b: Seq<u8>) -> Option<(IngestionMethod, Seq<u8>)> {
    match dec_u32(b) {
        Some((i, r)) => if i < INGESTION_METHOD_COUNT {
            Some((method_at(i), r))
        } else {
            None
        },
        None => None,
    }
}

pub open spec fn enc_dose(d: DoseView) -> Seq<u8> {
    enc_text(d.unit) + enc_u64(d.value_bits)
}

pub open spec fn dec_dose(b: Seq<u8>) -> Option<(DoseView, Seq<u8>)> {
    match dec_text(b) {
        Some((unit, r1)) => match dec_u64(r1) {
            Some((value_bits, r2)) => Some((DoseView { unit, value_bits }, r2)),
            None => None,
        },
        None => None,
    }
}

pub open spec fn enc_time(t: (u32, u32, u32, u32)) -> Seq<u8> {
    enc_u32(t.0) + enc_u32(t.1) + enc_u32(t.2) + enc_u32(t.3)
}

pub open spec fn dec_time(b: Seq<u8>) -> Option<((u32, u32, u32, u32), Seq<u8>)> {
    match dec_u32(b) {
        Some((h, r1)) => match dec_u32(r1) {
            Some((m, r2)) => match dec_u32(r2) {
                Some((s, r3)) => match dec_u32(r3) {
                    Some((n, r4)) => if valid_hmsn(h, m, s, n) {
                        Some(((h, m, s, n), r4))
                    } else {
                        None
                    },
                    None => None,
                },
                None => None,
            },
            None => None,
        },
        None => None,
    }
}

/// A year is written as the `u32` with the same bits.
pub open spec fn enc_date(d: (i32, u32, u32)) -> Seq<u8> {
    enc_u32(d.0 as u32) + enc_u32(d.1) + enc_u32(d.2)
}

pub open spec fn dec_date(b: Seq<u8>) -> Option<((i32, u32, u32), Seq<u8>)> {
    match dec_u32(b) {
        Some((y, r1)) => match dec_u32(r1) {
            Some((m, r2)) => match dec_u32(r2) {
                Some((d, r3)) => if valid_ymd(y as i32, m, d) {
                    Some(((y as i32, m, d), r3))
                } else {
                    None
                },
                None => None,
            },
            None => None,
        },
        None => None,
    }
}

pub open spec fn enc_substance(v: SubstanceView) -> Seq<u8> {
    enc_text(v.name) + enc_u32(class_index(v.class))
}

pub open spec fn dec_substance(b: Seq<u8>) -> Option<(SubstanceView, Seq<u8>)> {
    match dec_text(b) {
        Some((name, r1)) => match dec_class(r1) {
            Some((class, r2)) => Some((SubstanceView { name, class }, r2)),
            None => None,
        },
        None => None,
    }
}

proof fn lemma_substance(v: SubstanceView, rest: Seq<u8>)
    requires
        text_fits(v.name),
    ensures
        dec_substance(enc_substance(v) + rest) == Some((v, rest)),
{
    let c = enc_u32(class_index(v.class));
    assert(enc_substance(v) + rest =~= enc_text(v.name) + (c + rest));
    lemma_text(v.name, c + rest);
    lemma_u32(class_index(v.class), rest);
}

proof fn lemma_dose(v: DoseView, rest: Seq<u8>)
    requires
        text_fits(v.unit),
    ensures
        dec_dose(enc_dose(v) + rest) == Some((v, rest)),
{
    let c = enc_u64(v.value_bits);
    assert(enc_dose(v) + rest =~= enc_text(v.unit) + (c + rest));
    lemma_text(v.unit, c + rest);
    lemma_u64(v.value_bits, rest);
}

proof fn lemma_time(t: (u32, u32, u32, u32), rest: Seq<u8>)
    requires
        valid_hmsn(t.0, t.1, t.2, t.3),
    ensures
        dec_time(enc_time(t) + rest) == Some((t, rest)),
{
    let r3 = enc_u32(t.3) + rest;
    let r2 = enc_u32(t.2) + r3;
    let r1 = enc_u32(t.1) + r2;
    assert(enc_time(t) + rest =~= enc_u32(t.0) + r1);
    lemma_u32(t.0, r1);
    lemma_u32(t.1, r2);
    lemma_u32(t.2, r3);
    lemma_u32(t.3, rest);
}

proof fn lemma_date(d: (i32, u32, u32), rest: Seq<u8>)
    requires
        valid_ymd(d.0, d.1, d.2),
    ensures
        dec_date(enc_date(d) + rest) == Some((d, rest)),
{
    let r2 = enc_u32(d.2) + rest;
    let r1 = enc_u32(d.1) + r2;
    assert(enc_date(d) + rest =~= enc_u32(d.0 as u32) + r1);
    lemma_u32(d.0 as u32, r1);
    lemma_u32(d.1, r2);
    lemma_u32(d.2, rest);
    let y = d.0;
    assert(((y as u32) as i32) == y) by (bit_vector);
}

proof fn lemma_method(m: IngestionMethod)
    ensures
        method_at(method_index(m)) == m,
        method_index(m) < INGESTION_METHOD_COUNT,
{
}

fn read_class(b: &[u8], pos: usize) -> (r: Option<(SubstanceClass, usize)>)
    requires
        pos <= b@.len(),
    ensures
        match dec_class(tail(b@, pos as int)) {
            None => r is None,
            Some((x, rest)) => r matches Some((y, p)) && y == x && pos <= p <= b@.len() && rest
                == tail(b@, p as int),
        },
{
    match read_u32(b, pos) {
        Some((i, p)) => match SubstanceClass::from_index(i) {
            Some(c) => Some((c, p)),
            None => None,
        },
        None => None,
    }
}

fn read_method(b: &[u8], pos: usize) -> (r: Option<(IngestionMethod, usize)>)
    requires
        pos <= b@.len(),
    ensures
        match dec_method(tail(b@, pos as int)) {
            None => r is None,
            Some((x, rest)) => r matches Some((y, p)) && y == x && pos <= p <= b@.len() && rest
                == tail(b@, p as int),
        },
{
    match read_u32(b, pos) {
        Some((i, p)) => match IngestionMethod::from_index(i) {
            Some(m) => Some((m, p)),
            None => None,
        },
        None => None,
    }
}

fn write_dose(d: &Dose, out: &mut Vec<u8>)
    ensures
        final(out)@ == old(out)@ + enc_dose(d@),
{
    write_text(out, d.unit.as_str());
    write_u64(out, d.value_bits);
    assert(final(out)@ =~= old(out)@ + enc_dose(d@));
}

fn read_dose(b: &[u8], pos: usize) -> (r: Option<(Dose, usize)>)
    requires
        pos <= b@.len(),
    ensures
        match dec_dose(tail(b@, pos as int)) {
            None => r is None,
            Some((x, rest)) => r matches Some((y, p)) && y@ == x && pos <= p <= b@.len() && rest
                == tail(b@, p as int),
        },
{
    match read_text(b, pos) {
        Some((unit, p1)) => match read_u64(b, p1) {
            Some((value_bits, p2)) => Some((Dose { unit, value_bits }, p2)),
            None => None,
        },
        None => None,
    }
}

fn write_time(t: &Time, out: &mut Vec<u8>)
    ensures
        final(out)@ == old(out)@ + enc_time(t@),
{
    write_u32(out, t.hour());
    write_u32(out, t.minute());
    write_u32(out, t.second());
    write_u32(out, t.nano());
    assert(final(out)@ =~= old(out)@ + enc_time(t@));
}

fn read_time(b: &[u8], pos: usize) -> (r: Option<(Time, usize)>)
    requires
        pos <= b@.len(),
    ensures
        match dec_time(tail(b@, pos as int)) {
            None => r is None,
            Some((x, rest)) => r matches Some((y, p)) && y@ == x && pos <= p <= b@.len() && rest
                == tail(b@, p as int),
        },
{
    let (h, p1) = match read_u32(b, pos) {
        Some(x) => x,
        None => return None,
    };
    let (m, p2) = match read_u32(b, p1) {
        Some(x) => x,
        None => return None,
    };
    let (s, p3) = match read_u32(b, p2) {
        Some(x) => x,
        None => return None,
    };
    let (n, p4) = match read_u32(b, p3) {
        Some(x) => x,
        None => return None,
    };
    match Time::new(h, m, s, n) {
        Some(t) => Some((t, p4)),
        None => None,
    }
}

fn write_date(d: &Date, out: &mut Vec<u8>)
    ensures
        final(out)@ == old(out)@ + enc_date(d@),
{
    write_u32(out, d.year() as u32);
    write_u32(out, d.month());
    write_u32(out, d.day());
    assert(final(out)@ =~= old(out)@ + enc_date(d@));
}

fn read_date(b: &[u8], pos: usize) -> (r: Option<(Date, usize)>)
    requires
        pos <= b@.len(),
    ensures
        match dec_date(tail(b@, pos as int)) {
            None => r is None,
            Some((x, rest)) => r matches Some((y, p)) && y@ == x && pos <= p <= b@.len() && rest
                == tail(b@, p as int),
        },
{
    let (y, p1) = match read_u32(b, pos) {
        Some(x) => x,
        None => return None,
    };
    let (m, p2) = match read_u32(b, p1) {
        Some(x) => x,
        None => return None,
    };
    let (d, p3) = match read_u32(b, p2) {
        Some(x) => x,
        None => return None,
    };
    match Date::new(y as i32, m, d) {
        Some(date) => Some((date, p3)),
        None => None,
    }
}

impl Record for Substance {
    open spec fn valid(v: SubstanceView) -> bool {
        text_fits(v.name)
    }

    open spec fn enc(v: SubstanceView) -> Seq<u8> {
        enc_substance(v)
    }

    open spec fn dec(b: Seq<u8>) -> Option<(SubstanceView, Seq<u8>)> {
        dec_substance(b)
    }

    proof fn lemma_round_trip(v: SubstanceView, rest: Seq<u8>) {
        lemma_substance(v, rest);
    }

    fn write(&self, out: &mut Vec<u8>) {
        write_text(out, self.name.as_str());
        write_u32(out, self.class.index());
        assert(final(out)@ =~= old(out)@ + enc_substance(self@));
    }

    fn read(b: &[u8], pos: usize) -> (r: Option<(Substance, usize)>) {
        match read_text(b, pos) {
            Some((name, p1)) => match read_class(b, p1) {
                Some((class, p2)) => Some((Substance { name, class }, p2)),
                None => None,
            },
            None => None,
        }
    }
}

/// The values an ingestion can hold: its texts fit and its date and time
/// exist.
pub open spec fn valid_ingestion(v: IngestionView) -> bool {
    &&& text_fits(v.substance.name)
    &&& text_fits(v.dose.unit)
    &&& valid_hmsn(v.time.0, v.time.1, v.time.2, v.time.3)
    &&& valid_ymd(v.date.0, v.date.1, v.date.2)
}

pub open spec fn enc_ingestion(v: IngestionView) -> Seq<u8> {
    enc_substance(v.substance) + enc_dose(v.dose) + enc_u32(method_index(v.ingestion_method))
        + enc_time(v.time) + enc_date(v.date)
}

pub open spec fn dec_ingestion(b: Seq<u8>) -> Option<(IngestionView, Seq<u8>)> {
    match dec_substance(b) {
        Some((substance, r1)) => match dec_dose(r1) {
            Some((dose, r2)) => match dec_method(r2) {
                Some((ingestion_method, r3)) => match dec_time(r3) {
                    Some((time, r4)) => match dec_date(r4) {
                        Some((date, r5)) => Some(
                            (IngestionView { substance, dose, ingestion_method, time, date }, r5),
                        ),
                        None => None,
                    },
                    None => None,
                },
                None => None,
            },
            None => None,
        },
        None => None,
    }
}

impl Record for Ingestion {
    open spec fn valid(v: IngestionView) -> bool {
        valid_ingestion(v)
    }

    open spec fn enc(v: IngestionView) -> Seq<u8> {
        enc_ingestion(v)
    }

    open spec fn dec(b: Seq<u8>) -> Option<(IngestionView, Seq<u8>)> {
        dec_ingestion(b)
    }

    proof fn lemma_round_trip(v: IngestionView, rest: Seq<u8>) {
        let r4 = enc_date(v.date) + rest;
        let r3 = enc_time(v.time) + r4;
        let r2 = enc_u32(method_index(v.ingestion_method)) + r3;
        let r1 = enc_dose(v.dose) + r2;
        assert(enc_ingestion(v) + rest =~= enc_substance(v.substance) + r1);
        lemma_substance(v.substance, r1);
        lemma_dose(v.dose, r2);
        lemma_u32(method_index(v.ingestion_method), r3);
        lemma_method(v.ingestion_method);
        lemma_time(v.time, r4);
        lemma_date(v.date, rest);
    }

    fn write(&self, out: &mut Vec<u8>) {
        self.substance.write(out);
        write_dose(&self.dose, out);
        write_u32(out, self.ingestion_method.index());
        write_time(&self.time, out);
        write_date(&self.date, out);
        assert(final(out)@ =~= old(out)@ + enc_ingestion(self@));
    }

    fn read(b: &[u8], pos: usize) -> (r: Option<(Ingestion, usize)>) {
        let (substance, p1) = match Substance::read(b, pos) {
            Some(x) => x,
            None => return None,
        };
        let (dose, p2) = match read_dose(b, p1) {
            Some(x) => x,
            None => return None,
        };
        let (ingestion_method, p3) = match read_method(b, p2) {
            Some(x) => x,
            None => return None,
        };
        let (time, p4) = match read_time(b, p3) {
            Some(x) => x,
            None => return None,
        };
        let (date, p5) = match read_date(b, p4) {
            Some(x) => x,
            None => return None,
        };
        Some((Ingestion { substance, dose, ingestion_method, time, date }, p5))
    }
}


pub open spec fn enc_entries<T: Record>(s: Seq<(u128, T::V)>) -> Seq<u8>
    decreases s.len(),
{
    if s.len() == 0 {
        Seq::empty()
    } else {
        enc_u128(s[0].0) + T::enc(s[0].1) + enc_entries::<T>(s.drop_first())
    }
}

pub open spec fn dec_entries<T: Record>(b: Seq<u8>, n: nat) -> Option<
    (Seq<(u128, T::V)>, Seq<u8>),
>
    decreases n,
{
    if n == 0 {
        Some((Seq::empty(), b))
    } else {
        match dec_u128(b) {
            Some((id, r1)) => match T::dec(r1) {
                Some((v, r2)) => match dec_entries::<T>(r2, (n - 1) as nat) {
                    Some((es, r3)) => Some((seq![(id, v)] + es, r3)),
                    None => None,
                },
                None => None,
            },
            None => None,
        }
    }
}

/// The bytes of a store holding the entries `s`.
pub open spec fn enc_store<T: Record>(s: Seq<(u128, T::V)>) -> Seq<u8> {
    enc_u64(s.len() as u64) + enc_entries::<T>(s)
}

/// The entries that the bytes `b` of a store hold, if `b` is a whole valid
/// store: a count, that many entries, nothing after them, and no identifier
/// twice.
pub open spec fn parse_store<T: Record>(b: Seq<u8>) -> Option<Seq<(u128, T::V)>> {
    match dec_u64(b) {
        Some((n, r)) => match dec_entries::<T>(r, n as nat) {
            Some((es, rest)) => if rest.len() == 0 && keys_unique(es) {
                Some(es)
            } else {
                None
            },
            None => None,
        },
        None => None,
    }
}

/// A store that can be held and written: unique identifiers, a count that
/// fits a `u64`, and valid records.
pub open spec fn valid_entries<T: Record>(s: Seq<(u128, T::V)>) -> bool {
    &&& keys_unique(s)
    &&& s.len() <= u64::MAX
    &&& forall|i: int| 0 <= i < s.len() ==> T::valid(#[trigger] s[i].1)
}

proof fn lemma_entries<T: Record>(s: Seq<(u128, T::V)>, rest: Seq<u8>)
    requires
        forall|i: int| 0 <= i < s.len() ==> T::valid(#[trigger] s[i].1),
    ensures
        dec_entries::<T>(enc_entries::<T>(s) + rest, s.len()) == Some((s, rest)),
    decreases s.len(),
{
    if s.len() > 0 {
        let t = s.drop_first();
        assert forall|i: int| 0 <= i < t.len() implies T::valid(#[trigger] t[i].1) by {
            assert(t[i] == s[i + 1]);
        }
        lemma_entries::<T>(t, rest);
        let r2 = enc_entries::<T>(t) + rest;
        let r1 = T::enc(s[0].1) + r2;
        assert(enc_entries::<T>(s) + rest =~= enc_u128(s[0].0) + r1);
        lemma_u128(s[0].0, r1);
        T::lemma_round_trip(s[0].1, r2);
        assert(seq![(s[0].0, s[0].1)] + t =~= s);
    }
}

/// A combined result: `acc` followed by what `r` read.
pub open spec fn prepend<V>(acc: Seq<(u128, V)>, r: Option<(Seq<(u128, V)>, Seq<u8>)>) -> Option<
    (Seq<(u128, V)>, Seq<u8>),
> {
    match r {
        Some((es, rest)) => Some((acc + es, rest)),
        None => None,
    }
}

/// The bytes that `save` writes for `store`.
pub fn save<T: Record>(store: &Store<T>) -> (r: Vec<u8>)
    ensures
        r@ == enc_store::<T>(store@),
{
    let mut out: Vec<u8> = Vec::new();
    let n = store.len();
    write_u64(&mut out, n as u64);
    assert(store@.subrange(0, n as int) =~= store@);
    let mut i: usize = 0;
    while i < n
        invariant
            n == store@.len(),
            i <= n,
            out@ + enc_entries::<T>(store@.subrange(i as int, n as int)) == enc_store::<T>(
                store@,
            ),
        decreases n - i,
    {
        let ghost sub = store@.subrange(i as int, n as int);
        assert(sub.drop_first() =~= store@.subrange(i + 1, n as int));
        let (id, v) = store.entry(i);
        let ghost before = out@;
        write_u128(&mut out, id);
        v.write(&mut out);
        assert(before + enc_entries::<T>(sub) =~= out@ + enc_entries::<T>(
            store@.subrange(i + 1, n as int),
        ));
        i += 1;
    }
    assert(store@.subrange(n as int, n as int) =~= Seq::<(u128, T::V)>::empty());
    assert(out@ =~= out@ + Seq::<u8>::empty());
    assert(store@.subrange(0, n as int) =~= store@);
    out
}

/// The store that the bytes `b` hold. Fails with `CorruptStore` when they
/// are not a valid store.
pub fn load<T: Record>(b: &[u8]) -> (r: Result<Store<T>, StoreError>)
    ensures
        match parse_store::<T>(b@) {
            Some(s) => r matches Ok(st) && st.wf() && st@ == s,
            None => r == Err::<Store<T>, StoreError>(StoreError::CorruptStore),
        },
{
    let (n, p0) = match read_u64(b, 0) {
        Some(x) => x,
        None => return Err(StoreError::CorruptStore),
    };
    assert(tail(b@, 0) =~= b@);
    let ghost start = tail(b@, p0 as int);
    let mut entries: Vec<(u128, T)> = Vec::new();
    let mut pos = p0;
    let mut i: u64 = 0;
    while i < n
        invariant
            dec_u64(b@) == Some((n, start)),
            i <= n,
            pos <= b@.len(),
            dec_entries::<T>(start, n as nat) == prepend(
                entries_view(entries@),
                dec_entries::<T>(tail(b@, pos as int), (n - i) as nat),
            ),
        decreases n - i,
    {
        let ghost cur = tail(b@, pos as int);
        let (id, p1) = match read_u128(b, pos) {
            Some(x) => x,
            None => {
                assert(dec_entries::<T>(cur, (n - i) as nat) is None);
                return Err(StoreError::CorruptStore);
            },
        };
        let (v, p2) = match T::read(b, p1) {
            Some(x) => x,
            None => {
                assert(dec_entries::<T>(cur, (n - i) as nat) is None);
                return Err(StoreError::CorruptStore);
            },
        };
        let ghost acc = entries_view(entries@);
        let ghost e = (id, v@);
        entries.push((id, v));
        proof {
            assert(entries_view(entries@) =~= acc.push(e));
            let later = dec_entries::<T>(tail(b@, p2 as int), (n - i - 1) as nat);
            match later {
                Some((es, r3)) => {
                    assert(acc + (seq![e] + es) =~= acc.push(e) + es);
                },
                None => {},
            }
        }
        pos = p2;
        i += 1;
    }
    if pos != b.len() {
        return Err(StoreError::CorruptStore);
    }
    proof {
        assert(entries_view(entries@) + Seq::<(u128, T::V)>::empty() =~= entries_view(entries@));
    }
    match Store::from_entries(entries) {
        Some(st) => Ok(st),
        None => Err(StoreError::CorruptStore),
    }
}

/// Reading the bytes that `save` writes gives the same entries back.
pub proof fn lemma_store_round_trip<T: Record>(s: Seq<(u128, T::V)>)
    requires
        valid_entries::<T>(s),
    ensures
        parse_store::<T>(enc_store::<T>(s)) == Some(s),
{
    lemma_entries::<T>(s, Seq::empty());
    assert(enc_entries::<T>(s) + Seq::<u8>::empty() =~= enc_entries::<T>(s));
    lemma_u64(s.len() as u64, enc_entries::<T>(s));
}

/// Reading a written record gives the same record back.
pub proof fn lemma_record_round_trip<T: Record>(v: T::V)
    requires
        T::valid(v),
    ensures
        T::dec(T::enc(v)) == Some((v, Seq::<u8>::empty())),
{
    T::lemma_round_trip(v, Seq::empty());
    assert(T::enc(v) + Seq::<u8>::empty() =~= T::enc(v));
}

/// What opening a store does, given the bytes of its file if it exists: a
/// missing file is created holding an empty store (the bytes to write are
/// given back), an existing one is read.
pub open spec fn ensure_spec<T: Record>(existing: Option<Seq<u8>>) -> Result<
    (Seq<(u128, T::V)>, Option<Seq<u8>>),
    StoreError,
> {
    match existing {
        None => Ok((Seq::empty(), Some(enc_store::<T>(Seq::empty())))),
        Some(b) => match parse_store::<T>(b) {
            Some(s) => Ok((s, None)),
            None => Err(StoreError::CorruptStore),
        },
    }
}

/// Opens a store given the bytes of its file, if the file exists. Returns
/// the store and, for a missing file, the bytes of an empty store that the
/// file is to be created with. Fails with `CorruptStore` when the existing
/// bytes are not a valid store.
pub fn ensure_store<T: Record>(existing: Option<&[u8]>) -> (r: Result<
    (Store<T>, Option<Vec<u8>>),
    StoreError,
>)
    ensures
        match ensure_spec::<T>(
            match existing {
                Some(b) => Some(b@),
                None => None,
            },
        ) {
            Ok((s, w)) => r matches Ok((st, bytes)) && st.wf() && st@ == s && match w {
                Some(x) => bytes matches Some(y) && y@ == x,
                None => bytes is None,
            },
            Err(e) => r matches Err(f) && f == e,
        },
{
    match existing {
        None => {
            let st = Store::<T>::new();
            let bytes = save(&st);
            Ok((st, Some(bytes)))
        },
        Some(b) => match load(b) {
            Ok(st) => Ok((st, None)),
            Err(e) => Err(e),
        },
    }
}

/// Reads a store whose file must exist already: fails with `MissingStore`
/// when there is none, and with `CorruptStore` when its bytes are not a
/// valid store.
pub fn load_store<T: Record>(existing: Option<&[u8]>) -> (r: Result<Store<T>, StoreError>)
    ensures
        match existing {
            None => r == Err::<Store<T>, StoreError>(StoreError::MissingStore),
            Some(b) => match parse_store::<T>(b@) {
                Some(s) => r matches Ok(st) && st.wf() && st@ == s,
                None => r == Err::<Store<T>, StoreError>(StoreError::CorruptStore),
            },
        },
{
    match existing {
        None => Err(StoreError::MissingStore),
        Some(b) => load(b),
    }
}

/// Opening a store twice on a fresh path: the first call creates the file
/// with an empty store and gives an empty store; the second reads that file
/// and again gives an empty store, with nothing to write.
pub proof fn lemma_ensure_idempotent<T: Record>()
    ensures
        ensure_spec::<T>(None) == Ok::<_, StoreError>(
            (Seq::<(u128, T::V)>::empty(), Some(enc_store::<T>(Seq::empty()))),
        ),
        ensure_spec::<T>(Some(enc_store::<T>(Seq::empty()))) == Ok::<_, StoreError>(
            (Seq::<(u128, T::V)>::empty(), None::<Seq<u8>>),
        ),
{
    lemma_store_round_trip::<T>(Seq::empty());
}

} // verus!
