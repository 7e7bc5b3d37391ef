//! Little-endian primitives and the codec traits that every protocol type implements.
//!
//! Every type has a model (its `View`), the exact bytes that are written for a model
//! (`spec_bytes`), and a parser over byte sequences (`spec_parse`). Each reader is proved
//! to compute `spec_parse` exactly, each writer to append `spec_bytes`, and each type proves
//! that parsing what was written gives back the model.

use byteorder::{ByteOrder, LittleEndian};
use vstd::prelude::*;

verus! {

/// The ways in which encoding or decoding can fail.
#[derive(Clone, Copy, Debug, PartialEq, Eq, Structural)]
pub enum CodecError {
    /// Fewer bytes are available than the structure requires.
    Truncated,
    /// The bytes cannot be a message: a declared size is smaller than the headers it must hold.
    Malformed,
    /// A collection holds more elements than its count field can represent.
    Oversize,
}

/// The two bytes of `v`, least significant first.
pub open spec fn le16(v: u16) -> Seq<u8> {
    seq![(v & 0xff) as u8, ((v >> 8u16) & 0xff) as u8]
}

/// The four bytes of `v`, least significant first.
pub open spec fn le32(v: u32) -> Seq<u8> {
    seq![
        (v & 0xff) as u8,
        ((v >> 8u32) & 0xff) as u8,
        ((v >> 16u32) & 0xff) as u8,
        ((v >> 24u32) & 0xff) as u8,
    ]
}

/// The integer whose little-endian bytes are `b0, b1`.
pub open spec fn u16_from(b0: u8, b1: u8) -> u16 {
    (b0 as u16) | ((b1 as u16) << 8u16)
}

/// The integer whose little-endian bytes are `b0 .. b3`.
pub open spec fn u32_from(b0: u8, b1: u8, b2: u8, b3: u8) -> u32 {
    (b0 as u32) | ((b1 as u32) << 8u32) | ((b2 as u32) << 16u32) | ((b3 as u32) << 24u32)
}

/// The 16-bit integer stored at `i` in `s`.
pub open spec fn u16_at(s: Seq<u8>, i: int) -> u16 {
    u16_from(s[i], s[i + 1])
}

/// The 32-bit integer stored at `i` in `s`.
pub open spec fn u32_at(s: Seq<u8>, i: int) -> u32 {
    u32_from(s[i], s[i + 1], s[i + 2], s[i + 3])
}

pub proof fn lemma_le16(v: u16)
    ensures
        u16_from(le16(v)[0], le16(v)[1]) == v,
{
    assert(((v & 0xff) as u8) as u16 | ((((v >> 8u16) & 0xff) as u8) as u16) << 8u16 == v)
        by (bit_vector);
}

pub proof fn lemma_le32(v: u32)
    ensures
        u32_from(le32(v)[0], le32(v)[1], le32(v)[2], le32(v)[3]) == v,
{
    assert(((v & 0xff) as u8) as u32 | ((((v >> 8u32) & 0xff) as u8) as u32) << 8u32
        | ((((v >> 16u32) & 0xff) as u8) as u32) << 16u32
        | ((((v >> 24u32) & 0xff) as u8) as u32) << 24u32 == v) by (bit_vector);
}

/// Relies on byteorder's `LittleEndian::read_u16`: the integer whose little-endian bytes
/// are the two bytes of `buf` at `pos`.
#[verifier::external_body]
pub(crate) fn read_le16(buf: &[u8], pos: usize) -> (r: u16)
    requires
        pos + 2 <= buf@.len(),
    ensures
        r == u16_at(buf@, pos as int),
{
    LittleEndian::read_u16(&buf[pos..])
}

/// Relies on byteorder's `LittleEndian::read_u32`: the integer whose little-endian bytes
/// are the four bytes of `buf` at `pos`.
#[verifier::external_body]
pub(crate) fn read_le32(buf: &[u8], pos: usize) -> (r: u32)
    requires
        pos + 4 <= buf@.len(),
    ensures
        r == u32_at(buf@, pos as int),
{
    LittleEndian::read_u32(&buf[pos..])
}

/// Relies on byteorder's `LittleEndian::write_u16`: the two bytes of `v`, least
/// significant first, appended to `out`.
#[verifier::external_body]
pub(crate) fn push_le16(out: &mut Vec<u8>, v: u16)
    ensures
        final(out)@ == old(out)@ + le16(v),
{
    let mut b = [0u8; 2];
    LittleEndian::write_u16(&mut b, v);
    out.extend_from_slice(&b);
}

/// Relies on byteorder's `LittleEndian::write_u32`: the four bytes of `v`, least
/// significant first, appended to `out`.
#[verifier::external_body]
pub(crate) fn push_le32(out: &mut Vec<u8>, v: u32)
    ensures
        final(out)@ == old(out)@ + le32(v),
{
    let mut b = [0u8; 4];
    LittleEndian::write_u32(&mut b, v);
    out.extend_from_slice(&b);
}

/// Types whose encoded size is known without encoding them.
pub trait SizeBytes: View + Sized {
    /// Whether a value can be written: each count fits the width of its count field.
    spec fn spec_fits(m: Self::V) -> bool;

    /// The exact bytes that are written for a value.
    spec fn spec_bytes(m: Self::V) -> Seq<u8>;

    /// Whether the value can be written.
    fn fits(&self) -> (r: bool)
        ensures
            r == Self::spec_fits(self@),
    ;

    /// The number of bytes that `write_to_bytes` emits for this value.
    fn size_bytes(&self) -> (r: usize)
        requires
            Self::spec_bytes(self@).len() <= usize::MAX,
        ensures
            r == Self::spec_bytes(self@).len(),
    ;
}

/// Types whose every value is written in the same number of bytes.
pub trait ConstSizeBytes: SizeBytes {
    /// The number of bytes of every value.
    const SIZE_BYTES: usize;

    /// Every value is written in `SIZE_BYTES` bytes.
    proof fn lemma_const_size(m: Self::V)
        ensures
            Self::spec_bytes(m).len() == Self::SIZE_BYTES,
    ;
}

impl ConstSizeBytes for u8 {
    const SIZE_BYTES: usize = 1;

    proof fn lemma_const_size(m: u8) {
    }
}

impl ConstSizeBytes for u16 {
    const SIZE_BYTES: usize = 2;

    proof fn lemma_const_size(m: u16) {
    }
}

impl ConstSizeBytes for u32 {
    const SIZE_BYTES: usize = 4;

    proof fn lemma_const_size(m: u32) {
    }
}

/// Types that can be written as little-endian bytes.
pub trait WriteToBytes: SizeBytes {
    /// Appends the encoding of this value to `out`. Fails with `Oversize`, before writing
    /// anything, exactly when some collection is too long for its count field.
    fn write_to_bytes(&self, out: &mut Vec<u8>) -> (r: Result<(), CodecError>)
        ensures
            r is Ok <==> Self::spec_fits(self@),
            r is Ok ==> final(out)@ == old(out)@ + Self::spec_bytes(self@),
            r is Err ==> r == Err::<(), CodecError>(CodecError::Oversize) && final(out)@ == old(
                out,
            )@,
    ;
}

/// Types that can be read from little-endian bytes.
pub trait ReadFromBytes: SizeBytes {
    /// The value at the front of `s`, with the number of bytes it takes, if `s` holds one.
    spec fn spec_parse(s: Seq<u8>) -> Option<(Self::V, nat)>;

    /// Reading what was written for a value gives back that value, whatever follows it.
    proof fn lemma_parse_bytes(m: Self::V, rest: Seq<u8>)
        requires
            Self::spec_fits(m),
        ensures
            Self::spec_parse(Self::spec_bytes(m) + rest) == Some((m, Self::spec_bytes(m).len())),
    ;

    /// Reads a value at `pos` in `buf`, returning it with the position just after it.
    fn read_from_bytes(buf: &[u8], pos: usize) -> (r: Result<(Self, usize), CodecError>)
        requires
            pos <= buf@.len(),
        ensures
            r is Ok <==> Self::spec_parse(buf@.skip(pos as int)) is Some,
            r matches Ok((v, end)) ==> pos <= end <= buf@.len() && Self::spec_parse(
                buf@.skip(pos as int),
            ) == Some((v@, (end - pos) as nat)),
            r is Err ==> r == Err::<(Self, usize), CodecError>(CodecError::Truncated),
    ;
}

impl SizeBytes for u8 {
    open spec fn spec_fits(m: u8) -> bool {
        true
    }

    fn fits(&self) -> (r: bool) {
        true
    }

    open spec fn spec_bytes(m: u8) -> Seq<u8> {
        seq![m]
    }

    fn size_bytes(&self) -> (r: usize) {
        1
    }
}

impl WriteToBytes for u8 {
    fn write_to_bytes(&self, out: &mut Vec<u8>) -> (r: Result<(), CodecError>) {
        out.push(*self);
        Ok(())
    }
}

impl ReadFromBytes for u8 {
    open spec fn spec_parse(s: Seq<u8>) -> Option<(u8, nat)> {
        if s.len() >= 1 {
            Some((s[0], 1))
        } else {
            None
        }
    }

    proof fn lemma_parse_bytes(m: u8, rest: Seq<u8>) {
    }

    fn read_from_bytes(buf: &[u8], pos: usize) -> (r: Result<(u8, usize), CodecError>) {
        if pos < buf.len() {
            Ok((buf[pos], pos + 1))
        } else {
            Err(CodecError::Truncated)
        }
    }
}

impl SizeBytes for u16 {
    open spec fn spec_fits(m: u16) -> bool {
        true
    }

    fn fits(&self) -> (r: bool) {
        true
    }

    open spec fn spec_bytes(m: u16) -> Seq<u8> {
        le16(m)
    }

    fn size_bytes(&self) -> (r: usize) {
        2
    }
}

impl WriteToBytes for u16 {
    fn write_to_bytes(&self, out: &mut Vec<u8>) -> (r: Result<(), CodecError>) {
        push_le16(out, *self);
        Ok(())
    }
}

impl ReadFromBytes for u16 {
    open spec fn spec_parse(s: Seq<u8>) -> Option<(u16, nat)> {
        if s.len() >= 2 {
            Some((u16_at(s, 0), 2))
        } else {
            None
        }
    }

    proof fn lemma_parse_bytes(m: u16, rest: Seq<u8>) {
        lemma_le16(m);
    }

    fn read_from_bytes(buf: &[u8], pos: usize) -> (r: Result<(u16, usize), CodecError>) {
        if buf.len() - pos >= 2 {
            Ok((read_le16(buf, pos), pos + 2))
        } else {
            Err(CodecError::Truncated)
        }
    }
}

impl SizeBytes for u32 {
    open spec fn spec_fits(m: u32) -> bool {
        true
    }

    fn fits(&self) -> (r: bool) {
        true
    }

    open spec fn spec_bytes(m: u32) -> Seq<u8> {
        le32(m)
    }

    fn size_bytes(&self) -> (r: usize) {
        4
    }
}

impl WriteToBytes for u32 {
    fn write_to_bytes(&self, out: &mut Vec<u8>) -> (r: Result<(), CodecError>) {
        push_le32(out, *self);
        Ok(())
    }
}

impl ReadFromBytes for u32 {
    open spec fn spec_parse(s: Seq<u8>) -> Option<(u32, nat)> {
        if s.len() >= 4 {
            Some((u32_at(s, 0), 4))
        } else {
            None
        }
    }

    proof fn lemma_parse_bytes(m: u32, rest: Seq<u8>) {
        lemma_le32(m);
    }

    fn read_from_bytes(buf: &[u8], pos: usize) -> (r: Result<(u32, usize), CodecError>) {
        if buf.len() - pos >= 4 {
            Ok((read_le32(buf, pos), pos + 4))
        } else {
            Err(CodecError::Truncated)
        }
    }
}


/// The models of a sequence of values.
pub open spec fn views<T: View>(s: Seq<T>) -> Seq<T::V> {
    s.map_values(|x: T| x@)
}

/// Whether every value of a sequence can be written.
pub open spec fn seq_fits<T: SizeBytes>(s: Seq<T::V>) -> bool {
    forall|i: int| 0 <= i < s.len() ==> T::spec_fits(#[trigger] s[i])
}

/// The bytes of a sequence of values, one after the other, with no count.
pub open spec fn seq_bytes<T: SizeBytes>(s: Seq<T::V>) -> Seq<u8>
    decreases s.len(),
{
    if s.len() == 0 {
        Seq::empty()
    } else {
        seq_bytes::<T>(s.drop_last()) + T::spec_bytes(s.last())
    }
}

/// Reads `count` values one after the other at the front of `s`.
pub open spec fn parse_seq<T: ReadFromBytes>(s: Seq<u8>, count: nat) -> Option<(Seq<T::V>, nat)>
    decreases count,
{
    if count == 0 {
        Some((Seq::empty(), 0))
    } else {
        match parse_seq::<T>(s, (count - 1) as nat) {
            None => None,
            Some((items, n)) => match T::spec_parse(s.skip(n as int)) {
                None => None,
                Some((m, k)) => Some((items.push(m), n + k)),
            },
        }
    }
}

/// Reading the bytes of a sequence of values gives back the sequence.
pub proof fn lemma_parse_seq<T: ReadFromBytes>(s: Seq<T::V>, rest: Seq<u8>)
    requires
        seq_fits::<T>(s),
    ensures
        parse_seq::<T>(seq_bytes::<T>(s) + rest, s.len()) == Some((s, seq_bytes::<T>(s).len())),
    decreases s.len(),
{
    if s.len() > 0 {
        let init = s.drop_last();
        let tail = T::spec_bytes(s.last()) + rest;
        assert(seq_fits::<T>(init)) by {
            assert forall|i: int| 0 <= i < init.len() implies T::spec_fits(#[trigger] init[i]) by {
                assert(init[i] == s[i]);
            }
        }
        assert(T::spec_fits(s[s.len() - 1]));
        lemma_parse_seq::<T>(init, tail);
        assert(seq_bytes::<T>(init) + tail =~= seq_bytes::<T>(s) + rest);
        assert((seq_bytes::<T>(s) + rest).skip(seq_bytes::<T>(init).len() as int) =~= tail);
        T::lemma_parse_bytes(s.last(), rest);
        assert(init.push(s.last()) =~= s);
    }
}

/// The bytes of a prefix of a sequence are no longer than those of the sequence.
pub proof fn lemma_seq_bytes_prefix<T: SizeBytes>(s: Seq<T::V>, i: int)
    requires
        0 <= i <= s.len(),
    ensures
        seq_bytes::<T>(s.take(i)).len() <= seq_bytes::<T>(s).len(),
    decreases s.len(),
{
    if i < s.len() {
        assert(s.drop_last().take(i) =~= s.take(i));
        lemma_seq_bytes_prefix::<T>(s.drop_last(), i);
    } else {
        assert(s.take(i) =~= s);
    }
}

/// The number of bytes that `write_vec` emits for `items`.
pub fn size_vec<T: SizeBytes>(items: &Vec<T>) -> (r: usize)
    requires
        seq_bytes::<T>(views(items@)).len() <= usize::MAX,
    ensures
        r == seq_bytes::<T>(views(items@)).len(),
{
    let mut total: usize = 0;
    let mut i: usize = 0;
    while i < items.len()
        invariant
            i <= items@.len(),
            seq_bytes::<T>(views(items@)).len() <= usize::MAX,
            total == seq_bytes::<T>(views(items@).take(i as int)).len(),
        decreases items@.len() - i,
    {
        let ghost s = views(items@);
        proof {
            lemma_seq_bytes_prefix::<T>(s, i + 1);
            assert(s.take(i + 1).drop_last() =~= s.take(i as int));
            assert(s.take(i + 1).last() == items@[i as int]@);
        }
        let k = items[i].size_bytes();
        total = total + k;
        i = i + 1;
    }
    proof {
        assert(views(items@).take(i as int) =~= views(items@));
    }
    total
}

/// Whether every value of `items` can be written.
pub fn fits_vec<T: SizeBytes>(items: &Vec<T>) -> (r: bool)
    ensures
        r == seq_fits::<T>(views(items@)),
{
    let mut i: usize = 0;
    while i < items.len()
        invariant
            i <= items@.len(),
            forall|j: int| 0 <= j < i ==> T::spec_fits(#[trigger] views(items@)[j]),
        decreases items@.len() - i,
    {
        if !items[i].fits() {
            proof {
                assert(views(items@)[i as int] == items@[i as int]@);
            }
            return false;
        }
        i = i + 1;
    }
    true
}

/// Appends the encodings of `items` to `out`, one after the other, with no count. Fails
/// with `Oversize`, before writing anything, when one of them cannot be written.
pub fn write_vec<T: WriteToBytes>(items: &Vec<T>, out: &mut Vec<u8>) -> (r: Result<(), CodecError>)
    ensures
        r is Ok <==> seq_fits::<T>(views(items@)),
        r is Ok ==> final(out)@ == old(out)@ + seq_bytes::<T>(views(items@)),
        r is Err ==> r == Err::<(), CodecError>(CodecError::Oversize) && final(out)@ == old(out)@,
{
    if !fits_vec(items) {
        return Err(CodecError::Oversize);
    }
    let ghost start = out@;
    let ghost s = views(items@);
    let mut i: usize = 0;
    while i < items.len()
        invariant
            i <= items@.len(),
            s == views(items@),
            seq_fits::<T>(s),
            out@ == start + seq_bytes::<T>(s.take(i as int)),
        decreases items@.len() - i,
    {
        proof {
            assert(T::spec_fits(s[i as int]));
        }
        let _ = items[i].write_to_bytes(out);
        proof {
            assert(s.take(i + 1).drop_last() =~= s.take(i as int));
            assert(s.take(i + 1).last() == items@[i as int]@);
            assert(out@ =~= start + seq_bytes::<T>(s.take(i + 1)));
        }
        i = i + 1;
    }
    proof {
        assert(s.take(i as int) =~= s);
    }
    Ok(())
}

/// Reads `len` values one after the other at `pos` in `buf` and appends them to `vec`,
/// returning the position just after the last one.
pub fn read_vec<T: ReadFromBytes>(buf: &[u8], pos: usize, len: usize, vec: &mut Vec<T>) -> (r: Result<usize, CodecError>)
    requires
        pos <= buf@.len(),
    ensures
        r is Ok <==> parse_seq::<T>(buf@.skip(pos as int), len as nat) is Some,
        r matches Ok(end) ==> pos <= end <= buf@.len() && parse_seq::<T>(buf@.skip(pos as int), len as nat)
            == Some((views(final(vec)@).skip(old(vec)@.len() as int), (end - pos) as nat))
            && final(vec)@.take(old(vec)@.len() as int) == old(vec)@,
        r is Err ==> r == Err::<usize, CodecError>(CodecError::Truncated),
{
    let ghost s = buf@.skip(pos as int);
    let ghost start = vec@;
    let mut cur = pos;
    let mut i: usize = 0;
    while i < len
        invariant
            pos <= cur <= buf@.len(),
            i <= len,
            s == buf@.skip(pos as int),
            vec@.len() == start.len() + i,
            vec@.take(start.len() as int) == start,
            parse_seq::<T>(s, i as nat) == Some((views(vec@).skip(start.len() as int), (cur - pos) as nat)),
        decreases len - i,
    {
        let item = T::read_from_bytes(buf, cur);
        proof {
            assert(s.skip(cur - pos) =~= buf@.skip(cur as int));
        }
        match item {
            Ok((v, end)) => {
                let ghost old_vec = vec@;
                vec.push(v);
                proof {
                    assert(views(vec@).skip(start.len() as int) =~= views(old_vec).skip(
                        start.len() as int,
                    ).push(v@));
                    assert(vec@.take(start.len() as int) =~= old_vec.take(start.len() as int));
                }
                cur = end;
            },
            Err(e) => {
                proof {
                    assert(parse_seq::<T>(s, (i + 1) as nat) is None);
                    lemma_parse_seq_none::<T>(s, (i + 1) as nat, len as nat);
                }
                return Err(e);
            },
        }
        i = i + 1;
    }
    Ok(cur)
}

/// Once reading fails, reading more values fails too.
pub proof fn lemma_parse_seq_none<T: ReadFromBytes>(s: Seq<u8>, i: nat, n: nat)
    requires
        i <= n,
        parse_seq::<T>(s, i) is None,
    ensures
        parse_seq::<T>(s, n) is None,
    decreases n - i,
{
    if i < n {
        lemma_parse_seq_none::<T>(s, i + 1, n);
    }
}

/// Reads `len` values one after the other at `pos` in `buf` into a new vector,
/// returning it with the position just after the last one.
pub fn read_new_vec<T: ReadFromBytes>(buf: &[u8], pos: usize, len: usize) -> (r: Result<(Vec<T>, usize), CodecError>)
    requires
        pos <= buf@.len(),
    ensures
        r is Ok <==> parse_seq::<T>(buf@.skip(pos as int), len as nat) is Some,
        r matches Ok((v, end)) ==> pos <= end <= buf@.len() && parse_seq::<T>(buf@.skip(pos as int), len as nat)
            == Some((views(v@), (end - pos) as nat)),
        r is Err ==> r == Err::<(Vec<T>, usize), CodecError>(CodecError::Truncated),
{
    let mut vec: Vec<T> = Vec::new();
    match read_vec(buf, pos, len, &mut vec) {
        Ok(end) => {
            proof {
                assert(views(vec@).skip(0) =~= views(vec@));
            }
            Ok((vec, end))
        },
        Err(e) => Err(e),
    }
}


/// Whether a list can be written behind a 16-bit count.
pub open spec fn list16_fits<T: SizeBytes>(s: Seq<T::V>) -> bool {
    s.len() <= 0xffff && seq_fits::<T>(s)
}

/// A 16-bit count followed by the values.
pub open spec fn list16_bytes<T: SizeBytes>(s: Seq<T::V>) -> Seq<u8> {
    le16(s.len() as u16) + seq_bytes::<T>(s)
}

/// Reads a 16-bit count and then that many values.
pub open spec fn parse_list16<T: ReadFromBytes>(s: Seq<u8>) -> Option<(Seq<T::V>, nat)> {
    if s.len() < 2 {
        None
    } else {
        match parse_seq::<T>(s.skip(2), u16_at(s, 0) as nat) {
            None => None,
            Some((items, n)) => Some((items, n + 2)),
        }
    }
}

/// Whether a list can be written behind an 8-bit count.
pub open spec fn list8_fits<T: SizeBytes>(s: Seq<T::V>) -> bool {
    s.len() <= 0xff && seq_fits::<T>(s)
}

/// An 8-bit count followed by the values.
pub open spec fn list8_bytes<T: SizeBytes>(s: Seq<T::V>) -> Seq<u8> {
    seq![s.len() as u8] + seq_bytes::<T>(s)
}

/// Reads an 8-bit count and then that many values.
pub open spec fn parse_list8<T: ReadFromBytes>(s: Seq<u8>) -> Option<(Seq<T::V>, nat)> {
    if s.len() < 1 {
        None
    } else {
        match parse_seq::<T>(s.skip(1), s[0] as nat) {
            None => None,
            Some((items, n)) => Some((items, n + 1)),
        }
    }
}

pub proof fn lemma_parse_list16<T: ReadFromBytes>(s: Seq<T::V>, rest: Seq<u8>)
    requires
        list16_fits::<T>(s),
    ensures
        parse_list16::<T>(list16_bytes::<T>(s) + rest) == Some((s, list16_bytes::<T>(s).len())),
{
    let all = list16_bytes::<T>(s) + rest;
    lemma_le16(s.len() as u16);
    assert(all.skip(2) =~= seq_bytes::<T>(s) + rest);
    assert(u16_at(all, 0) == s.len() as u16);
    lemma_parse_seq::<T>(s, rest);
}

pub proof fn lemma_parse_list8<T: ReadFromBytes>(s: Seq<T::V>, rest: Seq<u8>)
    requires
        list8_fits::<T>(s),
    ensures
        parse_list8::<T>(list8_bytes::<T>(s) + rest) == Some((s, list8_bytes::<T>(s).len())),
{
    let all = list8_bytes::<T>(s) + rest;
    assert(all.skip(1) =~= seq_bytes::<T>(s) + rest);
    lemma_parse_seq::<T>(s, rest);
}

/// The number of bytes that `write_list16` emits for `items`.
pub fn size_list16<T: SizeBytes>(items: &Vec<T>) -> (r: usize)
    requires
        list16_bytes::<T>(views(items@)).len() <= usize::MAX,
    ensures
        r == list16_bytes::<T>(views(items@)).len(),
{
    2 + size_vec(items)
}

/// The number of bytes that `write_list8` emits for `items`.
pub fn size_list8<T: SizeBytes>(items: &Vec<T>) -> (r: usize)
    requires
        list8_bytes::<T>(views(items@)).len() <= usize::MAX,
    ensures
        r == list8_bytes::<T>(views(items@)).len(),
{
    1 + size_vec(items)
}

/// Appends a 16-bit count and the encodings of `items`.
pub fn write_list16<T: WriteToBytes>(items: &Vec<T>, out: &mut Vec<u8>) -> (r: Result<(), CodecError>)
    ensures
        r is Ok <==> list16_fits::<T>(views(items@)),
        r is Ok ==> final(out)@ == old(out)@ + list16_bytes::<T>(views(items@)),
        r is Err ==> r == Err::<(), CodecError>(CodecError::Oversize) && final(out)@ == old(out)@,
{
    if items.len() > 0xffff || !fits_vec(items) {
        return Err(CodecError::Oversize);
    }
    let ghost start = out@;
    push_le16(out, items.len() as u16);
    let r = write_vec(items, out);
    assert(r is Ok);
    proof {
        assert(start + list16_bytes::<T>(views(items@)) =~= start + le16(items.len() as u16)
            + seq_bytes::<T>(views(items@)));
    }
    r
}

/// Appends an 8-bit count and the encodings of `items`.
pub fn write_list8<T: WriteToBytes>(items: &Vec<T>, out: &mut Vec<u8>) -> (r: Result<(), CodecError>)
    ensures
        r is Ok <==> list8_fits::<T>(views(items@)),
        r is Ok ==> final(out)@ == old(out)@ + list8_bytes::<T>(views(items@)),
        r is Err ==> r == Err::<(), CodecError>(CodecError::Oversize) && final(out)@ == old(out)@,
{
    if items.len() > 0xff || !fits_vec(items) {
        return Err(CodecError::Oversize);
    }
    let ghost start = out@;
    out.push(items.len() as u8);
    let r = write_vec(items, out);
    assert(r is Ok);
    proof {
        assert(start + list8_bytes::<T>(views(items@)) =~= start.push(items.len() as u8)
            + seq_bytes::<T>(views(items@)));
    }
    r
}

/// Reads a 16-bit count at `pos` and then that many values.
pub fn read_list16<T: ReadFromBytes>(buf: &[u8], pos: usize) -> (r: Result<(Vec<T>, usize), CodecError>)
    requires
        pos <= buf@.len(),
    ensures
        r is Ok <==> parse_list16::<T>(buf@.skip(pos as int)) is Some,
        r matches Ok((v, end)) ==> pos <= end <= buf@.len() && parse_list16::<T>(buf@.skip(pos as int))
            == Some((views(v@), (end - pos) as nat)),
        r is Err ==> r == Err::<(Vec<T>, usize), CodecError>(CodecError::Truncated),
{
    if buf.len() - pos < 2 {
        return Err(CodecError::Truncated);
    }
    let count = read_le16(buf, pos);
    proof {
        assert(buf@.skip(pos as int).skip(2) =~= buf@.skip(pos + 2));
    }
    read_new_vec(buf, pos + 2, count as usize)
}

/// Reads an 8-bit count at `pos` and then that many values.
pub fn read_list8<T: ReadFromBytes>(buf: &[u8], pos: usize) -> (r: Result<(Vec<T>, usize), CodecError>)
    requires
        pos <= buf@.len(),
    ensures
        r is Ok <==> parse_list8::<T>(buf@.skip(pos as int)) is Some,
        r matches Ok((v, end)) ==> pos <= end <= buf@.len() && parse_list8::<T>(buf@.skip(pos as int))
            == Some((views(v@), (end - pos) as nat)),
        r is Err ==> r == Err::<(Vec<T>, usize), CodecError>(CodecError::Truncated),
{
    if pos >= buf.len() {
        return Err(CodecError::Truncated);
    }
    let count = buf[pos];
    proof {
        assert(buf@.skip(pos as int).skip(1) =~= buf@.skip(pos + 1));
    }
    read_new_vec(buf, pos + 1, count as usize)
}


/// A pair is written as its first value followed by its second. Layouts of several fields
/// are stated as nested pairs, so that one proof serves all of them.
impl<A: SizeBytes, B: SizeBytes> SizeBytes for (A, B) {
    open spec fn spec_fits(m: (A::V, B::V)) -> bool {
        A::spec_fits(m.0) && B::spec_fits(m.1)
    }

    open spec fn spec_bytes(m: (A::V, B::V)) -> Seq<u8> {
        A::spec_bytes(m.0) + B::spec_bytes(m.1)
    }

    fn fits(&self) -> (r: bool) {
        self.0.fits() && self.1.fits()
    }

    fn size_bytes(&self) -> (r: usize) {
        self.0.size_bytes() + self.1.size_bytes()
    }
}

impl<A: WriteToBytes, B: WriteToBytes> WriteToBytes for (A, B) {
    fn write_to_bytes(&self, out: &mut Vec<u8>) -> (r: Result<(), CodecError>) {
        if !self.fits() {
            return Err(CodecError::Oversize);
        }
        let ghost start = out@;
        let _ = self.0.write_to_bytes(out);
        let _ = self.1.write_to_bytes(out);
        proof {
            assert(out@ =~= start + Self::spec_bytes(self@));
        }
        Ok(())
    }
}

impl<A: ReadFromBytes, B: ReadFromBytes> ReadFromBytes for (A, B) {
    open spec fn spec_parse(s: Seq<u8>) -> Option<((A::V, B::V), nat)> {
        match A::spec_parse(s) {
            Some((a, n)) => match B::spec_parse(s.skip(n as int)) {
                Some((b, k)) => Some(((a, b), n + k)),
                None => None,
            },
            None => None,
        }
    }

    proof fn lemma_parse_bytes(m: (A::V, B::V), rest: Seq<u8>) {
        let ab = A::spec_bytes(m.0);
        let tail = B::spec_bytes(m.1) + rest;
        assert(Self::spec_bytes(m) + rest =~= ab + tail);
        A::lemma_parse_bytes(m.0, tail);
        assert((ab + tail).skip(ab.len() as int) =~= tail);
        B::lemma_parse_bytes(m.1, rest);
    }

    fn read_from_bytes(buf: &[u8], pos: usize) -> (r: Result<((A, B), usize), CodecError>) {
        let (a, p) = A::read_from_bytes(buf, pos)?;
        proof {
            assert(buf@.skip(pos as int).skip(p - pos) =~= buf@.skip(p as int));
        }
        let (b, end) = B::read_from_bytes(buf, p)?;
        Ok(((a, b), end))
    }
}


/// A list written behind a 16-bit count of its values.
#[derive(Clone, Debug, PartialEq, Eq)]
pub struct List16<T> {
    pub items: Vec<T>,
}

impl<T: View> View for List16<T> {
    type V = Seq<T::V>;

    open spec fn view(&self) -> Seq<T::V> {
        views(self.items@)
    }
}

impl<T: SizeBytes> SizeBytes for List16<T> {
    open spec fn spec_fits(m: Seq<T::V>) -> bool {
        list16_fits::<T>(m)
    }

    open spec fn spec_bytes(m: Seq<T::V>) -> Seq<u8> {
        list16_bytes::<T>(m)
    }

    fn fits(&self) -> (r: bool) {
        self.items.len() <= 0xffff && fits_vec(&self.items)
    }

    fn size_bytes(&self) -> (r: usize) {
        size_list16(&self.items)
    }
}

impl<T: WriteToBytes> WriteToBytes for List16<T> {
    fn write_to_bytes(&self, out: &mut Vec<u8>) -> (r: Result<(), CodecError>) {
        write_list16(&self.items, out)
    }
}

impl<T: ReadFromBytes> ReadFromBytes for List16<T> {
    open spec fn spec_parse(s: Seq<u8>) -> Option<(Seq<T::V>, nat)> {
        parse_list16::<T>(s)
    }

    proof fn lemma_parse_bytes(m: Seq<T::V>, rest: Seq<u8>) {
        lemma_parse_list16::<T>(m, rest);
    }

    fn read_from_bytes(buf: &[u8], pos: usize) -> (r: Result<(List16<T>, usize), CodecError>) {
        let (items, end) = read_list16(buf, pos)?;
        Ok((List16 { items }, end))
    }
}

/// A list written behind an 8-bit count of its values.
#[derive(Clone, Debug, PartialEq, Eq)]
pub struct List8<T> {
    pub items: Vec<T>,
}

impl<T: View> View for List8<T> {
    type V = Seq<T::V>;

    open spec fn view(&self) -> Seq<T::V> {
        views(self.items@)
    }
}

impl<T: SizeBytes> SizeBytes for List8<T> {
    open spec fn spec_fits(m: Seq<T::V>) -> bool {
        list8_fits::<T>(m)
    }

    open spec fn spec_bytes(m: Seq<T::V>) -> Seq<u8> {
        list8_bytes::<T>(m)
    }

    fn fits(&self) -> (r: bool) {
        self.items.len() <= 0xff && fits_vec(&self.items)
    }

    fn size_bytes(&self) -> (r: usize) {
        size_list8(&self.items)
    }
}

impl<T: WriteToBytes> WriteToBytes for List8<T> {
    fn write_to_bytes(&self, out: &mut Vec<u8>) -> (r: Result<(), CodecError>) {
        write_list8(&self.items, out)
    }
}

impl<T: ReadFromBytes> ReadFromBytes for List8<T> {
    open spec fn spec_parse(s: Seq<u8>) -> Option<(Seq<T::V>, nat)> {
        parse_list8::<T>(s)
    }

    proof fn lemma_parse_bytes(m: Seq<T::V>, rest: Seq<u8>) {
        lemma_parse_list8::<T>(m, rest);
    }

    fn read_from_bytes(buf: &[u8], pos: usize) -> (r: Result<(List8<T>, usize), CodecError>) {
        let (items, end) = read_list8(buf, pos)?;
        Ok((List8 { items }, end))
    }
}

} // verus!
