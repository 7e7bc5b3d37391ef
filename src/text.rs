//! The two text encodings of the protocol: NUL-terminated byte strings and counted
//! strings of 16-bit code units.

use crate::wire::{
    fits_vec, le16, list16_bytes, list16_fits, parse_list16, read_list16, size_list16, views, write_list16,
    lemma_parse_list16, CodecError, ReadFromBytes, SizeBytes, WriteToBytes,
};
use vstd::prelude::*;

verus! {

/// Whether no byte of `s` is zero.
pub open spec fn no_nul(s: Seq<u8>) -> bool {
    forall|i: int| 0 <= i < s.len() ==> #[trigger] s[i] != 0
}

/// The index of the first zero byte of `s` at or after `i`, if there is one.
pub open spec fn nul_from(s: Seq<u8>, i: int) -> Option<int>
    decreases s.len() - i,
{
    if i < 0 || i >= s.len() {
        None
    } else if s[i] == 0 {
        Some(i)
    } else {
        nul_from(s, i + 1)
    }
}

/// The bytes of a NUL-terminated text field, held without the terminator. No byte of it
/// is zero, so that the terminator is the first zero byte on the wire.
#[derive(Debug, PartialEq, Eq)]
pub struct CString {
    bytes: Vec<u8>,
}

impl View for CString {
    type V = Seq<u8>;

    closed spec fn view(&self) -> Seq<u8> {
        self.bytes@
    }
}

impl Clone for CString {
    fn clone(&self) -> (r: CString)
        ensures
            r@ == self@,
    {
        proof {
            use_type_invariant(self);
        }
        CString { bytes: self.bytes.clone() }
    }
}

impl CString {
    #[verifier::type_invariant]
    spec fn inv(&self) -> bool {
        no_nul(self.bytes@)
    }

    /// The text made of `bytes`; `None` when one of them is zero.
    pub fn new(bytes: Vec<u8>) -> (r: Option<CString>)
        ensures
            r is Some <==> no_nul(bytes@),
            r matches Some(c) ==> c@ == bytes@,
    {
        let mut i: usize = 0;
        while i < bytes.len()
            invariant
                i <= bytes@.len(),
                forall|j: int| 0 <= j < i ==> #[trigger] bytes@[j] != 0,
            decreases bytes@.len() - i,
        {
            if bytes[i] == 0 {
                return None;
            }
            i = i + 1;
        }
        Some(CString { bytes })
    }

    /// The bytes of the text, without the terminator, taken out of it.
    pub fn into_bytes(self) -> (r: Vec<u8>)
        ensures
            r@ == self@,
    {
        self.bytes
    }

    /// The bytes of the text, without the terminator.
    pub fn as_bytes(&self) -> (r: &[u8])
        ensures
            r@ == self@,
    {
        self.bytes.as_slice()
    }
}

proof fn lemma_nul_from(m: Seq<u8>, rest: Seq<u8>, i: int)
    requires
        no_nul(m),
        0 <= i <= m.len(),
    ensures
        nul_from(m.push(0) + rest, i) == Some(m.len() as int),
    decreases m.len() - i,
{
    let s = m.push(0) + rest;
    if i < m.len() {
        assert(s[i] == m[i]);
        lemma_nul_from(m, rest, i + 1);
    } else {
        assert(s[i] == 0);
    }
}

impl SizeBytes for CString {
    open spec fn spec_fits(m: Seq<u8>) -> bool {
        no_nul(m)
    }

    open spec fn spec_bytes(m: Seq<u8>) -> Seq<u8> {
        m.push(0)
    }

    fn fits(&self) -> (r: bool) {
        proof {
            use_type_invariant(self);
        }
        true
    }

    fn size_bytes(&self) -> (r: usize) {
        self.bytes.len() + 1
    }
}

impl WriteToBytes for CString {
    fn write_to_bytes(&self, out: &mut Vec<u8>) -> (r: Result<(), CodecError>) {
        proof {
            use_type_invariant(self);
        }
        let ghost start = out@;
        let mut i: usize = 0;
        while i < self.bytes.len()
            invariant
                i <= self.bytes@.len(),
                out@ == start + self.bytes@.take(i as int),
            decreases self.bytes@.len() - i,
        {
            out.push(self.bytes[i]);
            proof {
                assert(self.bytes@.take(i + 1) =~= self.bytes@.take(i as int).push(self.bytes@[i as int]));
            }
            i = i + 1;
        }
        out.push(0);
        proof {
            assert(self.bytes@.take(i as int) =~= self.bytes@);
            assert(out@ =~= start + self.bytes@.push(0));
        }
        Ok(())
    }
}

impl ReadFromBytes for CString {
    open spec fn spec_parse(s: Seq<u8>) -> Option<(Seq<u8>, nat)> {
        match nul_from(s, 0) {
            Some(k) => Some((s.take(k), (k + 1) as nat)),
            None => None,
        }
    }

    proof fn lemma_parse_bytes(m: Seq<u8>, rest: Seq<u8>) {
        lemma_nul_from(m, rest, 0);
        assert((m.push(0) + rest).take(m.len() as int) =~= m);
    }

    fn read_from_bytes(buf: &[u8], pos: usize) -> (r: Result<(CString, usize), CodecError>) {
        let ghost s = buf@.skip(pos as int);
        let mut bytes: Vec<u8> = Vec::new();
        let mut i = pos;
        while i < buf.len() && buf[i] != 0
            invariant
                pos <= i <= buf@.len(),
                s == buf@.skip(pos as int),
                nul_from(s, 0) == nul_from(s, i - pos),
                bytes@ == buf@.subrange(pos as int, i as int),
                no_nul(bytes@),
            decreases buf@.len() - i,
        {
            proof {
                assert(s[i - pos] == buf@[i as int]);
            }
            bytes.push(buf[i]);
            proof {
                assert(bytes@ =~= buf@.subrange(pos as int, i + 1));
            }
            i = i + 1;
        }
        if i == buf.len() {
            return Err(CodecError::Truncated);
        }
        proof {
            assert(s[i - pos] == 0);
            assert(s.take(i - pos) =~= bytes@);
        }
        Ok((CString { bytes }, i + 1))
    }
}

/// A text field of 16-bit code units, written as a 16-bit count of units followed by
/// the units.
#[derive(Clone, Debug, PartialEq, Eq)]
pub struct Ucs2 {
    pub units: Vec<u16>,
}

impl View for Ucs2 {
    type V = Seq<u16>;

    open spec fn view(&self) -> Seq<u16> {
        views(self.units@)
    }
}

impl SizeBytes for Ucs2 {
    open spec fn spec_fits(m: Seq<u16>) -> bool {
        list16_fits::<u16>(m)
    }

    open spec fn spec_bytes(m: Seq<u16>) -> Seq<u8> {
        list16_bytes::<u16>(m)
    }

    fn fits(&self) -> (r: bool) {
        self.units.len() <= 0xffff && fits_vec(&self.units)
    }

    fn size_bytes(&self) -> (r: usize) {
        size_list16(&self.units)
    }
}

impl WriteToBytes for Ucs2 {
    fn write_to_bytes(&self, out: &mut Vec<u8>) -> (r: Result<(), CodecError>) {
        write_list16(&self.units, out)
    }
}

impl ReadFromBytes for Ucs2 {
    open spec fn spec_parse(s: Seq<u8>) -> Option<(Seq<u16>, nat)> {
        parse_list16::<u16>(s)
    }

    proof fn lemma_parse_bytes(m: Seq<u16>, rest: Seq<u8>) {
        lemma_parse_list16::<u16>(m, rest);
    }

    fn read_from_bytes(buf: &[u8], pos: usize) -> (r: Result<(Ucs2, usize), CodecError>) {
        match read_list16(buf, pos) {
            Ok((units, end)) => Ok((Ucs2 { units }, end)),
            Err(e) => Err(e),
        }
    }
}

} // verus!
