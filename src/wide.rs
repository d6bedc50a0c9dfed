use vstd::prelude::*;
use vstd::string::StrSliceExecFns;

verus! {

/// The UTF-16 code units of one character.
pub open spec fn utf16_units(c: char) -> Seq<u16> {
    let v = (c as u32) as int;
    if v < 0x10000 {
        seq![v as u16]
    } else {
        seq![(0xD800 + (v - 0x10000) / 0x400) as u16, (0xDC00 + (v - 0x10000) % 0x400) as u16]
    }
}

/// The UTF-16 code units of a text, character by character.
pub open spec fn utf16_of(s: Seq<char>) -> Seq<u16>
    decreases s.len(),
{
    if s.len() == 0 {
        Seq::empty()
    } else {
        utf16_of(s.drop_last()) + utf16_units(s.last())
    }
}

/// A wide string as the platform takes it: UTF-16 code units ending in a zero unit.
/// The empty buffer stands for the null string.
#[derive(Clone, PartialEq, Eq, Debug)]
pub struct CWideString {
    data: Vec<u16>,
}

impl View for CWideString {
    type V = Seq<u16>;

    closed spec fn view(&self) -> Seq<u16> {
        self.data@
    }
}

impl CWideString {
    /// The null string.
    pub fn new() -> (r: CWideString)
        ensures
            r@ == Seq::<u16>::empty(),
    {
        CWideString { data: Vec::new() }
    }

    /// The UTF-16 encoding of `s`, followed by a zero unit.
    pub fn from_text(s: &str) -> (r: CWideString)
        ensures
            r@ == utf16_of(s@).push(0),
    {
        let n = s.unicode_len();
        let mut data: Vec<u16> = Vec::new();
        let mut i: usize = 0;
        while i < n
            invariant
                0 <= i <= n,
                n == s@.len(),
                data@ == utf16_of(s@.take(i as int)),
            decreases n - i,
        {
            let c = s.get_char(i);
            let v = c as u32;
            if v < 0x10000 {
                data.push(v as u16);
            } else {
                data.push((0xD800u32 + (v - 0x10000u32) / 0x400u32) as u16);
                data.push((0xDC00u32 + (v - 0x10000u32) % 0x400u32) as u16);
            }
            proof {
                let t = s@.take(i + 1);
                assert(t.drop_last() =~= s@.take(i as int));
                assert(t.last() == c);
                assert(data@ =~= utf16_of(s@.take(i as int)) + utf16_units(c));
            }
            i = i + 1;
        }
        proof {
            assert(s@.take(n as int) =~= s@);
        }
        data.push(0);
        CWideString { data }
    }

    /// Whether this is the null string.
    pub fn is_null(&self) -> (r: bool)
        ensures
            r == (self@.len() == 0),
    {
        self.data.len() == 0
    }

    /// The number of code units before the terminating zero.
    pub fn len(&self) -> (r: usize)
        ensures
            self@.len() == 0 ==> r == 0,
            self@.len() > 0 ==> r == self@.len() - 1,
    {
        if self.is_null() {
            0
        } else {
            self.len_with_null() - 1
        }
    }

    /// The number of code units, the terminating zero included.
    pub fn len_with_null(&self) -> (r: usize)
        ensures
            r == self@.len(),
    {
        self.data.len()
    }

    /// The code units, the terminating zero included, as the platform reads them.
    pub fn as_ptr(&self) -> (r: &[u16])
        ensures
            r@ == self@,
    {
        self.data.as_slice()
    }
}

/// Whether a buffer of wide strings is well formed: empty, or ending in a zero unit.
pub open spec fn is_wide_string_seq(s: Seq<u16>) -> bool {
    s.len() == 0 || s.last() == 0
}

/// A buffer of wide strings laid end to end, each ending in a zero unit.
pub struct CWideStringSeq {
    data: Vec<u16>,
}

impl View for CWideStringSeq {
    type V = Seq<u16>;

    closed spec fn view(&self) -> Seq<u16> {
        self.data@
    }
}

impl CWideStringSeq {
    /// Takes a buffer that the caller knows to be well formed.
    pub fn from_raw_unchecked(data: Vec<u16>) -> (r: CWideStringSeq)
        requires
            is_wide_string_seq(data@),
        ensures
            r@ == data@,
    {
        CWideStringSeq { data }
    }

    /// Walks the strings from the first.
    pub fn iter_wide_null(&self) -> (r: CWideStringSeqIter<'_>)
        ensures
            r.spec_seq()@ == self@,
            r.spec_pos() == 0,
    {
        CWideStringSeqIter { seq: self, pos: 0 }
    }
}

/// Walks the strings of a [`CWideStringSeq`], each with its terminating zero.
pub struct CWideStringSeqIter<'a> {
    seq: &'a CWideStringSeq,
    pos: usize,
}

impl<'a> CWideStringSeqIter<'a> {
    pub closed spec fn spec_seq(self) -> CWideStringSeq {
        *self.seq
    }

    /// Where the next string starts.
    pub closed spec fn spec_pos(self) -> int {
        self.pos as int
    }

    /// The next string, with its terminating zero, or `None` after the last.
    pub fn next(&mut self) -> (r: Option<Vec<u16>>)
        requires
            is_wide_string_seq(old(self).spec_seq()@),
            0 <= old(self).spec_pos() <= old(self).spec_seq()@.len(),
        ensures
            final(self).spec_seq() == old(self).spec_seq(),
            old(self).spec_pos() == old(self).spec_seq()@.len() ==> {
                &&& r is None
                &&& final(self).spec_pos() == old(self).spec_pos()
            },
            old(self).spec_pos() < old(self).spec_seq()@.len() ==> {
                let d = old(self).spec_seq()@;
                let p = old(self).spec_pos();
                let w = r->Some_0@;
                &&& r is Some
                &&& w.len() >= 1
                &&& p + w.len() <= d.len()
                &&& w == d.subrange(p, p + w.len())
                &&& w.last() == 0
                &&& forall|k: int| 0 <= k < w.len() - 1 ==> w[k] != 0
                &&& final(self).spec_pos() == p + w.len()
            },
    {
        let data = &self.seq.data;
        let n = data.len();
        if self.pos >= n {
            return None;
        }
        let start = self.pos;
        let mut end: usize = start;
        while data[end] != 0
            invariant
                start <= end < n,
                n == data@.len(),
                data@[n - 1] == 0,
                forall|k: int| start <= k < end ==> data@[k] != 0,
            decreases n - end,
        {
            end = end + 1;
        }
        let mut out: Vec<u16> = Vec::new();
        let mut j: usize = start;
        while j <= end
            invariant
                start <= j <= end + 1,
                end < n,
                n == data@.len(),
                out@ == data@.subrange(start as int, j as int),
            decreases end + 1 - j,
        {
            out.push(data[j]);
            proof {
                assert(out@ =~= data@.subrange(start as int, j + 1));
            }
            j = j + 1;
        }
        self.pos = end + 1;
        Some(out)
    }
}

} // verus!
