//! An owned, NUL-terminated Latin-1 string buffer.
use vstd::prelude::*;

verus! {

/// The index of the first NUL byte of `s` at or after `from`, or `s.len()` if none.
pub open spec fn first_nul(s: Seq<u8>, from: int) -> int
    decreases s.len() - from,
{
    if from >= s.len() || from < 0 {
        s.len() as int
    } else if s[from] == 0 {
        from
    } else {
        first_nul(s, from + 1)
    }
}

proof fn lemma_first_nul(s: Seq<u8>, from: int)
    requires
        0 <= from <= s.len(),
    ensures
        from <= first_nul(s, from) <= s.len(),
        first_nul(s, from) < s.len() ==> s[first_nul(s, from)] == 0,
        forall|j: int| from <= j < first_nul(s, from) ==> s[j] != 0,
    decreases s.len() - from,
{
    if from < s.len() && s[from] != 0 {
        lemma_first_nul(s, from + 1);
    }
}

/// A fixed-capacity buffer that holds a NUL-terminated Latin-1 string.
#[derive(Clone, Debug)]
pub struct SaneString {
    buf: Vec<u8>,
}

impl SaneString {
    /// The whole buffer, the string with its NUL and what follows it.
    pub closed spec fn spec_buf(&self) -> Seq<u8> {
        self.buf@
    }

    /// The buffer holds a NUL.
    pub open spec fn wf(&self) -> bool {
        first_nul(self.spec_buf(), 0) < self.spec_buf().len()
    }

    /// The bytes of the string, without its NUL (the whole buffer if it holds none).
    pub open spec fn spec_bytes(&self) -> Seq<u8> {
        self.spec_buf().subrange(0, first_nul(self.spec_buf(), 0))
    }

    /// An empty string in a buffer of `reserve` bytes.
    pub fn with_capacity(reserve: usize) -> (r: Self)
        requires
            reserve != 0,
        ensures
            r.wf(),
            r.spec_buf().len() == reserve,
            r.spec_bytes() == Seq::<u8>::empty(),
    {
        let buf: Vec<u8> = vec![0u8; reserve];
        SaneString { buf }
    }

    /// The string of `bytes` up to their first NUL, in a buffer of exactly `bytes`.
    pub fn from_bytes_with_nul(bytes: &[u8]) -> (r: Self)
        requires
            first_nul(bytes@, 0) < bytes@.len(),
        ensures
            r.wf(),
            r.spec_buf() == bytes@,
    {
        let mut buf: Vec<u8> = Vec::new();
        let mut i: usize = 0;
        while i < bytes.len()
            invariant
                i <= bytes@.len(),
                buf@ == bytes@.subrange(0, i as int),
            decreases bytes@.len() - i,
        {
            buf.push(bytes[i]);
            i += 1;
            proof {
                assert(bytes@.subrange(0, i as int) =~= bytes@.subrange(0, i - 1) + seq![
                    bytes@[i - 1],
                ]);
            }
        }
        proof {
            assert(bytes@.subrange(0, bytes@.len() as int) =~= bytes@);
        }
        SaneString { buf }
    }

    pub fn capacity(&self) -> (r: usize)
        ensures
            r == self.spec_buf().len(),
    {
        self.buf.len()
    }

    /// The length of the string, without its NUL.
    pub fn count_bytes(&self) -> (r: usize)
        requires
            self.wf(),
        ensures
            r == self.spec_bytes().len(),
            r < self.spec_buf().len(),
    {
        proof {
            lemma_first_nul(self.buf@, 0);
        }
        let len = self.buf.len();
        let mut i: usize = 0;
        while self.buf[i] != 0
            invariant
                len == self.buf@.len(),
                0 <= i <= first_nul(self.buf@, 0),
                first_nul(self.buf@, 0) < self.buf@.len(),
                forall|j: int| 0 <= j < first_nul(self.buf@, 0) ==> self.buf@[j] != 0,
                self.buf@[first_nul(self.buf@, 0)] == 0,
            decreases first_nul(self.buf@, 0) - i,
        {
            i += 1;
        }
        i
    }

    /// The length of the string with its NUL.
    pub fn count_bytes_with_nul(&self) -> (r: usize)
        requires
            self.wf(),
        ensures
            r == self.spec_bytes().len() + 1,
            r <= self.spec_buf().len(),
    {
        let n = self.count_bytes();
        let cap = self.capacity();
        n + 1
    }

    /// The bytes of the string, without its NUL.
    pub fn to_bytes(&self) -> (r: &[u8])
        requires
            self.wf(),
        ensures
            r@ == self.spec_bytes(),
    {
        let n = self.count_bytes();
        proof {
            lemma_first_nul(self.buf@, 0);
        }
        vstd::slice::slice_subrange(self.buf.as_slice(), 0, n)
    }

    /// The bytes of the string with its NUL.
    pub fn to_bytes_with_nul(&self) -> (r: &[u8])
        requires
            self.wf(),
        ensures
            r@ == self.spec_bytes().push(0),
    {
        let n = self.count_bytes_with_nul();
        proof {
            lemma_first_nul(self.buf@, 0);
            assert(self.buf@.subrange(0, n as int) =~= self.spec_bytes().push(0));
        }
        vstd::slice::slice_subrange(self.buf.as_slice(), 0, n)
    }

    /// Replaces the string by `value`, which must fit with its NUL.
    pub fn set_contents(&mut self, value: &SaneString)
        requires
            old(self).wf(),
            value.wf(),
            value.spec_bytes().len() + 1 <= old(self).spec_buf().len(),
        ensures
            final(self).wf(),
            final(self).spec_bytes() == value.spec_bytes(),
            final(self).spec_buf().len() == old(self).spec_buf().len(),
    {
        let src = value.to_bytes_with_nul();
        let ghost old_buf = self.buf@;
        let mut i: usize = 0;
        while i < src.len()
            invariant
                i <= src@.len(),
                src@ == value.spec_bytes().push(0),
                src@.len() <= self.buf@.len(),
                self.buf@.len() == old_buf.len(),
                forall|j: int| 0 <= j < i ==> self.buf@[j] == src@[j],
            decreases src@.len() - i,
        {
            self.buf.set(i, src[i]);
            i += 1;
        }
        proof {
            let n = value.spec_bytes().len() as int;
            lemma_first_nul(value.spec_buf(), 0);
            assert(src@.len() == n + 1);
            assert forall|j: int| 0 <= j < n implies self.buf@[j] != 0 by {
                assert(self.buf@[j] == src@[j]);
                assert(src@[j] == value.spec_bytes()[j]);
                assert(value.spec_bytes()[j] == value.spec_buf()[j]);
            }
            assert(self.buf@[n] == src@[n]);
            assert(self.buf@[n] == 0);
            lemma_nul_at(self.buf@, n);
            assert forall|j: int| 0 <= j < n implies self.spec_bytes()[j] == value.spec_bytes()[j] by {
                assert(self.buf@[j] == src@[j]);
            }
            assert(self.spec_bytes() =~= value.spec_bytes());
        }
    }

    /// The bytes of the string, without its NUL.
    pub fn bytes(&self) -> (r: Vec<u8>)
        requires
            self.wf(),
        ensures
            r@ == self.spec_bytes(),
    {
        let s = self.to_bytes();
        let mut out: Vec<u8> = Vec::new();
        let mut i: usize = 0;
        while i < s.len()
            invariant
                i <= s@.len(),
                out@ == s@.subrange(0, i as int),
            decreases s@.len() - i,
        {
            out.push(s[i]);
            i += 1;
            proof {
                assert(s@.subrange(0, i as int) =~= s@.subrange(0, i - 1) + seq![s@[i - 1]]);
            }
        }
        proof {
            assert(s@.subrange(0, s@.len() as int) =~= s@);
        }
        out
    }

    /// The characters of the string: each Latin-1 byte is the code point of the same value.
    pub fn chars(&self) -> (r: Vec<char>)
        requires
            self.wf(),
        ensures
            r@.len() == self.spec_bytes().len(),
            forall|i: int| 0 <= i < r@.len() ==> r@[i] as u32 == self.spec_bytes()[i] as u32,
    {
        let s = self.to_bytes();
        let mut out: Vec<char> = Vec::new();
        let mut i: usize = 0;
        while i < s.len()
            invariant
                i <= s@.len(),
                out@.len() == i,
                forall|j: int| 0 <= j < i ==> out@[j] as u32 == s@[j] as u32,
            decreases s@.len() - i,
        {
            out.push(s[i] as char);
            i += 1;
        }
        out
    }
}

/// A NUL at `n` with none before it is the first.
proof fn lemma_nul_at(s: Seq<u8>, n: int)
    requires
        0 <= n < s.len(),
        s[n] == 0,
        forall|j: int| 0 <= j < n ==> s[j] != 0,
    ensures
        first_nul(s, 0) == n,
{
    lemma_nul_from(s, 0, n);
}

proof fn lemma_nul_from(s: Seq<u8>, from: int, n: int)
    requires
        0 <= from <= n < s.len(),
        s[n] == 0,
        forall|j: int| 0 <= j < n ==> s[j] != 0,
    ensures
        first_nul(s, from) == n,
    decreases n - from,
{
    if from < n {
        lemma_nul_from(s, from + 1, n);
    }
}

impl PartialEq for SaneString {
    fn eq(&self, other: &SaneString) -> (r: bool) {
        let a = self.bytes_or_buffer();
        let b = other.bytes_or_buffer();
        if a.len() != b.len() {
            proof {
                assert(a@.len() != b@.len());
            }
            return false;
        }
        let mut i: usize = 0;
        while i < a.len()
            invariant
                a@.len() == b@.len(),
                a@ == self.spec_bytes(),
                b@ == other.spec_bytes(),
                i <= a@.len(),
                forall|j: int| 0 <= j < i ==> a@[j] == b@[j],
            decreases a@.len() - i,
        {
            if a[i] != b[i] {
                proof {
                    assert(a@[i as int] != b@[i as int]);
                }
                return false;
            }
            i += 1;
        }
        proof {
            assert(a@ =~= b@);
        }
        true
    }
}

impl vstd::std_specs::cmp::PartialEqSpecImpl for SaneString {
    open spec fn obeys_eq_spec() -> bool {
        true
    }

    open spec fn eq_spec(&self, other: &SaneString) -> bool {
        self.spec_bytes() == other.spec_bytes()
    }
}

impl SaneString {
    /// The string's bytes when the buffer holds a NUL, otherwise the whole buffer.
    fn bytes_or_buffer(&self) -> (r: &[u8])
        ensures
            r@ == self.spec_bytes(),
    {
        proof {
            lemma_first_nul(self.buf@, 0);
        }
        let mut i: usize = 0;
        while i < self.buf.len() && self.buf[i] != 0
            invariant
                0 <= i <= first_nul(self.buf@, 0),
                first_nul(self.buf@, 0) <= self.buf@.len(),
                first_nul(self.buf@, 0) < self.buf@.len() ==> self.buf@[first_nul(self.buf@, 0)]
                    == 0,
            decreases self.buf@.len() - i,
        {
            i += 1;
        }
        vstd::slice::slice_subrange(self.buf.as_slice(), 0, i)
    }
}

impl Eq for SaneString {
}

} // verus!
