use vstd::prelude::*;

use crate::error::FlacError;

verus! {

/// `256` raised to the power `n`.
pub open spec fn pow256(n: nat) -> nat
    decreases n,
{
    if n == 0 {
        1
    } else {
        256 * pow256((n - 1) as nat)
    }
}

/// The unsigned integer that the bytes `s` encode, most significant byte first.
pub open spec fn be_value(s: Seq<u8>) -> nat
    decreases s.len(),
{
    if s.len() == 0 {
        0
    } else {
        be_value(s.drop_last()) * 256 + s.last() as nat
    }
}

/// The unsigned integer that four bytes encode, least significant byte first.
pub open spec fn le_u32_value(s: Seq<u8>) -> nat
    recommends
        s.len() == 4,
{
    s[0] as nat + 256 * (s[1] as nat) + 65536 * (s[2] as nat) + 16777216 * (s[3] as nat)
}

pub proof fn lemma_pow256_monotonic(a: nat, b: nat)
    requires
        a <= b,
    ensures
        pow256(a) <= pow256(b),
    decreases b - a,
{
    if a < b {
        lemma_pow256_monotonic(a, (b - 1) as nat);
    }
}

pub proof fn lemma_pow256_eight()
    ensures
        pow256(2) == 0x1_0000,
        pow256(3) == 0x100_0000,
        pow256(4) == 0x1_0000_0000,
        pow256(8) == 0x1_0000_0000_0000_0000,
{
    reveal_with_fuel(pow256, 9);
}

/// `n` big-endian bytes encode a value below `256^n`.
pub proof fn lemma_be_value_bound(s: Seq<u8>)
    ensures
        be_value(s) < pow256(s.len()),
    decreases s.len(),
{
    if s.len() > 0 {
        let t = s.drop_last();
        lemma_be_value_bound(t);
        let v = be_value(t);
        let p = pow256(t.len());
        let b = s.last() as nat;
        assert(v * 256 + b < 256 * p) by (nonlinear_arith)
            requires
                v < p,
                b < 256,
        ;
    }
}

/// A forward-only, bounds-checked cursor over a byte buffer.
pub struct ByteReader {
    data: Vec<u8>,
    pos: usize,
}

impl ByteReader {
    /// All the bytes of the source, read or not.
    pub closed spec fn bytes(&self) -> Seq<u8> {
        self.data@
    }

    /// How many bytes have been consumed.
    pub closed spec fn pos(&self) -> int {
        self.pos as int
    }

    pub closed spec fn wf(&self) -> bool {
        self.pos <= self.data.len()
    }

    /// `next` reads the same source as `self`, from any position.
    pub open spec fn continues(&self, next: &ByteReader) -> bool {
        &&& next.wf()
        &&& next.bytes() == self.bytes()
    }

    /// The `n` bytes that follow the cursor.
    pub open spec fn ahead(&self, n: int) -> Seq<u8> {
        self.bytes().subrange(self.pos(), self.pos() + n)
    }

    /// Whether at least `n` unread bytes remain.
    pub open spec fn has(&self, n: int) -> bool {
        self.pos() + n <= self.bytes().len()
    }

    /// What a read of `n` bytes leaves behind: the cursor `n` bytes further.
    pub open spec fn advanced(&self, next: &ByteReader, n: int) -> bool {
        &&& next.wf()
        &&& next.bytes() == self.bytes()
        &&& next.pos() == self.pos() + n
    }

    pub fn new(data: Vec<u8>) -> (r: ByteReader)
        ensures
            r.wf(),
            r.bytes() == data@,
            r.pos() == 0,
    {
        ByteReader { data, pos: 0 }
    }

    pub fn position(&self) -> (r: usize)
        requires
            self.wf(),
        ensures
            r == self.pos(),
    {
        self.pos
    }

    pub fn len(&self) -> (r: usize)
        ensures
            r == self.bytes().len(),
    {
        self.data.len()
    }

    pub proof fn lemma_wf(&self)
        requires
            self.wf(),
        ensures
            0 <= self.pos() <= self.bytes().len(),
            self.bytes().len() <= usize::MAX,
    {
    }

    /// Reads `n` bytes (1 to 8) as a big-endian unsigned integer.
    pub fn read_be(&mut self, n: usize) -> (r: Result<u64, FlacError>)
        requires
            old(self).wf(),
            1 <= n <= 8,
        ensures
            r == (if old(self).has(n as int) {
                Ok(be_value(old(self).ahead(n as int)) as u64)
            } else {
                Err(FlacError::UnexpectedEof)
            }),
            old(self).advanced(final(self), if r is Ok { n as int } else { 0 }),
            r is Ok ==> be_value(old(self).ahead(n as int)) < pow256(n as nat),
    {
        if n > self.data.len() - self.pos {
            return Err(FlacError::UnexpectedEof);
        }
        let start = self.pos;
        let mut acc: u64 = 0;
        let mut i: usize = 0;
        proof {
            lemma_pow256_eight();
        }
        while i < n
            invariant
                start == self.pos,
                self.pos + n <= self.data.len(),
                i <= n <= 8,
                acc as nat == be_value(self.data@.subrange(start as int, start + i)),
                acc < pow256(i as nat),
                pow256(8) == 0x1_0000_0000_0000_0000,
            decreases n - i,
        {
            let b = self.data[start + i];
            proof {
                let s = self.data@.subrange(start as int, start + i + 1);
                assert(s.drop_last() =~= self.data@.subrange(start as int, start + i));
                lemma_pow256_monotonic((i + 1) as nat, 8);
                let p = pow256(i as nat);
                assert(acc * 256 + b < 256 * p) by (nonlinear_arith)
                    requires
                        acc < p,
                        b < 256,
                ;
            }
            acc = acc * 256 + b as u64;
            i = i + 1;
        }
        self.pos = start + n;
        Ok(acc)
    }

    /// Reads four bytes as a big-endian `u32`.
    pub fn read_be_u32(&mut self) -> (r: Result<u32, FlacError>)
        requires
            old(self).wf(),
        ensures
            r == (if old(self).has(4) {
                Ok(be_value(old(self).ahead(4)) as u32)
            } else {
                Err(FlacError::UnexpectedEof)
            }),
            old(self).advanced(final(self), if r is Ok { 4 } else { 0 }),
            r is Ok ==> be_value(old(self).ahead(4)) <= u32::MAX,
    {
        proof {
            lemma_pow256_eight();
        }
        match self.read_be(4) {
            Ok(v) => Ok(v as u32),
            Err(e) => Err(e),
        }
    }

    /// Reads four bytes as a little-endian `u32`.
    pub fn read_le_u32(&mut self) -> (r: Result<u32, FlacError>)
        requires
            old(self).wf(),
        ensures
            r == (if old(self).has(4) {
                Ok(le_u32_value(old(self).ahead(4)) as u32)
            } else {
                Err(FlacError::UnexpectedEof)
            }),
            old(self).advanced(final(self), if r is Ok { 4 } else { 0 }),
            r is Ok ==> le_u32_value(old(self).ahead(4)) <= u32::MAX,
    {
        if 4 > self.data.len() - self.pos {
            return Err(FlacError::UnexpectedEof);
        }
        let p = self.pos;
        let v: u32 = self.data[p] as u32 + 256 * (self.data[p + 1] as u32) + 65536 * (
        self.data[p + 2] as u32) + 16777216 * (self.data[p + 3] as u32);
        self.pos = p + 4;
        Ok(v)
    }

    /// Reads the next `n` bytes into a buffer of exactly that size.
    pub fn read_exact(&mut self, n: usize) -> (r: Result<Vec<u8>, FlacError>)
        requires
            old(self).wf(),
        ensures
            match r {
                Ok(v) => old(self).has(n as int) && v@ == old(self).ahead(n as int),
                Err(e) => !old(self).has(n as int) && e == FlacError::UnexpectedEof,
            },
            old(self).advanced(final(self), if r is Ok { n as int } else { 0 }),
    {
        if n > self.data.len() - self.pos {
            return Err(FlacError::UnexpectedEof);
        }
        let start = self.pos;
        let mut out: Vec<u8> = Vec::new();
        let mut i: usize = 0;
        while i < n
            invariant
                start == self.pos,
                self.pos + n <= self.data.len(),
                i <= n,
                out@ == self.data@.subrange(start as int, start + i),
            decreases n - i,
        {
            out.push(self.data[start + i]);
            i = i + 1;
            assert(out@ =~= self.data@.subrange(start as int, start + i));
        }
        self.pos = start + n;
        Ok(out)
    }

    /// Moves the cursor `n` bytes forward without keeping them.
    pub fn skip(&mut self, n: usize) -> (r: Result<(), FlacError>)
        requires
            old(self).wf(),
        ensures
            r == (if old(self).has(n as int) {
                Ok::<(), FlacError>(())
            } else {
                Err(FlacError::UnexpectedEof)
            }),
            old(self).advanced(final(self), if r is Ok { n as int } else { 0 }),
    {
        if n > self.data.len() - self.pos {
            return Err(FlacError::UnexpectedEof);
        }
        self.pos = self.pos + n;
        Ok(())
    }
}

} // verus!
