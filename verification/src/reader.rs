//! A zero-padding cursor over an input buffer, used to derive test and fuzz
//! inputs from raw bytes. Reads past the end of the buffer yield zero bytes,
//! so a reader never fails on short input.

use vstd::prelude::*;

verus! {

/// The byte at position `p`, or zero past the end of `d`.
pub open spec fn byte_at(d: Seq<u8>, p: int) -> u8 {
    if 0 <= p < d.len() {
        d[p]
    } else {
        0
    }
}

/// `p + n`, saturating at `usize::MAX`.
pub open spec fn advance(p: int, n: int) -> int {
    if p + n > usize::MAX {
        usize::MAX as int
    } else {
        p + n
    }
}

/// The `n` bytes read from position `p` on, zero-padded.
pub open spec fn window(d: Seq<u8>, p: int, n: nat) -> Seq<u8> {
    Seq::new(n, |k: int| byte_at(d, p + k))
}

/// The unsigned big-endian number the bytes spell.
pub open spec fn be_value(b: Seq<u8>) -> nat
    decreases b.len(),
{
    if b.len() == 0 {
        0
    } else {
        (be_value(b.drop_last()) * 256 + b.last()) as nat
    }
}

/// `256` to the power `n`.
pub open spec fn pow256(n: nat) -> nat
    decreases n,
{
    if n == 0 {
        1
    } else {
        pow256((n - 1) as nat) * 256
    }
}

/// The two's-complement reading of a 128-bit unsigned value.
pub open spec fn signed128(v: nat) -> int {
    if v < 0x8000_0000_0000_0000_0000_0000_0000_0000 {
        v as int
    } else {
        v - 0x1_0000_0000_0000_0000_0000_0000_0000_0000
    }
}

/// Zero-padding cursor over an input buffer.
pub struct Reader<'d> {
    data: &'d [u8],
    pos: usize,
}

/// The big-endian value of `b`, at most sixteen bytes long.
fn be_u128(b: &[u8]) -> (v: u128)
    requires
        b@.len() <= 16,
    ensures
        v == be_value(b@),
        v < pow256(b@.len()),
{
    let mut v: u128 = 0;
    let mut i: usize = 0;
    proof {
        reveal_with_fuel(pow256, 17);
        assert(pow256(16) == 0x1_0000_0000_0000_0000_0000_0000_0000_0000);
    }
    while i < b.len()
        invariant
            0 <= i <= b@.len() <= 16,
            v == be_value(b@.take(i as int)),
            v < pow256(i as nat),
            pow256(i as nat) <= pow256(16),
            pow256(16) == 0x1_0000_0000_0000_0000_0000_0000_0000_0000,
        decreases b@.len() - i,
    {
        proof {
            assert(b@.take(i as int + 1).drop_last() =~= b@.take(i as int));
            lemma_pow256_mono((i + 1) as nat, 16);
        }
        v = v * 256 + b[i] as u128;
        i = i + 1;
    }
    proof {
        assert(b@.take(i as int) =~= b@);
    }
    v
}

proof fn lemma_pow256_mono(i: nat, j: nat)
    requires
        i <= j,
    ensures
        pow256(i) <= pow256(j),
    decreases j - i,
{
    if i < j {
        lemma_pow256_mono(i, (j - 1) as nat);
    }
}

impl<'d> Reader<'d> {
    /// The buffer being read.
    pub closed spec fn bytes(&self) -> Seq<u8> {
        self.data@
    }

    /// The position of the next read.
    pub closed spec fn position(&self) -> int {
        self.pos as int
    }

    /// A reader at the start of `data`.
    pub fn new(data: &'d [u8]) -> (r: Self)
        ensures
            r.bytes() == data@,
            r.position() == 0,
    {
        Reader { data, pos: 0 }
    }

    /// Fills `out` with the next bytes, zero past the end of the buffer.
    fn fill(&mut self, out: &mut [u8])
        ensures
            final(self).bytes() == old(self).bytes(),
            final(self).position() == advance(old(self).position(), old(out)@.len() as int),
            final(out)@ == window(old(self).bytes(), old(self).position(), old(out)@.len()),
    {
        let ghost p0 = self.pos as int;
        let ghost d = self.data@;
        let n = out.len();
        let mut i: usize = 0;
        while i < n
            invariant
                0 <= i <= n,
                n == out@.len(),
                n == old(out)@.len(),
                self.data@ == d,
                d == old(self).bytes(),
                p0 == old(self).position(),
                self.pos as int == advance(p0, i as int),
                forall|k: int| 0 <= k < i ==> out@[k] == byte_at(d, p0 + k),
            decreases n - i,
        {
            let b = if self.pos < self.data.len() {
                self.data[self.pos]
            } else {
                0
            };
            assert(b == byte_at(d, p0 + i));
            out[i] = b;
            self.pos = self.pos.saturating_add(1);
            i = i + 1;
        }
        assert(out@ =~= window(d, p0, n as nat));
    }

    /// The next byte.
    pub fn u8(&mut self) -> (r: u8)
        ensures
            final(self).bytes() == old(self).bytes(),
            final(self).position() == advance(old(self).position(), 1),
            r == byte_at(old(self).bytes(), old(self).position()),
    {
        let mut buf = [0u8; 1];
        self.fill(&mut buf);
        buf[0]
    }

    /// The next four bytes, big-endian.
    pub fn u32(&mut self) -> (r: u32)
        ensures
            final(self).bytes() == old(self).bytes(),
            final(self).position() == advance(old(self).position(), 4),
            r == be_value(window(old(self).bytes(), old(self).position(), 4)),
    {
        let mut buf = [0u8; 4];
        self.fill(&mut buf);
        let v = be_u128(&buf);
        proof {
            reveal_with_fuel(pow256, 5);
        }
        v as u32
    }

    /// The next eight bytes, big-endian.
    pub fn u64(&mut self) -> (r: u64)
        ensures
            final(self).bytes() == old(self).bytes(),
            final(self).position() == advance(old(self).position(), 8),
            r == be_value(window(old(self).bytes(), old(self).position(), 8)),
    {
        let mut buf = [0u8; 8];
        self.fill(&mut buf);
        let v = be_u128(&buf);
        proof {
            reveal_with_fuel(pow256, 9);
        }
        v as u64
    }

    /// The next sixteen bytes, big-endian two's complement.
    pub fn i128(&mut self) -> (r: i128)
        ensures
            final(self).bytes() == old(self).bytes(),
            final(self).position() == advance(old(self).position(), 16),
            r == signed128(be_value(window(old(self).bytes(), old(self).position(), 16))),
    {
        let mut buf = [0u8; 16];
        self.fill(&mut buf);
        let v = be_u128(&buf);
        let r = v as i128;
        assert(v < 0x8000_0000_0000_0000_0000_0000_0000_0000u128 ==> r == v) by (bit_vector)
            requires
                r == v as i128,
        ;
        assert(v >= 0x8000_0000_0000_0000_0000_0000_0000_0000u128 ==> r == v
            - 0x1_0000_0000_0000_0000_0000_0000_0000_0000int) by (bit_vector)
            requires
                r == v as i128,
        ;
        r
    }

    /// The next thirty-two bytes.
    pub fn bytes32(&mut self) -> (r: [u8; 32])
        ensures
            final(self).bytes() == old(self).bytes(),
            final(self).position() == advance(old(self).position(), 32),
            r@ == window(old(self).bytes(), old(self).position(), 32),
    {
        let mut buf = [0u8; 32];
        self.fill(&mut buf);
        buf
    }

    /// A boolean from the low bit of the next byte: `true` when it is even.
    pub fn bool(&mut self) -> (r: bool)
        ensures
            final(self).bytes() == old(self).bytes(),
            final(self).position() == advance(old(self).position(), 1),
            r == (byte_at(old(self).bytes(), old(self).position()) % 2 == 0),
    {
        self.u8() % 2 == 0
    }

    /// A timestamp below `2^63`: the next eight bytes, halved.
    pub fn timestamp(&mut self) -> (r: u64)
        ensures
            final(self).bytes() == old(self).bytes(),
            final(self).position() == advance(old(self).position(), 8),
            r == be_value(window(old(self).bytes(), old(self).position(), 8)) / 2,
    {
        let v = self.u64();
        let r = v >> 1;
        assert(r == v / 2) by (bit_vector)
            requires
                r == v >> 1,
        ;
        r
    }

    /// A length in `0..=max`, from the next byte.
    pub fn len(&mut self, max: usize) -> (r: usize)
        requires
            max < usize::MAX,
        ensures
            final(self).bytes() == old(self).bytes(),
            final(self).position() == advance(old(self).position(), 1),
            r == byte_at(old(self).bytes(), old(self).position()) as int % (max + 1),
    {
        (self.u8() as usize) % (max + 1)
    }

    /// The bytes of an ASCII text of up to `max` lowercase letters: its
    /// length from the next byte, as `len` reads it, then one letter per byte,
    /// the byte taken modulo 26 from `a`.
    pub fn ascii_string(&mut self, max: usize) -> (r: Vec<u8>)
        requires
            max < usize::MAX,
        ensures
            final(self).bytes() == old(self).bytes(),
            ({
                let d = old(self).bytes();
                let p = old(self).position();
                let q = advance(p, 1);
                let n = byte_at(d, p) as int % (max + 1);
                &&& r@.len() == n
                &&& forall|k: int| 0 <= k < n ==> #[trigger] r@[k] == 97 + byte_at(d, advance(q, k)) % 26
                &&& final(self).position() == advance(q, n)
            }),
    {
        let ghost d = self.bytes();
        let ghost q = advance(self.position(), 1);
        let n = self.len(max);
        let mut out: Vec<u8> = Vec::new();
        let mut i: usize = 0;
        while i < n
            invariant
                0 <= i <= n,
                self.bytes() == d,
                0 <= q <= usize::MAX,
                self.position() == advance(q, i as int),
                out@.len() == i,
                forall|k: int| 0 <= k < i ==> #[trigger] out@[k] == 97 + byte_at(d, advance(q, k)) % 26,
            decreases n - i,
        {
            let b = self.u8();
            out.push(97 + b % 26);
            i = i + 1;
        }
        out
    }

    /// `real_id` when the next byte is even, else an id read from the
    /// following eight bytes.
    pub fn target_id(&mut self, real_id: u64) -> (r: u64)
        ensures
            final(self).bytes() == old(self).bytes(),
            ({
                let p = old(self).position();
                let d = old(self).bytes();
                if byte_at(d, p) % 2 == 0 {
                    r == real_id && final(self).position() == advance(p, 1)
                } else {
                    r == be_value(window(d, advance(p, 1), 8)) && final(self).position()
                        == advance(advance(p, 1), 8)
                }
            }),
    {
        if self.bool() {
            real_id
        } else {
            self.u64()
        }
    }
}

} // verus!
