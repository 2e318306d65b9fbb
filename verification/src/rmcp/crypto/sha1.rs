//! The SHA-1 hash function, stated as a mathematical function on byte
//! sequences and implemented as an incremental hasher proved equal to it.
//!
//! The length field of the padding holds the message length in bits modulo
//! 2^64, so the function is total; for every message shorter than 2^61 bytes
//! it is the standard SHA-1.
use vstd::prelude::*;

verus! {

/// Number of bytes in a digest.
pub const DIGEST_LEN: usize = 20;

/// The five chaining words of the hash.
#[derive(Clone, Copy, Debug)]
pub struct Words {
    pub a: u32,
    pub b: u32,
    pub c: u32,
    pub d: u32,
    pub e: u32,
}

/// Addition modulo 2^32.
pub open spec fn add32(x: u32, y: u32) -> u32 {
    ((x + y) % 0x1_0000_0000) as u32
}

/// Rotation of a 32-bit word to the left by `n` bits, `0 < n < 32`.
pub open spec fn rotl(x: u32, n: u32) -> u32 {
    (x << n) | (x >> ((32 - n) as u32))
}

/// The 32-bit word whose big-endian bytes are `b0 b1 b2 b3`.
pub open spec fn be32(b0: u8, b1: u8, b2: u8, b3: u8) -> u32 {
    (b0 * 0x100_0000 + b1 * 0x1_0000 + b2 * 0x100 + b3) as u32
}

/// The four big-endian bytes of a 32-bit word.
pub open spec fn be32_bytes(w: u32) -> Seq<u8> {
    seq![
        (w / 0x100_0000) as u8,
        (w / 0x1_0000 % 0x100) as u8,
        (w / 0x100 % 0x100) as u8,
        (w % 0x100) as u8,
    ]
}

/// The eight big-endian bytes of a 64-bit word.
pub open spec fn be64_bytes(w: u64) -> Seq<u8> {
    seq![
        (w / 0x100_0000_0000_0000) as u8,
        (w / 0x1_0000_0000_0000 % 0x100) as u8,
        (w / 0x100_0000_0000 % 0x100) as u8,
        (w / 0x1_0000_0000 % 0x100) as u8,
        (w / 0x100_0000 % 0x100) as u8,
        (w / 0x1_0000 % 0x100) as u8,
        (w / 0x100 % 0x100) as u8,
        (w % 0x100) as u8,
    ]
}

/// The chaining words before the first block.
pub open spec fn initial_words() -> Words {
    Words { a: 0x6745_2301, b: 0xEFCD_AB89, c: 0x98BA_DCFE, d: 0x1032_5476, e: 0xC3D2_E1F0 }
}

/// Word `t` of the message schedule of a 64-byte block, `0 <= t < 80`.
pub open spec fn schedule(block: Seq<u8>, t: int) -> u32
    decreases t,
{
    if t < 16 {
        be32(block[4 * t], block[4 * t + 1], block[4 * t + 2], block[4 * t + 3])
    } else {
        rotl(
            schedule(block, t - 3) ^ schedule(block, t - 8) ^ schedule(block, t - 14) ^ schedule(
                block,
                t - 16,
            ),
            1,
        )
    }
}

/// The logical function of round `t`.
pub open spec fn round_fn(t: int, b: u32, c: u32, d: u32) -> u32 {
    if t < 20 {
        (b & c) | (!b & d)
    } else if t < 40 {
        b ^ c ^ d
    } else if t < 60 {
        (b & c) | (b & d) | (c & d)
    } else {
        b ^ c ^ d
    }
}

/// The additive constant of round `t`.
pub open spec fn round_const(t: int) -> u32 {
    if t < 20 {
        0x5A82_7999
    } else if t < 40 {
        0x6ED9_EBA1
    } else if t < 60 {
        0x8F1B_BCDC
    } else {
        0xCA62_C1D6
    }
}

/// One round: the working words after round `t` with schedule word `w`.
pub open spec fn round(v: Words, t: int, w: u32) -> Words {
    Words {
        a: add32(add32(add32(add32(rotl(v.a, 5), round_fn(t, v.b, v.c, v.d)), v.e), round_const(t)), w),
        b: v.a,
        c: rotl(v.b, 30),
        d: v.c,
        e: v.d,
    }
}

/// The working words after the first `t` rounds on `block`, started from `h`.
pub open spec fn rounds(h: Words, block: Seq<u8>, t: int) -> Words
    decreases t,
{
    if t <= 0 {
        h
    } else {
        round(rounds(h, block, t - 1), t - 1, schedule(block, t - 1))
    }
}

/// The compression function: the chaining words after one 64-byte block.
#[verifier::opaque]
pub open spec fn compress(h: Words, block: Seq<u8>) -> Words {
    let v = rounds(h, block, 80);
    Words {
        a: add32(h.a, v.a),
        b: add32(h.b, v.b),
        c: add32(h.c, v.c),
        d: add32(h.d, v.d),
        e: add32(h.e, v.e),
    }
}

/// The chaining words after the first `n` whole blocks of `data`.
pub open spec fn absorb(data: Seq<u8>, n: int) -> Words
    decreases n,
{
    if n <= 0 {
        initial_words()
    } else {
        compress(absorb(data, n - 1), data.subrange(64 * (n - 1), 64 * n))
    }
}

/// The length field of the padding: the bit length of a message of `len`
/// bytes, modulo 2^64.
pub open spec fn bit_length(len: nat) -> u64 {
    ((len * 8) % 0x1_0000_0000_0000_0000) as u64
}

/// Number of zero bytes between the `0x80` marker and the length field.
pub open spec fn zero_fill(len: nat) -> nat {
    ((119 - len % 64) % 64) as nat
}

/// The message followed by its padding: one `0x80` byte, zero bytes up to
/// 56 modulo 64, and the bit length as eight big-endian bytes.
pub open spec fn padded(data: Seq<u8>) -> Seq<u8> {
    data + seq![0x80u8] + Seq::new(zero_fill(data.len()), |i: int| 0u8) + be64_bytes(
        bit_length(data.len()),
    )
}

/// The twenty digest bytes that stand for the chaining words.
pub open spec fn words_bytes(h: Words) -> Seq<u8> {
    be32_bytes(h.a) + be32_bytes(h.b) + be32_bytes(h.c) + be32_bytes(h.d) + be32_bytes(h.e)
}

/// The SHA-1 digest of `data`.
#[verifier::opaque]
pub open spec fn sha1(data: Seq<u8>) -> Seq<u8> {
    words_bytes(absorb(padded(data), padded(data).len() as int / 64))
}

/// The digest has twenty bytes.
pub proof fn lemma_sha1_len(data: Seq<u8>)
    ensures
        sha1(data).len() == DIGEST_LEN,
{
    reveal(sha1);
    let h = absorb(padded(data), padded(data).len() as int / 64);
    assert(be32_bytes(h.a).len() == 4);
    assert(be32_bytes(h.b).len() == 4);
    assert(be32_bytes(h.c).len() == 4);
    assert(be32_bytes(h.d).len() == 4);
    assert(be32_bytes(h.e).len() == 4);
}

/// The chaining words after `n` blocks depend on the first `64 * n` bytes only.
pub proof fn lemma_absorb_prefix(a: Seq<u8>, b: Seq<u8>, n: int)
    requires
        0 <= 64 * n <= a.len() <= b.len(),
        forall|i: int| 0 <= i < 64 * n ==> a[i] == b[i],
    ensures
        absorb(a, n) == absorb(b, n),
    decreases n,
{
    if n > 0 {
        lemma_absorb_prefix(a, b, n - 1);
        assert(a.subrange(64 * (n - 1), 64 * n) =~= b.subrange(64 * (n - 1), 64 * n));
    }
}

fn add_mod(x: u32, y: u32) -> (r: u32)
    ensures
        r == add32(x, y),
{
    x.wrapping_add(y)
}

fn rotate_left(x: u32, n: u32) -> (r: u32)
    requires
        0 < n < 32,
    ensures
        r == rotl(x, n),
{
    (x << n) | (x >> (32 - n))
}

fn word_from_be(b0: u8, b1: u8, b2: u8, b3: u8) -> (w: u32)
    ensures
        w == be32(b0, b1, b2, b3),
{
    (b0 as u32) * 0x100_0000 + (b1 as u32) * 0x1_0000 + (b2 as u32) * 0x100 + (b3 as u32)
}

fn round_step(v: Words, t: usize, w: u32) -> (r: Words)
    requires
        t < 80,
    ensures
        r == round(v, t as int, w),
{
    let f: u32 = if t < 20 {
        (v.b & v.c) | (!v.b & v.d)
    } else if t < 40 {
        v.b ^ v.c ^ v.d
    } else if t < 60 {
        (v.b & v.c) | (v.b & v.d) | (v.c & v.d)
    } else {
        v.b ^ v.c ^ v.d
    };
    let k: u32 = if t < 20 {
        0x5A82_7999
    } else if t < 40 {
        0x6ED9_EBA1
    } else if t < 60 {
        0x8F1B_BCDC
    } else {
        0xCA62_C1D6
    };
    Words {
        a: add_mod(add_mod(add_mod(add_mod(rotate_left(v.a, 5), f), v.e), k), w),
        b: v.a,
        c: rotate_left(v.b, 30),
        d: v.c,
        e: v.d,
    }
}

fn compress_block(h: Words, block: &[u8; 64]) -> (r: Words)
    ensures
        r == compress(h, block@),
{
    let mut w: [u32; 80] = [0u32; 80];
    let mut t: usize = 0;
    while t < 16
        invariant
            t <= 16,
            forall|j: int| 0 <= j < t ==> w[j] == schedule(block@, j),
        decreases 16 - t,
    {
        w[t] = word_from_be(block[4 * t], block[4 * t + 1], block[4 * t + 2], block[4 * t + 3]);
        t += 1;
    }
    while t < 80
        invariant
            16 <= t <= 80,
            forall|j: int| 0 <= j < t ==> w[j] == schedule(block@, j),
        decreases 80 - t,
    {
        w[t] = rotate_left(w[t - 3] ^ w[t - 8] ^ w[t - 14] ^ w[t - 16], 1);
        t += 1;
    }
    let mut v = h;
    t = 0;
    while t < 80
        invariant
            t <= 80,
            forall|j: int| 0 <= j < 80 ==> w[j] == schedule(block@, j),
            v == rounds(h, block@, t as int),
        decreases 80 - t,
    {
        v = round_step(v, t, w[t]);
        t += 1;
    }
    reveal(compress);
    Words {
        a: add_mod(h.a, v.a),
        b: add_mod(h.b, v.b),
        c: add_mod(h.c, v.c),
        d: add_mod(h.d, v.d),
        e: add_mod(h.e, v.e),
    }
}

/// How the block count, the fill of the block buffer and the length field
/// move when one byte is fed.
proof fn lemma_length_step(len: nat)
    ensures
        len % 64 < 63 ==> (len + 1) % 64 == len % 64 + 1 && (len + 1) / 64 == len / 64,
        len % 64 == 63 ==> (len + 1) % 64 == 0 && (len + 1) / 64 == len / 64 + 1,
        bit_length(len + 1) == vstd::wrapping::u64_specs::wrapping_add(bit_length(len), 8),
{
}

/// The same when a whole block is fed at a block boundary.
proof fn lemma_length_block(len: nat)
    requires
        len % 64 == 0,
    ensures
        (len + 64) % 64 == 0,
        (len + 64) / 64 == len / 64 + 1,
        bit_length(len + 64) == vstd::wrapping::u64_specs::wrapping_add(bit_length(len), 512),
{
}

/// The zero fill is the least number of zero bytes that brings the message
/// and its marker byte to 56 modulo 64.
proof fn lemma_zero_fill(len: nat, zeros: nat)
    requires
        zeros <= zero_fill(len),
    ensures
        (len + 1 + zeros) % 64 == 56 <==> zeros == zero_fill(len),
        (len + 1 + zero_fill(len) + 8) % 64 == 0,
{
}

/// One more block: the definition of `absorb`, unfolded once.
proof fn lemma_absorb_step(data: Seq<u8>, n: int)
    requires
        0 <= n,
    ensures
        absorb(data, n + 1) == compress(absorb(data, n), data.subrange(64 * n, 64 * (n + 1))),
{
}

fn word_to_be(w: u32) -> (bytes: [u8; 4])
    ensures
        bytes@ == be32_bytes(w),
{
    let bytes: [u8; 4] = [
        (w / 0x100_0000) as u8,
        (w / 0x1_0000 % 0x100) as u8,
        (w / 0x100 % 0x100) as u8,
        (w % 0x100) as u8,
    ];
    assert(bytes@ =~= be32_bytes(w));
    bytes
}

/// An incremental SHA-1 computation. Its view is the sequence of bytes fed
/// so far.
pub struct Sha1 {
    chain: Words,
    block: [u8; 64],
    filled: usize,
    bits: u64,
    fed: Ghost<Seq<u8>>,
}

impl View for Sha1 {
    type V = Seq<u8>;

    closed spec fn view(&self) -> Seq<u8> {
        self.fed@
    }
}

impl Sha1 {
    /// The chaining words cover the whole blocks fed so far, and the block
    /// buffer holds the bytes after them.
    #[verifier::type_invariant]
    closed spec fn inv(self) -> bool {
        &&& self.filled == self.fed@.len() % 64
        &&& self.bits == bit_length(self.fed@.len())
        &&& self.chain == absorb(self.fed@, self.fed@.len() as int / 64)
        &&& forall|i: int|
            0 <= i < self.filled ==> self.block[i] == self.fed@[self.fed@.len() - self.filled + i]
    }

    /// A computation to which nothing has been fed.
    pub fn new() -> (h: Self)
        ensures
            h@ == Seq::<u8>::empty(),
    {
        Sha1 {
            chain: Words {
                a: 0x6745_2301,
                b: 0xEFCD_AB89,
                c: 0x98BA_DCFE,
                d: 0x1032_5476,
                e: 0xC3D2_E1F0,
            },
            block: [0u8; 64],
            filled: 0,
            bits: 0,
            fed: Ghost(Seq::empty()),
        }
    }

    fn push(self, byte: u8) -> (h: Self)
        ensures
            h@ == self@.push(byte),
    {
        proof {
            use_type_invariant(&self);
        }
        let ghost before = self.fed@;
        let ghost after = before.push(byte);
        let ghost n = before.len() as int / 64;
        let mut block = self.block;
        block[self.filled] = byte;
        let bits = self.bits.wrapping_add(8);
        proof {
            lemma_length_step(before.len());
            lemma_absorb_prefix(before, after, n);
        }
        if self.filled == 63 {
            proof {
                assert(block@ =~= after.subrange(64 * n, 64 * (n + 1)));
                lemma_absorb_step(after, n);
            }
            let chain = compress_block(self.chain, &block);
            Sha1 { chain, block, filled: 0, bits, fed: Ghost(after) }
        } else {
            Sha1 { chain: self.chain, block, filled: self.filled + 1, bits, fed: Ghost(after) }
        }
    }

    fn push_block(self, data: &[u8], at: usize) -> (h: Self)
        requires
            self.filled == 0,
            at + 64 <= data.len(),
        ensures
            h.filled == 0,
            h@ == self@ + data@.subrange(at as int, at + 64),
    {
        proof {
            use_type_invariant(&self);
        }
        let ghost before = self.fed@;
        let ghost after = before + data@.subrange(at as int, at + 64);
        let ghost n = before.len() as int / 64;
        let mut block = self.block;
        let mut i: usize = 0;
        while i < 64
            invariant
                i <= 64,
                at + 64 <= data.len(),
                forall|j: int| 0 <= j < i ==> block[j] == data[at + j],
            decreases 64 - i,
        {
            block[i] = data[at + i];
            i += 1;
        }
        let bits = self.bits.wrapping_add(512);
        proof {
            lemma_length_block(before.len());
            lemma_absorb_prefix(before, after, n);
            assert(block@ =~= after.subrange(64 * n, 64 * (n + 1)));
            lemma_absorb_step(after, n);
        }
        let chain = compress_block(self.chain, &block);
        Sha1 { chain, block, filled: 0, bits, fed: Ghost(after) }
    }

    /// Feeds `data` to the computation.
    pub fn update(self, data: &[u8]) -> (h: Self)
        ensures
            h@ == self@ + data@,
    {
        let ghost start = self@;
        let mut h = self;
        let mut i: usize = 0;
        // Byte by byte up to the end of the block that is under way.
        while i < data.len() && h.filled != 0
            invariant
                i <= data.len(),
                h@ == start + data@.subrange(0, i as int),
            decreases data.len() - i,
        {
            h = h.push(data[i]);
            i += 1;
            assert(h@ =~= start + data@.subrange(0, i as int));
        }
        // Whole blocks straight from the input.
        while data.len() - i >= 64
            invariant
                i <= data.len(),
                i < data.len() ==> h.filled == 0,
                h@ == start + data@.subrange(0, i as int),
            decreases data.len() - i,
        {
            h = h.push_block(data, i);
            i += 64;
            assert(h@ =~= start + data@.subrange(0, i as int));
        }
        // What is left begins the next block.
        while i < data.len()
            invariant
                i <= data.len(),
                h@ == start + data@.subrange(0, i as int),
            decreases data.len() - i,
        {
            h = h.push(data[i]);
            i += 1;
            assert(h@ =~= start + data@.subrange(0, i as int));
        }
        assert(data@.subrange(0, i as int) =~= data@);
        h
    }

    fn push_length(self, bits: u64) -> (h: Self)
        ensures
            h@ == self@ + be64_bytes(bits),
    {
        let h = self.push((bits / 0x100_0000_0000_0000) as u8);
        let h = h.push((bits / 0x1_0000_0000_0000 % 0x100) as u8);
        let h = h.push((bits / 0x100_0000_0000 % 0x100) as u8);
        let h = h.push((bits / 0x1_0000_0000 % 0x100) as u8);
        let h = h.push((bits / 0x100_0000 % 0x100) as u8);
        let h = h.push((bits / 0x1_0000 % 0x100) as u8);
        let h = h.push((bits / 0x100 % 0x100) as u8);
        let h = h.push((bits % 0x100) as u8);
        assert(h@ =~= self@ + be64_bytes(bits));
        h
    }

    fn pad(self) -> (h: Self)
        ensures
            h@ == padded(self@),
    {
        proof {
            use_type_invariant(&self);
        }
        let ghost msg = self@;
        let bits = self.bits;
        let mut h = self.push(0x80);
        let ghost mut zeros: nat = 0;
        assert(h@ =~= msg + seq![0x80u8] + Seq::new(zeros, |i: int| 0u8));
        while h.filled != 56
            invariant
                zeros <= zero_fill(msg.len()),
                h@ == msg + seq![0x80u8] + Seq::new(zeros, |i: int| 0u8),
            decreases zero_fill(msg.len()) - zeros,
        {
            proof {
                use_type_invariant(&h);
                lemma_zero_fill(msg.len(), zeros);
            }
            h = h.push(0);
            proof {
                zeros = zeros + 1;
            }
            assert(h@ =~= msg + seq![0x80u8] + Seq::new(zeros, |i: int| 0u8));
        }
        proof {
            use_type_invariant(&h);
            lemma_zero_fill(msg.len(), zeros);
        }
        h.push_length(bits)
    }

    /// Ends the computation: the digest of all bytes fed.
    pub fn finalize(self) -> (digest: [u8; 20])
        ensures
            digest@ == sha1(self@),
    {
        let h = self.pad();
        proof {
            use_type_invariant(&h);
            reveal(sha1);
        }
        let a = word_to_be(h.chain.a);
        let b = word_to_be(h.chain.b);
        let c = word_to_be(h.chain.c);
        let d = word_to_be(h.chain.d);
        let e = word_to_be(h.chain.e);
        let digest: [u8; 20] = [
            a[0], a[1], a[2], a[3],
            b[0], b[1], b[2], b[3],
            c[0], c[1], c[2], c[3],
            d[0], d[1], d[2], d[3],
            e[0], e[1], e[2], e[3],
        ];
        assert(digest@ =~= words_bytes(h.chain));
        digest
    }
}

/// The SHA-1 digest of `data`.
pub fn sha1_digest(data: &[u8]) -> (digest: [u8; 20])
    ensures
        digest@ == sha1(data@),
{
    let h = Sha1::new().update(data);
    assert(h@ =~= data@);
    h.finalize()
}

} // verus!
