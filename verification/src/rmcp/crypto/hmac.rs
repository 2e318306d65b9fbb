//! HMAC keyed with SHA-1: the keyed hash behind key derivation, the key
//! exchange authentication codes and the integrity trailer of a packet.
use super::sha1::{lemma_sha1_len, sha1, sha1_digest, Sha1};
use vstd::prelude::*;

verus! {

/// The key brought to one hash block: a key longer than a block is replaced
/// by its digest, and the rest of the block is zero.
pub open spec fn block_key(key: Seq<u8>) -> Seq<u8> {
    let k = if key.len() > 64 {
        sha1(key)
    } else {
        key
    };
    Seq::new(64, |i: int| if i < k.len() { k[i] } else { 0u8 })
}

/// Every byte of a 64-byte block combined with `mask` by exclusive or.
pub open spec fn masked(block: Seq<u8>, mask: u8) -> Seq<u8> {
    Seq::new(64, |i: int| block[i] ^ mask)
}

/// The HMAC-SHA1 code of `message` under `key`.
#[verifier::opaque]
pub open spec fn hmac_sha1(key: Seq<u8>, message: Seq<u8>) -> Seq<u8> {
    sha1(masked(block_key(key), 0x5c) + sha1(masked(block_key(key), 0x36) + message))
}

/// The code has twenty bytes.
pub proof fn lemma_hmac_sha1_len(key: Seq<u8>, message: Seq<u8>)
    ensures
        hmac_sha1(key, message).len() == 20,
{
    reveal(hmac_sha1);
    lemma_sha1_len(masked(block_key(key), 0x5c) + sha1(masked(block_key(key), 0x36) + message));
}

/// A keyed hash in progress: made with a key, fed data piece by piece, and
/// finalized into the code of everything fed.
pub struct RunningHmac {
    inner: Sha1,
    outer: [u8; 64],
    key: Ghost<Seq<u8>>,
    fed: Ghost<Seq<u8>>,
}

impl RunningHmac {
    #[verifier::type_invariant]
    closed spec fn inv(self) -> bool {
        &&& self.inner@ == masked(block_key(self.key@), 0x36) + self.fed@
        &&& self.outer@ == masked(block_key(self.key@), 0x5c)
    }

    /// The key that the hash was made with.
    pub closed spec fn key(&self) -> Seq<u8> {
        self.key@
    }

    /// All data fed so far, in order.
    pub closed spec fn message(&self) -> Seq<u8> {
        self.fed@
    }

    /// A keyed hash under `key` to which nothing has been fed.
    pub fn new(key: &[u8]) -> (h: Self)
        ensures
            h.key() == key@,
            h.message() == Seq::<u8>::empty(),
    {
        let mut block: [u8; 64] = [0u8; 64];
        if key.len() > 64 {
            let digest = sha1_digest(key);
            let mut i: usize = 0;
            while i < 20
                invariant
                    i <= 20,
                    digest@ == sha1(key@),
                    forall|j: int| 0 <= j < i ==> block[j] == digest[j],
                    forall|j: int| i <= j < 64 ==> block[j] == 0u8,
                decreases 20 - i,
            {
                block[i] = digest[i];
                i += 1;
            }
        } else {
            let mut i: usize = 0;
            while i < key.len()
                invariant
                    i <= key.len() <= 64,
                    forall|j: int| 0 <= j < i ==> block[j] == key[j],
                    forall|j: int| i <= j < 64 ==> block[j] == 0u8,
                decreases key.len() - i,
            {
                block[i] = key[i];
                i += 1;
            }
        }
        assert(block@ =~= block_key(key@));
        let mut inner_pad: [u8; 64] = [0u8; 64];
        let mut outer: [u8; 64] = [0u8; 64];
        let mut i: usize = 0;
        while i < 64
            invariant
                i <= 64,
                forall|j: int| 0 <= j < i ==> inner_pad[j] == block[j] ^ 0x36,
                forall|j: int| 0 <= j < i ==> outer[j] == block[j] ^ 0x5c,
            decreases 64 - i,
        {
            inner_pad[i] = block[i] ^ 0x36;
            outer[i] = block[i] ^ 0x5c;
            i += 1;
        }
        assert(inner_pad@ =~= masked(block@, 0x36));
        assert(outer@ =~= masked(block@, 0x5c));
        let inner = Sha1::new().update(inner_pad.as_slice());
        assert(inner@ =~= masked(block_key(key@), 0x36) + Seq::<u8>::empty());
        RunningHmac { inner, outer, key: Ghost(key@), fed: Ghost(Seq::empty()) }
    }

    /// Feeds `data` to the hash and hands the hash back.
    pub fn feed(self, data: &[u8]) -> (h: Self)
        ensures
            h.key() == self.key(),
            h.message() == self.message() + data@,
    {
        proof {
            use_type_invariant(&self);
        }
        let ghost key = self.key@;
        let ghost fed = self.fed@ + data@;
        let outer = self.outer;
        let inner = self.inner.update(data);
        assert(inner@ =~= masked(block_key(key), 0x36) + fed);
        RunningHmac { inner, outer, key: Ghost(key), fed: Ghost(fed) }
    }

    /// Ends the hash: the code of all data fed, under the key.
    pub fn finalize(self) -> (code: [u8; 20])
        ensures
            code@ == hmac_sha1(self.key(), self.message()),
    {
        proof {
            use_type_invariant(&self);
            reveal(hmac_sha1);
        }
        let outer = self.outer;
        let inner_digest = self.inner.finalize();
        let h = Sha1::new().update(outer.as_slice()).update(inner_digest.as_slice());
        assert(h@ =~= outer@ + inner_digest@);
        h.finalize()
    }
}

} // verus!
