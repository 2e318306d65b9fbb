//! The keys of an established session.
use super::hmac::{hmac_sha1, RunningHmac};
use vstd::prelude::*;

verus! {

/// Twenty bytes that all hold `byte`: the constants of key derivation.
pub open spec fn constant(byte: u8) -> Seq<u8> {
    Seq::new(20, |i: int| byte)
}

/// The four keys of a session: the session integrity key, and the three
/// keys derived from it. They are made once and never change.
pub struct Keys {
    sik: [u8; 20],
    k1: [u8; 20],
    k2: [u8; 20],
    k3: [u8; 20],
}

/// The mathematical value of [`Keys`].
pub struct KeysView {
    pub sik: Seq<u8>,
    pub k1: Seq<u8>,
    pub k2: Seq<u8>,
    pub k3: Seq<u8>,
}

/// The keys that belong to a session integrity key: the key itself, and the
/// codes under it of the constants `01..`, `02..` and `03..`.
pub open spec fn derived_keys(sik: Seq<u8>) -> KeysView {
    KeysView {
        sik,
        k1: hmac_sha1(sik, constant(0x01)),
        k2: hmac_sha1(sik, constant(0x02)),
        k3: hmac_sha1(sik, constant(0x03)),
    }
}

impl View for Keys {
    type V = KeysView;

    closed spec fn view(&self) -> KeysView {
        KeysView { sik: self.sik@, k1: self.k1@, k2: self.k2@, k3: self.k3@ }
    }
}

fn derive(sik: &[u8; 20], byte: u8) -> (key: [u8; 20])
    ensures
        key@ == hmac_sha1(sik@, constant(byte)),
{
    let pattern: [u8; 20] = [byte;20];
    assert(pattern@ =~= constant(byte));
    let hmac = RunningHmac::new(sik.as_slice()).feed(pattern.as_slice());
    assert(hmac.message() =~= constant(byte));
    hmac.finalize()
}

impl Keys {
    /// Derives the keys of a session from its session integrity key.
    pub fn from_sik(sik: [u8; 20]) -> (keys: Keys)
        ensures
            keys@ == derived_keys(sik@),
    {
        let k1 = derive(&sik, 0x01);
        let k2 = derive(&sik, 0x02);
        let k3 = derive(&sik, 0x03);
        Keys { sik, k1, k2, k3 }
    }

    /// The session integrity key.
    pub fn sik(&self) -> (key: &[u8; 20])
        ensures
            key@ == self@.sik,
    {
        &self.sik
    }

    /// The first derived key, which keys the integrity code of a packet.
    pub fn k1(&self) -> (key: &[u8; 20])
        ensures
            key@ == self@.k1,
    {
        &self.k1
    }

    /// The second derived key.
    pub fn k2(&self) -> (key: &[u8; 20])
        ensures
            key@ == self@.k2,
    {
        &self.k2
    }

    /// The third derived key.
    pub fn k3(&self) -> (key: &[u8; 20])
        ensures
            key@ == self@.k3,
    {
        &self.k3
    }
}

} // verus!
