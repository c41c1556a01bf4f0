//! The keyed tag that binds a wallet's contents to its checksum.

use hmac::{Hmac, Mac};
use sha3::Sha3_256;
use subtle::ConstantTimeEq;
use vstd::prelude::*;

use crate::bytes::{be_bytes, push_all, push_be_bytes};
use crate::wallet::{Wallet, WalletView};

verus! {

/// HMAC with SHA3-256 of a message under a key: 32 bytes.
pub uninterp spec fn hmac_sha3_256(key: Seq<u8>, msg: Seq<u8>) -> Seq<u8>;

/// `Hmac::<Sha3_256>::new_from_slice`, `chain_update` and `finalize` of the
/// crate `hmac`: the 32-byte HMAC-SHA3-256 of `msg` under `key`. HMAC
/// takes a key of any length, so building the instance never fails.
#[verifier::external_body]
fn hmac_sha3_256_digest(key: &[u8; 32], msg: &[u8]) -> (r: Vec<u8>)
    ensures
        r@ == hmac_sha3_256(key@, msg@),
        r@.len() == 32,
{
    let mac = Hmac::<Sha3_256>::new_from_slice(key).unwrap();
    mac.chain_update(msg).finalize().into_bytes().to_vec()
}

/// `ConstantTimeEq::ct_eq` on byte slices, of the crate `subtle`: whether
/// the two slices have the same length and the same bytes, found in time
/// that does not depend on the bytes.
#[verifier::external_body]
fn constant_time_eq(a: &[u8], b: &[u8]) -> (r: bool)
    ensures
        r == (a@ == b@),
{
    a.ct_eq(b).into()
}

/// The bytes that a wallet's tag is computed over: its identifier, its
/// sequence, its three buckets and its last transaction, in that order,
/// the numbers as eight big-endian bytes each.
pub open spec fn wallet_message(w: WalletView) -> Seq<u8> {
    w.uid.bytes() + be_bytes(w.sequence) + be_bytes(w.award) + be_bytes(w.topup) + be_bytes(
        w.income,
    ) + w.txn.bytes()
}

/// A wallet's tag under a key: the first eight bytes of the HMAC of its
/// message.
pub open spec fn wallet_tag(key: Seq<u8>, w: WalletView) -> Seq<u8> {
    hmac_sha3_256(key, wallet_message(w)).subrange(0, 8)
}

/// Whether a wallet's checksum is in order under a key: a wallet that was
/// never written to needs none, any other carries its tag.
pub open spec fn checksum_ok(key: Seq<u8>, w: WalletView) -> bool {
    w.sequence == 0 || w.checksum == wallet_tag(key, w)
}

/// The secret key under which wallet tags are computed.
pub struct HMacTag {
    key: [u8; 32],
}

impl View for HMacTag {
    type V = Seq<u8>;

    closed spec fn view(&self) -> Seq<u8> {
        self.key@
    }
}

impl HMacTag {
    pub fn new(key: [u8; 32]) -> (r: HMacTag)
        ensures
            r@ == key@,
    {
        HMacTag { key }
    }

    /// The eight-byte tag of a wallet under this key.
    pub fn tag64(&self, wallet: &Wallet) -> (r: Vec<u8>)
        ensures
            r@ == wallet_tag(self@, wallet@),
            r@.len() == 8,
    {
        let mut msg: Vec<u8> = Vec::new();
        push_all(&mut msg, &wallet.uid.0);
        push_be_bytes(&mut msg, wallet.sequence);
        push_be_bytes(&mut msg, wallet.award);
        push_be_bytes(&mut msg, wallet.topup);
        push_be_bytes(&mut msg, wallet.income);
        push_all(&mut msg, &wallet.txn.0);
        assert(msg@ =~= wallet_message(wallet@));
        let digest: Vec<u8> = hmac_sha3_256_digest(&self.key, msg.as_slice());
        let mut tag: Vec<u8> = Vec::new();
        let mut i: usize = 0;
        while i < 8
            invariant
                i <= 8,
                digest@.len() == 32,
                tag@ == digest@.subrange(0, i as int),
            decreases 8 - i,
        {
            tag.push(digest[i]);
            assert(tag@ =~= digest@.subrange(0, i + 1));
            i += 1;
        }
        tag
    }

    /// Whether `checksum` is the tag of `wallet` under this key, compared
    /// in constant time.
    pub fn matches(&self, wallet: &Wallet, checksum: &[u8]) -> (r: bool)
        ensures
            r == (checksum@ == wallet_tag(self@, wallet@)),
    {
        let tag: Vec<u8> = self.tag64(wallet);
        constant_time_eq(tag.as_slice(), checksum)
    }
}

} // verus!
