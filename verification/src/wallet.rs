//! The wallet: three balance buckets, a credits counter, and the chain of
//! sequence, last transaction and checksum that makes its history evident.

use vstd::prelude::*;

use crate::bytes::copy_bytes;
use crate::error::Error;
use crate::id::{sys_id, Id};
use crate::mac::{checksum_ok, wallet_tag, HMacTag};

verus! {

/// A user's wallet as it is stored, keyed by `uid`.
#[derive(Debug)]
pub struct Wallet {
    pub uid: Id,
    /// The number of writes to the balance so far; 0 for a fresh wallet.
    pub sequence: i64,
    pub award: i64,
    pub topup: i64,
    pub income: i64,
    /// All credits ever earned; never lowered.
    pub credits: i64,
    /// The transaction of the last write; zero for a fresh wallet.
    pub txn: Id,
    /// The tag of the contents, empty for a fresh wallet.
    pub checksum: Vec<u8>,
}

/// What a wallet holds, as mathematical values.
pub ghost struct WalletView {
    pub uid: Id,
    pub sequence: int,
    pub award: int,
    pub topup: int,
    pub income: int,
    pub credits: int,
    pub txn: Id,
    pub checksum: Seq<u8>,
}

impl WalletView {
    /// The sum of the three buckets.
    pub open spec fn balance(self) -> int {
        self.award + self.topup + self.income
    }

    pub open spec fn is_system(self) -> bool {
        self.uid == sys_id()
    }

    /// A wallet that was never written to.
    pub open spec fn fresh(uid: Id) -> WalletView {
        WalletView {
            uid,
            sequence: 0,
            award: 0,
            topup: 0,
            income: 0,
            credits: 0,
            txn: sys_id(),
            checksum: Seq::empty(),
        }
    }

    /// Whether every number fits what a stored wallet can hold.
    pub open spec fn fits(self) -> bool {
        &&& i64::MIN <= self.sequence <= i64::MAX
        &&& i64::MIN <= self.award <= i64::MAX
        &&& i64::MIN <= self.topup <= i64::MAX
        &&& i64::MIN <= self.income <= i64::MAX
        &&& i64::MIN <= self.credits <= i64::MAX
    }

    /// The wallet after one more write made for `txn` under `key`: the
    /// sequence one higher, `txn` as the last transaction, and the tag of
    /// both together with the buckets as the checksum.
    pub open spec fn sealed(self, key: Seq<u8>, txn: Id) -> WalletView {
        let w = WalletView { sequence: self.sequence + 1, txn, ..self };
        WalletView { checksum: wallet_tag(key, w), ..w }
    }
}

impl View for Wallet {
    type V = WalletView;

    open spec fn view(&self) -> WalletView {
        WalletView {
            uid: self.uid,
            sequence: self.sequence as int,
            award: self.award as int,
            topup: self.topup as int,
            income: self.income as int,
            credits: self.credits as int,
            txn: self.txn,
            checksum: self.checksum@,
        }
    }
}

impl Default for Wallet {
    fn default() -> (r: Wallet)
        ensures
            r@ == WalletView::fresh(sys_id()),
    {
        Wallet::with_pk(sys_id())
    }
}

impl Clone for Wallet {
    fn clone(&self) -> (r: Wallet)
        ensures
            r@ == self@,
    {
        Wallet {
            uid: self.uid,
            sequence: self.sequence,
            award: self.award,
            topup: self.topup,
            income: self.income,
            credits: self.credits,
            txn: self.txn,
            checksum: copy_bytes(self.checksum.as_slice()),
        }
    }
}

impl Wallet {
    /// A fresh wallet for `uid`.
    pub fn with_pk(uid: Id) -> (r: Wallet)
        ensures
            r@ == WalletView::fresh(uid),
    {
        Wallet {
            uid,
            sequence: 0,
            award: 0,
            topup: 0,
            income: 0,
            credits: 0,
            txn: sys_id(),
            checksum: Vec::new(),
        }
    }

    pub fn is_system(&self) -> (r: bool)
        ensures
            r == self@.is_system(),
    {
        self.uid.is_zero()
    }

    /// The sum of the three buckets, where it fits.
    pub fn checked_balance(&self) -> (r: Option<i64>)
        ensures
            r is Some <==> i64::MIN <= self@.balance() <= i64::MAX,
            r is Some ==> r->0 == self@.balance(),
    {
        let b: i128 = self.wide_balance();
        if b < i64::MIN as i128 || b > i64::MAX as i128 {
            None
        } else {
            Some(b as i64)
        }
    }

    /// The sum of the three buckets.
    pub fn balance(&self) -> (r: i64)
        requires
            i64::MIN <= self@.balance() <= i64::MAX,
        ensures
            r == self@.balance(),
    {
        self.wide_balance() as i64
    }

    pub(crate) fn wide_balance(&self) -> (r: i128)
        ensures
            r == self@.balance(),
    {
        self.award as i128 + self.topup as i128 + self.income as i128
    }

    /// Checks the stored checksum against the contents. A wallet that was
    /// never written to passes; any other passes only with its tag.
    pub fn verify_checksum(&self, mac: &HMacTag) -> (r: Result<(), Error>)
        ensures
            r is Ok <==> checksum_ok(mac@, self@),
            r is Err ==> r == Err::<(), Error>(Error::ChecksumMismatch),
    {
        if self.sequence == 0 {
            return Ok(());
        }
        if mac.matches(self, self.checksum.as_slice()) {
            Ok(())
        } else {
            Err(Error::ChecksumMismatch)
        }
    }

    /// Records one more write, made for `txn`: raises the sequence by one,
    /// sets the last transaction, and recomputes the checksum over the new
    /// contents.
    pub fn next_checksum(&mut self, mac: &HMacTag, txn: Id)
        requires
            old(self).sequence < i64::MAX,
        ensures
            final(self)@ == old(self)@.sealed(mac@, txn),
            checksum_ok(mac@, final(self)@),
    {
        self.sequence = self.sequence + 1;
        self.txn = txn;
        let tag: Vec<u8> = mac.tag64(self);
        self.checksum = tag;
    }
}

} // verus!
