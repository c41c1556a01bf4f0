//! The ledger core of a wallet service: wallets with three balance buckets and
//! a keyed checksum chain, transactions that move funds between them under a
//! store that offers only per-row conditional writes, the credit side-ledger,
//! and the charge that turns outside funds into a top-up exactly once.
//!
//! Every operation on the store is a small machine: it says what to ask of
//! the store, takes the answer, and says what to ask next. The machines do
//! no input or output themselves, so they run as well on a store in memory
//! ([`MemStore`]) as behind a driver of a database. What holds of them is
//! stated and proved in the modules `outcomes`, `laws`, `integrity`, `tally`
//! and `charge_laws`.

pub mod balance;
pub mod bytes;
pub mod cancel;
pub mod charge;
pub mod charge_flow;
pub mod charge_laws;
pub mod commit;
pub mod complete;
pub mod cose;
pub mod credit;
pub mod credit_save;
pub mod crypto;
pub mod currency;
pub mod customer;
pub mod error;
pub mod fields;
pub mod id;
pub mod info;
pub mod input;
pub mod integrity;
pub mod key;
pub mod kind;
pub mod laws;
pub mod listing;
pub mod mac;
pub mod outcomes;
pub mod paging;
pub mod prepare;
pub mod referral;
pub mod rows;
pub mod store;
pub mod table;
pub mod tally;
pub mod task;
pub mod text;
pub mod transaction;
pub mod wallet;

pub use balance::{Bucket, MAX_OVERDRAW};
pub use charge::{Charge, ChargeUpdate};
pub use credit::{Credit, CreditKind};
pub use crypto::{base64url_decode, base64url_encode, unwrap_cbor_tag, wrap_cbor_tag, CBOR_TAG};
pub use currency::{currencies, Currency};
pub use customer::Customer;
pub use error::Error;
pub use id::{max_id, min_id, sys_id, Id};
pub use info::{AppInfo, AppVersion};
pub use input::validate_provider;
pub use key::{Key, KeyError};
pub use kind::{income_fee_rate, TransactionKind, SYS_FEE_PER_MILLE};
pub use mac::HMacTag;
pub use store::{MemStore, Reply, Request};
pub use text::get_fields;
pub use transaction::Transaction;
pub use wallet::Wallet;
