//! Canonical binary encoding of ledger transactions: a fixed-capacity field
//! encoder and a staged builder for a native-currency payment whose fee is
//! patched in once the rest of the transaction is serialized.

pub mod codes;
pub mod encode;
pub mod payment;

pub use codes::{AccountId, AccountType, AmountType, ExternalServiceFailure, TxnType};
pub use encode::TransactionBuffer;
pub use payment::{
    PendingPayment, TransactionBuilder, UnpricedPayment, XrpPaymentBuilder, DETAILS_LEN,
    DETAILS_OFFSET, FEE_OFFSET, PAYMENT_TXN_LEN, TF_CANONICAL,
};
