use vstd::prelude::*;

verus! {

/// A 20-byte account identifier, copied verbatim onto the wire.
pub type AccountId = [u8; 20];

/// Transaction kinds known to the ledger.
#[derive(Clone, Copy, Debug, PartialEq, Eq, Structural)]
pub enum TxnType {
    Payment,
    EscrowCreate,
    EscrowFinish,
    AccountSet,
    EscrowCancel,
    RegularKeySet,
    OfferCreate,
    OfferCancel,
    TicketCreate,
    TicketCancel,
    SignerListSet,
    PaychanCreate,
    PaychanFund,
    PaychanClaim,
    CheckCreate,
    CheckCash,
    CheckCancel,
    DepositPreauth,
    TrustSet,
    AccountDelete,
    HookSet,
    Amendment,
    Fee,
    UnlModify,
}

/// The protocol's numeric code of each transaction kind.
pub open spec fn txn_type_code(t: TxnType) -> u16 {
    match t {
        TxnType::Payment => 0,
        TxnType::EscrowCreate => 1,
        TxnType::EscrowFinish => 2,
        TxnType::AccountSet => 3,
        TxnType::EscrowCancel => 4,
        TxnType::RegularKeySet => 5,
        TxnType::OfferCreate => 7,
        TxnType::OfferCancel => 8,
        TxnType::TicketCreate => 10,
        TxnType::TicketCancel => 11,
        TxnType::SignerListSet => 12,
        TxnType::PaychanCreate => 13,
        TxnType::PaychanFund => 14,
        TxnType::PaychanClaim => 15,
        TxnType::CheckCreate => 16,
        TxnType::CheckCash => 17,
        TxnType::CheckCancel => 18,
        TxnType::DepositPreauth => 19,
        TxnType::TrustSet => 20,
        TxnType::AccountDelete => 21,
        TxnType::HookSet => 22,
        TxnType::Amendment => 100,
        TxnType::Fee => 101,
        TxnType::UnlModify => 102,
    }
}

impl TxnType {
    /// The 16-bit code written after the transaction-type marker.
    pub fn code(self) -> (r: u16)
        ensures
            r == txn_type_code(self),
    {
        match self {
            TxnType::Payment => 0,
            TxnType::EscrowCreate => 1,
            TxnType::EscrowFinish => 2,
            TxnType::AccountSet => 3,
            TxnType::EscrowCancel => 4,
            TxnType::RegularKeySet => 5,
            TxnType::OfferCreate => 7,
            TxnType::OfferCancel => 8,
            TxnType::TicketCreate => 10,
            TxnType::TicketCancel => 11,
            TxnType::SignerListSet => 12,
            TxnType::PaychanCreate => 13,
            TxnType::PaychanFund => 14,
            TxnType::PaychanClaim => 15,
            TxnType::CheckCreate => 16,
            TxnType::CheckCash => 17,
            TxnType::CheckCancel => 18,
            TxnType::DepositPreauth => 19,
            TxnType::TrustSet => 20,
            TxnType::AccountDelete => 21,
            TxnType::HookSet => 22,
            TxnType::Amendment => 100,
            TxnType::Fee => 101,
            TxnType::UnlModify => 102,
        }
    }
}

/// Which amount field a drops encoding introduces.
#[derive(Clone, Copy, Debug, PartialEq, Eq, Structural)]
pub enum AmountType {
    Amount,
    Fee,
}

/// The field code of each amount field.
pub open spec fn amount_type_code(t: AmountType) -> u8 {
    match t {
        AmountType::Amount => 1,
        AmountType::Fee => 8,
    }
}

impl AmountType {
    /// The field code carried in the low nibble of the amount header.
    pub fn code(self) -> (r: u8)
        ensures
            r == amount_type_code(self),
    {
        match self {
            AmountType::Amount => 1,
            AmountType::Fee => 8,
        }
    }
}

/// Which account field an account encoding introduces.
#[derive(Clone, Copy, Debug, PartialEq, Eq, Structural)]
pub enum AccountType {
    Account,
    Destination,
}

/// The field code of each account field.
pub open spec fn account_type_code(t: AccountType) -> u8 {
    match t {
        AccountType::Account => 1,
        AccountType::Destination => 3,
    }
}

impl AccountType {
    /// The field code carried in the account header.
    pub fn code(self) -> (r: u8)
        ensures
            r == account_type_code(self),
    {
        match self {
            AccountType::Account => 1,
            AccountType::Destination => 3,
        }
    }
}

/// Field codes of the 32-bit integer fields of a payment.
pub enum FieldCode {
    TransactionType,
    Flags,
    SourceTag,
    Sequence,
    DestinationTag,
    FirstLedgerSequence,
    LastLedgerSequence,
}

/// The numeric field code of each 32-bit integer field.
pub open spec fn field_code_value(f: FieldCode) -> u8 {
    match f {
        FieldCode::TransactionType => 0x12,
        FieldCode::Flags => 0x2,
        FieldCode::SourceTag => 0x3,
        FieldCode::Sequence => 0x4,
        FieldCode::DestinationTag => 0xE,
        FieldCode::FirstLedgerSequence => 0x1A,
        FieldCode::LastLedgerSequence => 0x1B,
    }
}

impl From<FieldCode> for u8 {
    fn from(field_code: FieldCode) -> (r: u8) {
        match field_code {
            FieldCode::TransactionType => 0x12,
            FieldCode::Flags => 0x2,
            FieldCode::SourceTag => 0x3,
            FieldCode::Sequence => 0x4,
            FieldCode::DestinationTag => 0xE,
            FieldCode::FirstLedgerSequence => 0x1A,
            FieldCode::LastLedgerSequence => 0x1B,
        }
    }
}

impl vstd::std_specs::convert::FromSpecImpl<FieldCode> for u8 {
    open spec fn obeys_from_spec() -> bool {
        true
    }

    open spec fn from_spec(v: FieldCode) -> u8 {
        field_code_value(v)
    }
}

/// The failure a host service reported, carried through unchanged.
#[derive(Clone, Copy, Debug, PartialEq, Eq, Structural)]
pub struct ExternalServiceFailure {
    pub code: i64,
}

} // verus!
