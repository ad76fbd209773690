use vstd::prelude::*;

use crate::codes::{
    field_code_value, AccountId, AccountType, AmountType, ExternalServiceFailure, FieldCode,
    TxnType,
};
use crate::encode::{
    account_field, drops_field, null_signing_key_field, splice, type_field, u32_field,
    u32_general_field, TransactionBuffer,
};

verus! {

/// Byte length of a payment transaction.
pub const PAYMENT_TXN_LEN: usize = 270;

/// Byte length of the trailing transaction-details block.
pub const DETAILS_LEN: usize = 138;

/// Offset of the transaction-details block in a payment.
pub const DETAILS_OFFSET: usize = 132;

/// Offset of the fee field in a payment.
pub const FEE_OFFSET: usize = 44;

/// Flag asking for canonical signatures.
pub const TF_CANONICAL: u32 = 0x8000_0000;

/// `ledger_seq + k`, wrapping at 2^32.
pub open spec fn ledger_bound(ledger_seq: u32, k: int) -> u32 {
    ((ledger_seq + k) % 0x1_0000_0000) as u32
}

/// Builds a transaction of a fixed kind and byte length.
pub trait TransactionBuilder<const TXN_LEN: usize> {
    /// Byte length of the transaction.
    const TXN_LEN: usize = TXN_LEN;

    /// Transaction type of the transaction.
    const TXN_TYPE: TxnType;
}

impl<'a> TransactionBuilder<270> for XrpPaymentBuilder<'a> {
    const TXN_TYPE: TxnType = TxnType::Payment;
}

/// Builds a transaction to send native currency.
///
/// The finished transaction is 270 bytes long and holds, in order: the
/// transaction type (3 bytes), flags (5), source tag (5), sequence (5),
/// destination tag (5), first ledger sequence (6), last ledger sequence
/// (6), amount (9), fee (9), a null signing key (35), the source account
/// (22), the destination account (22) and the transaction details (138).
pub struct XrpPaymentBuilder<'a> {
    drops: u64,
    to_address: &'a [u8; 20],
    dest_tag: u32,
    src_tag: u32,
}

impl<'a> XrpPaymentBuilder<'a> {
    /// The amount to send, in drops.
    pub closed spec fn amount(&self) -> u64 {
        self.drops
    }

    /// The destination account's identifier.
    pub closed spec fn destination(&self) -> Seq<u8> {
        self.to_address@
    }

    /// The destination tag.
    pub closed spec fn destination_tag(&self) -> u32 {
        self.dest_tag
    }

    /// The source tag.
    pub closed spec fn source_tag(&self) -> u32 {
        self.src_tag
    }

    /// The destination identifier is 20 bytes long.
    pub proof fn lemma_destination_len(&self)
        ensures
            self.destination().len() == 20,
    {
    }

    /// The fields of the payment, up to the details block, for the given
    /// ledger sequence, source account and fee.
    pub open spec fn fields(&self, ledger_seq: u32, source: Seq<u8>, fee: u64) -> Seq<u8> {
        type_field(TxnType::Payment)
            + u32_field(field_code_value(FieldCode::Flags), TF_CANONICAL)
            + u32_field(field_code_value(FieldCode::SourceTag), self.source_tag())
            + u32_field(field_code_value(FieldCode::Sequence), 0)
            + u32_field(field_code_value(FieldCode::DestinationTag), self.destination_tag())
            + u32_general_field(field_code_value(FieldCode::FirstLedgerSequence), ledger_bound(ledger_seq, 1))
            + u32_general_field(field_code_value(FieldCode::LastLedgerSequence), ledger_bound(ledger_seq, 5))
            + drops_field(AmountType::Amount, self.amount())
            + drops_field(AmountType::Fee, fee)
            + null_signing_key_field()
            + account_field(AccountType::Account, source)
            + account_field(AccountType::Destination, self.destination())
    }

    /// The whole payment: its fields, then the details block.
    pub open spec fn transaction(&self, ledger_seq: u32, source: Seq<u8>, details: Seq<u8>, fee: u64) -> Seq<u8> {
        self.fields(ledger_seq, source, fee) + details
    }

    /// Creates a new builder.
    pub fn new(drops: u64, to_address: &'a [u8; 20], dest_tag: u32, src_tag: u32) -> (r: Self)
        ensures
            r.amount() == drops,
            r.destination() == to_address@,
            r.destination_tag() == dest_tag,
            r.source_tag() == src_tag,
    {
        Self { drops, to_address, dest_tag, src_tag }
    }

    /// First pass of the build, from the host's ledger sequence and the
    /// originating account: encodes every field up to the details block,
    /// with a zero fee in the slot that is patched last. A failure of
    /// either lookup ends the build with that failure, the ledger sequence
    /// being looked up first.
    pub fn begin(
        &self,
        ledger_seq: Result<u32, ExternalServiceFailure>,
        hook_account: Result<AccountId, ExternalServiceFailure>,
    ) -> (r: Result<PendingPayment, ExternalServiceFailure>)
        ensures
            match (ledger_seq, hook_account) {
                (Err(e), _) => r == Err::<PendingPayment, _>(e),
                (Ok(_), Err(e)) => r == Err::<PendingPayment, _>(e),
                (Ok(l), Ok(a)) => r matches Ok(p) && p.written() == self.fields(l, a@, 0)
                    && p.fee_offset() == FEE_OFFSET,
            },
    {
        let current_ledger_sequence = match ledger_seq {
            Err(e) => return Err(e),
            Ok(l) => l,
        };
        let account = match hook_account {
            Err(e) => return Err(e),
            Ok(a) => a,
        };
        let first_ledger = current_ledger_sequence.wrapping_add(1);
        let last_ledger = current_ledger_sequence.wrapping_add(5);
        assert(first_ledger == ledger_bound(current_ledger_sequence, 1));
        assert(last_ledger == ledger_bound(current_ledger_sequence, 5));
        let mut txn_buffer = TransactionBuffer::<PAYMENT_TXN_LEN>::new();
        txn_buffer.encode_txn_type(<Self as TransactionBuilder<270>>::TXN_TYPE);
        assert(txn_buffer.written() =~= type_field(TxnType::Payment));
        txn_buffer.encode_u32(TF_CANONICAL, u8::from(FieldCode::Flags));
        txn_buffer.encode_u32(self.src_tag, u8::from(FieldCode::SourceTag));
        // the host assigns the real sequence
        txn_buffer.encode_u32(0, u8::from(FieldCode::Sequence));
        txn_buffer.encode_u32(self.dest_tag, u8::from(FieldCode::DestinationTag));
        txn_buffer.encode_u32_with_field_id(
            first_ledger,
            u8::from(FieldCode::FirstLedgerSequence),
        );
        txn_buffer.encode_u32_with_field_id(
            last_ledger,
            u8::from(FieldCode::LastLedgerSequence),
        );
        txn_buffer.encode_drops(self.drops, AmountType::Amount);
        // reserve the fee slot; its value is known only once the rest is
        let fee_pos = txn_buffer.pos();
        txn_buffer.encode_drops(0, AmountType::Fee);
        txn_buffer.encode_signing_pubkey_as_null();
        txn_buffer.encode_account(&account, AccountType::Account);
        txn_buffer.encode_account(self.to_address, AccountType::Destination);
        Ok(PendingPayment { buffer: txn_buffer, fee_pos })
    }
}

/// A payment has a fixed layout: 270 bytes, each field at a fixed offset,
/// whatever the amount, tags, ledger sequence, accounts, details and fee.
pub proof fn lemma_payment_layout(
    b: &XrpPaymentBuilder,
    ledger_seq: u32,
    source: Seq<u8>,
    details: Seq<u8>,
    fee: u64,
)
    requires
        source.len() == 20,
        details.len() == DETAILS_LEN,
    ensures
        b.transaction(ledger_seq, source, details, fee).len() == PAYMENT_TXN_LEN,
        b.transaction(ledger_seq, source, details, fee).subrange(0, 3) == type_field(TxnType::Payment),
        b.transaction(ledger_seq, source, details, fee).subrange(3, 8) == u32_field(
            field_code_value(FieldCode::Flags),
            TF_CANONICAL,
        ),
        b.transaction(ledger_seq, source, details, fee).subrange(8, 13) == u32_field(
            field_code_value(FieldCode::SourceTag),
            b.source_tag(),
        ),
        b.transaction(ledger_seq, source, details, fee).subrange(13, 18) == u32_field(
            field_code_value(FieldCode::Sequence),
            0,
        ),
        b.transaction(ledger_seq, source, details, fee).subrange(18, 23) == u32_field(
            field_code_value(FieldCode::DestinationTag),
            b.destination_tag(),
        ),
        b.transaction(ledger_seq, source, details, fee).subrange(23, 29) == u32_general_field(
            field_code_value(FieldCode::FirstLedgerSequence),
            ledger_bound(ledger_seq, 1),
        ),
        b.transaction(ledger_seq, source, details, fee).subrange(29, 35) == u32_general_field(
            field_code_value(FieldCode::LastLedgerSequence),
            ledger_bound(ledger_seq, 5),
        ),
        b.transaction(ledger_seq, source, details, fee).subrange(35, 44) == drops_field(
            AmountType::Amount,
            b.amount(),
        ),
        b.transaction(ledger_seq, source, details, fee).subrange(44, 53) == drops_field(
            AmountType::Fee,
            fee,
        ),
        b.transaction(ledger_seq, source, details, fee).subrange(53, 88) == null_signing_key_field(),
        b.transaction(ledger_seq, source, details, fee).subrange(88, 110) == account_field(
            AccountType::Account,
            source,
        ),
        b.transaction(ledger_seq, source, details, fee).subrange(110, 132) == account_field(
            AccountType::Destination,
            b.destination(),
        ),
        b.transaction(ledger_seq, source, details, fee).subrange(132, 270) == details,
{
    b.lemma_destination_len();
    let t = b.transaction(ledger_seq, source, details, fee);
    assert(t.subrange(0, 3) =~= type_field(TxnType::Payment));
    assert(t.subrange(3, 8) =~= u32_field(field_code_value(FieldCode::Flags), TF_CANONICAL));
    assert(t.subrange(8, 13) =~= u32_field(field_code_value(FieldCode::SourceTag), b.source_tag()));
    assert(t.subrange(13, 18) =~= u32_field(field_code_value(FieldCode::Sequence), 0));
    assert(t.subrange(18, 23) =~= u32_field(
        field_code_value(FieldCode::DestinationTag),
        b.destination_tag(),
    ));
    assert(t.subrange(23, 29) =~= u32_general_field(
        field_code_value(FieldCode::FirstLedgerSequence),
        ledger_bound(ledger_seq, 1),
    ));
    assert(t.subrange(29, 35) =~= u32_general_field(
        field_code_value(FieldCode::LastLedgerSequence),
        ledger_bound(ledger_seq, 5),
    ));
    assert(t.subrange(35, 44) =~= drops_field(AmountType::Amount, b.amount()));
    assert(t.subrange(44, 53) =~= drops_field(AmountType::Fee, fee));
    assert(t.subrange(53, 88) =~= null_signing_key_field());
    assert(t.subrange(88, 110) =~= account_field(AccountType::Account, source));
    assert(t.subrange(110, 132) =~= account_field(AccountType::Destination, b.destination()));
    assert(t.subrange(132, 270) =~= details);
}

/// Patching the fee into a payment whose fee slot holds zero gives the
/// payment with that fee: the two-pass build ends where a one-pass build
/// with the fee known in advance would.
pub proof fn lemma_fee_backpatch(
    b: &XrpPaymentBuilder,
    ledger_seq: u32,
    source: Seq<u8>,
    details: Seq<u8>,
    fee: u64,
)
    requires
        source.len() == 20,
        details.len() == DETAILS_LEN,
    ensures
        splice(
            b.transaction(ledger_seq, source, details, 0),
            FEE_OFFSET as int,
            drops_field(AmountType::Fee, fee),
        ) == b.transaction(ledger_seq, source, details, fee),
{
    b.lemma_destination_len();
    assert(splice(
        b.transaction(ledger_seq, source, details, 0),
        FEE_OFFSET as int,
        drops_field(AmountType::Fee, fee),
    ) =~= b.transaction(ledger_seq, source, details, fee));
}

/// Two builds of the same payment, given the same ledger sequence, source
/// account, details block and fee by the host, produce the same bytes:
/// each produces the payment with that fee.
pub proof fn lemma_build_idempotent(
    b1: &XrpPaymentBuilder,
    b2: &XrpPaymentBuilder,
    ledger_seq: u32,
    source: Seq<u8>,
    details: Seq<u8>,
    fee: u64,
    out1: Seq<u8>,
    out2: Seq<u8>,
)
    requires
        b1.amount() == b2.amount(),
        b1.destination() == b2.destination(),
        b1.destination_tag() == b2.destination_tag(),
        b1.source_tag() == b2.source_tag(),
        source.len() == 20,
        details.len() == DETAILS_LEN,
        out1 == splice(
            b1.fields(ledger_seq, source, 0) + details,
            FEE_OFFSET as int,
            drops_field(AmountType::Fee, fee),
        ),
        out2 == splice(
            b2.fields(ledger_seq, source, 0) + details,
            FEE_OFFSET as int,
            drops_field(AmountType::Fee, fee),
        ),
    ensures
        out1 == out2,
        out1 == b1.transaction(ledger_seq, source, details, fee),
{
    lemma_fee_backpatch(b1, ledger_seq, source, details, fee);
    lemma_fee_backpatch(b2, ledger_seq, source, details, fee);
}

/// A payment whose fields are encoded, waiting for the host's details
/// block of `DETAILS_LEN` bytes at `DETAILS_OFFSET`.
pub struct PendingPayment {
    buffer: TransactionBuffer<PAYMENT_TXN_LEN>,
    fee_pos: usize,
}

impl PendingPayment {
    #[verifier::type_invariant]
    spec fn inv(&self) -> bool {
        &&& self.buffer.wf()
        &&& self.buffer.cursor() == DETAILS_OFFSET
        &&& self.fee_pos + 9 <= DETAILS_OFFSET
    }

    /// The fields encoded so far.
    pub closed spec fn written(&self) -> Seq<u8> {
        self.buffer.written()
    }

    /// Where the fee field stands.
    pub closed spec fn fee_offset(&self) -> int {
        self.fee_pos as int
    }

    /// Offset at which the details block goes.
    pub fn details_offset(&self) -> (r: usize)
        ensures
            r == DETAILS_OFFSET,
            r == self.written().len(),
    {
        proof {
            use_type_invariant(self);
        }
        self.buffer.pos()
    }

    /// Appends the host's details block; a failure of the details service
    /// ends the build with that failure.
    pub fn insert_details(self, details: Result<[u8; 138], ExternalServiceFailure>) -> (r: Result<
        UnpricedPayment,
        ExternalServiceFailure,
    >)
        ensures
            match details {
                Err(e) => r == Err::<UnpricedPayment, _>(e),
                Ok(d) => r matches Ok(u) && u.bytes() == self.written() + d@
                    && u.fee_offset() == self.fee_offset(),
            },
    {
        proof {
            use_type_invariant(&self);
        }
        let block = match details {
            Err(e) => return Err(e),
            Ok(d) => d,
        };
        let mut buffer = self.buffer;
        buffer.encode_raw(&block);
        assert(buffer.written() =~= buffer.bytes());
        Ok(UnpricedPayment { bytes: buffer.into_bytes(), fee_pos: self.fee_pos })
    }
}

/// A complete payment whose fee field still holds zero, to be priced by
/// the host's fee service.
pub struct UnpricedPayment {
    bytes: [u8; 270],
    fee_pos: usize,
}

impl UnpricedPayment {
    #[verifier::type_invariant]
    spec fn inv(&self) -> bool {
        self.fee_pos + 9 <= PAYMENT_TXN_LEN
    }

    /// The transaction's bytes.
    pub closed spec fn bytes(&self) -> Seq<u8> {
        self.bytes@
    }

    /// Where the fee field stands.
    pub closed spec fn fee_offset(&self) -> int {
        self.fee_pos as int
    }

    /// The bytes that the fee service prices.
    pub fn as_bytes(&self) -> (r: &[u8; 270])
        ensures
            r@ == self.bytes(),
    {
        &self.bytes
    }

    /// Writes the fee that the host's fee service computed into the
    /// reserved slot and hands out the finished transaction; a failure of
    /// the fee service ends the build with that failure and no bytes.
    pub fn finish(self, fee: Result<u64, ExternalServiceFailure>) -> (r: Result<
        [u8; 270],
        ExternalServiceFailure,
    >)
        ensures
            match fee {
                Err(e) => r == Err::<[u8; 270], _>(e),
                Ok(f) => r matches Ok(t) && t@ == splice(
                    self.bytes(),
                    self.fee_offset(),
                    drops_field(AmountType::Fee, f),
                ),
            },
    {
        proof {
            use_type_invariant(&self);
        }
        let fee = match fee {
            Err(e) => return Err(e),
            Ok(f) => f,
        };
        let mut bytes = self.bytes;
        TransactionBuffer::<PAYMENT_TXN_LEN>::encode_drops_at_buf(&mut bytes, self.fee_pos, fee, AmountType::Fee);
        Ok(bytes)
    }
}

} // verus!
