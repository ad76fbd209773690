use vstd::prelude::*;

use crate::codes::{
    account_type_code, amount_type_code, field_code_value, txn_type_code, AccountId, AccountType,
    AmountType, FieldCode, TxnType,
};

verus! {

/// Length prefix of an account identifier.
pub const ACCOUNT_ID_LEN: u8 = 0x14;

/// The two most significant payload bits of a positive native amount.
pub const NATIVE_POSITIVE_BIT: u64 = 0x4000_0000_0000_0000;

/// Big-endian bytes of a 16-bit value.
pub open spec fn be_u16(v: u16) -> Seq<u8> {
    seq![(v / 0x100) as u8, (v % 0x100) as u8]
}

/// Big-endian bytes of a 32-bit value.
pub open spec fn be_u32(v: u32) -> Seq<u8> {
    seq![
        (v / 0x100_0000) as u8,
        (v / 0x1_0000 % 0x100) as u8,
        (v / 0x100 % 0x100) as u8,
        (v % 0x100) as u8,
    ]
}

/// Big-endian bytes of a 64-bit value.
pub open spec fn be_u64(v: u64) -> Seq<u8> {
    seq![
        (v / 0x100_0000_0000_0000) as u8,
        (v / 0x1_0000_0000_0000 % 0x100) as u8,
        (v / 0x100_0000_0000 % 0x100) as u8,
        (v / 0x1_0000_0000 % 0x100) as u8,
        (v / 0x100_0000 % 0x100) as u8,
        (v / 0x1_0000 % 0x100) as u8,
        (v / 0x100 % 0x100) as u8,
        (v % 0x100) as u8,
    ]
}

/// The 64-bit amount payload: the top two bits are `01` (positive, native
/// currency) and the remaining 62 bits hold the low bits of `drops`.
pub open spec fn native_amount_word(drops: u64) -> u64 {
    (NATIVE_POSITIVE_BIT + drops % NATIVE_POSITIVE_BIT) as u64
}

/// Transaction-type field: the marker `0x12`, then the kind's code
/// big-endian.
pub open spec fn type_field(t: TxnType) -> Seq<u8> {
    seq![field_code_value(FieldCode::TransactionType)] + be_u16(txn_type_code(t))
}

/// 32-bit field in the common form: one header byte, `0x20` with the low
/// nibble of the field code, then the value big-endian.
pub open spec fn u32_field(field: u8, v: u32) -> Seq<u8> {
    seq![(0x20 + field % 0x10) as u8] + be_u32(v)
}

/// 32-bit field in the general form: `0x20` and the whole field code, then
/// the value big-endian.
pub open spec fn u32_general_field(field: u8, v: u32) -> Seq<u8> {
    seq![0x20u8, field] + be_u32(v)
}

/// Native amount field: a header byte, `0x60` with the low nibble of the
/// amount kind, then the payload.
pub open spec fn drops_field(kind: AmountType, drops: u64) -> Seq<u8> {
    seq![(0x60 + amount_type_code(kind) % 0x10) as u8] + be_u64(native_amount_word(drops))
}

/// Signing public key left empty: header `0x73 0x21` and 33 zero bytes.
pub open spec fn null_signing_key_field() -> Seq<u8> {
    seq![0x73u8, 0x21u8] + Seq::new(33, |i: int| 0u8)
}

/// Account field: header `0x80` plus the role's code, the length prefix,
/// then the 20 identifier bytes.
pub open spec fn account_field(role: AccountType, id: Seq<u8>) -> Seq<u8> {
    seq![(0x80 + account_type_code(role)) as u8, ACCOUNT_ID_LEN] + id
}

/// `s` with `f` written over it starting at `at`.
pub open spec fn splice(s: Seq<u8>, at: int, f: Seq<u8>) -> Seq<u8> {
    s.take(at) + f + s.skip(at + f.len())
}

/// Copies `bytes` into `buf` starting at `at`.
fn write_at<const N: usize>(buf: &mut [u8; N], at: usize, bytes: &[u8])
    requires
        at + bytes@.len() <= N,
    ensures
        final(buf)@ == splice(old(buf)@, at as int, bytes@),
{
    let ghost before = buf@;
    let mut i: usize = 0;
    while i < bytes.len()
        invariant
            i <= bytes@.len(),
            at + bytes@.len() <= N,
            buf@.len() == N,
            before.len() == N,
            forall|j: int|
                0 <= j < N ==> buf@[j] == if at <= j < at + i {
                    bytes@[j - at]
                } else {
                    before[j]
                },
        decreases bytes@.len() - i,
    {
        buf[at + i] = bytes[i];
        i = i + 1;
    }
    assert(buf@ =~= splice(before, at as int, bytes@));
}

/// A fixed-capacity transaction buffer with a write cursor. Every encode
/// call writes one field at the cursor and moves the cursor just past it.
pub struct TransactionBuffer<const TXN_LEN: usize> {
    buf: [u8; TXN_LEN],
    pos: usize,
}

impl<const TXN_LEN: usize> TransactionBuffer<TXN_LEN> {
    /// The buffer's bytes, all `TXN_LEN` of them.
    pub closed spec fn bytes(&self) -> Seq<u8> {
        self.buf@
    }

    /// The offset at which the next field is written.
    pub closed spec fn cursor(&self) -> nat {
        self.pos as nat
    }

    /// The cursor never passes the end of the buffer.
    pub open spec fn wf(&self) -> bool {
        &&& self.bytes().len() == TXN_LEN
        &&& self.cursor() <= TXN_LEN
    }

    /// The bytes before the cursor: what has been encoded so far.
    pub open spec fn written(&self) -> Seq<u8> {
        self.bytes().take(self.cursor() as int)
    }

    /// An all-zero buffer with the cursor at the start.
    pub fn new() -> (r: Self)
        ensures
            r.wf(),
            r.cursor() == 0,
            r.bytes() == Seq::new(TXN_LEN as nat, |i: int| 0u8),
    {
        let r = TransactionBuffer { buf: [0u8; TXN_LEN], pos: 0 };
        assert(r.bytes() =~= Seq::new(TXN_LEN as nat, |i: int| 0u8));
        r
    }

    /// The current cursor.
    pub fn pos(&self) -> (r: usize)
        ensures
            r == self.cursor(),
    {
        self.pos
    }

    /// The byte at `i`.
    pub fn byte(&self, i: usize) -> (r: u8)
        requires
            i < TXN_LEN,
        ensures
            r == self.bytes()[i as int],
    {
        self.buf[i]
    }

    /// Gives up the buffer's bytes.
    pub fn into_bytes(self) -> (r: [u8; TXN_LEN])
        ensures
            r@ == self.bytes(),
    {
        self.buf
    }

    /// Writes `field` at the cursor and moves the cursor past it.
    fn append(&mut self, field: &[u8])
        requires
            old(self).cursor() + field@.len() <= TXN_LEN,
        ensures
            final(self).wf(),
            final(self).bytes() == splice(old(self).bytes(), old(self).cursor() as int, field@),
            final(self).cursor() == old(self).cursor() + field@.len(),
            final(self).written() == old(self).written() + field@,
    {
        write_at(&mut self.buf, self.pos, field);
        self.pos = self.pos + field.len();
        assert(self.written() =~= old(self).written() + field@);
    }

    /// Appends raw bytes that already are in wire form.
    pub fn encode_raw(&mut self, bytes: &[u8])
        requires
            old(self).cursor() + bytes@.len() <= TXN_LEN,
        ensures
            final(self).wf(),
            final(self).bytes() == splice(old(self).bytes(), old(self).cursor() as int, bytes@),
            final(self).cursor() == old(self).cursor() + bytes@.len(),
            final(self).written() == old(self).written() + bytes@,
    {
        self.append(bytes);
    }

    /// Encodes a transaction type: the marker and the 16-bit code, 3 bytes.
    pub fn encode_txn_type(&mut self, tt: TxnType)
        requires
            old(self).cursor() + 3 <= TXN_LEN,
        ensures
            final(self).wf(),
            final(self).bytes() == splice(old(self).bytes(), old(self).cursor() as int, type_field(tt)),
            final(self).cursor() == old(self).cursor() + 3,
            final(self).written() == old(self).written() + type_field(tt),
    {
        let code = tt.code();
        let field: [u8; 3] = [
            u8::from(FieldCode::TransactionType),
            (code / 0x100) as u8,
            (code % 0x100) as u8,
        ];
        assert(field@ =~= type_field(tt));
        self.append(&field);
    }

    /// Encodes a 32-bit value in the common form: header `0x20` with the
    /// low nibble of `field`, then the value big-endian, 5 bytes.
    pub fn encode_u32(&mut self, data: u32, field: u8)
        requires
            old(self).cursor() + 5 <= TXN_LEN,
        ensures
            final(self).wf(),
            final(self).bytes() == splice(old(self).bytes(), old(self).cursor() as int, u32_field(field, data)),
            final(self).cursor() == old(self).cursor() + 5,
            final(self).written() == old(self).written() + u32_field(field, data),
    {
        let bytes: [u8; 5] = [
            0x20 + field % 0x10,
            (data / 0x100_0000) as u8,
            (data / 0x1_0000 % 0x100) as u8,
            (data / 0x100 % 0x100) as u8,
            (data % 0x100) as u8,
        ];
        assert(bytes@ =~= u32_field(field, data));
        self.append(&bytes);
    }

    /// Encodes a 32-bit value in the general form: `0x20`, the field code,
    /// then the value big-endian, 6 bytes.
    pub fn encode_u32_with_field_id(&mut self, data: u32, field: u8)
        requires
            old(self).cursor() + 6 <= TXN_LEN,
        ensures
            final(self).wf(),
            final(self).bytes() == splice(old(self).bytes(), old(self).cursor() as int, u32_general_field(field, data)),
            final(self).cursor() == old(self).cursor() + 6,
            final(self).written() == old(self).written() + u32_general_field(field, data),
    {
        let bytes: [u8; 6] = [
            0x20u8,
            field,
            (data / 0x100_0000) as u8,
            (data / 0x1_0000 % 0x100) as u8,
            (data / 0x100 % 0x100) as u8,
            (data % 0x100) as u8,
        ];
        assert(bytes@ =~= u32_general_field(field, data));
        self.append(&bytes);
    }

    /// Encodes an amount in drops at the cursor, 9 bytes.
    pub fn encode_drops(&mut self, drops: u64, amount_type: AmountType)
        requires
            old(self).cursor() + 9 <= TXN_LEN,
        ensures
            final(self).wf(),
            final(self).bytes() == splice(old(self).bytes(), old(self).cursor() as int, drops_field(amount_type, drops)),
            final(self).cursor() == old(self).cursor() + 9,
            final(self).written() == old(self).written() + drops_field(amount_type, drops),
    {
        self.encode_drops_at(self.pos, drops, amount_type);
        assert(self.written() =~= old(self).written() + drops_field(amount_type, drops));
    }

    /// Encodes an amount in drops at `pos`, overwriting what is there, and
    /// puts the cursor just past it.
    pub fn encode_drops_at(&mut self, pos: usize, drops: u64, amount_type: AmountType)
        requires
            pos + 9 <= TXN_LEN,
        ensures
            final(self).wf(),
            final(self).bytes() == splice(old(self).bytes(), pos as int, drops_field(amount_type, drops)),
            final(self).cursor() == pos + 9,
    {
        let field = drops_bytes(drops, amount_type);
        write_at(&mut self.buf, pos, &field);
        self.pos = pos + 9;
    }

    /// Encodes an amount in drops at `pos` of a finished buffer, overwriting
    /// the 9 bytes there and nothing else.
    pub fn encode_drops_at_buf(
        initialized_buf: &mut [u8; 270],
        pos: usize,
        drops: u64,
        amount_type: AmountType,
    )
        requires
            pos + 9 <= 270,
        ensures
            final(initialized_buf)@ == splice(old(initialized_buf)@, pos as int, drops_field(amount_type, drops)),
    {
        let field = drops_bytes(drops, amount_type);
        write_at(initialized_buf, pos, &field);
    }

    /// Encodes the signing public key as null: `0x73 0x21` and 33 zero
    /// bytes, 35 bytes.
    pub fn encode_signing_pubkey_as_null(&mut self)
        requires
            old(self).cursor() + 35 <= TXN_LEN,
        ensures
            final(self).wf(),
            final(self).bytes() == splice(old(self).bytes(), old(self).cursor() as int, null_signing_key_field()),
            final(self).cursor() == old(self).cursor() + 35,
            final(self).written() == old(self).written() + null_signing_key_field(),
    {
        let mut field: [u8; 35] = [0u8; 35];
        field[0] = 0x73;
        field[1] = 0x21;
        assert(field@ =~= null_signing_key_field());
        self.append(&field);
    }

    /// Encodes an account: header `0x80` plus the role's code, the length
    /// prefix `0x14`
    /// and the 20 identifier bytes, 22 bytes.
    pub fn encode_account(&mut self, account_id: &AccountId, account_type: AccountType)
        requires
            old(self).cursor() + 22 <= TXN_LEN,
        ensures
            final(self).wf(),
            final(self).bytes() == splice(old(self).bytes(), old(self).cursor() as int, account_field(account_type, account_id@)),
            final(self).cursor() == old(self).cursor() + 22,
            final(self).written() == old(self).written() + account_field(account_type, account_id@),
    {
        let mut field: [u8; 22] = [0u8; 22];
        field[0] = 0x80 + account_type.code();
        field[1] = ACCOUNT_ID_LEN;
        let mut i: usize = 0;
        while i < 20
            invariant
                i <= 20,
                field@.len() == 22,
                field@[0] == 0x80 + account_type_code(account_type),
                field@[1] == ACCOUNT_ID_LEN,
                forall|j: int| 0 <= j < i ==> field@[j + 2] == account_id@[j],
            decreases 20 - i,
        {
            field[i + 2] = account_id[i];
            i = i + 1;
        }
        assert(field@ =~= account_field(account_type, account_id@));
        self.append(&field);
    }
}

/// The 9 bytes of a native amount field.
fn drops_bytes(drops: u64, amount_type: AmountType) -> (r: [u8; 9])
    ensures
        r@ == drops_field(amount_type, drops),
{
    let word: u64 = NATIVE_POSITIVE_BIT + drops % NATIVE_POSITIVE_BIT;
    let r: [u8; 9] = [
        0x60 + amount_type.code() % 0x10,
        (word / 0x100_0000_0000_0000) as u8,
        (word / 0x1_0000_0000_0000 % 0x100) as u8,
        (word / 0x100_0000_0000 % 0x100) as u8,
        (word / 0x1_0000_0000 % 0x100) as u8,
        (word / 0x100_0000 % 0x100) as u8,
        (word / 0x1_0000 % 0x100) as u8,
        (word / 0x100 % 0x100) as u8,
        (word % 0x100) as u8,
    ];
    assert(r@ =~= drops_field(amount_type, drops));
    r
}

} // verus!
