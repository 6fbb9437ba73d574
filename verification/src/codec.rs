//! The canonical byte encoding of a transaction.
//!
//! The fields are written in the order `id`, `sender`, `receiver`, `amount`.
//! A text field is its UTF-8 length as eight little-endian bytes followed by
//! its UTF-8 bytes; the amount is eight little-endian bytes. Every field is
//! therefore self-delimiting, and a byte string encodes at most one record.

use vstd::prelude::*;
use vstd::bytes::{
    lemma_auto_spec_u64_to_from_le_bytes, spec_u64_from_le_bytes, spec_u64_to_le_bytes,
    u64_from_le_bytes, u64_to_le_bytes,
};
use vstd::slice::slice_subrange;
use vstd::string::StringSliceAdditionalSpecFns;
use vstd::utf8::{encode_utf8, encode_utf8_decode_utf8, encode_utf8_valid_utf8, valid_utf8};
use crate::error::CryptoError;

verus! {

/// A transfer of `amount` from `sender` to `receiver`, named by `id`.
#[derive(Clone, Debug)]
pub struct Transaction {
    pub id: String,
    pub sender: String,
    pub receiver: String,
    pub amount: u64,
}

/// The mathematical value of a [`Transaction`].
pub struct TransactionView {
    pub id: Seq<char>,
    pub sender: Seq<char>,
    pub receiver: Seq<char>,
    pub amount: u64,
}

impl View for Transaction {
    type V = TransactionView;

    open spec fn view(&self) -> TransactionView {
        TransactionView {
            id: self.id@,
            sender: self.sender@,
            receiver: self.receiver@,
            amount: self.amount,
        }
    }
}

impl PartialEq for Transaction {
    /// Two transactions are equal where all four fields are.
    fn eq(&self, other: &Transaction) -> (equal: bool) {
        self.id == other.id && self.sender == other.sender && self.receiver == other.receiver
            && self.amount == other.amount
    }
}

impl vstd::std_specs::cmp::PartialEqSpecImpl for Transaction {
    open spec fn obeys_eq_spec() -> bool {
        true
    }

    open spec fn eq_spec(&self, other: &Transaction) -> bool {
        self@ == other@
    }
}

/// The length in bytes of the UTF-8 form of `text` can be written as a `u64`.
pub open spec fn text_fits(text: Seq<char>) -> bool {
    encode_utf8(text).len() <= u64::MAX
}

/// One text field on the wire: the length prefix, then the UTF-8 bytes.
pub open spec fn encode_text(text: Seq<char>) -> Seq<u8> {
    spec_u64_to_le_bytes(encode_utf8(text).len() as u64) + encode_utf8(text)
}

impl TransactionView {
    /// Every text field is short enough for its length prefix. This holds of
    /// every transaction held in memory.
    pub open spec fn encodable(self) -> bool {
        text_fits(self.id) && text_fits(self.sender) && text_fits(self.receiver)
    }

    /// The canonical bytes of the record.
    pub open spec fn encoding(self) -> Seq<u8> {
        encode_text(self.id) + encode_text(self.sender) + encode_text(self.receiver)
            + spec_u64_to_le_bytes(self.amount)
    }
}

/// Adds `bytes` to the end of `out`.
fn append_bytes(out: &mut Vec<u8>, bytes: &[u8])
    ensures
        final(out)@ == old(out)@ + bytes@,
{
    let mut i: usize = 0;
    while i < bytes.len()
        invariant
            i <= bytes@.len(),
            out@ == old(out)@ + bytes@.subrange(0, i as int),
        decreases bytes@.len() - i,
    {
        out.push(bytes[i]);
        i += 1;
    }
    assert(bytes@.subrange(0, i as int) == bytes@);
}

/// Adds one text field to the end of `out`.
fn append_text(out: &mut Vec<u8>, text: &str)
    ensures
        final(out)@ == old(out)@ + encode_text(text@),
        text_fits(text@),
{
    let body = text.as_bytes();
    let prefix = u64_to_le_bytes(body.len() as u64);
    append_bytes(out, prefix.as_slice());
    append_bytes(out, body);
}

/// Encodes a transaction into its canonical bytes.
pub fn encode_transaction(transaction: &Transaction) -> (bytes: Vec<u8>)
    ensures
        bytes@ == transaction@.encoding(),
        transaction@.encodable(),
{
    let mut out: Vec<u8> = Vec::new();
    append_text(&mut out, transaction.id.as_str());
    append_text(&mut out, transaction.sender.as_str());
    append_text(&mut out, transaction.receiver.as_str());
    let amount = u64_to_le_bytes(transaction.amount);
    append_bytes(&mut out, amount.as_slice());
    out
}

/// `std::str::from_utf8` accepts exactly the byte strings that are valid
/// UTF-8, and the text it returns has the given bytes as its UTF-8 form.
pub assume_specification[ core::str::from_utf8 ](bytes: &[u8]) -> (r: Result<
    &str,
    core::str::Utf8Error,
>)
    ensures
        r is Ok <==> valid_utf8(bytes@),
        r matches Ok(text) ==> text.spec_bytes() == bytes@,
;

/// The error of `std::str::from_utf8`; nothing is read from it.
#[verifier::external_type_specification]
#[verifier::external_body]
pub struct ExUtf8Error(core::str::Utf8Error);

/// `bytes` is the canonical encoding of `transaction`.
pub open spec fn encodes(transaction: TransactionView, bytes: Seq<u8>) -> bool {
    transaction.encodable() && transaction.encoding() == bytes
}

/// The record that `bytes` encodes, if there is one. By
/// [`lemma_encoding_determines_transaction`] there is at most one.
pub open spec fn decode_spec(bytes: Seq<u8>) -> Option<TransactionView> {
    if exists|t: TransactionView| #[trigger] encodes(t, bytes) {
        Some(choose|t: TransactionView| #[trigger] encodes(t, bytes))
    } else {
        None
    }
}

/// The bytes from `pos` up to `next` are one text field that holds `text`.
spec fn text_at(bytes: Seq<u8>, pos: int, text: Seq<char>, next: int) -> bool {
    &&& 0 <= pos <= next <= bytes.len()
    &&& text_fits(text)
    &&& bytes.subrange(pos, next) == encode_text(text)
}

/// A text field that starts at a given place has one content and one end.
proof fn lemma_text_at_unique(
    bytes: Seq<u8>,
    pos: int,
    text1: Seq<char>,
    next1: int,
    text2: Seq<char>,
    next2: int,
)
    requires
        text_at(bytes, pos, text1, next1),
        text_at(bytes, pos, text2, next2),
    ensures
        text1 == text2,
        next1 == next2,
{
    lemma_auto_spec_u64_to_from_le_bytes();
    let body1 = encode_utf8(text1);
    let body2 = encode_utf8(text2);
    let prefix1 = spec_u64_to_le_bytes(body1.len() as u64);
    let prefix2 = spec_u64_to_le_bytes(body2.len() as u64);
    assert(bytes.subrange(pos, next1).len() == 8 + body1.len());
    assert(bytes.subrange(pos, next2).len() == 8 + body2.len());
    assert(bytes.subrange(pos, pos + 8) == prefix1) by {
        assert(bytes.subrange(pos, pos + 8) == bytes.subrange(pos, next1).subrange(0, 8));
        assert((prefix1 + body1).subrange(0, 8) == prefix1);
    }
    assert(bytes.subrange(pos, pos + 8) == prefix2) by {
        assert(bytes.subrange(pos, pos + 8) == bytes.subrange(pos, next2).subrange(0, 8));
        assert((prefix2 + body2).subrange(0, 8) == prefix2);
    }
    assert(body1.len() as u64 == spec_u64_from_le_bytes(prefix1));
    assert(body2.len() as u64 == spec_u64_from_le_bytes(prefix2));
    assert(next1 == next2);
    assert(body1 == body2) by {
        assert(body1 == (prefix1 + body1).subrange(8, 8 + body1.len() as int));
        assert(body2 == (prefix2 + body2).subrange(8, 8 + body2.len() as int));
    }
    encode_utf8_decode_utf8(text1);
    encode_utf8_decode_utf8(text2);
}

/// Where each field of an encoded record lies.
proof fn lemma_encoding_layout(t: TransactionView, bytes: Seq<u8>) -> (ends: (int, int, int))
    requires
        encodes(t, bytes),
    ensures
        text_at(bytes, 0, t.id, ends.0),
        text_at(bytes, ends.0, t.sender, ends.1),
        text_at(bytes, ends.1, t.receiver, ends.2),
        bytes.len() == ends.2 + 8,
        bytes.subrange(ends.2, ends.2 + 8) == spec_u64_to_le_bytes(t.amount),
{
    lemma_auto_spec_u64_to_from_le_bytes();
    let a = encode_text(t.id);
    let b = encode_text(t.sender);
    let c = encode_text(t.receiver);
    let d = spec_u64_to_le_bytes(t.amount);
    let e1 = a.len() as int;
    let e2 = e1 + b.len();
    let e3 = e2 + c.len();
    assert(bytes == a + b + c + d);
    assert(bytes.subrange(0, e1) == a);
    assert(bytes.subrange(e1, e2) == b);
    assert(bytes.subrange(e2, e3) == c);
    assert(bytes.subrange(e3, e3 + 8) == d);
    (e1, e2, e3)
}

/// Bytes that are three text fields and an amount encode that record.
proof fn lemma_layout_encodes(t: TransactionView, bytes: Seq<u8>, ends: (int, int, int))
    requires
        text_at(bytes, 0, t.id, ends.0),
        text_at(bytes, ends.0, t.sender, ends.1),
        text_at(bytes, ends.1, t.receiver, ends.2),
        bytes.len() == ends.2 + 8,
        bytes.subrange(ends.2, ends.2 + 8) == spec_u64_to_le_bytes(t.amount),
    ensures
        encodes(t, bytes),
{
    assert(bytes == bytes.subrange(0, ends.0) + bytes.subrange(ends.0, ends.1) + bytes.subrange(
        ends.1,
        ends.2,
    ) + bytes.subrange(ends.2, ends.2 + 8));
}

/// A byte string is the encoding of at most one transaction.
pub proof fn lemma_encoding_determines_transaction(
    a: TransactionView,
    b: TransactionView,
    bytes: Seq<u8>,
)
    requires
        encodes(a, bytes),
        encodes(b, bytes),
    ensures
        a == b,
{
    lemma_auto_spec_u64_to_from_le_bytes();
    let ea = lemma_encoding_layout(a, bytes);
    let eb = lemma_encoding_layout(b, bytes);
    lemma_text_at_unique(bytes, 0, a.id, ea.0, b.id, eb.0);
    lemma_text_at_unique(bytes, ea.0, a.sender, ea.1, b.sender, eb.1);
    lemma_text_at_unique(bytes, ea.1, a.receiver, ea.2, b.receiver, eb.2);
    assert(a.amount == spec_u64_from_le_bytes(spec_u64_to_le_bytes(a.amount)));
    assert(b.amount == spec_u64_from_le_bytes(spec_u64_to_le_bytes(b.amount)));
}

/// Two transactions that differ in any field have different encodings.
pub proof fn lemma_distinct_transactions_encode_differently(a: TransactionView, b: TransactionView)
    requires
        a.encodable(),
        b.encodable(),
        a != b,
    ensures
        a.encoding() != b.encoding(),
{
    if a.encoding() == b.encoding() {
        lemma_encoding_determines_transaction(a, b, a.encoding());
    }
}

/// Decoding the encoding of a transaction gives that transaction back.
pub proof fn lemma_decode_inverts_encode(t: TransactionView)
    requires
        t.encodable(),
    ensures
        decode_spec(t.encoding()) == Some(t),
{
    let bytes = t.encoding();
    assert(encodes(t, bytes));
    let found = choose|u: TransactionView| #[trigger] encodes(u, bytes);
    lemma_encoding_determines_transaction(found, t, bytes);
}

/// Whatever decodes, encodes back to the bytes it came from.
pub proof fn lemma_encode_inverts_decode(bytes: Seq<u8>)
    requires
        decode_spec(bytes) is Some,
    ensures
        decode_spec(bytes)->0.encodable(),
        decode_spec(bytes)->0.encoding() == bytes,
{
}

/// Reads the text field that starts at `pos`, and says where it ends.
fn read_text(bytes: &[u8], pos: usize) -> (r: Option<(String, usize)>)
    requires
        pos <= bytes@.len(),
    ensures
        r matches Some((text, next)) ==> text_at(bytes@, pos as int, text@, next as int),
        r is None ==> forall|text: Seq<char>, next: int|
            !#[trigger] text_at(bytes@, pos as int, text, next),
{
    proof {
        lemma_auto_spec_u64_to_from_le_bytes();
    }
    let total = bytes.len();
    if total - pos < 8 {
        assert forall|text: Seq<char>, next: int| !#[trigger] text_at(
            bytes@,
            pos as int,
            text,
            next,
        ) by {
            assert(encode_text(text).len() >= 8);
        }
        return None;
    }
    let prefix = slice_subrange(bytes, pos, pos + 8);
    let declared: u64 = u64_from_le_bytes(prefix);
    let available: usize = total - pos - 8;
    proof {
        assert forall|text: Seq<char>, next: int| #[trigger]
            text_at(bytes@, pos as int, text, next) implies encode_utf8(text).len() == declared
            && next == pos + 8 + declared by {
            let body = encode_utf8(text);
            let head = spec_u64_to_le_bytes(body.len() as u64);
            assert(bytes@.subrange(pos as int, next).len() == 8 + body.len());
            assert(prefix@ == bytes@.subrange(pos as int, next).subrange(0, 8));
            assert((head + body).subrange(0, 8) == head);
        }
    }
    if declared > available as u64 {
        return None;
    }
    let len: usize = declared as usize;
    let body = slice_subrange(bytes, pos + 8, pos + 8 + len);
    proof {
        assert forall|text: Seq<char>, next: int| #[trigger]
            text_at(bytes@, pos as int, text, next) implies encode_utf8(text) == body@ by {
            let inner = encode_utf8(text);
            let head = spec_u64_to_le_bytes(inner.len() as u64);
            assert(body@ == bytes@.subrange(pos as int, next).subrange(8, 8 + len));
            assert((head + inner).subrange(8, 8 + len) == inner);
        }
    }
    match core::str::from_utf8(body) {
        Ok(text) => {
            let owned = text.to_owned();
            proof {
                assert(bytes@.subrange(pos as int, pos + 8 + len) == prefix@ + body@);
            }
            Some((owned, pos + 8 + len))
        },
        Err(_) => {
            assert forall|text: Seq<char>, next: int| !#[trigger] text_at(
                bytes@,
                pos as int,
                text,
                next,
            ) by {
                encode_utf8_valid_utf8(text);
            }
            None
        },
    }
}

/// Decodes the canonical bytes of a transaction. Bytes that are truncated,
/// that hold text which is not UTF-8, or that go on after the amount are
/// refused.
pub fn decode_transaction(bytes: &[u8]) -> (r: Result<Transaction, CryptoError>)
    ensures
        r matches Ok(transaction) ==> decode_spec(bytes@) == Some(transaction@),
        r matches Err(e) ==> e == CryptoError::DecodeFailure && decode_spec(bytes@) is None,
{
    proof {
        lemma_auto_spec_u64_to_from_le_bytes();
    }
    let (id, end_id) = match read_text(bytes, 0) {
        Some(field) => field,
        None => {
            assert forall|t: TransactionView| !#[trigger] encodes(t, bytes@) by {
                if encodes(t, bytes@) {
                    lemma_encoding_layout(t, bytes@);
                }
            }
            return Err(CryptoError::DecodeFailure);
        },
    };
    let (sender, end_sender) = match read_text(bytes, end_id) {
        Some(field) => field,
        None => {
            assert forall|t: TransactionView| !#[trigger] encodes(t, bytes@) by {
                if encodes(t, bytes@) {
                    let ends = lemma_encoding_layout(t, bytes@);
                    lemma_text_at_unique(bytes@, 0, id@, end_id as int, t.id, ends.0);
                }
            }
            return Err(CryptoError::DecodeFailure);
        },
    };
    let (receiver, end_receiver) = match read_text(bytes, end_sender) {
        Some(field) => field,
        None => {
            assert forall|t: TransactionView| !#[trigger] encodes(t, bytes@) by {
                if encodes(t, bytes@) {
                    let ends = lemma_encoding_layout(t, bytes@);
                    lemma_text_at_unique(bytes@, 0, id@, end_id as int, t.id, ends.0);
                    lemma_text_at_unique(
                        bytes@,
                        end_id as int,
                        sender@,
                        end_sender as int,
                        t.sender,
                        ends.1,
                    );
                }
            }
            return Err(CryptoError::DecodeFailure);
        },
    };
    if bytes.len() - end_receiver != 8 {
        assert forall|t: TransactionView| !#[trigger] encodes(t, bytes@) by {
            if encodes(t, bytes@) {
                let ends = lemma_encoding_layout(t, bytes@);
                lemma_text_at_unique(bytes@, 0, id@, end_id as int, t.id, ends.0);
                lemma_text_at_unique(
                    bytes@,
                    end_id as int,
                    sender@,
                    end_sender as int,
                    t.sender,
                    ends.1,
                );
                lemma_text_at_unique(
                    bytes@,
                    end_sender as int,
                    receiver@,
                    end_receiver as int,
                    t.receiver,
                    ends.2,
                );
            }
        }
        return Err(CryptoError::DecodeFailure);
    }
    let amount = u64_from_le_bytes(slice_subrange(bytes, end_receiver, end_receiver + 8));
    let transaction = Transaction { id, sender, receiver, amount };
    proof {
        lemma_layout_encodes(
            transaction@,
            bytes@,
            (end_id as int, end_sender as int, end_receiver as int),
        );
        let found = choose|t: TransactionView| #[trigger] encodes(t, bytes@);
        lemma_encoding_determines_transaction(found, transaction@, bytes@);
    }
    Ok(transaction)
}

} // verus!
