//! The protobuf wire format, as far as outbound requests use it.
//!
//! The spec functions say which bytes a field occupies. The executable
//! writers at the end of the file hand the work to `prost`; their contracts
//! are taken on trust and are the only unproved statements about bytes in
//! this crate.

use vstd::prelude::*;
use vstd::utf8::encode_utf8;

verus! {

/// The largest field number that a key can carry.
pub const MAX_TAG: u32 = 0x1FFF_FFFF;

/// Whether `tag` is a field number that a key can carry.
pub open spec fn valid_tag(tag: u32) -> bool {
    1 <= tag <= MAX_TAG
}

/// A number in base 128, least significant group first, with the top bit of
/// every byte but the last set.
pub open spec fn varint(value: nat) -> Seq<u8>
    decreases value,
{
    if value < 128 {
        seq![value as u8]
    } else {
        seq![(value % 128 + 128) as u8] + varint(value / 128)
    }
}

/// The key of a field whose value is a varint.
pub open spec fn varint_key(tag: u32) -> Seq<u8> {
    varint((tag * 8) as nat)
}

/// The key of a field whose value is a length followed by that many bytes.
pub open spec fn delimited_key(tag: u32) -> Seq<u8> {
    varint((tag * 8 + 2) as nat)
}

/// A `uint64` field.
pub open spec fn uint64_field(tag: u32, value: u64) -> Seq<u8> {
    varint_key(tag) + varint(value as nat)
}

/// An `int32` field. A negative value is widened to 64 bits in two's
/// complement before it is written.
pub open spec fn int32_field(tag: u32, value: i32) -> Seq<u8> {
    varint_key(tag) + varint(
        if value >= 0 {
            value as nat
        } else {
            (value + 0x1_0000_0000_0000_0000) as nat
        },
    )
}

/// A `bytes` field, and equally an embedded message whose encoding is `bytes`.
pub open spec fn bytes_field(tag: u32, bytes: Seq<u8>) -> Seq<u8> {
    delimited_key(tag) + varint(bytes.len()) + bytes
}

/// A `string` field: the text travels as its UTF-8 bytes.
pub open spec fn string_field(tag: u32, text: Seq<char>) -> Seq<u8> {
    bytes_field(tag, encode_utf8(text))
}

/// A `uint64` field of a message without field presence: zero is not written.
pub open spec fn plain_uint64(tag: u32, value: u64) -> Seq<u8> {
    if value != 0 {
        uint64_field(tag, value)
    } else {
        Seq::empty()
    }
}

/// An `int32` field of a message without field presence: zero is not written.
pub open spec fn plain_int32(tag: u32, value: i32) -> Seq<u8> {
    if value != 0 {
        int32_field(tag, value)
    } else {
        Seq::empty()
    }
}

/// A `string` field of a message without field presence: the empty text is not written.
pub open spec fn plain_string(tag: u32, text: Seq<char>) -> Seq<u8> {
    if text.len() > 0 {
        string_field(tag, text)
    } else {
        Seq::empty()
    }
}

/// A `bytes` field of a message without field presence: no bytes, no field.
pub open spec fn plain_bytes(tag: u32, bytes: Seq<u8>) -> Seq<u8> {
    if bytes.len() > 0 {
        bytes_field(tag, bytes)
    } else {
        Seq::empty()
    }
}

/// A message of any type, carried as its type URL and its encoding.
#[derive(Clone, Debug, PartialEq, Eq)]
pub struct Any {
    pub type_url: String,
    pub value: Vec<u8>,
}

/// A carried message as plain values.
pub struct AnyView {
    pub type_url: Seq<char>,
    pub value: Seq<u8>,
}

impl View for Any {
    type V = AnyView;

    open spec fn view(&self) -> AnyView {
        AnyView { type_url: self.type_url@, value: self.value@ }
    }
}

impl AnyView {
    /// The encoding of the carrier itself: the URL is field 1, the payload field 2.
    pub open spec fn wire(self) -> Seq<u8> {
        plain_string(1, self.type_url) + plain_bytes(2, self.value)
    }
}

/// The carried messages of a list as plain values.
pub open spec fn any_views(msgs: Seq<Any>) -> Seq<AnyView> {
    msgs.map_values(|m: Any| m@)
}

/// A repeated field of carried messages, one embedded message per element, in order.
pub open spec fn repeated_any(tag: u32, msgs: Seq<AnyView>) -> Seq<u8>
    decreases msgs.len(),
{
    if msgs.len() == 0 {
        Seq::empty()
    } else {
        repeated_any(tag, msgs.drop_last()) + bytes_field(tag, msgs.last().wire())
    }
}

/// A repeated field grows by one embedded message when the list grows by one element.
pub proof fn lemma_repeated_any_push(tag: u32, msgs: Seq<AnyView>, msg: AnyView)
    ensures
        repeated_any(tag, msgs.push(msg)) == repeated_any(tag, msgs) + bytes_field(
            tag,
            msg.wire(),
        ),
{
    assert(msgs.push(msg).drop_last() =~= msgs);
}

/// Appends a `uint64` field to `buf`.
///
/// Trusted: the body calls `prost::encoding::uint64::encode`, which writes
/// the key of a varint field and then the value as a varint.
#[verifier::external_body]
pub(crate) fn put_uint64(buf: &mut Vec<u8>, tag: u32, value: u64)
    requires
        valid_tag(tag),
    ensures
        final(buf)@ == old(buf)@ + uint64_field(tag, value),
{
    prost::encoding::uint64::encode(tag, &value, buf);
}

/// Appends an `int32` field to `buf`.
///
/// Trusted: the body calls `prost::encoding::int32::encode`, which writes the
/// key of a varint field and then the value, cast to 64 bits, as a varint.
#[verifier::external_body]
pub(crate) fn put_int32(buf: &mut Vec<u8>, tag: u32, value: i32)
    requires
        valid_tag(tag),
    ensures
        final(buf)@ == old(buf)@ + int32_field(tag, value),
{
    prost::encoding::int32::encode(tag, &value, buf);
}

/// Appends a `string` field to `buf`.
///
/// Trusted: the body calls `prost::encoding::string::encode`, which writes
/// the key of a length-delimited field, the number of bytes of the text as a
/// varint, and the bytes of the text.
#[verifier::external_body]
pub(crate) fn put_string(buf: &mut Vec<u8>, tag: u32, value: &String)
    requires
        valid_tag(tag),
    ensures
        final(buf)@ == old(buf)@ + string_field(tag, value@),
{
    prost::encoding::string::encode(tag, value, buf);
}

/// Appends one carried message to `buf` as an embedded message.
///
/// Trusted: the body hands a `prost_types::Any` with the same two fields to
/// `prost::encoding::message::encode`, which writes the key of a
/// length-delimited field, the length of the message's encoding as a varint,
/// and that encoding. `prost_types::Any` encodes a non-empty `type_url` as
/// string field 1 and a non-empty `value` as bytes field 2.
#[verifier::external_body]
pub(crate) fn put_any(buf: &mut Vec<u8>, tag: u32, msg: &Any)
    requires
        valid_tag(tag),
    ensures
        final(buf)@ == old(buf)@ + bytes_field(tag, msg@.wire()),
{
    let any = prost_types::Any { type_url: msg.type_url.clone(), value: msg.value.clone() };
    prost::encoding::message::encode(tag, &any, buf);
}

} // verus!
