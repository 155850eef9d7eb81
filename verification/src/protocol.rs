//! The job that comes in, and the message that goes out for it.

use vstd::prelude::*;
use vstd::string::*;
use vstd::utf8::encode_utf8;
use crate::decimal::{append_decimal, decimal};

verus! {

/// What goes before the bot's number in the routing key of a callback.
pub const ROUTING_PREFIX: &'static str = "sd.callback.";

/// The name of the header that carries the destination.
pub const SEND_TO: &'static str = "send_to";

/// The name of the header that carries the originating user.
pub const FROM_UIN: &'static str = "from_uin";

/// The name of the header that carries the routing hint.
pub const SEND_TYPE: &'static str = "send_type";

/// One job: a request for the images of a prompt.
#[derive(Debug, Clone, PartialEq, Eq)]
pub struct Message {
    /// The user who asked.
    pub from_uin: i64,
    /// The user or group that the images go to.
    pub send_to: i64,
    /// A routing hint, handed on as it came.
    pub send_type: String,
    /// The user's prompt.
    pub tag: String,
    /// The bot whose callback queue gets the images.
    pub uin: i64,
}

/// The value of a header of an outgoing message.
#[derive(Debug, PartialEq, Eq)]
pub enum HeaderValue {
    /// A signed integer of 64 bits.
    LongLongInt(i64),
    /// A long string.
    LongString(String),
}

/// What a header holds: a 64-bit integer, or the bytes of a long string.
pub enum HeaderModel {
    LongLongInt(i64),
    LongString(Seq<u8>),
}

impl View for HeaderValue {
    type V = HeaderModel;

    open spec fn view(&self) -> HeaderModel {
        match *self {
            HeaderValue::LongLongInt(n) => HeaderModel::LongLongInt(n),
            HeaderValue::LongString(s) => HeaderModel::LongString(encode_utf8(s@)),
        }
    }
}

#[verifier::external_type_specification]
#[verifier::external_body]
pub struct ExFieldTable(lapin::types::FieldTable);

#[verifier::external_type_specification]
#[verifier::external_body]
pub struct ExBasicProperties(lapin::BasicProperties);

/// The entries of a field table, by name.
pub uninterp spec fn table_entries(table: lapin::types::FieldTable) -> Map<Seq<char>, HeaderModel>;

/// The headers of a set of message properties, `None` where it has none.
pub uninterp spec fn properties_headers(properties: lapin::BasicProperties) -> Option<
    Map<Seq<char>, HeaderModel>,
>;

/// Whether the headers are all that a set of message properties holds: the content
/// type, the delivery mode and every other property are unset.
pub uninterp spec fn only_headers(properties: lapin::BasicProperties) -> bool;

/// No headers at all.
pub open spec fn no_headers() -> Map<Seq<char>, HeaderModel> {
    Map::empty()
}

/// `FieldTable::default`: a table without entries.
#[verifier::external_body]
fn empty_table() -> (table: lapin::types::FieldTable)
    ensures
        table_entries(table) == no_headers(),
{
    lapin::types::FieldTable::default()
}

/// `FieldTable::insert`: the table gets the entry, in place of one of the same name.
#[verifier::external_body]
fn table_insert(table: &mut lapin::types::FieldTable, name: &str, value: HeaderValue)
    ensures
        table_entries(*final(table)) == table_entries(*old(table)).insert(name@, value@),
{
    table.insert(
        name.into(),
        match value {
            HeaderValue::LongLongInt(n) => lapin::types::AMQPValue::LongLongInt(n),
            HeaderValue::LongString(s) => lapin::types::AMQPValue::LongString(s.into()),
        },
    )
}

/// `BasicProperties::default` and `with_headers`: properties whose headers are the
/// table, with nothing else set.
#[verifier::external_body]
fn properties_with(table: lapin::types::FieldTable) -> (properties: lapin::BasicProperties)
    ensures
        properties_headers(properties) == Some(table_entries(table)),
        only_headers(properties),
{
    lapin::BasicProperties::default().with_headers(table)
}

/// The routing key of the callback for the bot `uin`.
pub open spec fn routing_key_text(uin: i64) -> Seq<char> {
    ROUTING_PREFIX@ + decimal(uin as int)
}

/// The headers of the callback for a job.
pub open spec fn callback_headers(msg: Message) -> Map<Seq<char>, HeaderModel> {
    no_headers().insert(SEND_TO@, HeaderModel::LongLongInt(msg.send_to)).insert(FROM_UIN@, HeaderModel::LongLongInt(msg.from_uin)).insert(
        SEND_TYPE@,
        HeaderModel::LongString(encode_utf8(msg.send_type@)),
    )
}

/// The routing key under which the images for the bot `uin` are published: the
/// prefix, then the number in decimal.
pub fn routing_key(uin: i64) -> (key: String)
    ensures
        key@ == routing_key_text(uin),
{
    let mut key = String::from_str(ROUTING_PREFIX);
    append_decimal(&mut key, uin);
    key
}

/// The properties of the callback for a job: headers `send_to` and `from_uin` as
/// 64-bit integers and `send_type` as a long string, each as the job has it, and
/// nothing but the headers.
pub fn get_properties(msg: Message) -> (properties: lapin::BasicProperties)
    ensures
        properties_headers(properties) == Some(callback_headers(msg)),
        only_headers(properties),
{
    let mut table = empty_table();
    table_insert(&mut table, SEND_TO, HeaderValue::LongLongInt(msg.send_to));
    table_insert(&mut table, FROM_UIN, HeaderValue::LongLongInt(msg.from_uin));
    table_insert(&mut table, SEND_TYPE, HeaderValue::LongString(msg.send_type));
    properties_with(table)
}

/// Header fidelity. The callback for a job has three headers and no other:
/// `send_to` and `from_uin` hold the job's two numbers, each whole, and `send_type`
/// holds the bytes of the job's routing hint.
pub proof fn lemma_header_fidelity(msg: Message)
    ensures
        callback_headers(msg).dom() =~= set![SEND_TO@, FROM_UIN@, SEND_TYPE@],
        callback_headers(msg)[SEND_TO@] == HeaderModel::LongLongInt(msg.send_to),
        callback_headers(msg)[FROM_UIN@] == HeaderModel::LongLongInt(msg.from_uin),
        callback_headers(msg)[SEND_TYPE@] == HeaderModel::LongString(encode_utf8(msg.send_type@)),
{
    reveal_strlit("send_to");
    reveal_strlit("from_uin");
    reveal_strlit("send_type");
    assert(SEND_TO@.len() == 7);
    assert(FROM_UIN@.len() == 8);
    assert(SEND_TYPE@.len() == 9);
}

} // verus!
