//! Requests to a key-value store and what its replies mean.

use vstd::prelude::*;
use vstd::utf8::{decode_utf8, encode_utf8, valid_utf8};

verus! {

/// A request to store a value.
#[derive(Debug, PartialEq, Eq)]
pub struct SetRequest {
    pub key: String,
    pub value: String,
}

/// The answer to a request for a value.
#[derive(Debug, PartialEq, Eq)]
pub struct GetResponse {
    /// The value, which is empty where there is none.
    pub value: String,
    pub exists: bool,
}

/// What a [`GetResponse`] says.
#[verifier::ext_equal]
pub struct GetResponseView {
    pub value: Seq<char>,
    pub exists: bool,
}

impl View for GetResponse {
    type V = GetResponseView;

    open spec fn view(&self) -> GetResponseView {
        GetResponseView { value: self.value@, exists: self.exists }
    }
}

impl GetResponseView {
    /// The answer where there is no value.
    pub open spec fn missing() -> GetResponseView {
        GetResponseView { value: Seq::empty(), exists: false }
    }
}

/// A request to add to a list.
#[derive(Debug, PartialEq, Eq)]
pub struct ListAddRequest {
    pub list_name: String,
    pub value: String,
}

/// A request to remove from a list.
#[derive(Debug, PartialEq, Eq)]
pub struct ListDelRequest {
    pub list_name: String,
    pub value: String,
}

/// A request for a part of a list.
#[derive(Debug, PartialEq, Eq)]
pub struct ListRangeRequest {
    pub list_name: String,
    pub start: i32,
    pub stop: i32,
}

/// A request to add to a set.
#[derive(Debug, PartialEq, Eq)]
pub struct SetAddRequest {
    pub set_name: String,
    pub value: String,
}

/// A request to remove from a set.
#[derive(Debug, PartialEq, Eq)]
pub struct SetDelRequest {
    pub set_name: String,
    pub value: String,
}

/// A value that is to be stored.
pub struct PutEntry<'a, S> {
    pub store: &'a S,
    pub key: String,
    pub value: Vec<u8>,
}

/// A store's reply to a read: the entry's bytes, that there is no entry, or an error.
pub type FetchReply = Result<Option<Vec<u8>>, String>;

/// The bytes that a reply brought, where it brought some.
pub open spec fn fetched(reply: FetchReply) -> Option<Seq<u8>> {
    match reply {
        Ok(Some(bytes)) => Some(bytes@),
        _ => None,
    }
}

/// What the buckets of a server hold: bytes, by the bucket's name and the key.
#[verifier::ext_equal]
pub struct Buckets {
    pub entries: Map<(Seq<char>, Seq<char>), Seq<u8>>,
}

impl Buckets {
    /// The bytes that a read of `key` brings.
    pub open spec fn entry(self, bucket: Seq<char>, key: Seq<char>) -> Option<Seq<u8>> {
        if self.entries.contains_key((bucket, key)) {
            Some(self.entries[(bucket, key)])
        } else {
            None
        }
    }

    /// The buckets once `bytes` were put under `key`.
    pub open spec fn with_entry(self, bucket: Seq<char>, key: Seq<char>, bytes: Seq<u8>) -> Buckets {
        Buckets { entries: self.entries.insert((bucket, key), bytes) }
    }

    /// The buckets once `key` was deleted.
    pub open spec fn without_entry(self, bucket: Seq<char>, key: Seq<char>) -> Buckets {
        Buckets { entries: self.entries.remove((bucket, key)) }
    }
}

/// What `String::from_utf8_lossy` makes of bytes that are not UTF-8.
pub uninterp spec fn replaced_text(bytes: Seq<u8>) -> Seq<char>;

/// The text that stored bytes stand for: exactly the text whose UTF-8 they are, where they are
/// the UTF-8 of one.
pub open spec fn stored_text(bytes: Seq<u8>) -> Seq<char> {
    if valid_utf8(bytes) {
        decode_utf8(bytes)
    } else {
        replaced_text(bytes)
    }
}

/// Calls `String::from_utf8_lossy`. Bytes that are valid UTF-8 give the text that they encode;
/// of others, which [`replaced_text`] names the text of, the invalid sequences are replaced
/// with U+FFFD.
#[verifier::external_body]
fn text_from_utf8_lossy(bytes: &Vec<u8>) -> (text: String)
    ensures
        valid_utf8(bytes@) ==> text@ == decode_utf8(bytes@),
        !valid_utf8(bytes@) ==> text@ == replaced_text(bytes@),
        !valid_utf8(bytes@) ==> text@.contains('\u{FFFD}'),
{
    String::from_utf8_lossy(bytes).into_owned()
}

/// The answer to a request for a value, once the store has replied.
pub open spec fn get_answer(bytes: Option<Seq<u8>>) -> GetResponseView {
    match bytes {
        Some(b) => GetResponseView { value: stored_text(b), exists: true },
        None => GetResponseView::missing(),
    }
}

/// Answers a request for a value. A store that failed is one that holds nothing.
pub fn get_fetched(reply: FetchReply) -> (response: GetResponse)
    ensures
        response@ == get_answer(fetched(reply)),
        match reply {
            Ok(Some(bytes)) => {
                &&& response.exists
                &&& valid_utf8(bytes@) ==> response.value@ == decode_utf8(bytes@)
                &&& !valid_utf8(bytes@) ==> response.value@ == replaced_text(bytes@)
            },
            _ => !response.exists && response.value@.len() == 0,
        },
{
    match reply {
        Ok(Some(bytes)) => GetResponse { value: text_from_utf8_lossy(&bytes), exists: true },
        _ => GetResponse { value: String::new(), exists: false },
    }
}

/// Answers whether a key has a value. A store that failed is one that holds nothing.
pub fn contains_fetched(reply: &FetchReply) -> (contained: bool)
    ensures
        contained == (fetched(*reply) is Some),
        contained <==> (*reply matches Ok(Some(_))),
{
    match reply {
        Ok(Some(_)) => true,
        _ => false,
    }
}

/// How a deletion goes on once it is known whether the key has a value.
#[derive(Debug, PartialEq, Eq)]
pub enum DelStep {
    /// Delete the key, and report how that went.
    Delete(String),
    /// The answer, without any deletion.
    Answer(bool),
}

/// Goes on with a deletion. The store reports no error for a key that has no value, so that is
/// looked up first, and only a key that has one is deleted.
pub fn del_fetched(key: String, reply: &FetchReply) -> (step: DelStep)
    ensures
        match fetched(*reply) {
            Some(_) => step == DelStep::Delete(key),
            None => step == DelStep::Answer(false),
        },
        match *reply {
            Ok(Some(_)) => step == DelStep::Delete(key),
            _ => step == DelStep::Answer(false),
        },
{
    if contains_fetched(reply) {
        DelStep::Delete(key)
    } else {
        DelStep::Answer(false)
    }
}

/// Answers a deletion: true if the key was deleted, false if the store failed.
pub fn del_deleted(deleted: Result<(), String>) -> (answer: bool)
    ensures
        answer == (deleted is Ok),
{
    deleted.is_ok()
}

/// The number that an increment starts from: what `parse` makes of the stored text, or `zero`
/// where there is no text or it is not that of a number. A store that failed is one that holds
/// nothing.
pub fn increment_fetched<N, P: FnOnce(&str) -> Option<N>>(
    reply: FetchReply,
    parse: P,
    zero: N,
) -> (current: N)
    requires
        forall|text: &str| #[trigger] parse.requires((text,)),
    ensures
        match fetched(reply) {
            Some(bytes) => exists|text: &str, parsed: Option<N>|
                {
                    &&& text@ == stored_text(bytes)
                    &&& #[trigger] parse.ensures((text,), parsed)
                    &&& current == match parsed {
                        Some(number) => number,
                        None => zero,
                    }
                },
            None => current == zero,
        },
        match reply {
            Ok(Some(bytes)) => exists|text: &str, parsed: Option<N>|
                {
                    &&& valid_utf8(bytes@) ==> text@ == decode_utf8(bytes@)
                    &&& !valid_utf8(bytes@) ==> text@ == replaced_text(bytes@)
                    &&& #[trigger] parse.ensures((text,), parsed)
                    &&& parsed is Some ==> current == parsed->Some_0
                    &&& parsed is None ==> current == zero
                },
            _ => current == zero,
        },
{
    match reply {
        Ok(Some(bytes)) => {
            let text = text_from_utf8_lossy(&bytes);
            match parse(text.as_str()) {
                Some(number) => number,
                None => zero,
            }
        },
        _ => zero,
    }
}

/// The one entry that an increment stores, once the new number is known: its text `sum`, in the
/// store and under the key that the current number was read from.
pub fn increment_summed<'a, S>(store: &'a S, key: String, sum: String) -> (put: PutEntry<'a, S>)
    ensures
        *put.store == *store,
        put.key == key,
        put.value@ == encode_utf8(sum@),
{
    PutEntry { store, key, value: stored_bytes(&sum) }
}

/// Answers an increment: with the new number, or, where the store failed to take it, with
/// `zero`.
pub fn increment_stored<N>(stored: Result<(), String>, sum: N, zero: N) -> (answer: N)
    ensures
        answer == if stored is Ok {
            sum
        } else {
            zero
        },
{
    match stored {
        Ok(_) => sum,
        Err(_) => zero,
    }
}

/// The bytes that a value is stored as.
pub fn stored_bytes(value: &String) -> (bytes: Vec<u8>)
    ensures
        bytes@ == encode_utf8(value@),
{
    value.as_str().as_bytes_vec()
}

/// What is read gives back what was written: the bytes that any value is stored as are answered
/// with that value.
pub proof fn law_read_gives_back_written(value: Seq<char>)
    ensures
        get_answer(Some(encode_utf8(value))) == (GetResponseView { value, exists: true }),
        stored_text(encode_utf8(value)) == value,
{
    vstd::utf8::encode_utf8_valid_utf8(value);
    vstd::utf8::encode_utf8_decode_utf8(value);
}

/// What a store's reply brings is the bytes that it holds, and nothing if it holds none or
/// failed. An answer says what its fields hold.
pub proof fn law_reply_brings_its_bytes(bytes: Vec<u8>, error: String, response: GetResponse)
    ensures
        fetched(Ok(Some(bytes))) == Some(bytes@),
        fetched(Ok(None)) is None,
        fetched(Err(error)) is None,
        response@.value == response.value@,
        response@.exists == response.exists,
{
}

/// Stored bytes are read as the text whose UTF-8 they are, and the text of others is the one in
/// which what cannot be read is replaced. They are there, be they readable or not and be there
/// any or not.
pub proof fn law_stored_bytes_are_read(bytes: Seq<u8>)
    ensures
        valid_utf8(bytes) ==> stored_text(bytes) == decode_utf8(bytes) && encode_utf8(
            stored_text(bytes),
        ) == bytes,
        !valid_utf8(bytes) ==> stored_text(bytes) == replaced_text(bytes),
        get_answer(Some(bytes)).exists,
        get_answer(Some(bytes)).value == stored_text(bytes),
        !get_answer(None).exists,
        get_answer(None).value.len() == 0,
{
    if valid_utf8(bytes) {
        vstd::utf8::decode_utf8_encode_utf8(bytes);
    }
}

} // verus!
