//! The token the client attaches to every request, as gRPC metadata.

use vstd::prelude::*;
use vstd::string::StringSliceAdditionalSpecFns;
use tonic::metadata::{Ascii, MetadataMap, MetadataValue};

verus! {

/// The metadata map of a `tonic` request.
#[verifier::external_type_specification]
#[verifier::external_body]
pub struct ExMetadataMap(MetadataMap);

/// An ASCII metadata value of `tonic`. Its type cannot be declared here
/// (its bound is private to `tonic`), so it is held in a private field.
#[verifier::external_body]
pub struct AsciiValue {
    value: MetadataValue<Ascii>,
}

/// What a metadata map holds: for each key, its values' bytes in order.
pub uninterp spec fn metadata_entries(map: MetadataMap) -> Map<Seq<char>, Seq<Seq<u8>>>;

/// The bytes an ASCII metadata value holds.
pub uninterp spec fn ascii_value_bytes(value: AsciiValue) -> Seq<u8>;

/// A byte that a metadata (header) value may hold: anything but the control
/// characters, a tab excepted.
pub open spec fn is_value_byte(b: u8) -> bool {
    (32 <= b && b != 127) || b == 9
}

/// Every byte may stand in a metadata value.
pub open spec fn all_value_bytes(bytes: Seq<u8>) -> bool {
    forall|i: int| 0 <= i < bytes.len() ==> is_value_byte(#[trigger] bytes[i])
}

/// Calls `MetadataValue::<Ascii>::from_str`. As the `tonic` and `http`
/// sources show, it succeeds exactly when every byte of the text's UTF-8
/// encoding may stand in a header value, and the value then holds those bytes.
#[verifier::external_body]
fn ascii_metadata_value(text: &str) -> (value: Option<AsciiValue>)
    ensures
        value is Some <==> all_value_bytes(text.spec_bytes()),
        value matches Some(v) ==> ascii_value_bytes(v) == text.spec_bytes(),
{
    match MetadataValue::<Ascii>::from_str(text) {
        Ok(value) => Some(AsciiValue { value }),
        Err(_) => None,
    }
}

/// A character that a static metadata key may be written with here:
/// a lower-case letter, a digit or a dash.
pub open spec fn is_key_char(c: char) -> bool {
    ('a' <= c && c <= 'z') || ('0' <= c && c <= '9') || c == '-'
}

/// A key that `MetadataMap::insert` takes for an ASCII value without
/// panicking: non-empty, short, written with key characters, and not the
/// `-bin` suffix of binary keys.
pub open spec fn is_ascii_key(key: Seq<char>) -> bool {
    &&& 0 < key.len() < 65536
    &&& forall|i: int| 0 <= i < key.len() ==> is_key_char(#[trigger] key[i])
    &&& !(key.len() >= 4 && key.subrange(key.len() - 4, key.len() as int) == "-bin"@)
}

/// The number of distinct keys below which inserting into a metadata map
/// never outgrows the largest table `http` allows (a larger map may panic).
pub const ROOM_FOR_KEYS: usize = 6553;

/// Calls `MetadataMap::insert`. As the `tonic` and `http` sources show, the
/// key then holds the one given value, every earlier value of the key is
/// dropped, and the first earlier value, if any, is handed back; other keys
/// are untouched. The call panics when the key is not a valid static ASCII key
/// or the table would outgrow its largest size, which cannot happen below
/// `ROOM_FOR_KEYS` keys.
#[verifier::external_body]
fn metadata_insert(map: &mut MetadataMap, key: &'static str, value: AsciiValue) -> (previous: Option<
    AsciiValue,
>)
    requires
        is_ascii_key(key@),
        metadata_entries(*old(map)).dom().len() < ROOM_FOR_KEYS,
    ensures
        metadata_entries(*final(map)) == metadata_entries(*old(map)).insert(
            key@,
            seq![ascii_value_bytes(value)],
        ),
        previous is Some <==> metadata_entries(*old(map)).contains_key(key@),
        previous matches Some(p) ==> ascii_value_bytes(p) == metadata_entries(*old(map))[key@][0],
{
    match map.insert(key, value.value) {
        Some(value) => Some(AsciiValue { value }),
        None => None,
    }
}

/// Calls `MetadataMap::keys_len`: as the `tonic` source shows, the number of
/// distinct keys the map holds.
#[verifier::external_body]
fn metadata_keys_len(map: &MetadataMap) -> (count: usize)
    ensures
        count == metadata_entries(*map).dom().len(),
{
    map.keys_len()
}

/// The metadata key the token travels under.
pub const TOKEN_KEY: &'static str = "token";

/// A token that can travel as metadata: every byte of its UTF-8 encoding may
/// stand in a header value.
pub open spec fn is_sendable_token(token: &str) -> bool {
    all_value_bytes(token.spec_bytes())
}

/// Whether `token` can travel as metadata.
pub fn token_is_sendable(token: &str) -> (sendable: bool)
    ensures
        sendable == is_sendable_token(token),
{
    let bytes = token.as_bytes();
    let mut i: usize = 0;
    while i < bytes.len()
        invariant
            0 <= i <= bytes@.len(),
            bytes@ == token.spec_bytes(),
            forall|j: int| 0 <= j < i ==> is_value_byte(#[trigger] bytes@[j]),
        decreases bytes@.len() - i,
    {
        let b = bytes[i];
        if !((32 <= b && b != 127) || b == 9) {
            return false;
        }
        i = i + 1;
    }
    true
}

/// Insert the token into the request metadata, under `token`, replacing any
/// earlier value there. The token must be able to travel as metadata, and the
/// map must have room for one more key.
pub fn insert_token(metadata: &mut MetadataMap, token: &str)
    requires
        is_sendable_token(token),
        metadata_entries(*old(metadata)).dom().len() < ROOM_FOR_KEYS,
    ensures
        metadata_entries(*final(metadata)) == metadata_entries(*old(metadata)).insert(
            TOKEN_KEY@,
            seq![token.spec_bytes()],
        ),
{
    proof {
        reveal_strlit("token");
        reveal_strlit("-bin");
        let key = TOKEN_KEY@;
        assert(key.subrange(key.len() - 4, key.len() as int)[0] == 'o');
        assert(forall|i: int| 0 <= i < key.len() ==> is_key_char(#[trigger] key[i]));
    }
    let value = ascii_metadata_value(token);
    match value {
        Some(value) => {
            metadata_insert(metadata, TOKEN_KEY, value);
        },
        None => {},
    }
}

/// Insert the token as `insert_token` does when the token can travel as
/// metadata and the map has room for one more key; otherwise leave the map
/// as it is. Tells whether the token was inserted.
pub fn try_insert_token(metadata: &mut MetadataMap, token: &str) -> (inserted: bool)
    ensures
        inserted == (is_sendable_token(token) && metadata_entries(*old(metadata)).dom().len()
            < ROOM_FOR_KEYS),
        inserted ==> metadata_entries(*final(metadata)) == metadata_entries(*old(metadata)).insert(
            TOKEN_KEY@,
            seq![token.spec_bytes()],
        ),
        !inserted ==> *final(metadata) == *old(metadata),
{
    let keys = metadata_keys_len(metadata);
    if keys < ROOM_FOR_KEYS && token_is_sendable(token) {
        insert_token(metadata, token);
        true
    } else {
        false
    }
}

} // verus!
