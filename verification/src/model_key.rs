//! The identifier of an event-sourced entity: a stream name and a UUID, as
//! `horfimbor_eventsource` writes and reads it (`<stream>-<uuid>`).

use vstd::prelude::*;
use vstd::arithmetic::power2::pow2;
use crate::text::{after_first, before_first, lemma_first_index_of_join, replace_char, replaced, split_first};

verus! {

/// A lowercase hexadecimal digit for a value below sixteen.
pub open spec fn hex_digit(n: int) -> char {
    if n < 10 {
        (('0' as int) + n) as char
    } else {
        (('a' as int) + n - 10) as char
    }
}

/// The 32 lowercase hexadecimal digits of a UUID, most significant first.
pub open spec fn uuid_hex(id: u128) -> Seq<char> {
    Seq::new(32, |i: int| hex_digit((id as int / pow2((4 * (31 - i)) as nat) as int) % 16))
}

/// The hyphenated form of a UUID (`8-4-4-4-12` lowercase hexadecimal digits),
/// which is how `uuid::Uuid` displays itself.
pub open spec fn uuid_hyphenated(id: u128) -> Seq<char> {
    let h = uuid_hex(id);
    h.subrange(0, 8) + seq!['-'] + h.subrange(8, 12) + seq!['-'] + h.subrange(12, 16) + seq!['-']
        + h.subrange(16, 20) + seq!['-'] + h.subrange(20, 32)
}

/// What `uuid::Uuid::parse_str` returns for a text, as the UUID's 128-bit value.
pub uninterp spec fn spec_parse_uuid(text: Seq<char>) -> Option<u128>;

/// The UUID that `ModelKey::new_uuid_v8` of `horfimbor_eventsource` derives from
/// a kind and a piece of data (version 8, from their SHA-1 digest).
pub uninterp spec fn spec_uuid_v8(kind: Seq<char>, data: Seq<char>) -> u128;

/// `uuid::Uuid::from_u128` then `Display`: the hyphenated lowercase form of the
/// UUID. `uuid` documents that `parse_str` reads back every form it writes, so
/// parsing the text gives the UUID back.
#[verifier::external_body]
fn uuid_text(id: u128) -> (r: String)
    ensures
        r@ == uuid_hyphenated(id),
        spec_parse_uuid(r@) == Some(id),
{
    uuid::Uuid::from_u128(id).to_string()
}

/// `uuid::Uuid::parse_str`: the UUID written in `text`, if it is one. The
/// result is named, not stated; a hyphenated form reads back as its UUID.
#[verifier::external_body]
fn parse_uuid(text: &str) -> (r: Option<u128>)
    ensures
        r == spec_parse_uuid(text@),
        forall|id: u128| text@ == uuid_hyphenated(id) ==> r == Some(id),
{
    match uuid::Uuid::parse_str(text) {
        Ok(u) => Some(u.as_u128()),
        Err(_) => None,
    }
}

/// A version-4 (random) UUID: its version field (bits 76 to 79) holds 4 and
/// its variant field (bits 62 and 63) holds the RFC 4122 variant, `0b10`.
pub open spec fn is_v4_uuid(id: u128) -> bool {
    (id as int / pow2(76) as int) % 16 == 4 && (id as int / pow2(62) as int) % 4 == 2
}

/// `uuid::Uuid::new_v4`: a random UUID. Its source masks random bits and sets
/// the version to 4 and the variant to RFC 4122; nothing else is claimed of
/// its value.
#[verifier::external_body]
fn random_uuid() -> (r: u128)
    ensures
        is_v4_uuid(r),
{
    uuid::Uuid::new_v4().as_u128()
}

/// `horfimbor_eventsource::model_key::ModelKey::new_uuid_v8`, displayed. Its
/// source builds the key with `ModelKey::new` (dashes of the stream name become
/// underscores) and displays it as `<stream>-<uuid>`; the UUID is named.
#[verifier::external_body]
fn uuid_v8_key_text(stream: &'static str, kind: &'static str, data: &str) -> (r: String)
    ensures
        r@ == replace_char(stream@, '-', '_') + seq!['-'] + uuid_hyphenated(
            spec_uuid_v8(kind@, data@),
        ),
{
    horfimbor_eventsource::model_key::ModelKey::new_uuid_v8(stream, kind, data).to_string()
}

/// Reads a UUID written in any of the forms `uuid` accepts.
pub fn uuid_from_str(text: &str) -> (r: Option<u128>)
    ensures
        r == spec_parse_uuid(text@),
{
    parse_uuid(text)
}

/// The hyphenated text of a UUID.
pub fn uuid_to_string(id: u128) -> (r: String)
    ensures
        r@ == uuid_hyphenated(id),
        spec_parse_uuid(r@) == Some(id),
{
    uuid_text(id)
}

/// Why a text is not a model key.
#[derive(Clone, Copy, Debug, PartialEq, Eq, Structural)]
pub enum ModelKeyError {
    /// The part after the stream name is not a UUID.
    UuidError,
    /// The text was empty.
    Empty,
}

/// The identifier of an entity: the stream (domain) it lives in and its UUID.
/// A stream name never holds a dash, which separates it from the UUID.
#[derive(Debug)]
pub struct ModelKey {
    stream_name: String,
    stream_id: u128,
}

/// The text `<stream>-<uuid>` of a key.
pub open spec fn key_text(k: (Seq<char>, u128)) -> Seq<char> {
    k.0 + seq!['-'] + uuid_hyphenated(k.1)
}

/// What reading `text` as a key gives: the stream name before the first dash
/// and the UUID written after it.
pub open spec fn parse_key(text: Seq<char>) -> Option<(Seq<char>, u128)> {
    match spec_parse_uuid(after_first(text, '-')) {
        Some(id) => Some((before_first(text, '-'), id)),
        None => None,
    }
}

impl View for ModelKey {
    type V = (Seq<char>, u128);

    closed spec fn view(&self) -> (Seq<char>, u128) {
        (self.stream_name@, self.stream_id)
    }
}

impl ModelKey {
    /// The type invariant: the stream name holds no dash.
    #[verifier::type_invariant]
    pub open spec fn wf(self) -> bool {
        !self@.0.contains('-')
    }

    /// A key in `stream_name` with `stream_id`; dashes of the name become
    /// underscores.
    pub fn new(stream_name: &str, stream_id: u128) -> (r: ModelKey)
        ensures
            r@ == (replace_char(stream_name@, '-', '_'), stream_id),
    {
        proof {
            reveal_strlit("_");
        }
        let name = replaced(stream_name, '-', "_");
        assert(!name@.contains('-')) by {
            if name@.contains('-') {
                let j = choose|j: int| 0 <= j < name@.len() && name@[j] == '-';
                assert(name@[j] == replace_char(stream_name@, '-', '_')[j]);
            }
        }
        ModelKey { stream_name: name, stream_id }
    }

    /// The key whose UUID derives from `kind` and `data` (see `spec_uuid_v8`).
    pub fn new_uuid_v8(stream_name: &'static str, kind: &'static str, data: &str) -> (r: ModelKey)
        ensures
            r@ == (replace_char(stream_name@, '-', '_'), spec_uuid_v8(kind@, data@)),
    {
        let text = uuid_v8_key_text(stream_name, kind, data);
        let ghost name = replace_char(stream_name@, '-', '_');
        let ghost id = spec_uuid_v8(kind@, data@);
        assert(!name.contains('-')) by {
            if name.contains('-') {
                let j = choose|j: int| 0 <= j < name.len() && name[j] == '-';
                assert(name[j] == replace_char(stream_name@, '-', '_')[j]);
            }
        }
        proof {
            lemma_first_index_of_join(name, '-', uuid_hyphenated(id));
        }
        let (head, rest) = split_first(text.as_str(), '-');
        let rest = rest.unwrap();
        let id_value = parse_uuid(rest).unwrap();
        ModelKey { stream_name: String::from_str(head), stream_id: id_value }
    }

    /// The key in `stream_name` with a fresh random UUID.
    pub fn new_uuid_v4(stream_name: &str) -> (r: ModelKey)
        ensures
            r@.0 == replace_char(stream_name@, '-', '_'),
            is_v4_uuid(r@.1),
    {
        ModelKey::new(stream_name, random_uuid())
    }

    /// The stream name.
    pub fn stream_name(&self) -> (r: &str)
        ensures
            r@ == self@.0,
    {
        self.stream_name.as_str()
    }

    /// The UUID.
    pub fn stream_id(&self) -> (r: u128)
        ensures
            r == self@.1,
    {
        self.stream_id
    }

    /// The text `<stream>-<uuid>`; reading it back gives this key.
    pub fn to_string(&self) -> (r: String)
        ensures
            r@ == key_text(self@),
            parse_key(r@) == Some(self@),
    {
        proof {
            use_type_invariant(self);
            reveal_strlit("-");
        }
        let id_text = uuid_text(self.stream_id);
        let mut out = self.stream_name.clone();
        out.append("-");
        out.append(id_text.as_str());
        assert(out@ =~= self.stream_name@ + seq!['-'] + id_text@);
        proof {
            lemma_first_index_of_join(self.stream_name@, '-', id_text@);
        }
        out
    }

    /// The event-store name of the key: dots of the stream name become
    /// underscores, followed by a dash and the UUID.
    pub fn format(&self) -> (r: String)
        ensures
            r@ == replace_char(self@.0, '.', '_') + seq!['-'] + uuid_hyphenated(self@.1),
    {
        let id_text = uuid_text(self.stream_id);
        proof {
            reveal_strlit("_");
        }
        let mut out = replaced(self.stream_name.as_str(), '.', "_");
        out.append("-");
        out.append(id_text.as_str());
        proof {
            reveal_strlit("-");
        }
        out
    }

    /// Reads a key from its text `<stream>-<uuid>`: the stream name is what
    /// stands before the first dash, the UUID what stands after it.
    pub fn try_from_str(value: &str) -> (r: Result<ModelKey, ModelKeyError>)
        ensures
            parse_key(value@) is Some <==> r is Ok,
            r matches Ok(k) ==> parse_key(value@) == Some(k@),
            r matches Err(e) ==> e == ModelKeyError::UuidError,
    {
        let (head, rest) = split_first(value, '-');
        let to_check = match rest {
            Some(t) => t,
            None => "",
        };
        proof {
            reveal_strlit("");
        }
        assert(to_check@ == after_first(value@, '-'));
        match parse_uuid(to_check) {
            Some(id) => {
                assert(!head@.contains('-')) by {
                    if head@.contains('-') {
                        let j = choose|j: int| 0 <= j < head@.len() && head@[j] == '-';
                        assert(head@[j] == value@[j]);
                    }
                }
                Ok(ModelKey { stream_name: String::from_str(head), stream_id: id })
            },
            None => Err(ModelKeyError::UuidError),
        }
    }

    /// A copy of this key.
    pub fn duplicate(&self) -> (r: ModelKey)
        ensures
            r@ == self@,
    {
        proof {
            use_type_invariant(self);
        }
        ModelKey { stream_name: self.stream_name.clone(), stream_id: self.stream_id }
    }

    /// Whether both keys name the same entity.
    pub fn same(&self, other: &ModelKey) -> (r: bool)
        ensures
            r == (self@ == other@),
    {
        self.stream_id == other.stream_id && self.stream_name == other.stream_name
    }

    /// The empty key: an empty stream name and the nil UUID.
    pub fn empty() -> (r: ModelKey)
        ensures
            r@ == (Seq::<char>::empty(), 0u128),
    {
        ModelKey { stream_name: String::new(), stream_id: 0 }
    }
}

/// A version-4 UUID is never the nil UUID, and its text shows the version:
/// the first digit of its third group is `4`.
pub proof fn law_v4_uuid_text(id: u128)
    requires
        is_v4_uuid(id),
    ensures
        id != 0,
        uuid_hyphenated(id)[14] == '4',
{
    assert(uuid_hyphenated(id)[14] == uuid_hex(id)[12]);
    assert(pow2((4 * (31 - 12)) as nat) == pow2(76));
}

} // verus!
