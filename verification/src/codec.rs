//! The payload codec: from the trigger's query to the text of the payload.
//!
//! The payload travels percent-encoded twice, once by the integration that
//! emits it and once more as a value of the query. It is taken from the query
//! as it stands and percent-decoded twice.

use percent_encoding::percent_decode_str;
use vstd::prelude::*;
use vstd::utf8::{
    decode_utf8, encode_utf8, encode_utf8_decode_utf8, encode_utf8_valid_utf8, valid_utf8,
};
use crate::payload::{DecodeError, DecodeErrorView};
use crate::text::{
    after_first, before_first, chars_eq, chars_of, find_first, find_from, from_utf8_lossy,
    lemma_first_index, lossy_text, slice_of, text_of_range,
};

verus! {

/// The byte `%`.
pub const PERCENT: u8 = 0x25;

/// Whether `b` is a hexadecimal digit, of either case.
pub open spec fn is_hex(b: u8) -> bool {
    (0x30 <= b <= 0x39) || (0x41 <= b <= 0x46) || (0x61 <= b <= 0x66)
}

/// The value of the hexadecimal digit `b`.
pub open spec fn hex_value(b: u8) -> int {
    if 0x30 <= b <= 0x39 {
        b - 0x30
    } else if 0x41 <= b <= 0x46 {
        b - 0x41 + 10
    } else {
        b - 0x61 + 10
    }
}

/// Whether `bytes` starts with an escape: `%` and two hexadecimal digits.
pub open spec fn starts_with_escape(bytes: Seq<u8>) -> bool {
    bytes.len() >= 3 && bytes[0] == PERCENT && is_hex(bytes[1]) && is_hex(bytes[2])
}

/// The byte that the escape at the start of `bytes` stands for.
pub open spec fn escape_value(bytes: Seq<u8>) -> u8 {
    (16 * hex_value(bytes[1]) + hex_value(bytes[2])) as u8
}

/// `bytes` percent-decoded: each escape becomes the byte it stands for, and
/// every other byte, a `%` that starts no escape too, stands for itself.
pub open spec fn percent_decoded(bytes: Seq<u8>) -> Seq<u8>
    decreases bytes.len(),
{
    if bytes.len() == 0 {
        Seq::empty()
    } else if starts_with_escape(bytes) {
        seq![escape_value(bytes)] + percent_decoded(bytes.skip(3))
    } else {
        seq![bytes[0]] + percent_decoded(bytes.skip(1))
    }
}

/// Whether every `%` in `bytes` starts an escape.
pub open spec fn escapes_well_formed(bytes: Seq<u8>) -> bool
    decreases bytes.len(),
{
    if bytes.len() == 0 {
        true
    } else if bytes[0] == PERCENT {
        starts_with_escape(bytes) && escapes_well_formed(bytes.skip(3))
    } else {
        escapes_well_formed(bytes.skip(1))
    }
}

/// `percent_encoding::percent_decode_str`, its bytes collected: the bytes of
/// `text` percent-decoded.
#[verifier::external_body]
fn percent_decode(text: &str) -> (bytes: Vec<u8>)
    ensures
        bytes@ == percent_decoded(encode_utf8(text@)),
{
    percent_decode_str(text).collect()
}

/// Whether `b` is a hexadecimal digit.
fn is_hex_digit(b: u8) -> (hex: bool)
    ensures
        hex == is_hex(b),
{
    (0x30 <= b && b <= 0x39) || (0x41 <= b && b <= 0x46) || (0x61 <= b && b <= 0x66)
}

/// Whether every `%` in `text` starts an escape.
pub fn check_escapes(text: &str) -> (well_formed: bool)
    ensures
        well_formed == escapes_well_formed(encode_utf8(text@)),
{
    let bytes = text.as_bytes();
    let n = bytes.len();
    let mut i: usize = 0;
    assert(bytes@.skip(0) == bytes@);
    while i < n
        invariant
            n == bytes.len(),
            i <= n,
            bytes@ == encode_utf8(text@),
            escapes_well_formed(bytes@) == escapes_well_formed(bytes@.skip(i as int)),
        decreases n - i,
    {
        let ghost rest = bytes@.skip(i as int);
        assert(rest[0] == bytes@[i as int]);
        if bytes[i] == PERCENT {
            if n - i < 3 {
                return false;
            }
            assert(rest[1] == bytes@[i + 1] && rest[2] == bytes@[i + 2]);
            if !is_hex_digit(bytes[i + 1]) || !is_hex_digit(bytes[i + 2]) {
                return false;
            }
            assert(rest.skip(3) == bytes@.skip(i + 3));
            i += 3;
        } else {
            assert(rest.skip(1) == bytes@.skip(i + 1));
            i += 1;
        }
    }
    true
}

/// `text` percent-decoded once, as text: none where a `%` starts no escape.
pub open spec fn percent_decoded_text(text: Seq<char>) -> Option<Seq<char>> {
    if escapes_well_formed(encode_utf8(text)) {
        Some(lossy_text(percent_decoded(encode_utf8(text))))
    } else {
        None
    }
}

/// `text` percent-decoded once, where every `%` starts an escape and the
/// decoded bytes are well-formed UTF-8: the text that they encode.
pub open spec fn percent_decoded_utf8(text: Seq<char>) -> Option<Seq<char>> {
    if escapes_well_formed(encode_utf8(text)) && valid_utf8(
        percent_decoded(encode_utf8(text)),
    ) {
        Some(decode_utf8(percent_decoded(encode_utf8(text))))
    } else {
        None
    }
}

/// `raw` percent-decoded twice, as text: none where a `%` starts no escape,
/// in `raw` or in what it decodes to.
pub open spec fn payload_text(raw: Seq<char>) -> Option<Seq<char>> {
    match percent_decoded_text(raw) {
        Some(once) => percent_decoded_text(once),
        None => None,
    }
}

/// Whether `encoded` is a percent-encoding of `plain`: byte by byte, either
/// the escape of the byte or, unless it is `%`, the byte itself. An encoder
/// is free to choose which bytes it escapes, and the case of its digits.
pub open spec fn percent_encodes(encoded: Seq<u8>, plain: Seq<u8>) -> bool
    decreases plain.len(),
{
    if plain.len() == 0 {
        encoded.len() == 0
    } else {
        ||| {
            &&& encoded.len() >= 1
            &&& encoded[0] == plain[0]
            &&& plain[0] != PERCENT
            &&& percent_encodes(encoded.skip(1), plain.skip(1))
        }
        ||| {
            &&& starts_with_escape(encoded)
            &&& escape_value(encoded) == plain[0]
            &&& percent_encodes(encoded.skip(3), plain.skip(1))
        }
    }
}

/// Whether `raw` is `payload` percent-encoded twice, `once` being the text in
/// between.
pub open spec fn encodes_twice(raw: Seq<char>, once: Seq<char>, payload: Seq<char>) -> bool {
    &&& percent_encodes(encode_utf8(once), encode_utf8(payload))
    &&& percent_encodes(encode_utf8(raw), encode_utf8(once))
}

/// Percent-decoding undoes percent-encoding, and an encoding has no `%` but
/// in its escapes.
pub proof fn lemma_decode_inverts_encode(encoded: Seq<u8>, plain: Seq<u8>)
    requires
        percent_encodes(encoded, plain),
    ensures
        percent_decoded(encoded) == plain,
        escapes_well_formed(encoded),
    decreases plain.len(),
{
    if plain.len() > 0 {
        let rest = plain.skip(1);
        if starts_with_escape(encoded) && escape_value(encoded) == plain[0] && percent_encodes(
            encoded.skip(3),
            rest,
        ) {
            lemma_decode_inverts_encode(encoded.skip(3), rest);
        } else {
            lemma_decode_inverts_encode(encoded.skip(1), rest);
        }
        assert(plain == seq![plain[0]] + rest);
    }
}

/// Percent-decodes `text` once: an error where a `%` starts no escape, else
/// the decoded bytes read as UTF-8, what is ill-formed in them replaced.
/// Decoded bytes that are well-formed come back as the text they encode, and
/// so does every text from a percent-encoding of it.
pub fn percent_decode_text(text: &str) -> (decoded: Result<String, DecodeError>)
    ensures
        match decoded {
            Ok(plain) => percent_decoded_text(text@) == Some(plain@),
            Err(error) => percent_decoded_text(text@) is None && error@
                == DecodeErrorView::MalformedEscape,
        },
        percent_decoded_utf8(text@) matches Some(plain) ==> decoded is Ok && decoded->Ok_0@
            == plain,
        forall|plain: Seq<char>| #[trigger]
            percent_encodes(encode_utf8(text@), encode_utf8(plain)) ==> decoded is Ok
                && decoded->Ok_0@ == plain,
{
    if !check_escapes(text) {
        proof {
            assert forall|plain: Seq<char>| #[trigger]
                percent_encodes(encode_utf8(text@), encode_utf8(plain)) implies false by {
                lemma_decode_inverts_encode(encode_utf8(text@), encode_utf8(plain));
            }
        }
        return Err(DecodeError::MalformedEscape);
    }
    let bytes = percent_decode(text);
    let plain_text = from_utf8_lossy(bytes.as_slice());
    proof {
        assert forall|plain: Seq<char>| #[trigger]
            percent_encodes(encode_utf8(text@), encode_utf8(plain)) implies plain_text@
            == plain by {
            lemma_decode_inverts_encode(encode_utf8(text@), encode_utf8(plain));
            encode_utf8_valid_utf8(plain);
            encode_utf8_decode_utf8(plain);
        }
    }
    Ok(plain_text)
}

/// Decodes the payload of a trigger: `raw`, as it stands in the query,
/// percent-decoded twice. Where both decodings give well-formed UTF-8 the
/// result is the text they encode, and whatever was percent-encoded twice
/// comes back as it was.
pub fn decode_payload(raw: &str) -> (decoded: Result<String, DecodeError>)
    ensures
        match decoded {
            Ok(payload) => payload_text(raw@) == Some(payload@),
            Err(error) => payload_text(raw@) is None && error@ == DecodeErrorView::MalformedEscape,
        },
        percent_decoded_utf8(raw@) matches Some(once) ==> (percent_decoded_utf8(once) matches Some(
            payload,
        ) ==> decoded is Ok && decoded->Ok_0@ == payload),
        forall|once: Seq<char>, payload: Seq<char>| #[trigger]
            encodes_twice(raw@, once, payload) ==> decoded is Ok && decoded->Ok_0@ == payload,
{
    match percent_decode_text(raw) {
        Err(error) => Err(error),
        Ok(once) => percent_decode_text(once.as_str()),
    }
}

/// The value of the parameter `name` in a query of `&`-separated pairs: what
/// follows the first `=` of the first pair whose text before it is `name`;
/// empty where that pair has no `=`.
pub open spec fn query_value(query: Seq<char>, name: Seq<char>) -> Option<Seq<char>>
    decreases query.len(),
{
    let pair = before_first(query, '&');
    if before_first(pair, '=') == name {
        match after_first(pair, '=') {
            Some(value) => Some(value),
            None => Some(Seq::empty()),
        }
    } else {
        match after_first(query, '&') {
            Some(rest) => {
                proof {
                    lemma_first_index(query, '&');
                }
                query_value(rest, name)
            },
            None => None,
        }
    }
}

/// The value of the parameter `name` in `query`, as it stands there.
pub fn find_query_value(query: &str, name: &str) -> (found: Option<String>)
    ensures
        match found {
            Some(value) => query_value(query@, name@) == Some(value@),
            None => query_value(query@, name@) is None,
        },
{
    let q = chars_of(query);
    let wanted = chars_of(name);
    let mut start: usize = 0;
    assert(q@.skip(0) == q@);
    loop
        invariant
            start <= q.len(),
            q@ == query@,
            wanted@ == name@,
            query_value(q@, name@) == query_value(q@.skip(start as int), name@),
        decreases q.len() - start,
    {
        let ghost rest = q@.skip(start as int);
        let end = find_from(&q, start, '&');
        let pair = slice_of(&q, start, end);
        proof {
            lemma_first_index(rest, '&');
            assert(pair@ == before_first(rest, '&'));
        }
        let eq = find_first(&pair, '=');
        let key = slice_of(&pair, 0, eq);
        if chars_eq(&key, &wanted) {
            proof {
                lemma_first_index(pair@, '=');
            }
            if eq < pair.len() {
                return Some(text_of_range(&pair, eq + 1, pair.len()));
            } else {
                return Some(String::new());
            }
        }
        if end >= q.len() {
            return None;
        }
        assert(rest.skip(end - start + 1) == q@.skip(end + 1));
        start = end + 1;
    }
}

/// The parts of a trigger's URL that the dispatcher reads.
#[derive(Clone, Debug, PartialEq, Eq)]
pub struct TriggerUrl {
    /// The host, which names the command.
    pub host: Option<String>,
    /// The query, as it stands in the URL: nothing in it decoded.
    pub query: Option<String>,
}

/// A `TriggerUrl` as plain text.
pub struct TriggerUrlView {
    pub host: Option<Seq<char>>,
    pub query: Option<Seq<char>>,
}

impl View for TriggerUrl {
    type V = TriggerUrlView;

    open spec fn view(&self) -> TriggerUrlView {
        TriggerUrlView {
            host: match self.host {
                Some(host) => Some(host@),
                None => None,
            },
            query: match self.query {
                Some(query) => Some(query@),
                None => None,
            },
        }
    }
}

/// The command of a trigger: its host, and the empty text where it has none.
pub open spec fn trigger_command(url: TriggerUrlView) -> Seq<char> {
    match url.host {
        Some(host) => host,
        None => Seq::empty(),
    }
}

/// The payload of a trigger as it stands in its query: the value of the
/// parameter `payload`, and the empty text where there is none.
pub open spec fn raw_payload(url: TriggerUrlView) -> Seq<char> {
    match url.query {
        Some(query) => match query_value(query, "payload"@) {
            Some(value) => value,
            None => Seq::empty(),
        },
        None => Seq::empty(),
    }
}

impl TriggerUrl {
    /// The command of the trigger.
    pub fn command(&self) -> (command: String)
        ensures
            command@ == trigger_command(self@),
    {
        match &self.host {
            Some(host) => host.clone(),
            None => String::new(),
        }
    }

    /// The payload of the trigger as it stands in its query.
    pub fn raw_payload(&self) -> (raw: String)
        ensures
            raw@ == raw_payload(self@),
    {
        match &self.query {
            Some(query) => match find_query_value(query.as_str(), "payload") {
                Some(value) => value,
                None => String::new(),
            },
            None => String::new(),
        }
    }
}

} // verus!
