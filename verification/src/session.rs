//! The parameters of a session: where to connect and how to authorize.
//!
//! Everything that the service needs to know about the audio travels in the
//! address of the connection; no control message follows the handshake.

use vstd::prelude::*;
use vstd::string::StringExecFns;
use vstd::utf8::{encode_scalar, encode_utf8};
use crate::capture::DeviceConfig;
use crate::error::SessionError;

verus! {

/// The character of a decimal digit.
pub open spec fn digit_char(digit: nat) -> char
    recommends
        digit < 10,
{
    if digit == 0 {
        '0'
    } else if digit == 1 {
        '1'
    } else if digit == 2 {
        '2'
    } else if digit == 3 {
        '3'
    } else if digit == 4 {
        '4'
    } else if digit == 5 {
        '5'
    } else if digit == 6 {
        '6'
    } else if digit == 7 {
        '7'
    } else if digit == 8 {
        '8'
    } else {
        '9'
    }
}

/// A number in decimal, without sign or leading zeros.
pub open spec fn decimal(n: nat) -> Seq<char>
    decreases n,
{
    if n < 10 {
        seq![digit_char(n)]
    } else {
        decimal(n / 10).push(digit_char(n % 10))
    }
}

/// The address of the service with every parameter but the sample rate:
/// the model, the language, punctuation and interim results switched on, and
/// linear 16-bit PCM as the encoding.
pub open spec fn url_prefix() -> Seq<char> {
    "wss://api.deepgram.com/v1/listen?model=nova-2&language=en-US&punctuate=true&interim_results=true&encoding=linear16&sample_rate="@
}

/// The address of a session that streams at the given sample rate.
pub open spec fn session_url_of(sample_rate: u32) -> Seq<char> {
    url_prefix() + decimal(sample_rate as nat)
}

/// The value of the authorization header for a credential.
pub open spec fn authorization_of(api_key: Seq<char>) -> Seq<char> {
    "Token "@ + api_key
}

/// Whether a byte may stand in the value of a header: a tab, or anything
/// from the space on but the delete character.
pub open spec fn header_byte_ok(byte: u8) -> bool {
    (byte >= 32 && byte != 127) || byte == 9
}

/// Whether every byte of a text may stand in the value of a header.
pub open spec fn header_bytes_ok(bytes: Seq<u8>) -> bool {
    forall|i: int| 0 <= i < bytes.len() ==> header_byte_ok(#[trigger] bytes[i])
}

/// Whether a character may stand in the value of a header: no control
/// character but the tab.
pub open spec fn header_char_ok(c: char) -> bool {
    (c as u32 >= 32 && c as u32 != 127) || c as u32 == 9
}

/// Whether a text may be the value of a header: each of its characters may
/// stand in one.
pub open spec fn header_text_ok(text: Seq<char>) -> bool {
    forall|i: int| 0 <= i < text.len() ==> header_char_ok(#[trigger] text[i])
}

/// What is needed to open a session.
#[derive(Clone, Debug, PartialEq, Eq)]
pub struct ConnectionPlan {
    /// The address to connect to.
    pub url: String,
    /// The value of the `Authorization` header of the handshake.
    pub authorization: String,
}

/// `ConnectionPlan` as plain values.
pub struct ConnectionPlanModel {
    pub url: Seq<char>,
    pub authorization: Seq<char>,
}

impl View for ConnectionPlan {
    type V = ConnectionPlanModel;

    open spec fn view(&self) -> ConnectionPlanModel {
        ConnectionPlanModel { url: self.url@, authorization: self.authorization@ }
    }
}

/// The view of what planning returns.
pub open spec fn plan_view(plan: Result<ConnectionPlan, SessionError>) -> Result<
    ConnectionPlanModel,
    SessionError,
> {
    match plan {
        Ok(p) => Ok(p@),
        Err(e) => Err(e),
    }
}

/// The outcome of planning a session for a device and a credential, where
/// `None` stands for a device that is missing or gave no configuration.
pub open spec fn plan_outcome(device: Option<DeviceConfig>, api_key: Seq<char>) -> Result<
    ConnectionPlanModel,
    SessionError,
> {
    match device {
        None => Err(SessionError::DeviceUnavailable),
        Some(config) => if header_text_ok(api_key) {
            Ok(
                ConnectionPlanModel {
                    url: session_url_of(config.sample_rate),
                    authorization: authorization_of(api_key),
                },
            )
        } else {
            Err(SessionError::ConnectionFailed)
        },
    }
}

/// `http::HeaderValue`, opaque here: the value of a header, once accepted.
#[verifier::external_type_specification]
#[verifier::external_body]
pub struct ExHeaderValue(http::HeaderValue);

/// `http::header::InvalidHeaderValue`, opaque here: the refusal of a text.
#[verifier::external_type_specification]
#[verifier::external_body]
pub struct ExInvalidHeaderValue(http::header::InvalidHeaderValue);

/// Builds a header value with `http::HeaderValue::from_str`.
///
/// Nothing of this is proved.  The contract claims what the source of `http`
/// shows: the text is accepted exactly where each byte of its UTF-8 form is
/// a tab, or at least 32 and not 127.
#[verifier::external_body]
fn header_value(text: &str) -> (value: Result<http::HeaderValue, http::header::InvalidHeaderValue>)
    ensures
        value is Ok <==> header_bytes_ok(encode_utf8(text@)),
{
    http::HeaderValue::from_str(text)
}

/// The UTF-8 bytes of one character may stand in a header value exactly where
/// the character may.
proof fn lemma_scalar_bytes_ok(c: char)
    ensures
        header_bytes_ok(encode_scalar(c as u32)) <==> header_char_ok(c),
        encode_scalar(c as u32).len() > 0,
{
    let s = c as u32;
    let bytes = encode_scalar(s);
    if s <= 0x7F {
        assert((s & 0x7F) as u8 == s) by (bit_vector)
            requires
                s <= 0x7F,
        ;
        assert(bytes[0] == s);
    } else {
        assert(forall|x: u8| #![auto] (0xC0u8 | x) >= 0x80) by (bit_vector);
        assert(forall|x: u8| #![auto] (0xE0u8 | x) >= 0x80) by (bit_vector);
        assert(forall|x: u8| #![auto] (0xF0u8 | x) >= 0x80) by (bit_vector);
        assert(forall|x: u8| #![auto] (0x80u8 | x) >= 0x80) by (bit_vector);
        assert forall|i: int| 0 <= i < bytes.len() implies header_byte_ok(
            #[trigger] bytes[i],
        ) by {
            assert(bytes[i] >= 0x80);
        }
    }
}

/// The bytes of a text in UTF-8 may all stand in a header value exactly where
/// the characters of the text may.
pub proof fn lemma_header_bytes_ok(text: Seq<char>)
    ensures
        header_bytes_ok(encode_utf8(text)) <==> header_text_ok(text),
    decreases text.len(),
{
    if text.len() > 0 {
        let head = encode_scalar(text[0] as u32);
        let rest = text.drop_first();
        let tail = encode_utf8(rest);
        lemma_scalar_bytes_ok(text[0]);
        lemma_header_bytes_ok(rest);
        assert(encode_utf8(text) == head + tail);
        if header_bytes_ok(head + tail) {
            assert forall|i: int| 0 <= i < head.len() implies header_byte_ok(
                #[trigger] head[i],
            ) by {
                assert((head + tail)[i] == head[i]);
            }
            assert forall|i: int| 0 <= i < tail.len() implies header_byte_ok(
                #[trigger] tail[i],
            ) by {
                assert((head + tail)[head.len() + i] == tail[i]);
            }
            assert forall|i: int| 0 <= i < text.len() implies header_char_ok(
                #[trigger] text[i],
            ) by {
                if i > 0 {
                    assert(rest[i - 1] == text[i]);
                }
            }
        }
        if header_text_ok(text) {
            assert(header_char_ok(text[0]));
            assert forall|i: int| 0 <= i < rest.len() implies header_char_ok(
                #[trigger] rest[i],
            ) by {
                assert(rest[i] == text[i + 1]);
            }
            assert forall|i: int| 0 <= i < (head + tail).len() implies header_byte_ok(
                #[trigger] (head + tail)[i],
            ) by {
                if i < head.len() {
                    assert((head + tail)[i] == head[i]);
                } else {
                    assert((head + tail)[i] == tail[i - head.len()]);
                }
            }
        }
    }
}

/// The authorization of a credential may be the value of a header exactly
/// where the credential itself may.
pub proof fn lemma_authorization_ok(api_key: Seq<char>)
    ensures
        header_text_ok(authorization_of(api_key)) <==> header_text_ok(api_key),
{
    reveal_strlit("Token ");
    let prefix = "Token "@;
    let whole = authorization_of(api_key);
    if header_text_ok(whole) {
        assert forall|i: int| 0 <= i < api_key.len() implies header_char_ok(
            #[trigger] api_key[i],
        ) by {
            assert(whole[prefix.len() + i] == api_key[i]);
        }
    }
    if header_text_ok(api_key) {
        assert forall|i: int| 0 <= i < whole.len() implies header_char_ok(#[trigger] whole[i]) by {
            if i >= prefix.len() {
                assert(whole[i] == api_key[i - prefix.len()]);
            }
        }
    }
}

/// The text of one decimal digit.
fn digit_text(digit: u32) -> (text: &'static str)
    requires
        digit < 10,
    ensures
        text@ == seq![digit_char(digit as nat)],
{
    proof {
        reveal_strlit("0");
        reveal_strlit("1");
        reveal_strlit("2");
        reveal_strlit("3");
        reveal_strlit("4");
        reveal_strlit("5");
        reveal_strlit("6");
        reveal_strlit("7");
        reveal_strlit("8");
        reveal_strlit("9");
    }
    let text = if digit == 0 {
        "0"
    } else if digit == 1 {
        "1"
    } else if digit == 2 {
        "2"
    } else if digit == 3 {
        "3"
    } else if digit == 4 {
        "4"
    } else if digit == 5 {
        "5"
    } else if digit == 6 {
        "6"
    } else if digit == 7 {
        "7"
    } else if digit == 8 {
        "8"
    } else {
        "9"
    };
    assert(text@ =~= seq![digit_char(digit as nat)]);
    text
}

/// Appends a number in decimal to a text.
pub fn push_decimal(out: &mut String, n: u32)
    ensures
        final(out)@ == old(out)@ + decimal(n as nat),
    decreases n,
{
    if n >= 10 {
        push_decimal(out, n / 10);
    }
    out.append(digit_text(n % 10));
    assert(final(out)@ =~= old(out)@ + decimal(n as nat));
}

/// The address of a session that streams at the given sample rate.
pub fn session_url(sample_rate: u32) -> (url: String)
    ensures
        url@ == session_url_of(sample_rate),
{
    let mut url = String::from_str(
        "wss://api.deepgram.com/v1/listen?model=nova-2&language=en-US&punctuate=true&interim_results=true&encoding=linear16&sample_rate=",
    );
    push_decimal(&mut url, sample_rate);
    url
}

/// The value of the authorization header for a credential.
pub fn authorization(api_key: &str) -> (value: String)
    ensures
        value@ == authorization_of(api_key@),
{
    String::from_str("Token ").concat(api_key)
}

/// Plans a session.
///
/// `device` is the configuration that the default input device reported, or
/// `None` where there is no device or it gave none: that is
/// `DeviceUnavailable`.  A credential with a character that no header value
/// can hold is `ConnectionFailed`.  Otherwise the plan holds the address,
/// with the sample rate of the device in it, and the authorization.
pub fn plan_connection(device: Option<DeviceConfig>, api_key: &str) -> (plan: Result<
    ConnectionPlan,
    SessionError,
>)
    ensures
        plan_view(plan) == plan_outcome(device, api_key@),
{
    let config = match device {
        Some(config) => config,
        None => {
            return Err(SessionError::DeviceUnavailable);
        },
    };
    let url = session_url(config.sample_rate);
    let authorization = authorization(api_key);
    proof {
        lemma_header_bytes_ok(authorization@);
        lemma_authorization_ok(api_key@);
    }
    match header_value(authorization.as_str()) {
        Ok(_) => Ok(ConnectionPlan { url, authorization }),
        Err(_) => Err(SessionError::ConnectionFailed),
    }
}

} // verus!
