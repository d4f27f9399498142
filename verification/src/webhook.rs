//! Reading a Telegram update from the body of a webhook request.
use vstd::prelude::*;

use vstd::utf8::{decode_utf8, valid_utf8};

verus! {

#[verifier::external_type_specification]
#[verifier::external_body]
pub struct ExUpdate(teloxide::types::Update);

#[verifier::external_type_specification]
#[verifier::external_body]
pub struct ExJsonError(serde_json::Error);

/// The body of a webhook request.
pub enum WebhookBody {
    Empty,
    Text(String),
    Binary(Vec<u8>),
}

/// The text that `String::from_utf8_lossy` makes of `bytes`.
pub uninterp spec fn lossy_text(bytes: Seq<u8>) -> Seq<char>;

/// Whether serde_json reads `text` as a Telegram update.
pub uninterp spec fn update_parses(text: Seq<char>) -> bool;

/// The text of `bytes`.
///
/// Trusted: std's `String::from_utf8_lossy`, which decodes valid UTF-8 as it
/// is and writes U+FFFD for each invalid sequence; the contract states the
/// first part.
#[verifier::external_body]
fn utf8_lossy(bytes: &Vec<u8>) -> (s: String)
    ensures
        s@ == lossy_text(bytes@),
        valid_utf8(bytes@) ==> s@ == decode_utf8(bytes@),
{
    String::from_utf8_lossy(bytes).to_string()
}

/// Reads a Telegram update from JSON.
///
/// Trusted: `serde_json::from_str::<teloxide::types::Update>`, which depends on
/// the text alone. Whether it succeeds is named; the update that it gives is
/// opaque here and nothing more is stated of it.
#[verifier::external_body]
fn parse_update(body: &str) -> (r: Result<teloxide::types::Update, serde_json::Error>)
    ensures
        r is Ok <==> update_parses(body@),
{
    serde_json::from_str(body)
}

/// The update that a webhook body holds: none for an empty body, otherwise
/// the body's text (binary bodies read as UTF-8, invalid sequences replaced)
/// parsed as JSON.
pub fn webhook_update(body: &WebhookBody) -> (r: Option<Result<teloxide::types::Update, serde_json::Error>>)
    ensures
        r is None <==> body is Empty,
        body matches WebhookBody::Text(t) ==> (r matches Some(p) && (p is Ok <==> update_parses(
            t@,
        ))),
        body matches WebhookBody::Binary(b) ==> (r matches Some(p) && (p is Ok <==> update_parses(
            lossy_text(b@),
        ))),
{
    match body {
        WebhookBody::Empty => None,
        WebhookBody::Text(t) => Some(parse_update(t.as_str())),
        WebhookBody::Binary(b) => {
            let t = utf8_lossy(b);
            Some(parse_update(t.as_str()))
        },
    }
}

} // verus!
