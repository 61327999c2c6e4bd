//! The calls into serde_json, each with what it is trusted to do.
use vstd::prelude::*;

verus! {

/// `serde_json::Value`, carried from the parser to the serializer.
#[verifier::external_type_specification]
#[verifier::external_body]
pub struct ExJsonValue(serde_json::Value);

/// serde_json's verdict on `text` as one JSON value: `None` when
/// `serde_json::from_str::<serde_json::Value>` accepts it, otherwise the
/// display text of the error it reports (which says what was expected and
/// where). Both depend on the text alone.
pub uninterp spec fn json_parse_error(text: Seq<char>) -> Option<Seq<char>>;

/// The compact JSON text that `serde_json::to_string` writes for the value
/// that serde_json parses from `text` (meaningful when `text` is accepted).
/// Objects are `serde_json::Map`s ordered by key, so the text depends on
/// `text` alone.
pub uninterp spec fn json_compact(text: Seq<char>) -> Seq<char>;

/// A character that JSON text written by serde_json starts with: the first
/// character of `null`, `true`, `false`, a number, a string, an array or an
/// object.
pub open spec fn json_text_start(c: char) -> bool {
    ||| c == 'n'
    ||| c == 't'
    ||| c == 'f'
    ||| c == '-'
    ||| ('0' <= c && c <= '9')
    ||| c == '"'
    ||| c == '['
    ||| c == '{'
}

/// A parsed JSON document with the text it was parsed from. Only
/// `parse_json` makes one, so its view, the source text, is the text its
/// value was parsed from.
pub struct JsonDoc {
    value: serde_json::Value,
    source: String,
}

impl View for JsonDoc {
    type V = Seq<char>;

    closed spec fn view(&self) -> Seq<char> {
        self.source@
    }
}

/// `serde_json::from_str::<serde_json::Value>`: parses JSON text. Claimed:
/// it succeeds exactly when `json_parse_error` names no error, keeping the
/// text as the document's source; otherwise it fails with the error's
/// display text, the one that `json_parse_error` names.
#[verifier::external_body]
pub(crate) fn parse_json(text: &str) -> (res: Result<JsonDoc, String>)
    ensures
        match res {
            Ok(doc) => json_parse_error(text@) is None && doc@ == text@,
            Err(m) => json_parse_error(text@) == Some(m@),
        },
{
    match serde_json::from_str::<serde_json::Value>(text) {
        Ok(value) => Ok(JsonDoc { value, source: text.to_string() }),
        Err(e) => Err(e.to_string()),
    }
}

/// `serde_json::to_string` on the parsed value: its compact JSON text.
/// Claimed: it succeeds (a `Value` always serializes: its maps have string
/// keys, non-finite numbers are written as `null`, and the output goes to a
/// `Vec`), the text is the one `json_compact` names for the document's
/// source, and it starts as JSON written by serde_json's compact formatter
/// starts.
#[verifier::external_body]
pub(crate) fn compact_json(doc: &JsonDoc) -> (res: Result<String, String>)
    ensures
        res is Ok,
        res matches Ok(s) ==> s@ == json_compact(doc@) && s@.len() > 0 && json_text_start(s@[0]),
{
    serde_json::to_string(&doc.value).map_err(|e| e.to_string())
}

} // verus!
