//! Parsing a request body as a JSON document and rendering the document in
//! its canonical, compact form.

use serde_json::Value;
use vstd::prelude::*;
use vstd::utf8::*;

verus! {

/// `serde_json::Value`, a JSON document as a tree. Nothing inside it is
/// visible here; it is only carried from the parser to the printer.
#[verifier::external_type_specification]
#[verifier::external_body]
pub struct ExJsonValue(serde_json::Value);

/// `serde_json::Error`, the reason the parser gives for refusing a text.
#[verifier::external_type_specification]
#[verifier::external_body]
pub struct ExJsonError(serde_json::Error);

/// `core::str::Utf8Error`, the reason `core::str::from_utf8` gives for
/// refusing bytes.
#[verifier::external_type_specification]
#[verifier::external_body]
pub struct ExUtf8Error(core::str::Utf8Error);

/// The document that `serde_json::from_str` reads from `text` as a
/// `serde_json::Value`, or `None` where it rejects the text.
pub uninterp spec fn json_tree(text: Seq<char>) -> Option<Value>;

/// The compact text that a `serde_json::Value` displays as.
pub uninterp spec fn json_text(tree: Value) -> Seq<char>;

/// `core::str::from_utf8`: it accepts exactly the well-formed UTF-8
/// encodings, and the text it hands back is encoded by the bytes it was given.
#[verifier::external_body]
fn utf8_text(bytes: &[u8]) -> (r: Result<&str, core::str::Utf8Error>)
    ensures
        r is Ok <==> valid_utf8(bytes@),
        r matches Ok(text) ==> encode_utf8(text@) == bytes@,
{
    core::str::from_utf8(bytes)
}

/// `serde_json::from_str` at the type `serde_json::Value`. Whether the text
/// is accepted, and the document read from it, depend on the text alone and
/// are given the name `json_tree`.
#[verifier::external_body]
fn read_tree(text: &str) -> (r: Result<Value, serde_json::Error>)
    ensures
        r matches Ok(tree) ==> json_tree(text@) == Some(tree),
        r is Err ==> json_tree(text@) is None,
{
    serde_json::from_str::<Value>(text)
}

/// `ToString::to_string` on a `serde_json::Value`, which goes through the
/// value's `Display`: the compact rendering, named `json_text`.
#[verifier::external_body]
fn write_tree(tree: &Value) -> (r: String)
    ensures
        r@ == json_text(*tree),
{
    tree.to_string()
}

/// Why a body could not be read as a JSON document.
#[derive(Clone, Copy, Debug, PartialEq, Eq, Structural)]
pub enum ParseError {
    /// The bytes are not well-formed UTF-8.
    NotUtf8,
    /// The bytes are text, but the text is not one JSON document.
    NotJson,
}

/// The document a body holds, where it holds one.
pub open spec fn body_tree(body: Seq<u8>) -> Option<Value> {
    if valid_utf8(body) {
        json_tree(decode_utf8(body))
    } else {
        None
    }
}

/// Why a body that holds no document was refused.
pub open spec fn body_fault(body: Seq<u8>) -> ParseError {
    if valid_utf8(body) {
        ParseError::NotJson
    } else {
        ParseError::NotUtf8
    }
}

/// The canonical text of a body: the compact rendering of the document it
/// holds. Two bodies that hold the same document have the same canonical
/// text, however they were laid out on the wire.
pub open spec fn canonical_text(body: Seq<u8>) -> Option<Seq<char>> {
    match body_tree(body) {
        Some(tree) => Some(json_text(tree)),
        None => None,
    }
}

/// Whether `tree` is what some JSON text reads as.
pub open spec fn is_document(tree: Value) -> bool {
    exists|text: Seq<char>| #[trigger] json_tree(text) == Some(tree)
}

/// A JSON document read from a request body. A value of this type exists
/// only for a body that is well-formed JSON.
pub struct ParsedBody {
    tree: Value,
}

impl ParsedBody {
    #[verifier::type_invariant]
    spec fn was_read(self) -> bool {
        is_document(self.tree)
    }

    /// The document itself.
    pub closed spec fn tree(&self) -> Value {
        self.tree
    }

    /// Reads `body` as one JSON document.
    pub fn parse(body: &[u8]) -> (r: Result<ParsedBody, ParseError>)
        ensures
            match r {
                Ok(parsed) => body_tree(body@) == Some(parsed.tree()) && is_document(parsed.tree()),
                Err(fault) => body_tree(body@) is None && fault == body_fault(body@),
            },
    {
        match utf8_text(body) {
            Err(_) => Err(ParseError::NotUtf8),
            Ok(text) => {
                proof {
                    encode_utf8_decode_utf8(text@);
                }
                match read_tree(text) {
                    Ok(tree) => Ok(ParsedBody { tree }),
                    Err(_) => Err(ParseError::NotJson),
                }
            },
        }
    }

    /// Renders the document in canonical form.
    pub fn canonical_text(&self) -> (r: String)
        ensures
            r@ == json_text(self.tree()),
            is_document(self.tree()),
    {
        proof {
            use_type_invariant(self);
        }
        write_tree(&self.tree)
    }
}

/// Reads `body` as JSON and renders it in canonical form.
pub fn canonicalize(body: &[u8]) -> (r: Result<String, ParseError>)
    ensures
        match r {
            Ok(text) => canonical_text(body@) == Some(text@),
            Err(fault) => canonical_text(body@) is None && fault == body_fault(body@),
        },
{
    match ParsedBody::parse(body) {
        Ok(parsed) => Ok(parsed.canonical_text()),
        Err(fault) => Err(fault),
    }
}

} // verus!
