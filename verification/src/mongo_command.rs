//! Reading a MongoDB command text: JSON read by `serde_json`, turned into
//! BSON by the `bson` crate of the MongoDB driver, and then the commands the
//! library runs.
use vstd::prelude::*;
use mongodb::bson::{Bson, Document};
use crate::results::{mongodb_commands, MongoCommandShape};
use crate::text::owned;

verus! {

#[verifier::external_type_specification]
#[verifier::external_body]
pub struct ExDocument(mongodb::bson::Document);

/// Why `serde_json` refuses a text as JSON (its error as its `Display`
/// writes it), or `None` when it reads the text.
pub uninterp spec fn json_syntax_error(text: Seq<char>) -> Option<Seq<char>>;

/// Why `bson::to_bson` refuses the JSON value read from a text (its error as
/// its `Display` writes it), or `None` when it converts it.
pub uninterp spec fn bson_conversion_error(text: Seq<char>) -> Option<Seq<char>>;

/// The shape of the BSON value a text becomes: `0` for a document, `1` for
/// an array (with, for each entry, whether it is a document), `2` for any
/// other value.
pub uninterp spec fn mongo_command_shape(text: Seq<char>) -> (u8, Seq<bool>);

/// Why a command text could not be read as BSON.
pub enum CommandReadError {
    /// The text is no JSON, for this reason.
    NotJson(String),
    /// The JSON value does not become BSON, for this reason.
    NotBson(String),
}

/// The shape of a read command, as `mongo_command_shape` states it.
pub open spec fn shape_code<D>(shape: MongoCommandShape<D>) -> (u8, Seq<bool>) {
    match shape {
        MongoCommandShape::Object(_) => (0, Seq::empty()),
        MongoCommandShape::Array(items) => (1, items@.map_values(|o: Option<D>| o is Some)),
        MongoCommandShape::Other => (2, Seq::empty()),
    }
}

/// `serde_json::from_str::<serde_json::Value>`, then `bson::to_bson` on the
/// value read, then the variants of the BSON value told apart (one arm
/// each). Each step depends on the text alone: its refusals are named
/// `json_syntax_error` and `bson_conversion_error` and the shape of what it
/// reads `mongo_command_shape`; nothing is stated of the documents.
#[verifier::external_body]
fn read_command(text: &str) -> (r: Result<MongoCommandShape<Document>, CommandReadError>)
    ensures
        match r {
            Err(CommandReadError::NotJson(e)) => json_syntax_error(text@) == Some(e@),
            Err(CommandReadError::NotBson(e)) => json_syntax_error(text@) is None
                && bson_conversion_error(text@) == Some(e@),
            Ok(shape) => json_syntax_error(text@) is None && bson_conversion_error(text@) is None
                && shape_code(shape) == mongo_command_shape(text@),
        },
{
    let value = serde_json::from_str::<serde_json::Value>(text)
        .map_err(|e| CommandReadError::NotJson(e.to_string()))?;
    let bson = mongodb::bson::to_bson(&value).map_err(|e| CommandReadError::NotBson(e.to_string()))?;
    Ok(match bson {
        Bson::Document(document) => MongoCommandShape::Object(document),
        Bson::Array(items) => MongoCommandShape::Array(items.into_iter().map(|item| match item {
            Bson::Document(document) => Some(document),
            _ => None,
        }).collect()),
        _ => MongoCommandShape::Other,
    })
}

/// The refusal of a text that is no JSON.
pub open spec fn not_json_text(reason: Seq<char>) -> Seq<char> {
    "MongoDB query must be a JSON command document or array: "@ + reason
}

/// What a MongoDB command text gives: refused when it is no JSON or does
/// not become BSON; one command for a document; one per entry for an array
/// of documents; refused for an array with another entry or any other
/// value.
pub open spec fn command_outcome(text: Seq<char>, r: Result<Vec<Document>, String>) -> bool {
    match json_syntax_error(text) {
        Some(e) => r matches Err(m) && m@ == not_json_text(e),
        None => match bson_conversion_error(text) {
            Some(e) => r matches Err(m) && m@ == "MongoDB JSON conversion failed: "@ + e,
            None => {
                let (kind, entries) = mongo_command_shape(text);
                if kind == 0 {
                    r matches Ok(v) && v@.len() == 1
                } else if kind == 1 {
                    if forall|i: int| 0 <= i < entries.len() ==> #[trigger] entries[i] {
                        r matches Ok(v) && v@.len() == entries.len()
                    } else {
                        r matches Err(m) && m@ == "MongoDB command arrays must contain JSON objects only."@
                    }
                } else {
                    r matches Err(m) && m@ == "MongoDB query must be a JSON object or object array."@
                }
            },
        },
    }
}

/// The commands of a MongoDB command text, as BSON documents: the JSON
/// object, or every object of a JSON array of objects. A text that is no
/// JSON, or does not become BSON, is refused with the reader's words; one of
/// another shape is refused too.
pub fn parse_mongodb_commands(command: &str) -> (r: Result<Vec<Document>, String>)
    ensures
        command_outcome(command@, r),
{
    let shape = match read_command(command) {
        Ok(shape) => shape,
        Err(CommandReadError::NotJson(e)) => {
            let mut m = owned("MongoDB query must be a JSON command document or array: ");
            m.append(e.as_str());
            return Err(m);
        },
        Err(CommandReadError::NotBson(e)) => {
            let mut m = owned("MongoDB JSON conversion failed: ");
            m.append(e.as_str());
            return Err(m);
        },
    };
    let ghost read = shape;
    let r = mongodb_commands(shape);
    proof {
        if let MongoCommandShape::Array(items) = read {
            let entries = items@.map_values(|o: Option<Document>| o is Some);
            assert(shape_code(read).1 == entries);
            if (forall|i: int| 0 <= i < entries.len() ==> #[trigger] entries[i]) {
                assert forall|i: int| 0 <= i < items@.len() implies items@[i] is Some by {
                    assert(entries[i]);
                }
            }
            if crate::results::all_objects(items@) {
                assert forall|i: int| 0 <= i < entries.len() implies #[trigger] entries[i] by {
                    assert(items@[i] is Some);
                }
            }
        }
    }
    r
}

} // verus!
