//! A JSON document as a module: the code that exports the document's value.

use vstd::prelude::*;

verus! {

/// The error of `serde_json::to_string`.
#[verifier::external_type_specification]
#[verifier::external_body]
pub struct ExJsonError(serde_json::Error);

/// The JSON string that holds `text`: the text between double quotes, with
/// the escapes that `serde_json` writes.
pub uninterp spec fn json_string(text: Seq<char>) -> Seq<char>;

/// `serde_json::to_string` on a string slice: the JSON string that holds
/// the text. The call does not fail: writing a string into memory has no
/// error, and a string holds no map whose keys could be refused.
#[verifier::external_body]
fn write_json_string(text: &str) -> (written: Result<String, serde_json::Error>)
    ensures
        written is Ok,
        written matches Ok(w) ==> w@ == json_string(text@),
{
    serde_json::to_string(text)
}

/// The code of a module that exports the value of the JSON document that
/// the JSON string `literal` holds.
pub open spec fn export_of(literal: Seq<char>) -> Seq<char> {
    "__turbopack_export_value__(JSON.parse("@ + literal + "));"@
}

/// The code of a module that exports the value of a JSON document, given
/// the document as a JSON string.
pub fn export_code(literal: &str) -> (code: String)
    ensures
        code@ == export_of(literal@),
{
    String::from_str("__turbopack_export_value__(JSON.parse(").concat(literal).concat("));")
}

/// The code of the module that a JSON document becomes: when the module is
/// run, it parses the document and exports its value.
pub fn json_module_code(content: &str) -> (code: String)
    ensures
        code@ == export_of(json_string(content@)),
{
    match write_json_string(content) {
        Ok(literal) => export_code(literal.as_str()),
        Err(_) => String::new(),
    }
}

/// The name under which the module of the JSON document at `path` is shown.
pub fn json_module_title(path: &str) -> (title: String)
    ensures
        title@ == path@ + " (json)"@,
{
    String::from_str(path).concat(" (json)")
}

} // verus!
