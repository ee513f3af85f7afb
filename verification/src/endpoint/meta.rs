//! What the server tells of itself.
use vstd::prelude::*;
use vstd::string::*;

verus! {

/// The JSON text of a string: the string between quotes, with the characters escaped
/// that JSON does not take as they are.
pub uninterp spec fn json_quoted(text: Seq<char>) -> Seq<char>;

/// `Value::String` and the `Display` of `serde_json::Value`: the JSON text of a string.
#[verifier::external_body]
fn quote(text: &str) -> (quoted: String)
    ensures
        quoted@ == json_quoted(text@),
{
    serde_json::Value::String(text.to_owned()).to_string()
}

/// The JSON object with the three fields that the server tells of itself, each given
/// as JSON text.
pub open spec fn meta_object(version: Seq<char>, version_major: Seq<char>, repository: Seq<char>) -> Seq<
    char,
> {
    "{\"repository\":"@ + repository + ",\"version\":"@ + version + ",\"version_major\":"@
        + version_major + "}"@
}

/// The JSON object that tells the version of the server, its major version, and where
/// its code is kept.
pub open spec fn meta_json(version: Seq<char>, version_major: Seq<char>, repository: Seq<char>) -> Seq<
    char,
> {
    meta_object(json_quoted(version), json_quoted(version_major), json_quoted(repository))
}

/// The text of the JSON object with the three fields that the server tells of itself,
/// each given as JSON text already.
pub fn meta_body(version: &str, version_major: &str, repository: &str) -> (body: String)
    ensures
        body@ == meta_object(version@, version_major@, repository@),
{
    let mut body = "{\"repository\":".to_owned();
    body.append(repository);
    body.append(",\"version\":");
    body.append(version);
    body.append(",\"version_major\":");
    body.append(version_major);
    body.append("}");
    body
}

/// What the server tells of itself, as the text of a JSON object.
pub fn meta(version: &str, version_major: &str, repository: &str) -> (body: String)
    ensures
        body@ == meta_json(version@, version_major@, repository@),
{
    let version = quote(version);
    let version_major = quote(version_major);
    let repository = quote(repository);
    meta_body(version.as_str(), version_major.as_str(), repository.as_str())
}

} // verus!
