//! Parsing the request envelope out of the `entries` form field. The JSON
//! reading itself is done by serde_json behind trusted declarations whose
//! contracts speak of an abstract document view; the shape of the envelope —
//! which fields are required, what stands in for an absent branch — is
//! decided and proved here.

use vstd::prelude::*;
use crate::dispatch::{ClipContent, ClipRequest, ClipRequestView, ModelRef};

verus! {

#[verifier::external_type_specification]
#[verifier::external_body]
pub struct ExJsonValue(serde_json::Value);

#[verifier::external_type_specification]
#[verifier::external_body]
pub struct ExJsonError(serde_json::Error);

/// What a JSON document holds, as far as this library reads one: nulls,
/// booleans, strings, and objects as maps from field name to value. Numbers
/// and arrays are carried but never read, so they are opaque here.
pub enum JsonView {
    Null,
    Bool(bool),
    Num,
    Str(Seq<char>),
    Arr,
    Obj(Map<Seq<char>, JsonView>),
}

/// The document a serde_json value denotes.
pub uninterp spec fn json_view(v: serde_json::Value) -> JsonView;

/// Whether serde_json accepts the text as one JSON document.
pub uninterp spec fn json_parses(s: Seq<char>) -> bool;

/// The document the text parses to, a function of the text alone.
pub uninterp spec fn json_doc_of(s: Seq<char>) -> JsonView;

/// Relies on serde_json::from_str: the text parses to exactly one document,
/// determined by the text, and malformed text is rejected.
#[verifier::external_body]
fn parse_json(s: &str) -> (r: Result<serde_json::Value, serde_json::Error>)
    ensures
        r is Ok <==> json_parses(s@),
        r matches Ok(v) ==> json_view(v) == json_doc_of(s@),
{
    serde_json::from_str(s)
}

/// Relies on serde_json::Error's Display implementation: renders the
/// parser's failure message.
#[verifier::external_body]
fn json_error_details(e: &serde_json::Error) -> String {
    e.to_string()
}

/// Relies on serde_json::Value::get with a string index: on an object it
/// returns the value under the key, if any; on anything else it returns
/// None. Object keys are unique, so the map view pins the result.
#[verifier::external_body]
fn json_get<'a>(v: &'a serde_json::Value, key: &str) -> (r: Option<&'a serde_json::Value>)
    ensures
        match r {
            Some(u) => json_view(*v) matches JsonView::Obj(m) && m.contains_key(key@)
                && json_view(*u) == m[key@],
            None => !(json_view(*v) matches JsonView::Obj(m) && m.contains_key(key@)),
        },
{
    v.get(key)
}

/// Relies on serde_json::Value::is_object.
#[verifier::external_body]
fn json_is_object(v: &serde_json::Value) -> (r: bool)
    ensures
        r == (json_view(*v) is Obj),
{
    v.is_object()
}

/// Relies on serde_json::Value::is_null.
#[verifier::external_body]
fn json_is_null(v: &serde_json::Value) -> (r: bool)
    ensures
        r == (json_view(*v) is Null),
{
    v.is_null()
}

/// Relies on serde_json::Value::as_str: Some, with the characters, exactly
/// when the value is a JSON string.
#[verifier::external_body]
fn json_as_str<'a>(v: &'a serde_json::Value) -> (r: Option<&'a str>)
    ensures
        match r {
            Some(s) => json_view(*v) matches JsonView::Str(t) && s@ == t,
            None => !(json_view(*v) is Str),
        },
{
    v.as_str()
}

/// The model name one branch value denotes: its `modelName` field, which
/// must be a string of an object; anything else is malformed.
pub open spec fn spec_model_ref(b: JsonView) -> Option<Seq<char>> {
    match b {
        JsonView::Obj(o) => {
            if o.contains_key("modelName"@) {
                match o["modelName"@] {
                    JsonView::Str(n) => Some(n),
                    _ => None,
                }
            } else {
                None
            }
        },
        _ => None,
    }
}

/// What one optional branch of the `clip` object denotes: absent or null is
/// no request of that kind, a well-formed branch names its model, and
/// anything else is malformed.
pub open spec fn spec_branch(clip: Map<Seq<char>, JsonView>, field: Seq<char>) -> Option<
    Option<Seq<char>>,
> {
    if !clip.contains_key(field) {
        Some(None)
    } else if clip[field] is Null {
        Some(None)
    } else {
        match spec_model_ref(clip[field]) {
            Some(n) => Some(Some(n)),
            None => None,
        }
    }
}

/// The envelope a document denotes: an object whose required `clip` field
/// is an object carrying the two optional branches; None where the document
/// is malformed.
pub open spec fn spec_envelope(d: JsonView) -> Option<ClipRequestView> {
    match d {
        JsonView::Obj(top) => {
            if top.contains_key("clip"@) {
                match top["clip"@] {
                    JsonView::Obj(clip) => match (
                        spec_branch(clip, "visual"@),
                        spec_branch(clip, "textual"@),
                    ) {
                        (Some(v), Some(t)) => Some(ClipRequestView { visual: v, textual: t }),
                        _ => None,
                    },
                    _ => None,
                }
            } else {
                None
            }
        },
        _ => None,
    }
}

/// The envelope the entries text denotes, if it parses and has the right
/// shape.
pub open spec fn spec_parsed_envelope(s: Seq<char>) -> Option<ClipRequestView> {
    if json_parses(s) {
        spec_envelope(json_doc_of(s))
    } else {
        None
    }
}

/// One branch of the envelope: an object whose `modelName` field is a
/// string. Other fields, such as the free-form `options`, are ignored.
fn model_ref_of(v: &serde_json::Value) -> (r: Result<ModelRef, String>)
    ensures
        match spec_model_ref(json_view(*v)) {
            Some(n) => r matches Ok(m) && m.model_name@ == n,
            None => r is Err,
        },
{
    match json_get(v, "modelName") {
        Some(n) => match json_as_str(n) {
            Some(s) => Ok(ModelRef { model_name: s.to_owned() }),
            None => Err("invalid type for field `modelName`: expected a string".to_owned()),
        },
        None => Err("missing field `modelName`".to_owned()),
    }
}

/// Parses the envelope `{ "clip": { "visual"?: { "modelName": ... },
/// "textual"?: { "modelName": ... } } }`. A branch that is absent or null
/// stands for no request of that kind; a branch that is present must name
/// its model. Exactly the malformed inputs are rejected, with the detail
/// the caller surfaces as a client error.
pub fn parse_clip_request(entries: &str) -> (r: Result<ClipRequest, String>)
    ensures
        match spec_parsed_envelope(entries@) {
            Some(env) => r matches Ok(req) && req@ == env,
            None => r is Err,
        },
{
    let doc = match parse_json(entries) {
        Ok(v) => v,
        Err(e) => {
            return Err(json_error_details(&e));
        },
    };
    let clip = match json_get(&doc, "clip") {
        Some(c) => c,
        None => {
            return Err("missing field `clip`".to_owned());
        },
    };
    if !json_is_object(clip) {
        return Err("invalid type for field `clip`: expected an object".to_owned());
    }
    let visual = match json_get(clip, "visual") {
        Some(v) => {
            if json_is_null(v) {
                None
            } else {
                match model_ref_of(v) {
                    Ok(m) => Some(m),
                    Err(e) => {
                        return Err(e);
                    },
                }
            }
        },
        None => None,
    };
    let textual = match json_get(clip, "textual") {
        Some(v) => {
            if json_is_null(v) {
                None
            } else {
                match model_ref_of(v) {
                    Ok(m) => Some(m),
                    Err(e) => {
                        return Err(e);
                    },
                }
            }
        },
        None => None,
    };
    Ok(ClipRequest { clip: ClipContent { visual, textual } })
}

} // verus!
