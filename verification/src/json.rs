//! Decoding of record payloads.
//!
//! Payloads are JSON text.  The parsed tree lives in an outside value,
//! whose contents are named by `value_model`; the trusted parse fixes
//! that model as a function of the text alone, and every accessor's
//! contract speaks of it.  The decode logic on top of the accessors is
//! verified: what each payload decodes to is stated exactly, down to
//! the shape failures.

use vstd::prelude::*;

use serde_json::Value;

use crate::types::VllmCompilationConfig;
use crate::types::VllmSubgraphInfo;

verus! {

#[verifier::external_type_specification]
#[verifier::external_body]
pub struct ExValue(Value);

/// The JSON tree as the contracts see it.  A number is kept only when it
/// is an integer representable as `i64` — the one way the logic reads
/// numbers — and any other number is opaque.  An object is its members
/// by key; parsing keeps one member per key.
pub ghost enum JsonNode {
    Null,
    Bool(bool),
    IntNum(i64),
    OtherNum,
    Text(Seq<char>),
    Array(Seq<JsonNode>),
    Object(Map<Seq<char>, JsonNode>),
}

/// What parsing a text as JSON yields: the tree, or nothing when the
/// text is not JSON.  A function of the text alone.
pub uninterp spec fn json_model_of(s: Seq<char>) -> Option<JsonNode>;

/// The indented rendering of the tree parsed from a text.  A function of
/// the text alone.
pub uninterp spec fn pretty_json_of(s: Seq<char>) -> Seq<char>;

/// What a parsed value holds: the tree it carries.
pub uninterp spec fn value_model(v: Value) -> JsonNode;

/// Relies on serde_json::from_str::<Value>: parses a JSON document from
/// text, or fails exactly when the text is not JSON.  The parsed value
/// holds the named model of the text.
#[verifier::external_body]
fn json_parse(s: &str) -> (r: Option<Value>)
    ensures
        r is Some <==> json_model_of(s@) is Some,
        r matches Some(v) ==> json_model_of(s@) == Some(value_model(v)),
{
    serde_json::from_str::<Value>(s).ok()
}

/// Relies on serde_json::Value::is_object: whether the value is a JSON
/// object.
#[verifier::external_body]
fn doc_is_object(v: &Value) -> (r: bool)
    ensures
        r == (value_model(*v) is Object),
{
    v.is_object()
}

/// Relies on serde_json::Value::is_null: whether the value is JSON null.
#[verifier::external_body]
fn doc_is_null(v: &Value) -> (r: bool)
    ensures
        r == (value_model(*v) is Null),
{
    v.is_null()
}

/// Relies on serde_json::Value::get with a string key: the member of an
/// object under that key, and nothing on any other kind of value or an
/// absent key.
#[verifier::external_body]
fn doc_get<'a>(v: &'a Value, key: &str) -> (r: Option<&'a Value>)
    ensures
        (match value_model(*v) {
            JsonNode::Object(m) => {
                &&& (r is Some <==> m.contains_key(key@))
                &&& (r matches Some(f) ==> m.contains_key(key@) && value_model(*f) == m[key@])
            },
            _ => r is None,
        }),
{
    v.get(key)
}

/// Relies on serde_json::Value::as_str: the text of a JSON string, and
/// nothing for any other kind of value.
#[verifier::external_body]
fn doc_as_string(v: &Value) -> (r: Option<String>)
    ensures
        (match value_model(*v) {
            JsonNode::Text(t) => r matches Some(s) && s@ == t,
            _ => r is None,
        }),
{
    v.as_str().map(|s| s.to_owned())
}

/// Relies on serde_json::Value::as_bool: the value of a JSON boolean,
/// and nothing for any other kind of value.
#[verifier::external_body]
fn doc_as_bool(v: &Value) -> (r: Option<bool>)
    ensures
        (match value_model(*v) {
            JsonNode::Bool(b) => r == Some(b),
            _ => r is None,
        }),
{
    v.as_bool()
}

/// Relies on serde_json::Value::as_i64: the value of a JSON number that
/// is an integer representable as i64, and nothing otherwise.
#[verifier::external_body]
fn doc_as_i64(v: &Value) -> (r: Option<i64>)
    ensures
        (match value_model(*v) {
            JsonNode::IntNum(n) => r == Some(n),
            _ => r is None,
        }),
{
    v.as_i64()
}

/// Relies on serde_json::from_str::<Value> followed by
/// serde_json::to_string_pretty, composed exactly as the emitted
/// transform applies them: rendering a parsed `Value` cannot fail, so
/// the result is the named pretty rendering exactly when the text is
/// JSON.
#[verifier::external_body]
fn json_reformat(payload: &str) -> (r: Option<String>)
    ensures
        r is Some <==> json_model_of(payload@) is Some,
        r matches Some(t) ==> t@ == pretty_json_of(payload@),
{
    match serde_json::from_str::<Value>(payload) {
        Ok(v) => serde_json::to_string_pretty(&v).ok(),
        Err(_) => None,
    }
}

/// How an optional text member reads from an object: an absent or null
/// member is no value, a string member is its text, and any other kind
/// is a shape failure.
pub open spec fn obj_opt_text(m: Map<Seq<char>, JsonNode>, key: Seq<char>) -> Option<
    Option<Seq<char>>,
> {
    if !m.contains_key(key) {
        Some(None)
    } else {
        match m[key] {
            JsonNode::Null => Some(None),
            JsonNode::Text(t) => Some(Some(t)),
            _ => None,
        }
    }
}

/// How an optional boolean member reads from an object.
pub open spec fn obj_opt_bool(m: Map<Seq<char>, JsonNode>, key: Seq<char>) -> Option<Option<bool>> {
    if !m.contains_key(key) {
        Some(None)
    } else {
        match m[key] {
            JsonNode::Null => Some(None),
            JsonNode::Bool(b) => Some(Some(b)),
            _ => None,
        }
    }
}

/// How a required integer member reads from an object: anything but an
/// integer fitting in i64 is a shape failure.
pub open spec fn obj_req_i64(m: Map<Seq<char>, JsonNode>, key: Seq<char>) -> Option<i64> {
    if !m.contains_key(key) {
        None
    } else {
        match m[key] {
            JsonNode::IntNum(n) => Some(n),
            _ => None,
        }
    }
}

/// How a required boolean member reads from an object.
pub open spec fn obj_req_bool(m: Map<Seq<char>, JsonNode>, key: Seq<char>) -> Option<bool> {
    if !m.contains_key(key) {
        None
    } else {
        match m[key] {
            JsonNode::Bool(b) => Some(b),
            _ => None,
        }
    }
}

/// An optional string field carries exactly what the member read gives.
pub open spec fn opt_text_matches(v: Option<String>, w: Option<Option<Seq<char>>>) -> bool {
    match w {
        Some(Some(t)) => v matches Some(s) && s@ == t,
        Some(None) => v is None,
        None => false,
    }
}

/// An optional boolean field carries exactly what the member read gives.
pub open spec fn opt_bool_matches(v: Option<bool>, w: Option<Option<bool>>) -> bool {
    match w {
        Some(x) => v == x,
        None => false,
    }
}

/// Whether a configuration snapshot decodes from a parse result: a JSON
/// object whose recognized members are optional strings and booleans.
pub open spec fn config_decodes(mo: Option<JsonNode>) -> bool {
    match mo {
        Some(JsonNode::Object(f)) => {
            &&& obj_opt_text(f, "model"@) is Some
            &&& obj_opt_text(f, "prefix"@) is Some
            &&& obj_opt_text(f, "mode"@) is Some
            &&& obj_opt_text(f, "backend"@) is Some
            &&& obj_opt_text(f, "custom_ops"@) is Some
            &&& obj_opt_text(f, "splitting_ops"@) is Some
            &&& obj_opt_text(f, "cudagraph_mode"@) is Some
            &&& obj_opt_text(f, "compile_sizes"@) is Some
            &&& obj_opt_text(f, "compile_ranges_split_points"@) is Some
            &&& obj_opt_bool(f, "use_inductor_graph_partition"@) is Some
            &&& obj_opt_text(f, "inductor_passes"@) is Some
            &&& obj_opt_text(f, "enabled_passes"@) is Some
            &&& obj_opt_text(f, "dynamic_shapes_type"@) is Some
            &&& obj_opt_bool(f, "dynamic_shapes_evaluate_guards"@) is Some
        },
        _ => false,
    }
}

/// The decoded snapshot: each field holds exactly the member the tree
/// holds.
pub open spec fn config_matches(c: VllmCompilationConfig, mo: Option<JsonNode>) -> bool {
    match mo {
        Some(JsonNode::Object(f)) => {
            &&& opt_text_matches(c.model, obj_opt_text(f, "model"@))
            &&& opt_text_matches(c.prefix, obj_opt_text(f, "prefix"@))
            &&& opt_text_matches(c.mode, obj_opt_text(f, "mode"@))
            &&& opt_text_matches(c.backend, obj_opt_text(f, "backend"@))
            &&& opt_text_matches(c.custom_ops, obj_opt_text(f, "custom_ops"@))
            &&& opt_text_matches(c.splitting_ops, obj_opt_text(f, "splitting_ops"@))
            &&& opt_text_matches(c.cudagraph_mode, obj_opt_text(f, "cudagraph_mode"@))
            &&& opt_text_matches(c.compile_sizes, obj_opt_text(f, "compile_sizes"@))
            &&& opt_text_matches(
                c.compile_ranges_split_points,
                obj_opt_text(f, "compile_ranges_split_points"@),
            )
            &&& opt_bool_matches(
                c.use_inductor_graph_partition,
                obj_opt_bool(f, "use_inductor_graph_partition"@),
            )
            &&& opt_text_matches(c.inductor_passes, obj_opt_text(f, "inductor_passes"@))
            &&& opt_text_matches(c.enabled_passes, obj_opt_text(f, "enabled_passes"@))
            &&& opt_text_matches(c.dynamic_shapes_type, obj_opt_text(f, "dynamic_shapes_type"@))
            &&& opt_bool_matches(
                c.dynamic_shapes_evaluate_guards,
                obj_opt_bool(f, "dynamic_shapes_evaluate_guards"@),
            )
        },
        _ => false,
    }
}

/// Whether a unit descriptor decodes from a parse result: a JSON object
/// with a required index fitting in i32, required range bounds and
/// flags, and an optional name.
pub open spec fn subgraph_decodes(mo: Option<JsonNode>) -> bool {
    match mo {
        Some(JsonNode::Object(f)) => {
            &&& (obj_req_i64(f, "piecewise_index"@) matches Some(n) && i32::MIN <= n
                <= i32::MAX)
            &&& obj_opt_text(f, "submod_name"@) is Some
            &&& obj_req_i64(f, "compile_range_start"@) is Some
            &&& obj_req_i64(f, "compile_range_end"@) is Some
            &&& obj_req_bool(f, "is_single_size"@) is Some
            &&& obj_req_bool(f, "is_cudagraph_capture_size"@) is Some
        },
        _ => false,
    }
}

/// The decoded unit: each field holds exactly the member the tree holds,
/// and the unit starts with no artifacts.
pub open spec fn subgraph_matches(u: VllmSubgraphInfo, mo: Option<JsonNode>) -> bool {
    match mo {
        Some(JsonNode::Object(f)) => {
            &&& Some(u.index as i64) == obj_req_i64(f, "piecewise_index"@)
            &&& opt_text_matches(u.submod_name, obj_opt_text(f, "submod_name"@))
            &&& Some(u.compile_range_start) == obj_req_i64(f, "compile_range_start"@)
            &&& Some(u.compile_range_end) == obj_req_i64(f, "compile_range_end"@)
            &&& Some(u.is_single_size) == obj_req_bool(f, "is_single_size"@)
            &&& Some(u.is_cudagraph_size) == obj_req_bool(f, "is_cudagraph_capture_size"@)
            &&& u.artifacts@.len() == 0
        },
        _ => false,
    }
}

/// The read of an optional string member mirrors the model's read.
pub open spec fn opt_text_field_matches(
    r: Option<Option<String>>,
    w: Option<Option<Seq<char>>>,
) -> bool {
    match (r, w) {
        (None, None) => true,
        (Some(ri), Some(wi)) => opt_text_matches(ri, Some(wi)),
        _ => false,
    }
}

/// An optional string member, read as the model reads it.
fn opt_string_field(d: &Value, key: &str) -> (r: Option<Option<String>>)
    requires
        value_model(*d) is Object,
    ensures
        (match value_model(*d) {
            JsonNode::Object(f) => opt_text_field_matches(r, obj_opt_text(f, key@)),
            _ => true,
        }),
{
    match doc_get(d, key) {
        None => Some(None),
        Some(f) => {
            if doc_is_null(f) {
                Some(None)
            } else {
                match doc_as_string(f) {
                    Some(s) => Some(Some(s)),
                    None => None,
                }
            }
        },
    }
}

/// An optional boolean member, read as the model reads it.
fn opt_bool_field(d: &Value, key: &str) -> (r: Option<Option<bool>>)
    requires
        value_model(*d) is Object,
    ensures
        (match value_model(*d) {
            JsonNode::Object(f) => (match obj_opt_bool(f, key@) {
                Some(x) => r == Some(x),
                None => r is None,
            }),
            _ => true,
        }),
{
    match doc_get(d, key) {
        None => Some(None),
        Some(f) => {
            if doc_is_null(f) {
                Some(None)
            } else {
                match doc_as_bool(f) {
                    Some(b) => Some(Some(b)),
                    None => None,
                }
            }
        },
    }
}

/// A required integer member, read as the model reads it.
fn req_i64_field(d: &Value, key: &str) -> (r: Option<i64>)
    requires
        value_model(*d) is Object,
    ensures
        (match value_model(*d) {
            JsonNode::Object(f) => r == obj_req_i64(f, key@),
            _ => true,
        }),
{
    match doc_get(d, key) {
        None => None,
        Some(f) => doc_as_i64(f),
    }
}

/// A required boolean member, read as the model reads it.
fn req_bool_field(d: &Value, key: &str) -> (r: Option<bool>)
    requires
        value_model(*d) is Object,
    ensures
        (match value_model(*d) {
            JsonNode::Object(f) => r == obj_req_bool(f, key@),
            _ => true,
        }),
{
    match doc_get(d, key) {
        None => None,
        Some(f) => doc_as_bool(f),
    }
}

/// Decodes a configuration snapshot from a payload: succeeds exactly
/// when the payload parses as an object of the recognized shape, and
/// then carries exactly the members the payload holds.
pub fn parse_config_payload(payload: &str) -> (r: Option<VllmCompilationConfig>)
    ensures
        r is Some <==> config_decodes(json_model_of(payload@)),
        r matches Some(c) ==> config_matches(c, json_model_of(payload@)),
{
    let d = match json_parse(payload) {
        Some(d) => d,
        None => {
            return None;
        },
    };
    if !doc_is_object(&d) {
        return None;
    }
    let model = opt_string_field(&d, "model")?;
    let prefix = opt_string_field(&d, "prefix")?;
    let mode = opt_string_field(&d, "mode")?;
    let backend = opt_string_field(&d, "backend")?;
    let custom_ops = opt_string_field(&d, "custom_ops")?;
    let splitting_ops = opt_string_field(&d, "splitting_ops")?;
    let cudagraph_mode = opt_string_field(&d, "cudagraph_mode")?;
    let compile_sizes = opt_string_field(&d, "compile_sizes")?;
    let compile_ranges_split_points = opt_string_field(&d, "compile_ranges_split_points")?;
    let use_inductor_graph_partition = opt_bool_field(&d, "use_inductor_graph_partition")?;
    let inductor_passes = opt_string_field(&d, "inductor_passes")?;
    let enabled_passes = opt_string_field(&d, "enabled_passes")?;
    let dynamic_shapes_type = opt_string_field(&d, "dynamic_shapes_type")?;
    let dynamic_shapes_evaluate_guards = opt_bool_field(&d, "dynamic_shapes_evaluate_guards")?;
    Some(
        VllmCompilationConfig {
            model,
            prefix,
            mode,
            backend,
            custom_ops,
            splitting_ops,
            cudagraph_mode,
            compile_sizes,
            compile_ranges_split_points,
            use_inductor_graph_partition,
            inductor_passes,
            enabled_passes,
            dynamic_shapes_type,
            dynamic_shapes_evaluate_guards,
        },
    )
}

/// Decodes a unit descriptor from a payload: succeeds exactly when the
/// payload parses as an object of the recognized shape, and then carries
/// exactly the members the payload holds; a decoded unit starts with no
/// artifacts.
pub fn parse_subgraph_payload(payload: &str) -> (r: Option<VllmSubgraphInfo>)
    ensures
        r is Some <==> subgraph_decodes(json_model_of(payload@)),
        r matches Some(u) ==> subgraph_matches(u, json_model_of(payload@)),
{
    let d = match json_parse(payload) {
        Some(d) => d,
        None => {
            return None;
        },
    };
    if !doc_is_object(&d) {
        return None;
    }
    let index_wide = req_i64_field(&d, "piecewise_index")?;
    if index_wide < i32::MIN as i64 || index_wide > i32::MAX as i64 {
        return None;
    }
    let index: i32 = index_wide as i32;
    let submod_name = opt_string_field(&d, "submod_name")?;
    let compile_range_start = req_i64_field(&d, "compile_range_start")?;
    let compile_range_end = req_i64_field(&d, "compile_range_end")?;
    let is_single_size = req_bool_field(&d, "is_single_size")?;
    let is_cudagraph_size = req_bool_field(&d, "is_cudagraph_capture_size")?;
    Some(
        VllmSubgraphInfo {
            index,
            submod_name,
            compile_range_start,
            compile_range_end,
            is_single_size,
            is_cudagraph_size,
            artifacts: Vec::new(),
        },
    )
}

/// Reformats a JSON payload as indented text: succeeds exactly when the
/// payload is JSON, and then yields the pretty rendering of its parsed
/// value.
pub fn reformat_json(payload: &str) -> (r: Option<String>)
    ensures
        r is Some <==> json_model_of(payload@) is Some,
        r matches Some(t) ==> t@ == pretty_json_of(payload@),
{
    json_reformat(payload)
}

} // verus!
