//! The operation executor: argument resolution and the planning of each
//! declared operation against the fixed catalog.
//!
//! Each logical parameter is found in the raw call arguments through a
//! JSON pointer and coerced to the type the operation needs. A missing
//! required parameter, a `null`, and a wrong type are told apart exactly;
//! an optional parameter that is absent or `null` resolves to "not
//! provided", which is distinct from zero, empty or false. The planner
//! turns a declared operation into the backend work it asks for; the
//! caller performs the exchange and shapes the payload with the result
//! renderers.

use vstd::prelude::*;
use vstd::string::StringExecFns;

use crate::backend::OdooError;
use crate::json::{JVal, Json, jptr, jval_of, jvals_of, lemma_jvals_of_index,
    lemma_jvals_of_len};
use crate::registry::OpSpec;
use crate::strutil::str_eq;

verus! {

broadcast use {vstd::std_specs::vec::group_vec_axioms, vstd::seq::group_seq_axioms,
    crate::json::lemma_jfields_of_push, crate::json::lemma_jvals_of_push,
    vstd::string::group_string_axioms};

/// The pointer that an operation declares for a logical parameter name:
/// the first map entry with that name.
pub open spec fn spec_ptr_path(m: Seq<(String, String)>, key: Seq<char>) -> Option<Seq<char>>
    decreases m.len(),
{
    if m.len() == 0 {
        None
    } else if m[0].0@ == key {
        Some(m[0].1@)
    } else {
        spec_ptr_path(m.drop_first(), key)
    }
}

/// The value a logical parameter resolves to: the declared pointer looked
/// up in the call arguments.
pub open spec fn spec_arg(op: OpSpec, args: JVal, key: Seq<char>) -> Option<JVal> {
    match spec_ptr_path(op.map@, key) {
        Some(p) => jptr(args, p),
        None => None,
    }
}

pub open spec fn spec_missing_msg(key: Seq<char>) -> Seq<char> {
    "Missing required argument '"@ + key + "' (map)"@
}

pub open spec fn spec_type_msg(key: Seq<char>, ty: Seq<char>) -> Seq<char> {
    "Argument '"@ + key + "' must be "@ + ty
}

pub open spec fn spec_items_msg(key: Seq<char>, ty: Seq<char>) -> Seq<char> {
    "Argument '"@ + key + "' items must be "@ + ty
}

fn missing_msg(key: &str) -> (r: String)
    ensures
        r@ == spec_missing_msg(key@),
{
    let mut s = "Missing required argument '".to_owned();
    s.append(key);
    s.append("' (map)");
    s
}

fn type_msg(key: &str, ty: &str) -> (r: String)
    ensures
        r@ == spec_type_msg(key@, ty@),
{
    let mut s = "Argument '".to_owned();
    s.append(key);
    s.append("' must be ");
    s.append(ty);
    s
}

fn items_msg(key: &str, ty: &str) -> (r: String)
    ensures
        r@ == spec_items_msg(key@, ty@),
{
    let mut s = "Argument '".to_owned();
    s.append(key);
    s.append("' items must be ");
    s.append(ty);
    s
}

proof fn lemma_ptr_path_skip(m: Seq<(String, String)>, key: Seq<char>, i: int)
    requires
        0 <= i <= m.len(),
        forall|j: int| 0 <= j < i ==> (#[trigger] m[j]).0@ != key,
    ensures
        spec_ptr_path(m, key) == spec_ptr_path(m.skip(i), key),
    decreases i,
{
    if i > 0 {
        lemma_ptr_path_skip(m.drop_first(), key, i - 1);
        assert(m.drop_first().skip(i - 1) =~= m.skip(i));
    } else {
        assert(m.skip(0) =~= m);
    }
}

/// The raw resolved value of a declared parameter, if any.
pub fn ptr<'a>(args: &'a Json, op: &OpSpec, key: &str) -> (r: Option<&'a Json>)
    ensures
        match r {
            Some(v) => spec_arg(*op, args@, key@) == Some(v@),
            None => spec_arg(*op, args@, key@) is None,
        },
{
    let m = &op.map;
    let n = m.len();
    let mut i: usize = 0;
    while i < n
        invariant
            i <= n,
            n == m@.len(),
            m@ == op.map@,
            forall|j: int| 0 <= j < i ==> (#[trigger] m@[j]).0@ != key@,
        decreases n - i,
    {
        if str_eq(m[i].0.as_str(), key) {
            proof {
                lemma_ptr_path_skip(m@, key@, i as int);
                assert(m@.skip(i as int)[0] == m@[i as int]);
                assert(m@.skip(i as int).len() > 0);
                assert(spec_ptr_path(m@.skip(i as int), key@) == Some(m@[i as int].1@));
                assert(spec_ptr_path(m@, key@) == Some(m@[i as int].1@));
            }
            return args.pointer(m[i].1.as_str());
        }
        i += 1;
    }
    proof {
        lemma_ptr_path_skip(m@, key@, n as int);
        assert(m@.skip(n as int) =~= Seq::<(String, String)>::empty());
    }
    None
}

/// A required string parameter.
pub fn req_str(args: &Json, op: &OpSpec, key: &str) -> (r: Result<String, OdooError>)
    ensures
        match r {
            Ok(s) => spec_arg(*op, args@, key@) == Some(JVal::Str(s@)),
            Err(e) => e matches OdooError::InvalidResponse(m) && match spec_arg(
                *op,
                args@,
                key@,
            ) {
                None => m@ == spec_missing_msg(key@),
                Some(v) => !(v is Str) && m@ == spec_type_msg(key@, "string"@),
            },
        },
{
    match ptr(args, op, key) {
        None => Err(OdooError::InvalidResponse(missing_msg(key))),
        Some(v) => match v.as_str() {
            Some(s) => Ok(s.clone()),
            None => Err(OdooError::InvalidResponse(type_msg(key, "string"))),
        },
    }
}

/// An optional string parameter: absent or `null` is "not provided".
pub fn opt_str(args: &Json, op: &OpSpec, key: &str) -> (r: Result<Option<String>, OdooError>)
    ensures
        match r {
            Ok(Some(s)) => spec_arg(*op, args@, key@) == Some(JVal::Str(s@)),
            Ok(None) => spec_arg(*op, args@, key@) is None || spec_arg(*op, args@, key@) == Some(
                JVal::Null,
            ),
            Err(e) => e matches OdooError::InvalidResponse(m) && m@ == spec_type_msg(
                key@,
                "string"@,
            ) && (spec_arg(*op, args@, key@) matches Some(v) && !(v is Str) && !(v is Null)),
        },
{
    match ptr(args, op, key) {
        None => Ok(None),
        Some(v) => {
            if v.is_null() {
                Ok(None)
            } else {
                match v.as_str() {
                    Some(s) => Ok(Some(s.clone())),
                    None => Err(OdooError::InvalidResponse(type_msg(key, "string"))),
                }
            }
        },
    }
}

/// An optional integer parameter: absent or `null` is "not provided".
pub fn opt_i64(args: &Json, op: &OpSpec, key: &str) -> (r: Result<Option<i64>, OdooError>)
    ensures
        match r {
            Ok(Some(n)) => spec_arg(*op, args@, key@) == Some(JVal::Int(n)),
            Ok(None) => spec_arg(*op, args@, key@) is None || spec_arg(*op, args@, key@) == Some(
                JVal::Null,
            ),
            Err(e) => e matches OdooError::InvalidResponse(m) && m@ == spec_type_msg(
                key@,
                "integer"@,
            ) && (spec_arg(*op, args@, key@) matches Some(v) && !(v is Int) && !(v is Null)),
        },
{
    match ptr(args, op, key) {
        None => Ok(None),
        Some(v) => {
            if v.is_null() {
                Ok(None)
            } else {
                match v.as_i64() {
                    Some(n) => Ok(Some(n)),
                    None => Err(OdooError::InvalidResponse(type_msg(key, "integer"))),
                }
            }
        },
    }
}

/// An optional boolean parameter: absent or `null` is "not provided".
pub fn opt_bool(args: &Json, op: &OpSpec, key: &str) -> (r: Result<Option<bool>, OdooError>)
    ensures
        match r {
            Ok(Some(b)) => spec_arg(*op, args@, key@) == Some(JVal::Bool(b)),
            Ok(None) => spec_arg(*op, args@, key@) is None || spec_arg(*op, args@, key@) == Some(
                JVal::Null,
            ),
            Err(e) => e matches OdooError::InvalidResponse(m) && m@ == spec_type_msg(
                key@,
                "boolean"@,
            ) && (spec_arg(*op, args@, key@) matches Some(v) && !(v is Bool) && !(v is Null)),
        },
{
    match ptr(args, op, key) {
        None => Ok(None),
        Some(v) => {
            if v.is_null() {
                Ok(None)
            } else {
                match v.as_bool() {
                    Some(b) => Ok(Some(b)),
                    None => Err(OdooError::InvalidResponse(type_msg(key, "boolean"))),
                }
            }
        },
    }
}

/// An optional parameter taken as-is; an explicit `null` is "not
/// provided".
pub fn opt_value(args: &Json, op: &OpSpec, key: &str) -> (r: Option<Json>)
    ensures
        match r {
            Some(v) => spec_arg(*op, args@, key@) == Some(v@) && !(v@ is Null),
            None => spec_arg(*op, args@, key@) is None || spec_arg(*op, args@, key@) == Some(
                JVal::Null,
            ),
        },
{
    match ptr(args, op, key) {
        None => None,
        Some(v) => {
            if v.is_null() {
                None
            } else {
                Some(v.clone())
            }
        },
    }
}

/// A required parameter taken as-is, `null` included.
pub fn req_value(args: &Json, op: &OpSpec, key: &str) -> (r: Result<Json, OdooError>)
    ensures
        match r {
            Ok(v) => spec_arg(*op, args@, key@) == Some(v@),
            Err(e) => e matches OdooError::InvalidResponse(m) && m@ == spec_missing_msg(key@)
                && spec_arg(*op, args@, key@) is None,
        },
{
    match ptr(args, op, key) {
        None => Err(OdooError::InvalidResponse(missing_msg(key))),
        Some(v) => Ok(v.clone()),
    }
}

/// Whether every element of `items` is a string whose characters are the
/// corresponding entry of `out`.
pub open spec fn strings_of(items: Seq<JVal>, out: Seq<String>) -> bool {
    &&& items.len() == out.len()
    &&& forall|i: int| 0 <= i < items.len() ==> items[i] == JVal::Str((#[trigger] out[i])@)
}

/// Whether every element of `items` is the corresponding integer of
/// `out`.
pub open spec fn ints_of(items: Seq<JVal>, out: Seq<i64>) -> bool {
    &&& items.len() == out.len()
    &&& forall|i: int| 0 <= i < items.len() ==> items[i] == JVal::Int(#[trigger] out[i])
}

/// Every element is a string.
pub open spec fn all_strs(items: Seq<JVal>) -> bool {
    forall|i: int| 0 <= i < items.len() ==> #[trigger] items[i] is Str
}

pub broadcast proof fn lemma_ints_of_all_ints(items: Seq<JVal>, out: Seq<i64>)
    ensures
        #[trigger] ints_of(items, out) ==> all_ints(items),
{
    if ints_of(items, out) {
        assert forall|i: int| 0 <= i < items.len() implies #[trigger] items[i] is Int by {
            assert(items[i] == JVal::Int(out[i]));
        }
    }
}

pub broadcast proof fn lemma_strings_of_all_strs(items: Seq<JVal>, out: Seq<String>)
    ensures
        #[trigger] strings_of(items, out) ==> all_strs(items),
{
    if strings_of(items, out) {
        assert forall|i: int| 0 <= i < items.len() implies #[trigger] items[i] is Str by {
            assert(items[i] == JVal::Str(out[i]@));
        }
    }
}

fn extract_strings(items: &Vec<Json>) -> (r: Option<Vec<String>>)
    ensures
        match r {
            Some(out) => strings_of(jvals_of(items@), out@),
            None => exists|i: int|
                0 <= i < jvals_of(items@).len() && !(#[trigger] jvals_of(items@)[i] is Str),
        },
{
    proof {
        lemma_jvals_of_len(items@);
    }
    let n = items.len();
    let mut out: Vec<String> = Vec::new();
    let mut i: usize = 0;
    while i < n
        invariant
            i <= n,
            n == items@.len(),
            jvals_of(items@).len() == n,
            out@.len() == i,
            forall|j: int|
                0 <= j < i ==> jvals_of(items@)[j] == JVal::Str((#[trigger] out@[j])@),
        decreases n - i,
    {
        proof {
            lemma_jvals_of_index(items@, i as int);
        }
        match items[i].as_str() {
            Some(s) => {
                out.push(s.clone());
            },
            None => {
                return None;
            },
        }
        i += 1;
    }
    Some(out)
}

fn extract_ints(items: &Vec<Json>) -> (r: Option<Vec<i64>>)
    ensures
        match r {
            Some(out) => ints_of(jvals_of(items@), out@),
            None => exists|i: int|
                0 <= i < jvals_of(items@).len() && !(#[trigger] jvals_of(items@)[i] is Int),
        },
{
    proof {
        lemma_jvals_of_len(items@);
    }
    let n = items.len();
    let mut out: Vec<i64> = Vec::new();
    let mut i: usize = 0;
    while i < n
        invariant
            i <= n,
            n == items@.len(),
            jvals_of(items@).len() == n,
            out@.len() == i,
            forall|j: int| 0 <= j < i ==> jvals_of(items@)[j] == JVal::Int(#[trigger] out@[j]),
        decreases n - i,
    {
        proof {
            lemma_jvals_of_index(items@, i as int);
        }
        match items[i].as_i64() {
            Some(x) => {
                out.push(x);
            },
            None => {
                return None;
            },
        }
        i += 1;
    }
    Some(out)
}

/// An optional array-of-strings parameter.
pub fn opt_vec_string(args: &Json, op: &OpSpec, key: &str) -> (r: Result<
    Option<Vec<String>>,
    OdooError,
>)
    ensures
        match r {
            Ok(Some(out)) => spec_arg(*op, args@, key@) matches Some(JVal::Arr(items))
                && strings_of(items, out@),
            Ok(None) => spec_arg(*op, args@, key@) is None || spec_arg(*op, args@, key@) == Some(
                JVal::Null,
            ),
            Err(e) => e matches OdooError::InvalidResponse(m) && match spec_arg(
                *op,
                args@,
                key@,
            ) {
                Some(v) => if v is Arr {
                    m@ == spec_items_msg(key@, "string"@) && exists|i: int|
                        0 <= i < arr_items(v).len() && !(#[trigger] arr_items(v)[i] is Str)
                } else {
                    !(v is Null) && m@ == spec_type_msg(key@, "array"@)
                },
                None => false,
            },
        },
{
    match ptr(args, op, key) {
        None => Ok(None),
        Some(v) => {
            if v.is_null() {
                return Ok(None);
            }
            match v.as_array() {
                None => Err(OdooError::InvalidResponse(type_msg(key, "array"))),
                Some(items) => match extract_strings(items) {
                    Some(out) => Ok(Some(out)),
                    None => {
                        proof {
                            let w = choose|i: int|
                                0 <= i < jvals_of(items@).len() && !(#[trigger] jvals_of(
                                    items@,
                                )[i] is Str);
                            assert(arr_items(v@) == jvals_of(items@));
                            assert(!(arr_items(v@)[w] is Str));
                        }
                        Err(OdooError::InvalidResponse(items_msg(key, "string")))
                    },
                },
            }
        },
    }
}

/// An optional array-of-integers parameter.
pub fn opt_vec_i64(args: &Json, op: &OpSpec, key: &str) -> (r: Result<
    Option<Vec<i64>>,
    OdooError,
>)
    ensures
        match r {
            Ok(Some(out)) => spec_arg(*op, args@, key@) matches Some(JVal::Arr(items)) && ints_of(
                items,
                out@,
            ),
            Ok(None) => spec_arg(*op, args@, key@) is None || spec_arg(*op, args@, key@) == Some(
                JVal::Null,
            ),
            Err(e) => e matches OdooError::InvalidResponse(m) && match spec_arg(
                *op,
                args@,
                key@,
            ) {
                Some(v) => if v is Arr {
                    m@ == spec_items_msg(key@, "integer"@) && exists|i: int|
                        0 <= i < arr_items(v).len() && !(#[trigger] arr_items(v)[i] is Int)
                } else {
                    !(v is Null) && m@ == spec_type_msg(key@, "array"@)
                },
                None => false,
            },
        },
{
    match ptr(args, op, key) {
        None => Ok(None),
        Some(v) => {
            if v.is_null() {
                return Ok(None);
            }
            match v.as_array() {
                None => Err(OdooError::InvalidResponse(type_msg(key, "array"))),
                Some(items) => match extract_ints(items) {
                    Some(out) => Ok(Some(out)),
                    None => {
                        proof {
                            let w = choose|i: int|
                                0 <= i < jvals_of(items@).len() && !(#[trigger] jvals_of(
                                    items@,
                                )[i] is Int);
                            assert(arr_items(v@) == jvals_of(items@));
                            assert(!(arr_items(v@)[w] is Int));
                        }
                        Err(OdooError::InvalidResponse(items_msg(key, "integer")))
                    },
                },
            }
        },
    }
}

/// A required array-of-integers parameter; unlike the optional form, an
/// explicit `null` is not accepted here.
pub fn req_vec_i64(args: &Json, op: &OpSpec, key: &str) -> (r: Result<Vec<i64>, OdooError>)
    ensures
        match r {
            Ok(out) => spec_arg(*op, args@, key@) matches Some(JVal::Arr(items)) && ints_of(
                items,
                out@,
            ),
            Err(e) => e matches OdooError::InvalidResponse(m) && match spec_arg(
                *op,
                args@,
                key@,
            ) {
                Some(v) => if v is Arr {
                    m@ == spec_items_msg(key@, "integer"@) && exists|i: int|
                        0 <= i < arr_items(v).len() && !(#[trigger] arr_items(v)[i] is Int)
                } else {
                    m@ == spec_type_msg(key@, "array"@)
                },
                None => m@ == spec_missing_msg(key@),
            },
        },
{
    match ptr(args, op, key) {
        None => Err(OdooError::InvalidResponse(missing_msg(key))),
        Some(v) => match v.as_array() {
            None => Err(OdooError::InvalidResponse(type_msg(key, "array"))),
            Some(items) => match extract_ints(items) {
                Some(out) => Ok(out),
                None => {
                    proof {
                        let w = choose|i: int|
                            0 <= i < jvals_of(items@).len() && !(#[trigger] jvals_of(
                                items@,
                            )[i] is Int);
                        assert(arr_items(v@) == jvals_of(items@));
                        assert(!(arr_items(v@)[w] is Int));
                    }
                    Err(OdooError::InvalidResponse(items_msg(key, "integer")))
                },
            },
        },
    }
}

/// One backend client invocation, dialect-independent. The dialect
/// encoders turn it into a request; the caller performs the exchange.
#[derive(Debug)]
pub enum ClientCall {
    Search {
        model: String,
        domain: Option<Json>,
        limit: Option<i64>,
        offset: Option<i64>,
        order: Option<String>,
        context: Option<Json>,
    },
    SearchRead {
        model: String,
        domain: Option<Json>,
        fields: Option<Vec<String>>,
        limit: Option<i64>,
        offset: Option<i64>,
        order: Option<String>,
        context: Option<Json>,
    },
    Read { model: String, ids: Vec<i64>, fields: Option<Vec<String>>, context: Option<Json> },
    Create { model: String, values: Json, context: Option<Json> },
    Write { model: String, ids: Vec<i64>, values: Json, context: Option<Json> },
    Unlink { model: String, ids: Vec<i64>, context: Option<Json> },
    SearchCount { model: String, domain: Option<Json>, context: Option<Json> },
    FieldsGet { model: String, context: Option<Json> },
    CallNamed {
        model: String,
        method: String,
        ids: Option<Vec<i64>>,
        params: Vec<(String, Json)>,
        context: Option<Json>,
    },
    ReadGroup {
        model: String,
        domain: Option<Json>,
        fields: Vec<String>,
        groupby: Vec<String>,
        offset: Option<i64>,
        limit: Option<i64>,
        orderby: Option<String>,
        lazy: Option<bool>,
        context: Option<Json>,
    },
    NameSearch {
        model: String,
        name: Option<String>,
        args: Option<Json>,
        operator: Option<String>,
        limit: Option<i64>,
        context: Option<Json>,
    },
    NameGet { model: String, ids: Vec<i64>, context: Option<Json> },
    DefaultGet { model: String, fields_list: Vec<String>, context: Option<Json> },
    Copy { model: String, id: i64, default: Option<Json>, context: Option<Json> },
    Onchange {
        model: String,
        ids: Vec<i64>,
        values: Json,
        field_name: Vec<String>,
        field_onchange: Json,
        context: Option<Json>,
    },
}

/// The work one operation asks of the backend.
#[derive(Debug)]
pub enum OpPlan {
    /// A single client call.
    Call { instance: String, call: ClientCall },
    /// The report download.
    Report { instance: String, report_name: String, ids: Vec<i64> },
    /// The cached metadata fetch.
    Metadata { instance: String, model: String, context: Option<Json> },
    /// The access check: rights at the model level, and rules per record
    /// when ids are given.
    CheckAccess {
        instance: String,
        model: String,
        operation: String,
        ids: Option<Vec<i64>>,
        context: Option<Json>,
    },
    /// One create per entry, at most one hundred.
    CreateBatch { instance: String, model: String, values: Vec<Json>, context: Option<Json> },
    /// The full cleanup workflow.
    DatabaseCleanup { instance: String, options: crate::cleanup::CleanupOptions },
    /// The deep cleanup workflow.
    DeepCleanup { instance: String, options: crate::cleanup::DeepCleanupOptions },
}

/// The fixed catalog of operation type tags.
pub open spec fn known_op_type(tag: Seq<char>) -> bool {
    tag == "search"@ || tag == "search_read"@ || tag == "read"@ || tag == "create"@ || tag
        == "write"@ || tag == "unlink"@ || tag == "search_count"@ || tag == "workflow_action"@
        || tag == "execute"@ || tag == "generate_report"@ || tag == "get_model_metadata"@ || tag
        == "database_cleanup"@ || tag == "deep_cleanup"@ || tag == "read_group"@ || tag
        == "name_search"@ || tag == "name_get"@ || tag == "default_get"@ || tag == "copy"@ || tag
        == "onchange"@ || tag == "list_models"@ || tag == "check_access"@ || tag
        == "create_batch"@
}

/// The instance name an operation plan is addressed to.
pub open spec fn plan_instance(p: OpPlan) -> Seq<char> {
    match p {
        OpPlan::Call { instance, .. } => instance@,
        OpPlan::Report { instance, .. } => instance@,
        OpPlan::Metadata { instance, .. } => instance@,
        OpPlan::CheckAccess { instance, .. } => instance@,
        OpPlan::CreateBatch { instance, .. } => instance@,
        OpPlan::DatabaseCleanup { instance, .. } => instance@,
        OpPlan::DeepCleanup { instance, .. } => instance@,
    }
}

/// Every element is an integer.
pub open spec fn all_ints(items: Seq<JVal>) -> bool {
    forall|i: int| 0 <= i < items.len() ==> #[trigger] items[i] is Int
}

pub open spec fn arr_items(v: JVal) -> Seq<JVal> {
    match v {
        JVal::Arr(items) => items,
        _ => Seq::empty(),
    }
}

pub open spec fn obj_fields(v: JVal) -> Seq<(Seq<char>, JVal)> {
    match v {
        JVal::Obj(fs) => fs,
        _ => Seq::empty(),
    }
}

/// The `args` shape the generic `execute` takes as record ids: an array
/// of exactly one array whose elements are all integers.
pub open spec fn exec_ids_shape(avv: JVal) -> bool {
    &&& avv is Arr
    &&& arr_items(avv).len() == 1
    &&& arr_items(avv)[0] is Arr
    &&& all_ints(arr_items(arr_items(avv)[0]))
}

/// The resolved value of a parameter, `null` when it is absent.
pub open spec fn arg_or_null(op: OpSpec, args: JVal, key: Seq<char>) -> JVal {
    match spec_arg(op, args, key) {
        Some(v) => v,
        None => JVal::Null,
    }
}

/// The characters of a string parameter; meaningful where its resolution
/// check passes.
pub open spec fn str_arg(op: OpSpec, args: JVal, key: Seq<char>) -> Seq<char> {
    match spec_arg(op, args, key) {
        Some(JVal::Str(s)) => s,
        _ => Seq::empty(),
    }
}

/// An optional string parameter's value: absent and `null` are "not
/// provided".
pub open spec fn opt_str_arg(op: OpSpec, args: JVal, key: Seq<char>) -> Option<Seq<char>> {
    match spec_arg(op, args, key) {
        Some(JVal::Str(s)) => Some(s),
        _ => None,
    }
}

pub open spec fn opt_i64_arg(op: OpSpec, args: JVal, key: Seq<char>) -> Option<i64> {
    match spec_arg(op, args, key) {
        Some(JVal::Int(n)) => Some(n),
        _ => None,
    }
}

pub open spec fn opt_bool_arg(op: OpSpec, args: JVal, key: Seq<char>) -> Option<bool> {
    match spec_arg(op, args, key) {
        Some(JVal::Bool(b)) => Some(b),
        _ => None,
    }
}

/// An optional parameter taken as-is; absent and an explicit `null` are
/// "not provided".
pub open spec fn opt_val_arg(op: OpSpec, args: JVal, key: Seq<char>) -> Option<JVal> {
    match spec_arg(op, args, key) {
        None => None,
        Some(JVal::Null) => None,
        Some(v) => Some(v),
    }
}

/// Ties an optional string view to an optional string parameter.
pub open spec fn view_opt_string(s: Option<String>) -> Option<Seq<char>> {
    match s {
        Some(t) => Some(t@),
        None => None,
    }
}

pub open spec fn opt_json_view(v: Option<Json>) -> Option<JVal> {
    match v {
        Some(j) => Some(jval_of(j)),
        None => None,
    }
}

/// A required integer-array parameter resolved to exactly these ids.
pub open spec fn ids_tie(op: OpSpec, args: JVal, key: Seq<char>, out: Seq<i64>) -> bool {
    spec_arg(op, args, key) matches Some(v) && v is Arr && ints_of(arr_items(v), out)
}

/// An optional integer-array parameter resolved to exactly these ids.
pub open spec fn opt_ints_tie(op: OpSpec, args: JVal, key: Seq<char>, out: Option<Vec<i64>>)
    -> bool {
    match out {
        Some(v) => ids_tie(op, args, key, v@),
        None => spec_arg(op, args, key) is None || spec_arg(op, args, key) == Some(JVal::Null),
    }
}

/// An optional string-array parameter resolved to exactly these strings.
pub open spec fn opt_strs_tie(op: OpSpec, args: JVal, key: Seq<char>, out: Option<Vec<String>>)
    -> bool {
    match out {
        Some(fs) => spec_arg(op, args, key) matches Some(v) && v is Arr && strings_of(
            arr_items(v),
            fs@,
        ),
        None => spec_arg(op, args, key) is None || spec_arg(op, args, key) == Some(JVal::Null),
    }
}

/// A string-array parameter that defaults to empty when not provided.
pub open spec fn strs_or_empty_tie(op: OpSpec, args: JVal, key: Seq<char>, out: Seq<String>)
    -> bool {
    match spec_arg(op, args, key) {
        Some(v) => if v is Arr {
            strings_of(arr_items(v), out)
        } else {
            out.len() == 0
        },
        None => out.len() == 0,
    }
}

/// Spec-level outcome of resolving one parameter: `Err` carries the
/// message the executor reports.
pub open spec fn chk_req_str(op: OpSpec, args: JVal, key: Seq<char>) -> Result<(), Seq<char>> {
    match spec_arg(op, args, key) {
        None => Err(spec_missing_msg(key)),
        Some(v) => if v is Str {
            Ok(())
        } else {
            Err(spec_type_msg(key, "string"@))
        },
    }
}

pub open spec fn chk_opt_str(op: OpSpec, args: JVal, key: Seq<char>) -> Result<(), Seq<char>> {
    match spec_arg(op, args, key) {
        None => Ok(()),
        Some(v) => if v is Str || v is Null {
            Ok(())
        } else {
            Err(spec_type_msg(key, "string"@))
        },
    }
}

pub open spec fn chk_opt_i64(op: OpSpec, args: JVal, key: Seq<char>) -> Result<(), Seq<char>> {
    match spec_arg(op, args, key) {
        None => Ok(()),
        Some(v) => if v is Int || v is Null {
            Ok(())
        } else {
            Err(spec_type_msg(key, "integer"@))
        },
    }
}

pub open spec fn chk_opt_bool(op: OpSpec, args: JVal, key: Seq<char>) -> Result<(), Seq<char>> {
    match spec_arg(op, args, key) {
        None => Ok(()),
        Some(v) => if v is Bool || v is Null {
            Ok(())
        } else {
            Err(spec_type_msg(key, "boolean"@))
        },
    }
}

pub open spec fn chk_req_value(op: OpSpec, args: JVal, key: Seq<char>) -> Result<(), Seq<char>> {
    match spec_arg(op, args, key) {
        None => Err(spec_missing_msg(key)),
        Some(_) => Ok(()),
    }
}

pub open spec fn chk_req_vec_i64(op: OpSpec, args: JVal, key: Seq<char>) -> Result<
    (),
    Seq<char>,
> {
    match spec_arg(op, args, key) {
        None => Err(spec_missing_msg(key)),
        Some(v) => if !(v is Arr) {
            Err(spec_type_msg(key, "array"@))
        } else if all_ints(arr_items(v)) {
            Ok(())
        } else {
            Err(spec_items_msg(key, "integer"@))
        },
    }
}

pub open spec fn chk_opt_vec_i64(op: OpSpec, args: JVal, key: Seq<char>) -> Result<
    (),
    Seq<char>,
> {
    match spec_arg(op, args, key) {
        None => Ok(()),
        Some(v) => if v is Null {
            Ok(())
        } else if !(v is Arr) {
            Err(spec_type_msg(key, "array"@))
        } else if all_ints(arr_items(v)) {
            Ok(())
        } else {
            Err(spec_items_msg(key, "integer"@))
        },
    }
}

pub open spec fn chk_opt_vec_string(op: OpSpec, args: JVal, key: Seq<char>) -> Result<
    (),
    Seq<char>,
> {
    match spec_arg(op, args, key) {
        None => Ok(()),
        Some(v) => if v is Null {
            Ok(())
        } else if !(v is Arr) {
            Err(spec_type_msg(key, "array"@))
        } else if all_strs(arr_items(v)) {
            Ok(())
        } else {
            Err(spec_items_msg(key, "string"@))
        },
    }
}

/// `copy` requires its `id`: absent and `null` both miss it, with the
/// executor's own message.
pub open spec fn chk_copy_id(op: OpSpec, args: JVal) -> Result<(), Seq<char>> {
    match spec_arg(op, args, "id"@) {
        None => Err("Missing required argument 'id'"@),
        Some(v) => if v is Int {
            Ok(())
        } else if v is Null {
            Err("Missing required argument 'id'"@)
        } else {
            Err(spec_type_msg("id"@, "integer"@))
        },
    }
}

/// `create_batch` requires an array of at most one hundred records.
pub open spec fn chk_batch_values(op: OpSpec, args: JVal) -> Result<(), Seq<char>> {
    match spec_arg(op, args, "values"@) {
        None => Err(spec_missing_msg("values"@)),
        Some(v) => if !(v is Arr) {
            Err("'values' must be an array"@)
        } else if arr_items(v).len() > 100 {
            Err("Batch size limited to 100 records"@)
        } else {
            Ok(())
        },
    }
}

/// The first failure of two resolution steps.
pub open spec fn chk2(a: Result<(), Seq<char>>, b: Result<(), Seq<char>>) -> Result<
    (),
    Seq<char>,
> {
    if a is Err {
        a
    } else {
        b
    }
}

/// The first resolution failure of one operation's parameters, in the
/// order the planner resolves them; `Ok` exactly when the whole operation
/// resolves.
pub open spec fn spec_check_op(op: OpSpec, args: JVal) -> Result<(), Seq<char>> {
    let t = op.op_type@;
    if !known_op_type(t) {
        Err("Unknown op.type: "@ + t)
    } else {
        chk2(
            chk_req_str(op, args, "instance"@),
            if t == "search"@ {
                chk2(
                    chk_req_str(op, args, "model"@),
                    chk2(
                        chk_opt_i64(op, args, "limit"@),
                        chk2(chk_opt_i64(op, args, "offset"@), chk_opt_str(op, args, "order"@)),
                    ),
                )
            } else if t == "search_read"@ {
                chk2(
                    chk_req_str(op, args, "model"@),
                    chk2(
                        chk_opt_vec_string(op, args, "fields"@),
                        chk2(
                            chk_opt_i64(op, args, "limit"@),
                            chk2(
                                chk_opt_i64(op, args, "offset"@),
                                chk_opt_str(op, args, "order"@),
                            ),
                        ),
                    ),
                )
            } else if t == "read"@ {
                chk2(
                    chk_req_str(op, args, "model"@),
                    chk2(
                        chk_req_vec_i64(op, args, "ids"@),
                        chk_opt_vec_string(op, args, "fields"@),
                    ),
                )
            } else if t == "create"@ {
                chk2(chk_req_str(op, args, "model"@), chk_req_value(op, args, "values"@))
            } else if t == "write"@ {
                chk2(
                    chk_req_str(op, args, "model"@),
                    chk2(
                        chk_req_vec_i64(op, args, "ids"@),
                        chk_req_value(op, args, "values"@),
                    ),
                )
            } else if t == "unlink"@ {
                chk2(chk_req_str(op, args, "model"@), chk_req_vec_i64(op, args, "ids"@))
            } else if t == "search_count"@ {
                chk_req_str(op, args, "model"@)
            } else if t == "workflow_action"@ {
                chk2(
                    chk_req_str(op, args, "model"@),
                    chk2(
                        chk_req_vec_i64(op, args, "ids"@),
                        chk_req_str(op, args, "action"@),
                    ),
                )
            } else if t == "execute"@ {
                chk2(chk_req_str(op, args, "model"@), chk_req_str(op, args, "method"@))
            } else if t == "generate_report"@ {
                chk2(
                    chk_req_str(op, args, "reportName"@),
                    chk_req_vec_i64(op, args, "ids"@),
                )
            } else if t == "get_model_metadata"@ {
                chk_req_str(op, args, "model"@)
            } else if t == "database_cleanup"@ {
                chk2(
                    chk_opt_bool(op, args, "removeTestData"@),
                    chk2(
                        chk_opt_bool(op, args, "removeInactivRecords"@),
                        chk2(
                            chk_opt_bool(op, args, "cleanupDrafts"@),
                            chk2(
                                chk_opt_bool(op, args, "archiveOldRecords"@),
                                chk2(
                                    chk_opt_bool(op, args, "optimizeDatabase"@),
                                    chk2(
                                        chk_opt_i64(op, args, "daysThreshold"@),
                                        chk_opt_bool(op, args, "dryRun"@),
                                    ),
                                ),
                            ),
                        ),
                    ),
                )
            } else if t == "deep_cleanup"@ {
                chk2(
                    chk_opt_bool(op, args, "dryRun"@),
                    chk2(
                        chk_opt_bool(op, args, "keepCompanyDefaults"@),
                        chk2(
                            chk_opt_bool(op, args, "keepUserAccounts"@),
                            chk2(
                                chk_opt_bool(op, args, "keepMenus"@),
                                chk_opt_bool(op, args, "keepGroups"@),
                            ),
                        ),
                    ),
                )
            } else if t == "read_group"@ {
                chk2(
                    chk_req_str(op, args, "model"@),
                    chk2(
                        chk_opt_vec_string(op, args, "fields"@),
                        chk2(
                            chk_opt_vec_string(op, args, "groupby"@),
                            chk2(
                                chk_opt_i64(op, args, "offset"@),
                                chk2(
                                    chk_opt_i64(op, args, "limit"@),
                                    chk2(
                                        chk_opt_str(op, args, "orderby"@),
                                        chk_opt_bool(op, args, "lazy"@),
                                    ),
                                ),
                            ),
                        ),
                    ),
                )
            } else if t == "name_search"@ {
                chk2(
                    chk_req_str(op, args, "model"@),
                    chk2(
                        chk_opt_str(op, args, "name"@),
                        chk2(
                            chk_opt_str(op, args, "operator"@),
                            chk_opt_i64(op, args, "limit"@),
                        ),
                    ),
                )
            } else if t == "name_get"@ {
                chk2(chk_req_str(op, args, "model"@), chk_req_vec_i64(op, args, "ids"@))
            } else if t == "default_get"@ {
                chk2(
                    chk_req_str(op, args, "model"@),
                    chk_opt_vec_string(op, args, "fields"@),
                )
            } else if t == "copy"@ {
                chk2(chk_req_str(op, args, "model"@), chk_copy_id(op, args))
            } else if t == "onchange"@ {
                chk2(
                    chk_req_str(op, args, "model"@),
                    chk2(
                        chk_req_vec_i64(op, args, "ids"@),
                        chk2(
                            chk_req_value(op, args, "values"@),
                            chk_opt_vec_string(op, args, "fieldName"@),
                        ),
                    ),
                )
            } else if t == "list_models"@ {
                chk2(chk_opt_i64(op, args, "limit"@), chk_opt_i64(op, args, "offset"@))
            } else if t == "check_access"@ {
                chk2(
                    chk_req_str(op, args, "model"@),
                    chk2(
                        chk_req_str(op, args, "operation"@),
                        chk_opt_vec_i64(op, args, "ids"@),
                    ),
                )
            } else {
                // The one remaining known tag is create_batch.
                chk2(chk_req_str(op, args, "model"@), chk_batch_values(op, args))
            },
        )
    }
}

/// The keyword parameters the generic `execute` builds from its `args`
/// and `kwargs` values: an object is merged; an array that is not the
/// ids shape is kept under `args`; any other value under `arg` or
/// `kwargs`.
pub open spec fn exec_params_of(avv: JVal, kvv: JVal) -> Seq<(Seq<char>, JVal)> {
    let args_part: Seq<(Seq<char>, JVal)> = if avv is Null {
        Seq::empty()
    } else if avv is Arr {
        if exec_ids_shape(avv) {
            Seq::empty()
        } else {
            seq![("args"@, avv)]
        }
    } else if avv is Obj {
        obj_fields(avv)
    } else {
        seq![("arg"@, avv)]
    };
    if kvv is Obj {
        args_part + obj_fields(kvv)
    } else if kvv is Null {
        args_part
    } else {
        args_part + seq![("kwargs"@, kvv)]
    }
}

/// The positional ids the generic `execute` takes from its `args` value.
pub open spec fn exec_ids_tie(avv: JVal, ids: Option<Vec<i64>>) -> bool {
    match ids {
        Some(v) => exec_ids_shape(avv) && ints_of(arr_items(arr_items(avv)[0]), v@),
        None => !exec_ids_shape(avv),
    }
}

/// Splits the generic `execute` operation's `args` and `kwargs` values
/// into positional record ids and keyword parameters: a single-element
/// array holding an all-integer array is taken as the ids; an object is
/// merged into the parameters; any other value is kept under `args`,
/// `arg` or `kwargs`.
#[verifier::rlimit(60)]
pub fn split_execute_args(args_val: Option<Json>, kwargs_val: Option<Json>) -> (r: (
    Option<Vec<i64>>,
    Vec<(String, Json)>,
))
    ensures
        ({
            let avv = match args_val {
                Some(a) => jval_of(a),
                None => JVal::Null,
            };
            let kvv = match kwargs_val {
                Some(k) => jval_of(k),
                None => JVal::Null,
            };
            &&& exec_ids_tie(avv, r.0)
            &&& crate::json::jfields_of(r.1@) == exec_params_of(avv, kvv)
        }),
{
    let mut params: Vec<(String, Json)> = Vec::new();
    let mut ids: Option<Vec<i64>> = None;
    match args_val {
        None => (),
        Some(av) => {
            if !av.is_null() {
                match av {
                    Json::Arr(outer) => {
                        let mut as_ids: Option<Vec<i64>> = None;
                        if outer.len() == 1 {
                            proof {
                                lemma_jvals_of_len(outer@);
                                lemma_jvals_of_index(outer@, 0);
                            }
                            match &outer[0] {
                                Json::Arr(inner) => {
                                    match extract_ints(inner) {
                                        Some(got) => {
                                            proof {
                                                assert forall|k: int|
                                                    0 <= k < jvals_of(inner@).len() implies
                                                    #[trigger] jvals_of(inner@)[k] is Int by {
                                                    assert(jvals_of(inner@)[k] == JVal::Int(
                                                        got@[k],
                                                    ));
                                                }
                                            }
                                            as_ids = Some(got);
                                        },
                                        None => (),
                                    }
                                },
                                _ => (),
                            }
                        }
                        match as_ids {
                            Some(got) => {
                                proof {
                                    lemma_jvals_of_len(outer@);
                                }
                                ids = Some(got);
                            },
                            None => {
                                proof {
                                    lemma_jvals_of_len(outer@);
                                    if outer@.len() == 1 {
                                        lemma_jvals_of_index(outer@, 0);
                                    }
                                }
                                params.push(("args".to_owned(), Json::Arr(outer)));
                            },
                        }
                    },
                    Json::Obj(fs) => {
                        params = fs;
                    },
                    other => {
                        params.push(("arg".to_owned(), other));
                    },
                }
            }
        },
    }
    let ghost args_part = crate::json::jfields_of(params@);
    match kwargs_val {
        None => (),
        Some(kv) => {
            if !kv.is_null() {
                match kv {
                    Json::Obj(kfs) => {
                        let n = kfs.len();
                        let mut i: usize = 0;
                        proof {
                            crate::json::lemma_jfields_of_len(kfs@);
                        }
                        while i < n
                            invariant
                                i <= n,
                                n == kfs@.len(),
                                crate::json::jfields_of(kfs@).len() == n,
                                crate::json::jfields_of(params@) == args_part
                                    + crate::json::jfields_of(kfs@).take(i as int),
                            decreases n - i,
                        {
                            proof {
                                crate::json::lemma_jfields_of_index(kfs@, i as int);
                            }
                            let k = kfs[i].0.clone();
                            let v = kfs[i].1.clone();
                            params.push((k, v));
                            proof {
                                let fs = crate::json::jfields_of(kfs@);
                                assert(fs.take(i + 1) =~= fs.take(i as int).push(fs[i as int]));
                                assert(crate::json::jfields_of(params@) =~= args_part + fs.take(
                                    i + 1,
                                ));
                            }
                            i += 1;
                        }
                        proof {
                            assert(crate::json::jfields_of(kfs@).take(n as int)
                                =~= crate::json::jfields_of(kfs@));
                        }
                    },
                    other => {
                        params.push(("kwargs".to_owned(), other));
                        proof {
                            assert(crate::json::jfields_of(params@) =~= args_part + seq![
                                ("kwargs"@, crate::json::jfields_of(params@).last().1),
                            ]);
                        }
                    },
                }
            }
        },
    }
    proof {
        assert(args_part + Seq::<(Seq<char>, JVal)>::empty() =~= args_part);
    }
    (ids, params)
}

/// Turns a declared operation and the caller's raw arguments into the
/// backend work it asks for. The operation type tag is a closed catalog:
/// an unknown tag is a configuration fault, not a caller fault. The plan
/// carries exactly the resolved argument values; the call fails exactly
/// when the tag is unknown or a resolution fails, with that first
/// failure's message.
#[verifier::rlimit(100)]
pub fn plan_op(op: &OpSpec, args: &Json) -> (r: Result<OpPlan, OdooError>)
    ensures
        match r {
            Ok(_) => spec_check_op(*op, args@) is Ok,
            Err(e) => e matches OdooError::InvalidResponse(m) && spec_check_op(*op, args@)
                == Err::<(), Seq<char>>(m@),
        },
        r matches Ok(p) ==> spec_arg(*op, args@, "instance"@) == Some(
            JVal::Str(plan_instance(p)),
        ),
        r matches Ok(p) ==> (op.op_type@ == "search"@ ==> (p matches OpPlan::Call { call, .. }
            && (call matches ClientCall::Search { model, domain, limit, offset, order, context }
            && model@ == str_arg(*op, args@, "model"@) && opt_json_view(domain) == opt_val_arg(
            *op,
            args@,
            "domain"@,
        ) && limit == opt_i64_arg(*op, args@, "limit"@) && offset == opt_i64_arg(
            *op,
            args@,
            "offset"@,
        ) && view_opt_string(order) == opt_str_arg(*op, args@, "order"@) && opt_json_view(
            context,
        ) == opt_val_arg(*op, args@, "context"@)))),
        r matches Ok(p) ==> (op.op_type@ == "search_read"@ ==> (p matches OpPlan::Call {
            call,
            ..
        } && (call matches ClientCall::SearchRead {
            model,
            domain,
            fields,
            limit,
            offset,
            order,
            context,
        } && model@ == str_arg(*op, args@, "model"@) && opt_json_view(domain) == opt_val_arg(
            *op,
            args@,
            "domain"@,
        ) && opt_strs_tie(*op, args@, "fields"@, fields) && limit == opt_i64_arg(
            *op,
            args@,
            "limit"@,
        ) && offset == opt_i64_arg(*op, args@, "offset"@) && view_opt_string(order)
            == opt_str_arg(*op, args@, "order"@) && opt_json_view(context) == opt_val_arg(
            *op,
            args@,
            "context"@,
        )))),
        r matches Ok(p) ==> (op.op_type@ == "read"@ ==> (p matches OpPlan::Call { call, .. } && (
        call matches ClientCall::Read { model, ids, fields, context } && model@ == str_arg(
            *op,
            args@,
            "model"@,
        ) && ids_tie(*op, args@, "ids"@, ids@) && opt_strs_tie(*op, args@, "fields"@, fields)
            && opt_json_view(context) == opt_val_arg(*op, args@, "context"@)))),
        r matches Ok(p) ==> (op.op_type@ == "create"@ ==> (p matches OpPlan::Call { call, .. } && (
        call matches ClientCall::Create { model, values, context } && model@ == str_arg(
            *op,
            args@,
            "model"@,
        ) && spec_arg(*op, args@, "values"@) == Some(jval_of(values)) && opt_json_view(context)
            == opt_val_arg(*op, args@, "context"@)))),
        r matches Ok(p) ==> (op.op_type@ == "write"@ ==> (p matches OpPlan::Call { call, .. } && (
        call matches ClientCall::Write { model, ids, values, context } && model@ == str_arg(
            *op,
            args@,
            "model"@,
        ) && ids_tie(*op, args@, "ids"@, ids@) && spec_arg(*op, args@, "values"@) == Some(
            jval_of(values),
        ) && opt_json_view(context) == opt_val_arg(*op, args@, "context"@)))),
        r matches Ok(p) ==> (op.op_type@ == "unlink"@ ==> (p matches OpPlan::Call { call, .. } && (
        call matches ClientCall::Unlink { model, ids, context } && model@ == str_arg(
            *op,
            args@,
            "model"@,
        ) && ids_tie(*op, args@, "ids"@, ids@) && opt_json_view(context) == opt_val_arg(
            *op,
            args@,
            "context"@,
        )))),
        r matches Ok(p) ==> (op.op_type@ == "search_count"@ ==> (p matches OpPlan::Call {
            call,
            ..
        } && (call matches ClientCall::SearchCount { model, domain, context } && model@
            == str_arg(*op, args@, "model"@) && opt_json_view(domain) == opt_val_arg(
            *op,
            args@,
            "domain"@,
        ) && opt_json_view(context) == opt_val_arg(*op, args@, "context"@)))),
        r matches Ok(p) ==> (op.op_type@ == "workflow_action"@ ==> (p matches OpPlan::Call {
            call,
            ..
        } && (call matches ClientCall::CallNamed { model, method, ids, params, context }
            && model@ == str_arg(*op, args@, "model"@) && method@ == str_arg(
            *op,
            args@,
            "action"@,
        ) && (ids matches Some(v) && ids_tie(*op, args@, "ids"@, v@)) && params@.len() == 0
            && opt_json_view(context) == opt_val_arg(*op, args@, "context"@)))),
        r matches Ok(p) ==> (op.op_type@ == "execute"@ ==> (p matches OpPlan::Call { call, .. }
            && (call matches ClientCall::CallNamed { model, method, ids, params, context }
            && model@ == str_arg(*op, args@, "model"@) && method@ == str_arg(
            *op,
            args@,
            "method"@,
        ) && exec_ids_tie(arg_or_null(*op, args@, "args"@), ids) && crate::json::jfields_of(
            params@,
        ) == exec_params_of(arg_or_null(*op, args@, "args"@), arg_or_null(*op, args@, "kwargs"@))
            && opt_json_view(context) == opt_val_arg(*op, args@, "context"@)))),
        r matches Ok(p) ==> (op.op_type@ == "generate_report"@ ==> (p matches OpPlan::Report {
            report_name,
            ids,
            ..
        } && report_name@ == str_arg(*op, args@, "reportName"@) && ids_tie(
            *op,
            args@,
            "ids"@,
            ids@,
        ))),
        r matches Ok(p) ==> (op.op_type@ == "get_model_metadata"@ ==> (p matches OpPlan::Metadata {
            model,
            context,
            ..
        } && model@ == str_arg(*op, args@, "model"@) && opt_json_view(context) == opt_val_arg(
            *op,
            args@,
            "context"@,
        ))),
        r matches Ok(p) ==> (op.op_type@ == "database_cleanup"@ ==> (p
            matches OpPlan::DatabaseCleanup { options, .. } && options.remove_test_data
            == opt_bool_arg(*op, args@, "removeTestData"@) && options.remove_inactive_records
            == opt_bool_arg(*op, args@, "removeInactivRecords"@) && options.cleanup_drafts
            == opt_bool_arg(*op, args@, "cleanupDrafts"@) && options.archive_old_records
            == opt_bool_arg(*op, args@, "archiveOldRecords"@) && options.optimize_database
            == opt_bool_arg(*op, args@, "optimizeDatabase"@) && options.days_threshold
            == opt_i64_arg(*op, args@, "daysThreshold"@) && options.dry_run == opt_bool_arg(
            *op,
            args@,
            "dryRun"@,
        ))),
        r matches Ok(p) ==> (op.op_type@ == "deep_cleanup"@ ==> (p matches OpPlan::DeepCleanup {
            options,
            ..
        } && options.dry_run == Some(
            match opt_bool_arg(*op, args@, "dryRun"@) {
                Some(b) => b,
                None => true,
            },
        ) && options.keep_company_defaults == opt_bool_arg(*op, args@, "keepCompanyDefaults"@)
            && options.keep_user_accounts == opt_bool_arg(*op, args@, "keepUserAccounts"@)
            && options.keep_menus == opt_bool_arg(*op, args@, "keepMenus"@)
            && options.keep_groups == opt_bool_arg(*op, args@, "keepGroups"@))),
        r matches Ok(p) ==> (op.op_type@ == "read_group"@ ==> (p matches OpPlan::Call { call, .. }
            && (call matches ClientCall::ReadGroup {
            model,
            domain,
            fields,
            groupby,
            offset,
            limit,
            orderby,
            lazy,
            context,
        } && model@ == str_arg(*op, args@, "model"@) && opt_json_view(domain) == opt_val_arg(
            *op,
            args@,
            "domain"@,
        ) && strs_or_empty_tie(*op, args@, "fields"@, fields@) && strs_or_empty_tie(
            *op,
            args@,
            "groupby"@,
            groupby@,
        ) && offset == opt_i64_arg(*op, args@, "offset"@) && limit == opt_i64_arg(
            *op,
            args@,
            "limit"@,
        ) && view_opt_string(orderby) == opt_str_arg(*op, args@, "orderby"@) && lazy
            == opt_bool_arg(*op, args@, "lazy"@) && opt_json_view(context) == opt_val_arg(
            *op,
            args@,
            "context"@,
        )))),
        r matches Ok(p) ==> (op.op_type@ == "name_search"@ ==> (p matches OpPlan::Call {
            call,
            ..
        } && (call matches ClientCall::NameSearch {
            model,
            name,
            args: sargs,
            operator,
            limit,
            context,
        } && model@ == str_arg(*op, args@, "model"@) && view_opt_string(name) == opt_str_arg(
            *op,
            args@,
            "name"@,
        ) && opt_json_view(sargs) == opt_val_arg(*op, args@, "args"@) && view_opt_string(
            operator,
        ) == opt_str_arg(*op, args@, "operator"@) && limit == opt_i64_arg(*op, args@, "limit"@)
            && opt_json_view(context) == opt_val_arg(*op, args@, "context"@)))),
        r matches Ok(p) ==> (op.op_type@ == "name_get"@ ==> (p matches OpPlan::Call { call, .. }
            && (call matches ClientCall::NameGet { model, ids, context } && model@ == str_arg(
            *op,
            args@,
            "model"@,
        ) && ids_tie(*op, args@, "ids"@, ids@) && opt_json_view(context) == opt_val_arg(
            *op,
            args@,
            "context"@,
        )))),
        r matches Ok(p) ==> (op.op_type@ == "default_get"@ ==> (p matches OpPlan::Call {
            call,
            ..
        } && (call matches ClientCall::DefaultGet { model, fields_list, context } && model@
            == str_arg(*op, args@, "model"@) && strs_or_empty_tie(
            *op,
            args@,
            "fields"@,
            fields_list@,
        ) && opt_json_view(context) == opt_val_arg(*op, args@, "context"@)))),
        r matches Ok(p) ==> (op.op_type@ == "copy"@ ==> (p matches OpPlan::Call { call, .. } && (
        call matches ClientCall::Copy { model, id, default, context } && model@ == str_arg(
            *op,
            args@,
            "model"@,
        ) && spec_arg(*op, args@, "id"@) == Some(JVal::Int(id)) && opt_json_view(default)
            == opt_val_arg(*op, args@, "default"@) && opt_json_view(context) == opt_val_arg(
            *op,
            args@,
            "context"@,
        )))),
        r matches Ok(p) ==> (op.op_type@ == "onchange"@ ==> (p matches OpPlan::Call { call, .. }
            && (call matches ClientCall::Onchange {
            model,
            ids,
            values,
            field_name,
            field_onchange,
            context,
        } && model@ == str_arg(*op, args@, "model"@) && ids_tie(*op, args@, "ids"@, ids@)
            && spec_arg(*op, args@, "values"@) == Some(jval_of(values)) && strs_or_empty_tie(
            *op,
            args@,
            "fieldName"@,
            field_name@,
        ) && jval_of(field_onchange) == (match opt_val_arg(*op, args@, "fieldOnchange"@) {
            Some(x) => x,
            None => JVal::Obj(Seq::empty()),
        }) && opt_json_view(context) == opt_val_arg(*op, args@, "context"@)))),
        r matches Ok(p) ==> (op.op_type@ == "list_models"@ ==> (p matches OpPlan::Call {
            call,
            ..
        } && (call matches ClientCall::SearchRead {
            model,
            domain,
            fields,
            limit,
            offset,
            order,
            context,
        } && model@ == "ir.model"@ && opt_json_view(domain) == opt_val_arg(
            *op,
            args@,
            "domain"@,
        ) && (fields matches Some(fs) && fs@.len() == 2 && fs@[0]@ == "model"@ && fs@[1]@
            == "name"@) && limit == opt_i64_arg(*op, args@, "limit"@) && offset == opt_i64_arg(
            *op,
            args@,
            "offset"@,
        ) && order is None && opt_json_view(context) == opt_val_arg(*op, args@, "context"@)))),
        r matches Ok(p) ==> (op.op_type@ == "check_access"@ ==> (p matches OpPlan::CheckAccess {
            model,
            operation,
            ids,
            context,
            ..
        } && model@ == str_arg(*op, args@, "model"@) && operation@ == str_arg(
            *op,
            args@,
            "operation"@,
        ) && opt_ints_tie(*op, args@, "ids"@, ids) && opt_json_view(context) == opt_val_arg(
            *op,
            args@,
            "context"@,
        ))),
        r matches Ok(p) ==> (op.op_type@ == "create_batch"@ ==> (p matches OpPlan::CreateBatch {
            model,
            values,
            context,
            ..
        } && model@ == str_arg(*op, args@, "model"@) && (spec_arg(
            *op,
            args@,
            "values"@,
        ) matches Some(v) && v is Arr && jvals_of(values@) == arr_items(v)) && values@.len()
            <= 100 && opt_json_view(context) == opt_val_arg(*op, args@, "context"@))),
{
    broadcast use {lemma_ints_of_all_ints, lemma_strings_of_all_strs};

    proof {
        reveal_strlit("search");
        reveal_strlit("search_read");
        reveal_strlit("read");
        reveal_strlit("create");
        reveal_strlit("write");
        reveal_strlit("unlink");
        reveal_strlit("search_count");
        reveal_strlit("workflow_action");
        reveal_strlit("execute");
        reveal_strlit("generate_report");
        reveal_strlit("get_model_metadata");
        reveal_strlit("database_cleanup");
        reveal_strlit("deep_cleanup");
        reveal_strlit("read_group");
        reveal_strlit("name_search");
        reveal_strlit("name_get");
        reveal_strlit("default_get");
        reveal_strlit("copy");
        reveal_strlit("onchange");
        reveal_strlit("list_models");
        reveal_strlit("check_access");
        reveal_strlit("create_batch");
        assert(("search"@).len() == 6);
        assert(("search_read"@).len() == 11);
        assert(("read"@).len() == 4);
        assert(("create"@).len() == 6);
        assert(("write"@).len() == 5);
        assert(("unlink"@).len() == 6);
        assert(("search_count"@).len() == 12);
        assert(("workflow_action"@).len() == 15);
        assert(("execute"@).len() == 7);
        assert(("generate_report"@).len() == 15);
        assert(("get_model_metadata"@).len() == 18);
        assert(("database_cleanup"@).len() == 16);
        assert(("deep_cleanup"@).len() == 12);
        assert(("read_group"@).len() == 10);
        assert(("name_search"@).len() == 11);
        assert(("name_get"@).len() == 8);
        assert(("default_get"@).len() == 11);
        assert(("copy"@).len() == 4);
        assert(("onchange"@).len() == 8);
        assert(("list_models"@).len() == 11);
        assert(("check_access"@).len() == 12);
        assert(("create_batch"@).len() == 12);
        assert(("search"@)[0] == 's' && ("create"@)[0] == 'c' && ("unlink"@)[0] == 'u');
        assert(("read"@)[0] == 'r' && ("copy"@)[0] == 'c');
        assert(("search_read"@)[0] == 's' && ("name_search"@)[0] == 'n' && ("default_get"@)[0]
            == 'd' && ("list_models"@)[0] == 'l');
        assert(("workflow_action"@)[0] == 'w' && ("generate_report"@)[0] == 'g');
        assert(("name_get"@)[0] == 'n' && ("onchange"@)[0] == 'o');
        assert(("search_count"@)[0] == 's' && ("deep_cleanup"@)[0] == 'd' && ("create_batch"@)[0]
            == 'c' && ("check_access"@)[0] == 'c');
        assert(("create_batch"@)[1] == 'r' && ("check_access"@)[1] == 'h');
    }
    let tag = op.op_type.as_str();
    let instance = match req_str(args, op, "instance") {
        Ok(s) => s,
        Err(e) => {
            if known_op(tag) {
                return Err(e);
            } else {
                return Err(unknown_op_error(tag));
            }
        },
    };
    if str_eq(tag, "search") {
        let model = req_str(args, op, "model")?;
        let domain = opt_value(args, op, "domain");
        let limit = opt_i64(args, op, "limit")?;
        let offset = opt_i64(args, op, "offset")?;
        let order = opt_str(args, op, "order")?;
        let context = opt_value(args, op, "context");
        Ok(OpPlan::Call {
            instance,
            call: ClientCall::Search { model, domain, limit, offset, order, context },
        })
    } else if str_eq(tag, "search_read") {
        let model = req_str(args, op, "model")?;
        let domain = opt_value(args, op, "domain");
        let fields = opt_vec_string(args, op, "fields")?;
        let limit = opt_i64(args, op, "limit")?;
        let offset = opt_i64(args, op, "offset")?;
        let order = opt_str(args, op, "order")?;
        let context = opt_value(args, op, "context");
        Ok(OpPlan::Call {
            instance,
            call: ClientCall::SearchRead { model, domain, fields, limit, offset, order, context },
        })
    } else if str_eq(tag, "read") {
        let model = req_str(args, op, "model")?;
        let ids = req_vec_i64(args, op, "ids")?;
        let fields = opt_vec_string(args, op, "fields")?;
        let context = opt_value(args, op, "context");
        Ok(OpPlan::Call { instance, call: ClientCall::Read { model, ids, fields, context } })
    } else if str_eq(tag, "create") {
        let model = req_str(args, op, "model")?;
        let values = req_value(args, op, "values")?;
        let context = opt_value(args, op, "context");
        Ok(OpPlan::Call { instance, call: ClientCall::Create { model, values, context } })
    } else if str_eq(tag, "write") {
        let model = req_str(args, op, "model")?;
        let ids = req_vec_i64(args, op, "ids")?;
        let values = req_value(args, op, "values")?;
        let context = opt_value(args, op, "context");
        Ok(OpPlan::Call { instance, call: ClientCall::Write { model, ids, values, context } })
    } else if str_eq(tag, "unlink") {
        let model = req_str(args, op, "model")?;
        let ids = req_vec_i64(args, op, "ids")?;
        let context = opt_value(args, op, "context");
        Ok(OpPlan::Call { instance, call: ClientCall::Unlink { model, ids, context } })
    } else if str_eq(tag, "search_count") {
        let model = req_str(args, op, "model")?;
        let domain = opt_value(args, op, "domain");
        let context = opt_value(args, op, "context");
        Ok(OpPlan::Call { instance, call: ClientCall::SearchCount { model, domain, context } })
    } else if str_eq(tag, "workflow_action") {
        let model = req_str(args, op, "model")?;
        let ids = req_vec_i64(args, op, "ids")?;
        let action = req_str(args, op, "action")?;
        let context = opt_value(args, op, "context");
        Ok(OpPlan::Call {
            instance,
            call: ClientCall::CallNamed {
                model,
                method: action,
                ids: Some(ids),
                params: Vec::new(),
                context,
            },
        })
    } else if str_eq(tag, "execute") {
        let model = req_str(args, op, "model")?;
        let method = req_str(args, op, "method")?;
        let args_val = match ptr(args, op, "args") {
            Some(v) => Some(v.clone()),
            None => None,
        };
        let kwargs_val = match ptr(args, op, "kwargs") {
            Some(v) => Some(v.clone()),
            None => None,
        };
        let context = opt_value(args, op, "context");
        let (ids, params) = split_execute_args(args_val, kwargs_val);
        Ok(OpPlan::Call {
            instance,
            call: ClientCall::CallNamed { model, method, ids, params, context },
        })
    } else if str_eq(tag, "generate_report") {
        let report_name = req_str(args, op, "reportName")?;
        let ids = req_vec_i64(args, op, "ids")?;
        Ok(OpPlan::Report { instance, report_name, ids })
    } else if str_eq(tag, "get_model_metadata") {
        let model = req_str(args, op, "model")?;
        let context = opt_value(args, op, "context");
        Ok(OpPlan::Metadata { instance, model, context })
    } else if str_eq(tag, "database_cleanup") {
        let options = crate::cleanup::CleanupOptions {
            remove_test_data: opt_bool(args, op, "removeTestData")?,
            remove_inactive_records: opt_bool(args, op, "removeInactivRecords")?,
            cleanup_drafts: opt_bool(args, op, "cleanupDrafts")?,
            archive_old_records: opt_bool(args, op, "archiveOldRecords")?,
            optimize_database: opt_bool(args, op, "optimizeDatabase")?,
            days_threshold: opt_i64(args, op, "daysThreshold")?,
            dry_run: opt_bool(args, op, "dryRun")?,
        };
        Ok(OpPlan::DatabaseCleanup { instance, options })
    } else if str_eq(tag, "deep_cleanup") {
        let dry = opt_bool(args, op, "dryRun")?;
        let options = crate::cleanup::DeepCleanupOptions {
            dry_run: Some(
                match dry {
                    Some(b) => b,
                    None => true,
                },
            ),
            keep_company_defaults: opt_bool(args, op, "keepCompanyDefaults")?,
            keep_user_accounts: opt_bool(args, op, "keepUserAccounts")?,
            keep_menus: opt_bool(args, op, "keepMenus")?,
            keep_groups: opt_bool(args, op, "keepGroups")?,
        };
        Ok(OpPlan::DeepCleanup { instance, options })
    } else if str_eq(tag, "read_group") {
        let model = req_str(args, op, "model")?;
        let fields = match opt_vec_string(args, op, "fields")? {
            Some(fs) => fs,
            None => Vec::new(),
        };
        let groupby = match opt_vec_string(args, op, "groupby")? {
            Some(gs) => gs,
            None => Vec::new(),
        };
        let domain = opt_value(args, op, "domain");
        let offset = opt_i64(args, op, "offset")?;
        let limit = opt_i64(args, op, "limit")?;
        let orderby = opt_str(args, op, "orderby")?;
        let lazy = opt_bool(args, op, "lazy")?;
        let context = opt_value(args, op, "context");
        Ok(OpPlan::Call {
            instance,
            call: ClientCall::ReadGroup {
                model,
                domain,
                fields,
                groupby,
                offset,
                limit,
                orderby,
                lazy,
                context,
            },
        })
    } else if str_eq(tag, "name_search") {
        let model = req_str(args, op, "model")?;
        let name = opt_str(args, op, "name")?;
        let domain = opt_value(args, op, "args");
        let operator = opt_str(args, op, "operator")?;
        let limit = opt_i64(args, op, "limit")?;
        let context = opt_value(args, op, "context");
        Ok(OpPlan::Call {
            instance,
            call: ClientCall::NameSearch { model, name, args: domain, operator, limit, context },
        })
    } else if str_eq(tag, "name_get") {
        let model = req_str(args, op, "model")?;
        let ids = req_vec_i64(args, op, "ids")?;
        let context = opt_value(args, op, "context");
        Ok(OpPlan::Call { instance, call: ClientCall::NameGet { model, ids, context } })
    } else if str_eq(tag, "default_get") {
        let model = req_str(args, op, "model")?;
        let fields_list = match opt_vec_string(args, op, "fields")? {
            Some(fs) => fs,
            None => Vec::new(),
        };
        let context = opt_value(args, op, "context");
        Ok(OpPlan::Call {
            instance,
            call: ClientCall::DefaultGet { model, fields_list, context },
        })
    } else if str_eq(tag, "copy") {
        let model = req_str(args, op, "model")?;
        let id = match opt_i64(args, op, "id")? {
            Some(n) => n,
            None => {
                return Err(
                    OdooError::InvalidResponse("Missing required argument 'id'".to_owned()),
                );
            },
        };
        let default = opt_value(args, op, "default");
        let context = opt_value(args, op, "context");
        Ok(OpPlan::Call { instance, call: ClientCall::Copy { model, id, default, context } })
    } else if str_eq(tag, "onchange") {
        let model = req_str(args, op, "model")?;
        let ids = req_vec_i64(args, op, "ids")?;
        let values = req_value(args, op, "values")?;
        let field_name = match opt_vec_string(args, op, "fieldName")? {
            Some(fs) => fs,
            None => Vec::new(),
        };
        let field_onchange = match opt_value(args, op, "fieldOnchange") {
            Some(v) => v,
            None => Json::Obj(Vec::new()),
        };
        let context = opt_value(args, op, "context");
        Ok(OpPlan::Call {
            instance,
            call: ClientCall::Onchange { model, ids, values, field_name, field_onchange, context },
        })
    } else if str_eq(tag, "list_models") {
        let domain = match opt_value(args, op, "domain") {
            Some(v) => Some(v),
            None => None,
        };
        let limit = opt_i64(args, op, "limit")?;
        let offset = opt_i64(args, op, "offset")?;
        let context = opt_value(args, op, "context");
        let mut fields: Vec<String> = Vec::new();
        fields.push("model".to_owned());
        fields.push("name".to_owned());
        Ok(OpPlan::Call {
            instance,
            call: ClientCall::SearchRead {
                model: "ir.model".to_owned(),
                domain,
                fields: Some(fields),
                limit,
                offset,
                order: None,
                context,
            },
        })
    } else if str_eq(tag, "check_access") {
        let model = req_str(args, op, "model")?;
        let operation = req_str(args, op, "operation")?;
        let ids = opt_vec_i64(args, op, "ids")?;
        let context = opt_value(args, op, "context");
        Ok(OpPlan::CheckAccess { instance, model, operation, ids, context })
    } else if str_eq(tag, "create_batch") {
        let model = req_str(args, op, "model")?;
        let values_array = req_value(args, op, "values")?;
        let context = opt_value(args, op, "context");
        let values: Vec<Json> = match values_array {
            Json::Arr(items) => items,
            _ => {
                return Err(OdooError::InvalidResponse("'values' must be an array".to_owned()));
            },
        };
        proof {
            crate::json::lemma_jvals_of_len(values@);
        }
        if values.len() > 100 {
            return Err(
                OdooError::InvalidResponse("Batch size limited to 100 records".to_owned()),
            );
        }
        Ok(OpPlan::CreateBatch { instance, model, values, context })
    } else {
        Err(unknown_op_error(tag))
    }
}

fn known_op(tag: &str) -> (r: bool)
    ensures
        r == known_op_type(tag@),
{
    str_eq(tag, "search") || str_eq(tag, "search_read") || str_eq(tag, "read") || str_eq(
        tag,
        "create",
    ) || str_eq(tag, "write") || str_eq(tag, "unlink") || str_eq(tag, "search_count") || str_eq(
        tag,
        "workflow_action",
    ) || str_eq(tag, "execute") || str_eq(tag, "generate_report") || str_eq(
        tag,
        "get_model_metadata",
    ) || str_eq(tag, "database_cleanup") || str_eq(tag, "deep_cleanup") || str_eq(
        tag,
        "read_group",
    ) || str_eq(tag, "name_search") || str_eq(tag, "name_get") || str_eq(tag, "default_get")
        || str_eq(tag, "copy") || str_eq(tag, "onchange") || str_eq(tag, "list_models") || str_eq(
        tag,
        "check_access",
    ) || str_eq(tag, "create_batch")
}

fn unknown_op_error(tag: &str) -> (r: OdooError)
    ensures
        r matches OdooError::InvalidResponse(m) && m@ == "Unknown op.type: "@ + tag@,
{
    let mut m = "Unknown op.type: ".to_owned();
    m.append(tag);
    OdooError::InvalidResponse(m)
}

} // verus!
