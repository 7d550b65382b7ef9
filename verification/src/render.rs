//! The result shaping of each operation: what the executor wraps around
//! the backend's answer before it becomes the tool payload.

use vstd::prelude::*;

use crate::backend::OdooError;
use crate::dialects::ints_view;
use crate::executor::{ClientCall, all_ints, arr_items};
use crate::json::{JVal, Json, jarr1, jobj1, jobj2, jobj3, jval_of};
use crate::strutil::str_eq;

verus! {

broadcast use {vstd::std_specs::vec::group_vec_axioms, vstd::seq::group_seq_axioms};

/// `search`: the ids and how many there are.
pub fn render_search(ids: &Vec<i64>) -> (r: Json)
    requires
        ids@.len() <= i64::MAX,
    ensures
        r@ == JVal::Obj(
            seq![
                ("ids"@, JVal::Arr(ints_view(ids@))),
                ("count"@, JVal::Int(ids@.len() as i64)),
            ],
        ),
{
    let n = ids.len();
    jobj2("ids", crate::dialects::ints_json(ids), "count", Json::Int(n as i64))
}

/// How many records an array result holds; zero for any other shape.
pub open spec fn spec_arr_count(v: JVal) -> i64 {
    match v {
        JVal::Arr(items) => if items.len() <= i64::MAX {
            items.len() as i64
        } else {
            0
        },
        _ => 0,
    }
}

/// `search_read`: the records and how many, zero when the backend did not
/// answer with an array.
pub fn render_search_read(records: Json) -> (r: Json)
    ensures
        r@ == JVal::Obj(
            seq![
                ("records"@, jval_of(records)),
                ("count"@, JVal::Int(spec_arr_count(jval_of(records)))),
            ],
        ),
{
    let count: i64 = arr_count(&records);
    jobj2("records", records, "count", Json::Int(count))
}

fn arr_count(v: &Json) -> (n: i64)
    ensures
        n == spec_arr_count(v@),
{
    match v {
        Json::Arr(items) => {
            proof {
                crate::json::lemma_jvals_of_len(items@);
            }
            let k = items.len();
            if (k as u64) <= 0x7FFF_FFFF_FFFF_FFFFu64 {
                k as i64
            } else {
                0
            }
        },
        _ => 0,
    }
}

/// `read`: the records.
pub fn render_read(records: Json) -> (r: Json)
    ensures
        r@ == JVal::Obj(seq![("records"@, jval_of(records))]),
{
    jobj1("records", records)
}

/// `create` and `copy`: the new id.
pub fn render_created(id: i64) -> (r: Json)
    ensures
        r@ == JVal::Obj(seq![("id"@, JVal::Int(id)), ("success"@, JVal::Bool(true))]),
{
    jobj2("id", Json::Int(id), "success", Json::Bool(true))
}

/// `write`: whether it succeeded and how many records it touched.
pub fn render_write(ok: bool, updated: i64) -> (r: Json)
    ensures
        r@ == JVal::Obj(
            seq![("success"@, JVal::Bool(ok)), ("updated_count"@, JVal::Int(updated))],
        ),
{
    jobj2("success", Json::Bool(ok), "updated_count", Json::Int(updated))
}

/// `unlink`: whether it succeeded and how many records left.
pub fn render_unlink(ok: bool, deleted: i64) -> (r: Json)
    ensures
        r@ == JVal::Obj(
            seq![("success"@, JVal::Bool(ok)), ("deleted_count"@, JVal::Int(deleted))],
        ),
{
    jobj2("success", Json::Bool(ok), "deleted_count", Json::Int(deleted))
}

/// `search_count`: the count.
pub fn render_count(count: i64) -> (r: Json)
    ensures
        r@ == JVal::Obj(seq![("count"@, JVal::Int(count))]),
{
    jobj1("count", Json::Int(count))
}

/// `workflow_action`: the result and the ids it ran on.
pub fn render_workflow(result: Json, ids: &Vec<i64>) -> (r: Json)
    ensures
        r@ == JVal::Obj(
            seq![
                ("result"@, jval_of(result)),
                ("executed_on"@, JVal::Arr(ints_view(ids@))),
            ],
        ),
{
    jobj2("result", result, "executed_on", crate::dialects::ints_json(ids))
}

/// `execute` and `onchange`: the raw result.
pub fn render_result(result: Json) -> (r: Json)
    ensures
        r@ == JVal::Obj(seq![("result"@, jval_of(result))]),
{
    jobj1("result", result)
}

/// `generate_report`: the PDF as base64, with the report name and ids.
pub fn render_report(pdf_base64: String, report_name: String, ids: &Vec<i64>) -> (r: Json)
    ensures
        r@ == JVal::Obj(
            seq![
                ("pdf_base64"@, JVal::Str(pdf_base64@)),
                ("report_name"@, JVal::Str(report_name@)),
                ("record_ids"@, JVal::Arr(ints_view(ids@))),
            ],
        ),
{
    jobj3(
        "pdf_base64",
        Json::Str(pdf_base64),
        "report_name",
        Json::Str(report_name),
        "record_ids",
        crate::dialects::ints_json(ids),
    )
}

/// `generate_report`, from the downloaded bytes: the payload carries the
/// base64 text of exactly those bytes.
pub fn finish_report(report_name: &str, ids: &Vec<i64>, pdf: &Vec<u8>) -> (r: Json)
    requires
        pdf@.len() <= 0x1000_0000_0000_0000,
    ensures
        r@ == JVal::Obj(
            seq![
                ("pdf_base64"@, JVal::Str(crate::backend::b64_of(pdf@))),
                ("report_name"@, JVal::Str(report_name@)),
                ("record_ids"@, JVal::Arr(ints_view(ids@))),
            ],
        ),
{
    let b64 = crate::backend::encode_base64(pdf);
    render_report(b64, report_name.to_owned(), ids)
}

/// `read_group`: the groups.
pub fn render_read_group(result: Json) -> (r: Json)
    ensures
        r@ == JVal::Obj(seq![("groups"@, jval_of(result))]),
{
    jobj1("groups", result)
}

/// `name_search`: the matches.
pub fn render_name_search(result: Json) -> (r: Json)
    ensures
        r@ == JVal::Obj(seq![("results"@, jval_of(result))]),
{
    jobj1("results", result)
}

/// `name_get`: the display names.
pub fn render_name_get(result: Json) -> (r: Json)
    ensures
        r@ == JVal::Obj(seq![("names"@, jval_of(result))]),
{
    jobj1("names", result)
}

/// `default_get`: the default values.
pub fn render_default_get(result: Json) -> (r: Json)
    ensures
        r@ == JVal::Obj(seq![("defaults"@, jval_of(result))]),
{
    jobj1("defaults", result)
}

/// `list_models`: the models.
pub fn render_list_models(models: Json) -> (r: Json)
    ensures
        r@ == JVal::Obj(seq![("models"@, jval_of(models))]),
{
    jobj1("models", models)
}

/// `create_batch`: the created ids and how many.
pub fn render_create_batch(ids: &Vec<i64>) -> (r: Json)
    requires
        ids@.len() <= i64::MAX,
    ensures
        r@ == JVal::Obj(
            seq![
                ("ids"@, JVal::Arr(ints_view(ids@))),
                ("count"@, JVal::Int(ids@.len() as i64)),
            ],
        ),
{
    let n = ids.len();
    jobj2("ids", crate::dialects::ints_json(ids), "count", Json::Int(n as i64))
}

/// An optional document, `null` when absent.
pub open spec fn opt_jval(v: Option<Json>) -> JVal {
    match v {
        Some(j) => jval_of(j),
        None => JVal::Null,
    }
}

/// `check_access`: the model-level answer, and the record-level one when
/// record ids were given.
pub fn render_check_access(
    model: &str,
    operation: &str,
    access_result: Json,
    record_result: Option<Json>,
) -> (r: Json)
    ensures
        r@ == JVal::Obj(
            seq![
                ("has_access"@, JVal::Bool(true)),
                ("model"@, JVal::Str(model@)),
                ("operation"@, JVal::Str(operation@)),
                ("model_level"@, jval_of(access_result)),
                ("record_level"@, opt_jval(record_result)),
            ],
        ),
{
    let ghost rlv = opt_jval(record_result);
    let ghost alv = jval_of(access_result);
    let record_level = match record_result {
        Some(v) => v,
        None => Json::Null,
    };
    proof {
        assert(jval_of(record_level) == rlv);
    }
    let mut fields: Vec<(String, Json)> = Vec::new();
    fields.push(("has_access".to_owned(), Json::Bool(true)));
    fields.push(("model".to_owned(), Json::Str(model.to_owned())));
    fields.push(("operation".to_owned(), Json::Str(operation.to_owned())));
    fields.push(("model_level".to_owned(), access_result));
    fields.push(("record_level".to_owned(), record_level));
    proof {
        crate::json::lemma_jfields_of_len(fields@);
        crate::json::lemma_jfields_of_index(fields@, 0);
        crate::json::lemma_jfields_of_index(fields@, 1);
        crate::json::lemma_jfields_of_index(fields@, 2);
        crate::json::lemma_jfields_of_index(fields@, 3);
        crate::json::lemma_jfields_of_index(fields@, 4);
        assert(crate::json::jfields_of(fields@) =~= seq![
            ("has_access"@, JVal::Bool(true)),
            ("model"@, JVal::Str(model@)),
            ("operation"@, JVal::Str(operation@)),
            ("model_level"@, alv),
            ("record_level"@, rlv),
        ]);
    }
    Json::Obj(fields)
}

/// How one client call's backend result is shaped into the tool payload,
/// decided from the call alone before the exchange happens.
#[derive(Debug)]
pub enum RenderPlan {
    /// `search`: an all-integer id array, counted.
    SearchIds,
    /// `search_read` and the other record listings.
    Records,
    /// `list_models`: the records under `models`.
    Models,
    /// `read`: the records under `records` without a count.
    ReadRecords,
    /// `create` and `copy`: the created id decoded.
    Created,
    /// `write`: a boolean result, with how many records were addressed.
    WriteAck { n: i64 },
    /// `unlink`: a boolean result, with how many records were addressed.
    UnlinkAck { n: i64 },
    /// `search_count`: an integer result.
    Counted,
    /// `fields_get`: the result is the payload.
    Raw,
    /// `workflow_action`: the result and the ids it ran on.
    Workflow { ids: Vec<i64> },
    /// The generic named call and `onchange`: the result under `result`.
    Named,
    /// `read_group`: the groups.
    Groups,
    /// `name_search`: the matches.
    Matches,
    /// `name_get`: the display names.
    Names,
    /// `default_get`: the defaults.
    Defaults,
}

fn copy_ids(v: &Vec<i64>) -> (out: Vec<i64>)
    ensures
        out@ == v@,
{
    let n = v.len();
    let mut out: Vec<i64> = Vec::new();
    let mut i: usize = 0;
    while i < n
        invariant
            i <= n,
            n == v@.len(),
            out@ == v@.take(i as int),
        decreases n - i,
    {
        out.push(v[i]);
        proof {
            assert(v@.take(i + 1) =~= v@.take(i as int).push(v@[i as int]));
        }
        i += 1;
    }
    proof {
        assert(v@.take(n as int) =~= v@);
    }
    out
}

/// Picks the result shaping for one client call: each call kind has its
/// renderer; `list_models` and `workflow_action` share a call kind with
/// other operations and are told apart by the operation type tag.
pub fn call_render_plan(op_type: &str, call: &ClientCall) -> (r: RenderPlan)
    ensures
        match *call {
            ClientCall::Search { .. } => r is SearchIds,
            ClientCall::SearchRead { .. } => if op_type@ == "list_models"@ {
                r is Models
            } else {
                r is Records
            },
            ClientCall::Read { .. } => r is ReadRecords,
            ClientCall::Create { .. } => r is Created,
            ClientCall::Copy { .. } => r is Created,
            ClientCall::Write { ref ids, .. } => r matches RenderPlan::WriteAck { n } && n == (
            if ids@.len() <= i64::MAX {
                ids@.len() as i64
            } else {
                i64::MAX
            }),
            ClientCall::Unlink { ref ids, .. } => r matches RenderPlan::UnlinkAck { n } && n == (
            if ids@.len() <= i64::MAX {
                ids@.len() as i64
            } else {
                i64::MAX
            }),
            ClientCall::SearchCount { .. } => r is Counted,
            ClientCall::FieldsGet { .. } => r is Raw,
            ClientCall::CallNamed { ref ids, .. } => if op_type@ == "workflow_action"@ {
                r matches RenderPlan::Workflow { ids: out } && out@ == (match *ids {
                    Some(ref v) => v@,
                    None => Seq::<i64>::empty(),
                })
            } else {
                r is Named
            },
            ClientCall::ReadGroup { .. } => r is Groups,
            ClientCall::NameSearch { .. } => r is Matches,
            ClientCall::NameGet { .. } => r is Names,
            ClientCall::DefaultGet { .. } => r is Defaults,
            ClientCall::Onchange { .. } => r is Named,
        },
{
    match call {
        ClientCall::Search { .. } => RenderPlan::SearchIds,
        ClientCall::SearchRead { .. } => {
            if str_eq(op_type, "list_models") {
                RenderPlan::Models
            } else {
                RenderPlan::Records
            }
        },
        ClientCall::Read { .. } => RenderPlan::ReadRecords,
        ClientCall::Create { .. } => RenderPlan::Created,
        ClientCall::Copy { .. } => RenderPlan::Created,
        ClientCall::Write { ids, .. } => {
            let n = ids.len();
            RenderPlan::WriteAck {
                n: if (n as u64) <= 0x7FFF_FFFF_FFFF_FFFFu64 {
                    n as i64
                } else {
                    i64::MAX
                },
            }
        },
        ClientCall::Unlink { ids, .. } => {
            let n = ids.len();
            RenderPlan::UnlinkAck {
                n: if (n as u64) <= 0x7FFF_FFFF_FFFF_FFFFu64 {
                    n as i64
                } else {
                    i64::MAX
                },
            }
        },
        ClientCall::SearchCount { .. } => RenderPlan::Counted,
        ClientCall::FieldsGet { .. } => RenderPlan::Raw,
        ClientCall::CallNamed { ids, .. } => {
            if str_eq(op_type, "workflow_action") {
                RenderPlan::Workflow {
                    ids: match ids {
                        Some(v) => copy_ids(v),
                        None => Vec::new(),
                    },
                }
            } else {
                RenderPlan::Named
            }
        },
        ClientCall::ReadGroup { .. } => RenderPlan::Groups,
        ClientCall::NameSearch { .. } => RenderPlan::Matches,
        ClientCall::NameGet { .. } => RenderPlan::Names,
        ClientCall::DefaultGet { .. } => RenderPlan::Defaults,
        ClientCall::Onchange { .. } => RenderPlan::Named,
    }
}

/// The created id a `create` or `copy` result carries, if it has the
/// promised shape.
pub open spec fn spec_created_id(v: JVal) -> Option<i64> {
    match v {
        JVal::Int(n) => Some(n),
        JVal::Arr(items) => if items.len() > 0 {
            match items[0] {
                JVal::Int(n) => Some(n),
                _ => None,
            }
        } else {
            None
        },
        _ => None,
    }
}

/// Shapes one backend result into the tool payload the plan asks for.
/// Every payload member is a function of the result and the plan; a
/// result without the shape the call promises is a shape fault.
pub fn finish_call(plan: RenderPlan, result: Json) -> (r: Result<Json, OdooError>)
    ensures
        match plan {
            RenderPlan::SearchIds => match r {
                Ok(p) => result@ is Arr && all_ints(arr_items(result@)) && arr_items(
                    result@,
                ).len() <= i64::MAX && p@ == JVal::Obj(
                    seq![
                        ("ids"@, result@),
                        ("count"@, JVal::Int(arr_items(result@).len() as i64)),
                    ],
                ),
                Err(e) => e is InvalidResponse && (!(result@ is Arr) || !all_ints(
                    arr_items(result@),
                ) || arr_items(result@).len() > i64::MAX),
            },
            RenderPlan::Records => r matches Ok(p) && p@ == JVal::Obj(
                seq![
                    ("records"@, result@),
                    ("count"@, JVal::Int(spec_arr_count(result@))),
                ],
            ),
            RenderPlan::Models => r matches Ok(p) && p@ == JVal::Obj(
                seq![("models"@, result@)],
            ),
            RenderPlan::ReadRecords => r matches Ok(p) && p@ == JVal::Obj(
                seq![("records"@, result@)],
            ),
            RenderPlan::Created => match r {
                Ok(p) => spec_created_id(result@) matches Some(id) && p@ == JVal::Obj(
                    seq![("id"@, JVal::Int(id)), ("success"@, JVal::Bool(true))],
                ),
                Err(e) => e is InvalidResponse && spec_created_id(result@) is None,
            },
            RenderPlan::WriteAck { n } => match r {
                Ok(p) => result@ is Bool && p@ == JVal::Obj(
                    seq![("success"@, result@), ("updated_count"@, JVal::Int(n))],
                ),
                Err(e) => e is InvalidResponse && !(result@ is Bool),
            },
            RenderPlan::UnlinkAck { n } => match r {
                Ok(p) => result@ is Bool && p@ == JVal::Obj(
                    seq![("success"@, result@), ("deleted_count"@, JVal::Int(n))],
                ),
                Err(e) => e is InvalidResponse && !(result@ is Bool),
            },
            RenderPlan::Counted => match r {
                Ok(p) => result@ is Int && p@ == JVal::Obj(seq![("count"@, result@)]),
                Err(e) => e is InvalidResponse && !(result@ is Int),
            },
            RenderPlan::Raw => r matches Ok(p) && p@ == result@,
            RenderPlan::Workflow { ref ids } => r matches Ok(p) && p@ == JVal::Obj(
                seq![
                    ("result"@, result@),
                    ("executed_on"@, JVal::Arr(ints_view(ids@))),
                ],
            ),
            RenderPlan::Named => r matches Ok(p) && p@ == JVal::Obj(
                seq![("result"@, result@)],
            ),
            RenderPlan::Groups => r matches Ok(p) && p@ == JVal::Obj(
                seq![("groups"@, result@)],
            ),
            RenderPlan::Matches => r matches Ok(p) && p@ == JVal::Obj(
                seq![("results"@, result@)],
            ),
            RenderPlan::Names => r matches Ok(p) && p@ == JVal::Obj(
                seq![("names"@, result@)],
            ),
            RenderPlan::Defaults => r matches Ok(p) && p@ == JVal::Obj(
                seq![("defaults"@, result@)],
            ),
        },
{
    match plan {
        RenderPlan::SearchIds => {
            let ids = crate::backend::expect_ids(&result)?;
            if (ids.len() as u64) > 0x7FFF_FFFF_FFFF_FFFFu64 {
                return Err(OdooError::InvalidResponse("too many ids from search".to_owned()));
            }
            let p = render_search(&ids);
            proof {
                assert(ints_view(ids@) =~= arr_items(result@));
            }
            Ok(p)
        },
        RenderPlan::Records => Ok(render_search_read(result)),
        RenderPlan::Models => Ok(render_list_models(result)),
        RenderPlan::ReadRecords => Ok(render_read(result)),
        RenderPlan::Created => {
            let id = crate::backend::decode_created_id(&result)?;
            Ok(render_created(id))
        },
        RenderPlan::WriteAck { n } => {
            let ok = crate::backend::expect_bool(&result, "write")?;
            Ok(render_write(ok, n))
        },
        RenderPlan::UnlinkAck { n } => {
            let ok = crate::backend::expect_bool(&result, "unlink")?;
            Ok(render_unlink(ok, n))
        },
        RenderPlan::Counted => {
            let count = crate::backend::expect_i64(&result, "search_count")?;
            Ok(render_count(count))
        },
        RenderPlan::Raw => Ok(result),
        RenderPlan::Workflow { ids } => Ok(render_workflow(result, &ids)),
        RenderPlan::Named => Ok(render_result(result)),
        RenderPlan::Groups => Ok(render_read_group(result)),
        RenderPlan::Matches => Ok(render_name_search(result)),
        RenderPlan::Names => Ok(render_name_get(result)),
        RenderPlan::Defaults => Ok(render_default_get(result)),
    }
}

/// The model description the metadata payload carries: the `name` string
/// member of the first record of the model-info listing, else the
/// model's technical name.
pub open spec fn spec_model_description(model: Seq<char>, model_info: JVal) -> Seq<char> {
    match model_info {
        JVal::Arr(items) => if items.len() > 0 {
            match crate::jsonrpc::msg_member(items[0], "name"@) {
                Some(JVal::Str(s)) => s,
                _ => model,
            }
        } else {
            model
        },
        _ => model,
    }
}

/// The whole `get_model_metadata` payload, from the field table and the
/// model-info listing the backend answered with.
pub open spec fn spec_metadata_payload(
    model: Seq<char>,
    fields_info: JVal,
    model_info: JVal,
) -> JVal {
    JVal::Obj(
        seq![
            ("model"@, JVal::Obj(
                seq![
                    ("name"@, JVal::Str(model)),
                    ("description"@, JVal::Str(spec_model_description(model, model_info))),
                    ("fields"@, fields_info),
                ],
            )),
        ],
    )
}

/// `get_model_metadata`, from the two backend results: the description is
/// taken from the first record's `name` member, else the model name.
pub fn metadata_from_results(model: &str, fields_info: Json, model_info: Json) -> (r: Json)
    ensures
        r@ == spec_metadata_payload(model@, jval_of(fields_info), jval_of(model_info)),
{
    let description: String = match &model_info {
        Json::Arr(items) => {
            proof {
                crate::json::lemma_jvals_of_len(items@);
            }
            if items.len() > 0 {
                proof {
                    crate::json::lemma_jvals_of_index(items@, 0);
                }
                match items[0].get("name") {
                    Some(v) => match v.as_str() {
                        Some(s) => s.clone(),
                        None => model.to_owned(),
                    },
                    None => model.to_owned(),
                }
            } else {
                model.to_owned()
            }
        },
        _ => model.to_owned(),
    };
    render_metadata(model, description.as_str(), fields_info)
}

/// `get_model_metadata`: the model's name, description and field table.
pub fn render_metadata(model: &str, description: &str, fields_info: Json) -> (r: Json)
    ensures
        r@ == JVal::Obj(
            seq![
                ("model"@, JVal::Obj(
                    seq![
                        ("name"@, JVal::Str(model@)),
                        ("description"@, JVal::Str(description@)),
                        ("fields"@, jval_of(fields_info)),
                    ],
                )),
            ],
        ),
{
    jobj1(
        "model",
        jobj3(
            "name",
            Json::Str(model.to_owned()),
            "description",
            Json::Str(description.to_owned()),
            "fields",
            fields_info,
        ),
    )
}

} // verus!
