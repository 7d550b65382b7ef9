//! The two backend RPC dialects' request encodings.
//!
//! The token dialect POSTs a JSON body to a per-model, per-method endpoint
//! path; the legacy dialect wraps everything in a JSON-RPC envelope whose
//! `execute_kw` call carries the database, the authenticated user id and
//! the password with every invocation. Both encoders are pure functions of
//! plain values; the HTTP exchange happens outside the library.

use vstd::prelude::*;
use vstd::string::StringExecFns;

use crate::backend::OdooError;
use crate::json::{JVal, Json, jfields_of, jval_of, jvals_of, lemma_jvals_of_index,
    lemma_jvals_of_len};
use crate::strutil::{dec_int, i64_to_string};

verus! {

broadcast use {vstd::std_specs::vec::group_vec_axioms, vstd::seq::group_seq_axioms,
    crate::json::lemma_jfields_of_push, crate::json::lemma_jvals_of_push};

/// A member present only when its value is.
pub open spec fn opt_field(k: Seq<char>, v: Option<JVal>) -> Seq<(Seq<char>, JVal)> {
    match v {
        Some(x) => seq![(k, x)],
        None => Seq::empty(),
    }
}

pub open spec fn ints_view(ids: Seq<i64>) -> Seq<JVal> {
    ids.map(|i: int, n: i64| JVal::Int(n))
}

pub open spec fn strs_view(ss: Seq<String>) -> Seq<JVal> {
    ss.map(|i: int, s: String| JVal::Str(s@))
}

pub open spec fn opt_json(v: Option<Json>) -> Option<JVal> {
    match v {
        Some(j) => Some(jval_of(j)),
        None => None,
    }
}

pub open spec fn opt_str_val(v: Option<String>) -> Option<JVal> {
    match v {
        Some(s) => Some(JVal::Str(s@)),
        None => None,
    }
}

pub open spec fn opt_int_val(v: Option<i64>) -> Option<JVal> {
    match v {
        Some(n) => Some(JVal::Int(n)),
        None => None,
    }
}

pub open spec fn opt_bool_val(v: Option<bool>) -> Option<JVal> {
    match v {
        Some(b) => Some(JVal::Bool(b)),
        None => None,
    }
}

fn push_field(fields: &mut Vec<(String, Json)>, k: &str, v: Json)
    ensures
        jfields_of(final(fields)@) == jfields_of(old(fields)@).push((k@, jval_of(v))),
{
    fields.push((k.to_owned(), v));
}

fn push_opt(fields: &mut Vec<(String, Json)>, k: &str, v: Option<Json>)
    ensures
        jfields_of(final(fields)@) == jfields_of(old(fields)@) + opt_field(k@, opt_json(v)),
{
    let ghost pre = jfields_of(fields@);
    match v {
        Some(j) => {
            fields.push((k.to_owned(), j));
            proof {
                assert(jfields_of(fields@) =~= pre + opt_field(
                    k@,
                    opt_json(Some(fields@.last().1)),
                ));
            }
        },
        None => {
            proof {
                assert(jfields_of(fields@) =~= pre + opt_field(k@, opt_json(None)));
            }
        },
    }
}

fn push_opt_i64(fields: &mut Vec<(String, Json)>, k: &str, v: Option<i64>)
    ensures
        jfields_of(final(fields)@) == jfields_of(old(fields)@) + opt_field(k@, opt_int_val(v)),
{
    let ghost pre = jfields_of(fields@);
    match v {
        Some(n) => {
            fields.push((k.to_owned(), Json::Int(n)));
            proof {
                assert(jfields_of(fields@) =~= pre + opt_field(k@, opt_int_val(Some(n))));
            }
        },
        None => {
            proof {
                assert(jfields_of(fields@) =~= pre + opt_field(k@, opt_int_val(None)));
            }
        },
    }
}

fn push_opt_string(fields: &mut Vec<(String, Json)>, k: &str, v: Option<String>)
    ensures
        jfields_of(final(fields)@) == jfields_of(old(fields)@) + opt_field(
            k@,
            opt_str_val(v),
        ),
{
    let ghost pre = jfields_of(fields@);
    match v {
        Some(s) => {
            let ghost sv = s@;
            fields.push((k.to_owned(), Json::Str(s)));
            proof {
                assert(jfields_of(fields@) =~= pre + opt_field(k@, Some(JVal::Str(sv))));
            }
        },
        None => {
            proof {
                assert(jfields_of(fields@) =~= pre + opt_field(k@, opt_str_val(None)));
            }
        },
    }
}

fn push_opt_bool(fields: &mut Vec<(String, Json)>, k: &str, v: Option<bool>)
    ensures
        jfields_of(final(fields)@) == jfields_of(old(fields)@) + opt_field(
            k@,
            opt_bool_val(v),
        ),
{
    let ghost pre = jfields_of(fields@);
    match v {
        Some(b) => {
            fields.push((k.to_owned(), Json::Bool(b)));
            proof {
                assert(jfields_of(fields@) =~= pre + opt_field(k@, opt_bool_val(Some(b))));
            }
        },
        None => {
            proof {
                assert(jfields_of(fields@) =~= pre + opt_field(k@, opt_bool_val(None)));
            }
        },
    }
}

/// A JSON array of record ids.
pub fn ints_json(ids: &Vec<i64>) -> (r: Json)
    ensures
        r@ == JVal::Arr(ints_view(ids@)),
{
    let n = ids.len();
    let mut items: Vec<Json> = Vec::new();
    let mut i: usize = 0;
    while i < n
        invariant
            i <= n,
            n == ids@.len(),
            jvals_of(items@) =~= ints_view(ids@.take(i as int)),
        decreases n - i,
    {
        let ghost pre = items@;
        items.push(Json::Int(ids[i]));
        proof {
            assert(ints_view(ids@.take(i + 1)) =~= ints_view(ids@.take(i as int)).push(
                JVal::Int(ids@[i as int]),
            ));
        }
        i += 1;
    }
    proof {
        assert(ids@.take(n as int) =~= ids@);
        assert(jvals_of(items@) =~= ints_view(ids@));
    }
    Json::Arr(items)
}

/// A JSON array of strings.
pub fn strs_json(ss: &Vec<String>) -> (r: Json)
    ensures
        r@ == JVal::Arr(strs_view(ss@)),
{
    let n = ss.len();
    let mut items: Vec<Json> = Vec::new();
    let mut i: usize = 0;
    while i < n
        invariant
            i <= n,
            n == ss@.len(),
            jvals_of(items@) =~= strs_view(ss@.take(i as int)),
        decreases n - i,
    {
        items.push(Json::Str(ss[i].clone()));
        proof {
            assert(strs_view(ss@.take(i + 1)) =~= strs_view(ss@.take(i as int)).push(
                JVal::Str(ss@[i as int]@),
            ));
        }
        i += 1;
    }
    proof {
        assert(ss@.take(n as int) =~= ss@);
        assert(jvals_of(items@) =~= strs_view(ss@));
    }
    Json::Arr(items)
}

/// The endpoint path of the token dialect: `/json/2/{model}/{method}`.
pub fn json2_endpoint_path(model: &str, method: &str) -> (r: String)
    ensures
        r@ == "/json/2/"@ + model@ + "/"@ + method@,
{
    let mut s = "/json/2/".to_owned();
    s.append(model);
    s.append("/");
    s.append(method);
    s
}

/// The ids as comma-separated decimal text.
pub open spec fn ids_csv(ids: Seq<i64>) -> Seq<char>
    decreases ids.len(),
{
    if ids.len() == 0 {
        Seq::empty()
    } else if ids.len() == 1 {
        dec_int(ids[0] as int)
    } else {
        ids_csv(ids.drop_last()) + seq![','] + dec_int(ids.last() as int)
    }
}

/// The report download path: `/report/pdf/{report}/{ids as csv}`.
pub fn report_pdf_path(report_name: &str, ids: &Vec<i64>) -> (r: String)
    ensures
        r@ == "/report/pdf/"@ + report_name@ + "/"@ + ids_csv(ids@),
{
    proof {
        reveal_strlit(",");
    }
    let mut s = "/report/pdf/".to_owned();
    s.append(report_name);
    s.append("/");
    let ghost base = s@;
    let n = ids.len();
    let mut i: usize = 0;
    while i < n
        invariant
            i <= n,
            n == ids@.len(),
            s@ == base + ids_csv(ids@.take(i as int)),
        decreases n - i,
    {
        if i > 0 {
            s.append(",");
        }
        let d = i64_to_string(ids[i]);
        s.append(d.as_str());
        proof {
            reveal_strlit(",");
            assert(ids@.take(i + 1).drop_last() =~= ids@.take(i as int));
            assert(ids@.take(i + 1).last() == ids@[i as int]);
            if i == 0 {
                assert(ids@.take(1).len() == 1);
                assert(ids@.take(1)[0] == ids@[0]);
                assert(s@ =~= base + ids_csv(ids@.take(1)));
            } else {
                assert(s@ =~= base + ids_csv(ids@.take(i + 1)));
            }
        }
        i += 1;
    }
    proof {
        assert(ids@.take(n as int) =~= ids@);
    }
    s
}

/// The token dialect body of `search`.
pub open spec fn spec_search_body(
    domain: Option<JVal>,
    limit: Option<JVal>,
    offset: Option<JVal>,
    order: Option<JVal>,
    context: Option<JVal>,
) -> JVal {
    JVal::Obj(
        opt_field("context"@, context) + opt_field("domain"@, domain) + opt_field(
            "limit"@,
            limit,
        ) + opt_field("offset"@, offset) + opt_field("order"@, order),
    )
}

pub fn json2_search_body(
    domain: Option<Json>,
    limit: Option<i64>,
    offset: Option<i64>,
    order: Option<String>,
    context: Option<Json>,
) -> (r: Json)
    ensures
        r@ == spec_search_body(
            opt_json(domain),
            opt_int_val(limit),
            opt_int_val(offset),
            opt_str_val(order),
            opt_json(context),
        ),
{
    let mut fields: Vec<(String, Json)> = Vec::new();
    push_opt(&mut fields, "context", context);
    push_opt(&mut fields, "domain", domain);
    push_opt_i64(&mut fields, "limit", limit);
    push_opt_i64(&mut fields, "offset", offset);
    push_opt_string(&mut fields, "order", order);
    proof {
        assert(jfields_of(fields@) =~= opt_field("context"@, opt_json(context)) + opt_field(
            "domain"@,
            opt_json(domain),
        ) + opt_field("limit"@, opt_int_val(limit)) + opt_field(
            "offset"@,
            opt_int_val(offset),
        ) + opt_field("order"@, opt_str_val(order)));
    }
    Json::Obj(fields)
}

/// The token dialect body of `search_read`: `search` plus the field list.
pub open spec fn spec_search_read_body(
    domain: Option<JVal>,
    fields_list: Option<JVal>,
    limit: Option<JVal>,
    offset: Option<JVal>,
    order: Option<JVal>,
    context: Option<JVal>,
) -> JVal {
    JVal::Obj(
        opt_field("context"@, context) + opt_field("domain"@, domain) + opt_field(
            "fields"@,
            fields_list,
        ) + opt_field("limit"@, limit) + opt_field("offset"@, offset) + opt_field(
            "order"@,
            order,
        ),
    )
}

pub fn json2_search_read_body(
    domain: Option<Json>,
    fields_list: Option<Vec<String>>,
    limit: Option<i64>,
    offset: Option<i64>,
    order: Option<String>,
    context: Option<Json>,
) -> (r: Json)
    ensures
        r@ == spec_search_read_body(
            opt_json(domain),
            match fields_list {
                Some(fs) => Some(JVal::Arr(strs_view(fs@))),
                None => None,
            },
            opt_int_val(limit),
            opt_int_val(offset),
            opt_str_val(order),
            opt_json(context),
        ),
{
    let ghost fv = match fields_list {
        Some(ref fs) => Some(JVal::Arr(strs_view(fs@))),
        None => None,
    };
    let mut fields: Vec<(String, Json)> = Vec::new();
    push_opt(&mut fields, "context", context);
    push_opt(&mut fields, "domain", domain);
    match fields_list {
        Some(fs) => {
            let arr = strs_json(&fs);
            push_field(&mut fields, "fields", arr);
            proof {
                assert(jfields_of(fields@) =~= jfields_of(fields@).take(
                    jfields_of(fields@).len() - 1,
                ) + opt_field("fields"@, fv));
            }
        },
        None => (),
    }
    push_opt_i64(&mut fields, "limit", limit);
    push_opt_i64(&mut fields, "offset", offset);
    push_opt_string(&mut fields, "order", order);
    proof {
        assert(jfields_of(fields@) =~= opt_field("context"@, opt_json(context)) + opt_field(
            "domain"@,
            opt_json(domain),
        ) + opt_field("fields"@, fv) + opt_field("limit"@, opt_int_val(limit)) + opt_field(
            "offset"@,
            opt_int_val(offset),
        ) + opt_field("order"@, opt_str_val(order)));
    }
    Json::Obj(fields)
}

/// The token dialect body of `create`: the values wrapped as a one-record
/// list unless they already are a list.
pub open spec fn spec_vals_list(values: JVal) -> JVal {
    if values is Arr {
        values
    } else {
        JVal::Arr(seq![values])
    }
}

pub open spec fn spec_create_body(values: JVal, context: Option<JVal>) -> JVal {
    JVal::Obj(seq![("vals_list"@, spec_vals_list(values))] + opt_field("context"@, context))
}

pub fn json2_create_body(values: Json, context: Option<Json>) -> (r: Json)
    ensures
        r@ == spec_create_body(jval_of(values), opt_json(context)),
{
    let ghost vv = jval_of(values);
    let is_arr = matches!(&values, Json::Arr(_));
    let vals_list = if is_arr {
        values
    } else {
        crate::json::jarr1(values)
    };
    let mut fields: Vec<(String, Json)> = Vec::new();
    push_field(&mut fields, "vals_list", vals_list);
    push_opt(&mut fields, "context", context);
    proof {
        assert(jfields_of(fields@) =~= seq![("vals_list"@, spec_vals_list(vv))] + opt_field(
            "context"@,
            opt_json(context),
        ));
    }
    Json::Obj(fields)
}

/// The token dialect body of `write`.
pub open spec fn spec_write_body(ids: Seq<i64>, values: JVal, context: Option<JVal>) -> JVal {
    JVal::Obj(
        seq![("ids"@, JVal::Arr(ints_view(ids))), ("vals"@, values)] + opt_field(
            "context"@,
            context,
        ),
    )
}

pub fn json2_write_body(ids: &Vec<i64>, values: Json, context: Option<Json>) -> (r: Json)
    ensures
        r@ == spec_write_body(ids@, jval_of(values), opt_json(context)),
{
    let ghost vv = jval_of(values);
    let mut fields: Vec<(String, Json)> = Vec::new();
    push_field(&mut fields, "ids", ints_json(ids));
    push_field(&mut fields, "vals", values);
    push_opt(&mut fields, "context", context);
    proof {
        assert(jfields_of(fields@) =~= seq![
            ("ids"@, JVal::Arr(ints_view(ids@))),
            ("vals"@, vv),
        ] + opt_field("context"@, opt_json(context)));
    }
    Json::Obj(fields)
}

/// The token dialect body of `unlink`, `read` (with optional fields) and
/// `name_get`: the ids plus what is given.
pub open spec fn spec_ids_body(
    ids: Seq<i64>,
    fields_list: Option<JVal>,
    context: Option<JVal>,
) -> JVal {
    JVal::Obj(
        seq![("ids"@, JVal::Arr(ints_view(ids)))] + opt_field("fields"@, fields_list)
            + opt_field("context"@, context),
    )
}

pub fn json2_ids_body(ids: &Vec<i64>, fields_list: Option<Vec<String>>, context: Option<Json>) -> (r:
    Json)
    ensures
        r@ == spec_ids_body(
            ids@,
            match fields_list {
                Some(fs) => Some(JVal::Arr(strs_view(fs@))),
                None => None,
            },
            opt_json(context),
        ),
{
    let ghost fv = match fields_list {
        Some(ref fs) => Some(JVal::Arr(strs_view(fs@))),
        None => None,
    };
    let mut fields: Vec<(String, Json)> = Vec::new();
    push_field(&mut fields, "ids", ints_json(ids));
    match fields_list {
        Some(fs) => {
            let arr = strs_json(&fs);
            push_field(&mut fields, "fields", arr);
        },
        None => (),
    }
    push_opt(&mut fields, "context", context);
    proof {
        assert(jfields_of(fields@) =~= seq![("ids"@, JVal::Arr(ints_view(ids@)))] + opt_field(
            "fields"@,
            fv,
        ) + opt_field("context"@, opt_json(context)));
    }
    Json::Obj(fields)
}

/// The JSON-RPC envelope of the legacy dialect.
pub open spec fn spec_jsonrpc_request(service: Seq<char>, method: Seq<char>, args: JVal) -> JVal {
    JVal::Obj(
        seq![
            ("jsonrpc"@, JVal::Str("2.0"@)),
            ("method"@, JVal::Str("call"@)),
            ("params"@, JVal::Obj(
                seq![
                    ("service"@, JVal::Str(service)),
                    ("method"@, JVal::Str(method)),
                    ("args"@, args),
                ],
            )),
            ("id"@, JVal::Int(1)),
        ],
    )
}

pub fn build_jsonrpc_request(service: &str, method: &str, args: Json) -> (r: Json)
    ensures
        r@ == spec_jsonrpc_request(service@, method@, args@),
{
    let ghost av = jval_of(args);
    let params = crate::json::jobj3(
        "service",
        Json::Str(service.to_owned()),
        "method",
        Json::Str(method.to_owned()),
        "args",
        args,
    );
    let mut fields: Vec<(String, Json)> = Vec::new();
    push_field(&mut fields, "jsonrpc", Json::Str("2.0".to_owned()));
    push_field(&mut fields, "method", Json::Str("call".to_owned()));
    push_field(&mut fields, "params", params);
    push_field(&mut fields, "id", Json::Int(1));
    proof {
        assert(jfields_of(fields@) =~= seq![
            ("jsonrpc"@, JVal::Str("2.0"@)),
            ("method"@, JVal::Str("call"@)),
            ("params"@, JVal::Obj(
                seq![
                    ("service"@, JVal::Str(service@)),
                    ("method"@, JVal::Str(method@)),
                    ("args"@, av),
                ],
            )),
            ("id"@, JVal::Int(1)),
        ]);
    }
    Json::Obj(fields)
}

/// The positional argument list of the legacy `execute_kw` call: database,
/// authenticated user id, password, model, method, the positional args and
/// the keyword args (an empty object when none are given).
pub open spec fn spec_execute_kw_args(
    db: Seq<char>,
    uid: i64,
    password: Seq<char>,
    model: Seq<char>,
    method: Seq<char>,
    args: JVal,
    kwargs: Option<JVal>,
) -> JVal {
    JVal::Arr(
        seq![
            JVal::Str(db),
            JVal::Int(uid),
            JVal::Str(password),
            JVal::Str(model),
            JVal::Str(method),
            args,
            match kwargs {
                Some(k) => k,
                None => JVal::Obj(Seq::empty()),
            },
        ],
    )
}

pub fn execute_kw_args(
    db: &str,
    uid: i64,
    password: &str,
    model: &str,
    method: &str,
    args: Json,
    kwargs: Option<Json>,
) -> (r: Json)
    ensures
        r@ == spec_execute_kw_args(
            db@,
            uid,
            password@,
            model@,
            method@,
            jval_of(args),
            opt_json(kwargs),
        ),
{
    let ghost av = jval_of(args);
    let ghost kv = opt_json(kwargs);
    let kw: Json = match kwargs {
        Some(k) => k,
        None => Json::Obj(Vec::new()),
    };
    let mut items: Vec<Json> = Vec::new();
    items.push(Json::Str(db.to_owned()));
    items.push(Json::Int(uid));
    items.push(Json::Str(password.to_owned()));
    items.push(Json::Str(model.to_owned()));
    items.push(Json::Str(method.to_owned()));
    items.push(args);
    items.push(kw);
    proof {
        lemma_jvals_of_len(items@);
        lemma_jvals_of_index(items@, 0);
        lemma_jvals_of_index(items@, 1);
        lemma_jvals_of_index(items@, 2);
        lemma_jvals_of_index(items@, 3);
        lemma_jvals_of_index(items@, 4);
        lemma_jvals_of_index(items@, 5);
        lemma_jvals_of_index(items@, 6);
        assert(jvals_of(items@) =~= seq![
            JVal::Str(db@),
            JVal::Int(uid),
            JVal::Str(password@),
            JVal::Str(model@),
            JVal::Str(method@),
            av,
            match kv {
                Some(k) => k,
                None => JVal::Obj(Seq::empty()),
            },
        ]);
    }
    Json::Arr(items)
}

/// The message an `error` member settles to: its `data.message` string,
/// else its `message` string, else the fixed fallback.
pub open spec fn spec_rpc_error_message(e: JVal) -> Seq<char> {
    match crate::jsonrpc::msg_member(e, "data"@) {
        Some(d) => match crate::jsonrpc::msg_member(d, "message"@) {
            Some(JVal::Str(s)) => s,
            _ => spec_rpc_error_fallback(e),
        },
        None => spec_rpc_error_fallback(e),
    }
}

pub open spec fn spec_rpc_error_fallback(e: JVal) -> Seq<char> {
    match crate::jsonrpc::msg_member(e, "message"@) {
        Some(JVal::Str(s)) => s,
        _ => "Unknown JSON-RPC error"@,
    }
}

/// The result a legacy JSON-RPC response settles to: its `error` member
/// as a terminal application error whose message follows the selection
/// rule above, else its `result` member, else a shape complaint.
pub fn extract_jsonrpc_result(v: &Json) -> (r: Result<Json, OdooError>)
    ensures
        match r {
            Ok(out) => crate::jsonrpc::msg_member(v@, "result"@) == Some(out@)
                && crate::jsonrpc::msg_member(v@, "error"@) is None,
            Err(e) => match e {
                OdooError::Api { status, message, .. } => status == 400
                    && (crate::jsonrpc::msg_member(v@, "error"@) matches Some(ev) && message@
                    == spec_rpc_error_message(ev)),
                OdooError::InvalidResponse(m) => crate::jsonrpc::msg_member(v@, "error"@)
                    is None && crate::jsonrpc::msg_member(v@, "result"@) is None && m@
                    == "JSON-RPC response missing 'result' field"@,
                _ => false,
            },
        },
{
    match v.get("error") {
        Some(err) => {
            let message: String = {
                let from_data = match err.get("data") {
                    Some(d) => match d.get("message") {
                        Some(m) => match m.as_str() {
                            Some(s) => Some(s.clone()),
                            None => None,
                        },
                        None => None,
                    },
                    None => None,
                };
                match from_data {
                    Some(s) => s,
                    None => match err.get("message") {
                        Some(m) => match m.as_str() {
                            Some(s) => s.clone(),
                            None => "Unknown JSON-RPC error".to_owned(),
                        },
                        None => "Unknown JSON-RPC error".to_owned(),
                    },
                }
            };
            Err(OdooError::Api { status: 400, message, body: None })
        },
        None => {
            if !matches!(v, Json::Obj(_)) {
                return Err(
                    OdooError::InvalidResponse(
                        "JSON-RPC response missing 'result' field".to_owned(),
                    ),
                );
            }
            match v.get("result") {
                Some(res) => Ok(res.clone()),
                None => Err(
                    OdooError::InvalidResponse(
                        "JSON-RPC response missing 'result' field".to_owned(),
                    ),
                ),
            }
        },
    }
}

/// The authenticated user id of a legacy `authenticate` call: a non-zero
/// integer result; anything else — `false`, zero, a missing field — is a
/// terminal authentication failure that is never retried.
pub fn interpret_auth_result(v: &Json, username: &str) -> (r: Result<i64, OdooError>)
    ensures
        match r {
            Ok(uid) => v@ == JVal::Int(uid) && uid != 0,
            Err(e) => e matches OdooError::Api { status, .. } && status == 401 && (!(v@ is Int)
                || v@ == JVal::Int(0)),
        },
{
    match v.as_i64() {
        Some(uid) => {
            if uid == 0 {
                let mut m = "Authentication failed for user '".to_owned();
                m.append(username);
                m.append("'. Invalid credentials.");
                Err(OdooError::Api { status: 401, message: m, body: None })
            } else {
                Ok(uid)
            }
        },
        None => {
            let mut m = "Authentication failed for user '".to_owned();
            m.append(username);
            m.append("'. Check username/password.");
            Err(OdooError::Api { status: 401, message: m, body: None })
        },
    }
}

} // verus!
