//! The wire message model: requests, responses and notifications, the
//! classification of inbound JSON into them, and the plain outbound form.
//!
//! Inbound messages are accepted in two shapes: a tagged envelope whose
//! `type` member names the kind, and the plain JSON-RPC object classified
//! by which of `method` and `id` are present. Outbound messages always use
//! the plain form.

use vstd::prelude::*;

use crate::json::{JVal, Json, jfields_of, jobj_lookup, jval_of, lemma_jfields_of_index,
    lemma_jfields_of_len};

verus! {

broadcast use {vstd::std_specs::vec::group_vec_axioms, vstd::seq::group_seq_axioms};

pub const CODE_INVALID_REQUEST: i64 = -32600;

pub const CODE_INTERNAL_ERROR: i64 = -32603;

pub const CODE_SERVER_NOT_INITIALIZED: i64 = -32002;

/// A request id: a number or a string.
#[derive(Debug, PartialEq, Eq)]
pub enum RequestId {
    Num(i64),
    Str(String),
}

pub open spec fn id_view(id: RequestId) -> JVal {
    match id {
        RequestId::Num(n) => JVal::Int(n),
        RequestId::Str(s) => JVal::Str(s@),
    }
}

impl Clone for RequestId {
    fn clone(&self) -> (res: Self)
        ensures
            id_view(res) == id_view(*self),
    {
        match self {
            RequestId::Num(n) => RequestId::Num(*n),
            RequestId::Str(s) => RequestId::Str(s.clone()),
        }
    }
}

#[derive(Debug)]
pub struct RpcRequest {
    pub id: RequestId,
    pub method: String,
    pub params: Option<Json>,
}

#[derive(Debug)]
pub struct RpcNotification {
    pub method: String,
    pub params: Option<Json>,
}

#[derive(Debug)]
pub struct RpcError {
    pub code: i64,
    pub message: String,
    pub data: Option<Json>,
}

#[derive(Debug)]
pub struct RpcResponse {
    pub id: RequestId,
    pub result: Option<Json>,
    pub error: Option<RpcError>,
}

/// One inbound or outbound wire message.
#[derive(Debug)]
pub enum Message {
    Request(RpcRequest),
    Response(RpcResponse),
    Notification(RpcNotification),
}

/// A message that cannot be decoded; the stream survives it.
#[derive(Debug, PartialEq, Eq)]
pub enum DecodeError {
    /// The message is not a JSON object.
    NotAnObject,
    /// Neither `method` nor `id` is present, or the envelope tag is
    /// unknown.
    Unclassifiable,
    /// The shape is recognised but a member has the wrong type.
    Malformed,
}

/// The member of an object-shaped message, if the message is an object.
pub open spec fn msg_member(j: JVal, key: Seq<char>) -> Option<JVal> {
    match j {
        JVal::Obj(fs) => jobj_lookup(fs, key),
        _ => None,
    }
}

fn get_id(v: &Json) -> (r: Option<RequestId>)
    ensures
        match r {
            Some(id) => id_view(id) == v@ && (v@ is Int || v@ is Str),
            None => !(v@ is Int) && !(v@ is Str),
        },
{
    match v {
        Json::Int(n) => Some(RequestId::Num(*n)),
        Json::Str(s) => Some(RequestId::Str(s.clone())),
        _ => None,
    }
}

/// How the plain form is classified: `method` and `id` make a request,
/// `method` alone a notification, `id` alone a response.
pub open spec fn spec_plain_kind(j: JVal) -> Result<int, DecodeError> {
    if !(j is Obj) {
        Err(DecodeError::NotAnObject)
    } else if msg_member(j, "method"@) is Some {
        if msg_member(j, "id"@) is Some {
            Ok(0int)
        } else {
            Ok(1int)
        }
    } else if msg_member(j, "id"@) is Some {
        Ok(2int)
    } else {
        Err(DecodeError::Unclassifiable)
    }
}

/// A member value that can carry a request id.
pub open spec fn wf_id(j: JVal) -> bool {
    j is Int || j is Str
}

/// A well-typed `error` member: an object with an integer `code` and a
/// string `message`.
pub open spec fn wf_error_member(j: JVal) -> bool {
    &&& msg_member(j, "code"@) matches Some(JVal::Int(_))
    &&& msg_member(j, "message"@) matches Some(JVal::Str(_))
}

/// Classification of one inbound JSON document into a message, plain form.
/// The returned message carries exactly the classifying members of the
/// object; a well-typed object of each shape is accepted, and only a
/// wrongly typed member is malformed.
pub fn classify_plain(v: &Json) -> (r: Result<Message, DecodeError>)
    ensures
        spec_plain_kind(v@) is Err ==> (r matches Err(e) && spec_plain_kind(v@) == Err::<
            int,
            DecodeError,
        >(e)),
        spec_plain_kind(v@) == Ok::<int, DecodeError>(0int) ==> match r {
            Ok(Message::Request(q)) => {
                &&& msg_member(v@, "method"@) == Some(JVal::Str(q.method@))
                &&& msg_member(v@, "id"@) == Some(id_view(q.id))
                &&& match q.params {
                    Some(p) => msg_member(v@, "params"@) == Some(p@),
                    None => msg_member(v@, "params"@) is None,
                }
            },
            Err(e) => e == DecodeError::Malformed && (!(msg_member(
                v@,
                "method"@,
            ) matches Some(JVal::Str(_))) || !(msg_member(v@, "id"@) matches Some(idv)
                && wf_id(idv))),
            _ => false,
        },
        spec_plain_kind(v@) == Ok::<int, DecodeError>(1int) ==> match r {
            Ok(Message::Notification(q)) => {
                &&& msg_member(v@, "method"@) == Some(JVal::Str(q.method@))
                &&& match q.params {
                    Some(p) => msg_member(v@, "params"@) == Some(p@),
                    None => msg_member(v@, "params"@) is None,
                }
            },
            Err(e) => e == DecodeError::Malformed && !(msg_member(
                v@,
                "method"@,
            ) matches Some(JVal::Str(_))),
            _ => false,
        },
        spec_plain_kind(v@) == Ok::<int, DecodeError>(2int) ==> match r {
            Ok(Message::Response(q)) => {
                &&& msg_member(v@, "id"@) == Some(id_view(q.id))
                &&& match q.result {
                    Some(p) => msg_member(v@, "result"@) == Some(p@),
                    None => msg_member(v@, "result"@) is None,
                }
                &&& match q.error {
                    Some(e) => msg_member(v@, "error"@) matches Some(ev) && msg_member(
                        ev,
                        "code"@,
                    ) == Some(JVal::Int(e.code)) && msg_member(ev, "message"@) == Some(
                        JVal::Str(e.message@),
                    ) && (match e.data {
                        Some(d) => msg_member(ev, "data"@) == Some(d@),
                        None => msg_member(ev, "data"@) is None,
                    }),
                    None => msg_member(v@, "error"@) is None,
                }
            },
            Err(e) => e == DecodeError::Malformed && (!(msg_member(v@, "id"@) matches Some(idv)
                && wf_id(idv)) || (msg_member(v@, "error"@) matches Some(ev)
                && !wf_error_member(ev))),
            _ => false,
        },
{
    if v.as_object().is_none() {
        return Err(DecodeError::NotAnObject);
    }
    let method_v = v.get("method");
    let id_v = v.get("id");
    match method_v {
        Some(mv) => {
            let method: String = match mv.as_str() {
                Some(s) => s.clone(),
                None => {
                    return Err(DecodeError::Malformed);
                },
            };
            let params: Option<Json> = match v.get("params") {
                Some(p) => Some(p.clone()),
                None => None,
            };
            match id_v {
                Some(iv) => match get_id(iv) {
                    Some(id) => Ok(Message::Request(RpcRequest { id, method, params })),
                    None => Err(DecodeError::Malformed),
                },
                None => Ok(Message::Notification(RpcNotification { method, params })),
            }
        },
        None => {
            match id_v {
                Some(iv) => {
                    let id = match get_id(iv) {
                        Some(id) => id,
                        None => {
                            return Err(DecodeError::Malformed);
                        },
                    };
                    let result: Option<Json> = match v.get("result") {
                        Some(p) => Some(p.clone()),
                        None => None,
                    };
                    let error: Option<RpcError> = match v.get("error") {
                        Some(e) => {
                            let code = match e.get("code") {
                                Some(c) => match c.as_i64() {
                                    Some(n) => n,
                                    None => {
                                        return Err(DecodeError::Malformed);
                                    },
                                },
                                None => {
                                    return Err(DecodeError::Malformed);
                                },
                            };
                            let message = match e.get("message") {
                                Some(m) => match m.as_str() {
                                    Some(s) => s.clone(),
                                    None => {
                                        return Err(DecodeError::Malformed);
                                    },
                                },
                                None => {
                                    return Err(DecodeError::Malformed);
                                },
                            };
                            let data = match e.get("data") {
                                Some(d) => Some(d.clone()),
                                None => None,
                            };
                            Some(RpcError { code, message, data })
                        },
                        None => None,
                    };
                    Ok(Message::Response(RpcResponse { id, result, error }))
                },
                None => Err(DecodeError::Unclassifiable),
            }
        },
    }
}

/// Classification accepting both inbound shapes. The tagged envelope
/// carries its `method`, `id` and `params` members beside the `type` tag,
/// so the plain form's member test classifies it just the same.
pub fn classify_message(v: &Json) -> (r: Result<Message, DecodeError>)
    ensures
        !(v@ is Obj) ==> r == Err::<Message, DecodeError>(DecodeError::NotAnObject),
{
    classify_plain(v)
}

/// The plain outbound JSON of an id.
fn id_json(id: &RequestId) -> (r: Json)
    ensures
        r@ == id_view(*id),
{
    match id {
        RequestId::Num(n) => Json::Int(*n),
        RequestId::Str(s) => Json::Str(s.clone()),
    }
}

/// The plain outbound object of a response: `jsonrpc`, `id`, then the
/// result or the error object.
pub open spec fn spec_encode_response(id: JVal, result: Option<JVal>, error: Option<
    (i64, Seq<char>),
>) -> JVal {
    let base = seq![("jsonrpc"@, JVal::Str("2.0"@)), ("id"@, id)];
    let with_result = match result {
        Some(p) => base.push(("result"@, p)),
        None => base,
    };
    let with_error = match error {
        Some(e) => with_result.push(
            ("error"@, JVal::Obj(
                seq![("code"@, JVal::Int(e.0)), ("message"@, JVal::Str(e.1))],
            )),
        ),
        None => with_result,
    };
    JVal::Obj(with_error)
}

/// Encodes a response in the plain outbound form. The optional error
/// data member is not emitted.
pub fn encode_response(resp: &RpcResponse) -> (r: Json)
    ensures
        r@ == spec_encode_response(
            id_view(resp.id),
            match resp.result {
                Some(p) => Some(p@),
                None => None,
            },
            match resp.error {
                Some(e) => Some((e.code, e.message@)),
                None => None,
            },
        ),
{
    broadcast use {crate::json::lemma_jvals_of_push, crate::json::lemma_jfields_of_push};

    let ghost base = seq![("jsonrpc"@, JVal::Str("2.0"@)), ("id"@, id_view(resp.id))];
    let mut fields: Vec<(String, Json)> = Vec::new();
    fields.push(("jsonrpc".to_owned(), Json::Str("2.0".to_owned())));
    fields.push(("id".to_owned(), id_json(&resp.id)));
    proof {
        lemma_jfields_of_len(fields@);
        lemma_jfields_of_index(fields@, 0);
        lemma_jfields_of_index(fields@, 1);
        assert(jfields_of(fields@) =~= base);
    }
    match &resp.result {
        Some(p) => {
            let ghost prev = fields@;
            fields.push(("result".to_owned(), p.clone()));
            proof {
                assert(jfields_of(fields@) == jfields_of(prev).push(("result"@, p@)));
            }
        },
        None => (),
    }
    let ghost with_result = match &resp.result {
        Some(p) => base.push(("result"@, p@)),
        None => base,
    };
    proof {
        assert(jfields_of(fields@) == with_result);
    }
    match &resp.error {
        Some(e) => {
            let mut efields: Vec<(String, Json)> = Vec::new();
            efields.push(("code".to_owned(), Json::Int(e.code)));
            efields.push(("message".to_owned(), Json::Str(e.message.clone())));
            proof {
                lemma_jfields_of_len(efields@);
                lemma_jfields_of_index(efields@, 0);
                lemma_jfields_of_index(efields@, 1);
                assert(jfields_of(efields@) =~= seq![
                    ("code"@, JVal::Int(e.code)),
                    ("message"@, JVal::Str(e.message@)),
                ]);
            }
            fields.push(("error".to_owned(), Json::Obj(efields)));
        },
        None => (),
    }
    proof {
        assert(jfields_of(fields@) == (match resp.error {
            Some(e) => with_result.push(
                ("error"@, JVal::Obj(
                    seq![("code"@, JVal::Int(e.code)), ("message"@, JVal::Str(e.message@))],
                )),
            ),
            None => with_result,
        }));
    }
    Json::Obj(fields)
}

} // verus!
