//! The method dispatcher: the protocol's method surface over the registry
//! and the executor.
//!
//! Tool failures are application-level: an unknown or guarded-off tool and
//! a failed execution are delivered as a successful exchange whose payload
//! sets `isError`, so the caller can reason about them without the RPC
//! stream aborting. Protocol-level errors end only the one exchange.

use vstd::prelude::*;
use vstd::string::StringExecFns;

use crate::json::{JVal, Json, jarr1, jobj1, jobj2, jobj3, jser_pretty, jval_of, jvals_of};
use crate::jsonrpc::{CODE_INVALID_REQUEST, msg_member};
use crate::registry::{EnvSnapshot, Registry, gated_tool, listed_tools};
use crate::strutil::str_eq;

verus! {

broadcast use {vstd::std_specs::vec::group_vec_axioms, vstd::seq::group_seq_axioms,
    vstd::string::group_string_axioms, crate::json::lemma_jvals_of_push,
    crate::json::lemma_jfields_of_push};

/// A successful tool payload: one text content carrying the pretty JSON
/// of the result.
pub open spec fn spec_ok_text(payload: JVal) -> JVal {
    JVal::Obj(
        seq![
            ("content"@, JVal::Arr(
                seq![
                    JVal::Obj(
                        seq![
                            ("type"@, JVal::Str("text"@)),
                            ("text"@, JVal::Str(jser_pretty(payload, 0))),
                        ],
                    ),
                ],
            )),
        ],
    )
}

pub fn ok_text(payload: Json) -> (r: Json)
    ensures
        r@ == spec_ok_text(jval_of(payload)),
{
    let text = payload.to_pretty_text();
    let entry = jobj2("type", Json::Str("text".to_owned()), "text", Json::Str(text));
    jobj1("content", jarr1(entry))
}

/// A failed tool payload: the diagnosable error text and the tool name,
/// with `isError` set.
pub open spec fn spec_error_payload(error: Seq<char>, tool: Seq<char>) -> JVal {
    JVal::Obj(
        seq![
            ("content"@, JVal::Arr(
                seq![
                    JVal::Obj(
                        seq![
                            ("type"@, JVal::Str("text"@)),
                            ("text"@, JVal::Str(
                                jser_pretty(
                                    JVal::Obj(
                                        seq![
                                            ("error"@, JVal::Str(error)),
                                            ("tool"@, JVal::Str(tool)),
                                        ],
                                    ),
                                    0,
                                ),
                            )),
                        ],
                    ),
                ],
            )),
            ("isError"@, JVal::Bool(true)),
        ],
    )
}

pub fn error_payload(error: &str, tool: &str) -> (r: Json)
    ensures
        r@ == spec_error_payload(error@, tool@),
{
    let inner = jobj2(
        "error",
        Json::Str(error.to_owned()),
        "tool",
        Json::Str(tool.to_owned()),
    );
    let text = inner.to_pretty_text();
    let entry = jobj2("type", Json::Str("text".to_owned()), "text", Json::Str(text));
    jobj2("content", jarr1(entry), "isError", Json::Bool(true))
}

/// The `initialize` result: the echoed or defaulted protocol version,
/// capability flags, server identity and instructions, and the available
/// backend instance names.
pub open spec fn spec_initialize_result(
    protocol_version: Seq<char>,
    instances: Seq<JVal>,
    server_name: Seq<char>,
    server_version: Seq<char>,
    instructions: Seq<char>,
) -> JVal {
    JVal::Obj(
        seq![
            ("protocolVersion"@, JVal::Str(protocol_version)),
            ("capabilities"@, JVal::Obj(
                seq![
                    ("tools"@, JVal::Obj(seq![("listChanged"@, JVal::Bool(true))])),
                    ("prompts"@, JVal::Obj(seq![("listChanged"@, JVal::Bool(true))])),
                    ("resources"@, JVal::Obj(Seq::empty())),
                    ("experimental"@, JVal::Obj(
                        seq![
                            ("odooInstances"@, JVal::Obj(
                                seq![("available"@, JVal::Arr(instances))],
                            )),
                        ],
                    )),
                ],
            )),
            ("serverInfo"@, JVal::Obj(
                seq![
                    ("name"@, JVal::Str(server_name)),
                    ("version"@, JVal::Str(server_version)),
                ],
            )),
            ("instructions"@, JVal::Str(instructions)),
        ],
    )
}

/// The protocol version the reply echoes: the client's requested one, or
/// the server default.
pub open spec fn spec_echoed_version(params: Option<JVal>, default_version: Seq<char>) -> Seq<
    char,
> {
    match params {
        Some(p) => match msg_member(p, "protocolVersion"@) {
            Some(JVal::Str(v)) => v,
            _ => default_version,
        },
        None => default_version,
    }
}

pub fn initialize_result(
    params: Option<&Json>,
    default_version: &str,
    instances: Vec<Json>,
    server_name: &str,
    server_version: &str,
    instructions: &str,
) -> (r: Json)
    ensures
        r@ == spec_initialize_result(
            spec_echoed_version(
                match params {
                    Some(p) => Some(p@),
                    None => None,
                },
                default_version@,
            ),
            jvals_of(instances@),
            server_name@,
            server_version@,
            instructions@,
        ),
{
    let version: String = match params {
        Some(p) => match p.get("protocolVersion") {
            Some(v) => match v.as_str() {
                Some(s) => s.clone(),
                None => default_version.to_owned(),
            },
            None => default_version.to_owned(),
        },
        None => default_version.to_owned(),
    };
    let capabilities = {
        let tools = jobj1("listChanged", Json::Bool(true));
        let prompts = jobj1("listChanged", Json::Bool(true));
        let resources = Json::Obj(Vec::new());
        let experimental = jobj1(
            "odooInstances",
            jobj1("available", Json::Arr(instances)),
        );
        let mut fields: Vec<(String, Json)> = Vec::new();
        fields.push(("tools".to_owned(), tools));
        fields.push(("prompts".to_owned(), prompts));
        fields.push(("resources".to_owned(), resources));
        fields.push(("experimental".to_owned(), experimental));
        proof {
            crate::json::lemma_jfields_of_len(fields@);
            crate::json::lemma_jfields_of_index(fields@, 0);
            crate::json::lemma_jfields_of_index(fields@, 1);
            crate::json::lemma_jfields_of_index(fields@, 2);
            crate::json::lemma_jfields_of_index(fields@, 3);
            assert(crate::json::jfields_of(fields@) =~= seq![
                ("tools"@, jval_of(fields@[0].1)),
                ("prompts"@, jval_of(fields@[1].1)),
                ("resources"@, jval_of(fields@[2].1)),
                ("experimental"@, jval_of(fields@[3].1)),
            ]);
        }
        Json::Obj(fields)
    };
    let server_info = jobj2(
        "name",
        Json::Str(server_name.to_owned()),
        "version",
        Json::Str(server_version.to_owned()),
    );
    let mut fields: Vec<(String, Json)> = Vec::new();
    fields.push(("protocolVersion".to_owned(), Json::Str(version)));
    fields.push(("capabilities".to_owned(), capabilities));
    fields.push(("serverInfo".to_owned(), server_info));
    fields.push(("instructions".to_owned(), Json::Str(instructions.to_owned())));
    proof {
        crate::json::lemma_jfields_of_len(fields@);
        crate::json::lemma_jfields_of_index(fields@, 0);
        crate::json::lemma_jfields_of_index(fields@, 1);
        crate::json::lemma_jfields_of_index(fields@, 2);
        crate::json::lemma_jfields_of_index(fields@, 3);
        assert(crate::json::jfields_of(fields@) =~= seq![
            ("protocolVersion"@, jval_of(fields@[0].1)),
            ("capabilities"@, jval_of(fields@[1].1)),
            ("serverInfo"@, jval_of(fields@[2].1)),
            ("instructions"@, jval_of(fields@[3].1)),
        ]);
    }
    Json::Obj(fields)
}

/// What the dispatcher decides for one request: a finished reply, a
/// protocol-level error, or work that needs the backend.
#[derive(Debug)]
pub enum Dispatch {
    /// The reply payload is complete.
    Reply(Json),
    /// The exchange fails at the protocol level.
    Fail { code: i64, message: String },
    /// A tool was resolved; the executor's plan runs against the backend
    /// and the outcome is rendered with `ok_text` or `error_payload`.
    InvokeTool { name: String, op: crate::registry::OpSpec, args: Json },
    /// `resources/read` of an instance's model listing.
    ReadModels { instance: String },
    /// `resources/read` of one model's metadata.
    ReadMetadata { instance: String, model: String },
}

/// The `tools/list` reply shape.
pub open spec fn spec_tools_list_reply(tools: Seq<JVal>) -> JVal {
    JVal::Obj(seq![("tools"@, JVal::Arr(tools))])
}

/// The name and description of each prompt, in declared order.
pub open spec fn prompt_pairs(ps: Seq<crate::registry::Prompt>) -> Seq<(Seq<char>, Seq<char>)> {
    ps.map(|i: int, p: crate::registry::Prompt| (p.name@, p.description@))
}

/// Routing of the method surface. `instances` is the list of configured
/// backend instance names.
pub fn handle_method(
    registry: &Registry,
    env: &EnvSnapshot,
    instances: &Vec<String>,
    method: &str,
    params: Option<&Json>,
) -> (r: Dispatch)
    ensures
        method@ == "tools/list"@ ==> (r matches Dispatch::Reply(p) && p@
            == spec_tools_list_reply(listed_tools(registry.snap().tools@, env.view_env()))),
        method@ == "tools/call"@ ==> match r {
            Dispatch::Fail { code, .. } => code == CODE_INVALID_REQUEST && match params {
                None => true,
                Some(p) => !(msg_member(p@, "name"@) matches Some(JVal::Str(_))),
            },
            Dispatch::Reply(p) => params matches Some(ps) && (msg_member(
                ps@,
                "name"@,
            ) matches Some(JVal::Str(nm)) && p@ == crate::dispatcher::spec_error_payload(
                "Unknown or disabled tool"@,
                nm,
            ) && gated_tool(registry.snap().tools@, nm, env.view_env()) is None),
            Dispatch::InvokeTool { name, op, args } => params matches Some(ps) && msg_member(
                ps@,
                "name"@,
            ) == Some(JVal::Str(name@)) && (gated_tool(
                registry.snap().tools@,
                name@,
                env.view_env(),
            ) matches Some(t) && t.op.op_type@ == op.op_type@ && t.op.map@ == op.map@) && (match
                msg_member(ps@, "arguments"@) {
                Some(a) => args@ == a,
                None => args@ == JVal::Obj(Seq::empty()),
            }),
            _ => false,
        },
        method@ == "prompts/get"@ && (match params {
            Some(p) => !(msg_member(p@, "name"@) matches Some(JVal::Str(_))),
            None => true,
        }) ==> (r matches Dispatch::Fail { code, .. } && code == CODE_INVALID_REQUEST),
        method@ == "prompts/list"@ ==> (r matches Dispatch::Reply(p) && p@
            == crate::prompts::spec_list_prompts_result(
            prompt_pairs(registry.snap().prompts@),
        )),
        method@ == "prompts/get"@ ==> match r {
            Dispatch::Reply(p) => params matches Some(ps) && (msg_member(
                ps@,
                "name"@,
            ) matches Some(JVal::Str(nm)) && (crate::registry::find_prompt(
                registry.snap().prompts@,
                nm,
            ) matches Some(pr) && p@ == crate::prompts::spec_get_prompt_result(
                pr.description@,
                pr.content@,
            ))),
            Dispatch::Fail { code, message } => code == CODE_INVALID_REQUEST && (match params {
                Some(ps) => match msg_member(ps@, "name"@) {
                    Some(JVal::Str(nm)) => crate::registry::find_prompt(
                        registry.snap().prompts@,
                        nm,
                    ) is None && message@ == "Unknown prompt: "@ + nm,
                    _ => true,
                },
                None => true,
            }),
            _ => false,
        },
        method@ == "resources/list"@ ==> r is Reply,
        method@ == "resources/read"@ ==> match r {
            Dispatch::Fail { code, .. } => code == CODE_INVALID_REQUEST,
            Dispatch::Reply(p) => params matches Some(ps) && (msg_member(
                ps@,
                "uri"@,
            ) matches Some(JVal::Str(u)) && crate::resources::spec_parse_uri(u) == Some(
                crate::resources::RUri::Instances,
            )),
            Dispatch::ReadModels { instance } => params matches Some(ps) && (msg_member(
                ps@,
                "uri"@,
            ) matches Some(JVal::Str(u)) && crate::resources::spec_parse_uri(u) == Some(
                crate::resources::RUri::Models(instance@),
            )),
            Dispatch::ReadMetadata { instance, model } => params matches Some(ps) && (msg_member(
                ps@,
                "uri"@,
            ) matches Some(JVal::Str(u)) && crate::resources::spec_parse_uri(u) == Some(
                crate::resources::RUri::Metadata(instance@, model@),
            )),
            _ => false,
        },
        !(method@ == "initialize"@ || method@ == "shutdown"@ || method@ == "tools/list"@
            || method@ == "tools/call"@ || method@ == "prompts/list"@ || method@
            == "prompts/get"@ || method@ == "resources/list"@ || method@ == "resources/read"@)
            ==> (r matches Dispatch::Fail { code, .. } && code == CODE_INVALID_REQUEST),
{
    proof {
        reveal_strlit("initialize");
        reveal_strlit("shutdown");
        reveal_strlit("tools/list");
        reveal_strlit("tools/call");
        reveal_strlit("prompts/list");
        reveal_strlit("prompts/get");
        reveal_strlit("resources/list");
        reveal_strlit("resources/read");
        assert(("tools/list"@).len() == 10);
        assert(("tools/call"@).len() == 10);
        assert(("prompts/get"@).len() == 11);
        assert(("prompts/list"@).len() == 12);
        assert(("resources/list"@).len() == 14);
        assert(("resources/read"@).len() == 14);
        assert(("tools/list"@)[6] == 'l');
        assert(("tools/call"@)[6] == 'c');
        assert(("resources/list"@)[10] == 'l');
        assert(("resources/read"@)[10] == 'r');
    }
    if str_eq(method, "tools/list") {
        let tools = registry.list_tools(env);
        return Dispatch::Reply(jobj1("tools", Json::Arr(tools)));
    }
    if str_eq(method, "tools/call") {
        let ps = match params {
            Some(p) => p,
            None => {
                return Dispatch::Fail {
                    code: CODE_INVALID_REQUEST,
                    message: "Missing params for tools/call".to_owned(),
                };
            },
        };
        let name: String = match ps.get("name") {
            Some(v) => match v.as_str() {
                Some(s) => s.clone(),
                None => {
                    return Dispatch::Fail {
                        code: CODE_INVALID_REQUEST,
                        message: "tools/call missing 'name'".to_owned(),
                    };
                },
            },
            None => {
                return Dispatch::Fail {
                    code: CODE_INVALID_REQUEST,
                    message: "tools/call missing 'name'".to_owned(),
                };
            },
        };
        let args: Json = match ps.get("arguments") {
            Some(a) => a.clone(),
            None => Json::Obj(Vec::new()),
        };
        match registry.get_tool(name.as_str(), env) {
            Some(tool) => {
                let op = crate::registry::OpSpec {
                    op_type: tool.op.op_type.clone(),
                    map: clone_string_pairs(&tool.op.map),
                };
                return Dispatch::InvokeTool { name, op, args };
            },
            None => {
                return Dispatch::Reply(
                    error_payload("Unknown or disabled tool", name.as_str()),
                );
            },
        }
    }
    if str_eq(method, "prompts/list") {
        let prompts = registry.list_prompts();
        let reply = crate::prompts::list_prompts_result(&prompts);
        proof {
            assert(prompts@.map(|i: int, q: (String, String)| (q.0@, q.1@)) =~= prompt_pairs(
                registry.snap().prompts@,
            ));
        }
        return Dispatch::Reply(reply);
    }
    if str_eq(method, "prompts/get") {
        let ps = match params {
            Some(p) => p,
            None => {
                return Dispatch::Fail {
                    code: CODE_INVALID_REQUEST,
                    message: "Missing params for prompts/get".to_owned(),
                };
            },
        };
        let name: String = match ps.get("name") {
            Some(v) => match v.as_str() {
                Some(s) => s.clone(),
                None => {
                    return Dispatch::Fail {
                        code: CODE_INVALID_REQUEST,
                        message: "prompts/get missing 'name'".to_owned(),
                    };
                },
            },
            None => {
                return Dispatch::Fail {
                    code: CODE_INVALID_REQUEST,
                    message: "prompts/get missing 'name'".to_owned(),
                };
            },
        };
        match registry.get_prompt(name.as_str()) {
            Some(p) => {
                return Dispatch::Reply(crate::prompts::get_prompt_result(p));
            },
            None => {
                let mut m = "Unknown prompt: ".to_owned();
                m.append(name.as_str());
                return Dispatch::Fail { code: CODE_INVALID_REQUEST, message: m };
            },
        }
    }
    if str_eq(method, "resources/list") {
        return Dispatch::Reply(list_resources(instances));
    }
    if str_eq(method, "resources/read") {
        let ps = match params {
            Some(p) => p,
            None => {
                return Dispatch::Fail {
                    code: CODE_INVALID_REQUEST,
                    message: "Missing params for resources/read".to_owned(),
                };
            },
        };
        let uri: String = match ps.get("uri") {
            Some(v) => match v.as_str() {
                Some(s) => s.clone(),
                None => {
                    return Dispatch::Fail {
                        code: CODE_INVALID_REQUEST,
                        message: "resources/read missing 'uri'".to_owned(),
                    };
                },
            },
            None => {
                return Dispatch::Fail {
                    code: CODE_INVALID_REQUEST,
                    message: "resources/read missing 'uri'".to_owned(),
                };
            },
        };
        match crate::resources::ResourceUri::parse(uri.as_str()) {
            Ok(crate::resources::ResourceUri::Instances) => {
                return Dispatch::Reply(instances_contents(instances));
            },
            Ok(crate::resources::ResourceUri::Models { instance }) => {
                return Dispatch::ReadModels { instance };
            },
            Ok(crate::resources::ResourceUri::Metadata { instance, model }) => {
                return Dispatch::ReadMetadata { instance, model };
            },
            Err(e) => {
                return Dispatch::Fail { code: CODE_INVALID_REQUEST, message: e };
            },
        }
    }
    let mut m = "Unknown method: ".to_owned();
    m.append(method);
    Dispatch::Fail { code: CODE_INVALID_REQUEST, message: m }
}

fn clone_string_pairs(v: &Vec<(String, String)>) -> (out: Vec<(String, String)>)
    ensures
        out@.len() == v@.len(),
        out@ == v@,
{
    let n = v.len();
    let mut out: Vec<(String, String)> = Vec::new();
    let mut i: usize = 0;
    while i < n
        invariant
            i <= n,
            n == v@.len(),
            out@ == v@.take(i as int),
        decreases n - i,
    {
        out.push((v[i].0.clone(), v[i].1.clone()));
        proof {
            assert(v@.take(i + 1) =~= v@.take(i as int).push(v@[i as int]));
            assert((out@.last().0, out@.last().1) == v@[i as int]);
        }
        i += 1;
    }
    proof {
        assert(v@.take(n as int) =~= v@);
    }
    out
}

/// The resource catalogue's head entry: the instance listing itself.
pub open spec fn spec_instances_entry() -> JVal {
    JVal::Obj(
        seq![
            ("uri"@, JVal::Str("odoo://instances"@)),
            ("name"@, JVal::Str("Odoo Instances"@)),
            ("description"@, JVal::Str("List of configured Odoo instances"@)),
            ("mimeType"@, JVal::Str("application/json"@)),
        ],
    )
}

/// The catalogue entry for one instance's model listing.
pub open spec fn spec_models_entry(instance: Seq<char>) -> JVal {
    JVal::Obj(
        seq![
            ("uri"@, JVal::Str(
                crate::resources::spec_uri_text(crate::resources::RUri::Models(instance)),
            )),
            ("name"@, JVal::Str("Models in "@ + instance)),
            ("description"@, JVal::Str(
                "List of accessible models in Odoo instance '"@ + instance + "'"@,
            )),
            ("mimeType"@, JVal::Str("application/json"@)),
        ],
    )
}

pub open spec fn spec_models_entries(instances: Seq<String>) -> Seq<JVal>
    decreases instances,
{
    if instances.len() == 0 {
        Seq::empty()
    } else {
        spec_models_entries(instances.drop_last()).push(spec_models_entry(instances.last()@))
    }
}

fn models_entry(instance: &String) -> (r: Json)
    ensures
        r@ == spec_models_entry(instance@),
{
    let uri = crate::resources::ResourceUri::Models {
        instance: instance.clone(),
    }.to_uri();
    let mut name = "Models in ".to_owned();
    name.append(instance.as_str());
    let mut desc = "List of accessible models in Odoo instance '".to_owned();
    desc.append(instance.as_str());
    desc.append("'");
    let mut fields: Vec<(String, Json)> = Vec::new();
    fields.push(("uri".to_owned(), Json::Str(uri)));
    fields.push(("name".to_owned(), Json::Str(name)));
    fields.push(("description".to_owned(), Json::Str(desc)));
    fields.push(("mimeType".to_owned(), Json::Str("application/json".to_owned())));
    proof {
        crate::json::lemma_jfields_of_len(fields@);
        crate::json::lemma_jfields_of_index(fields@, 0);
        crate::json::lemma_jfields_of_index(fields@, 1);
        crate::json::lemma_jfields_of_index(fields@, 2);
        crate::json::lemma_jfields_of_index(fields@, 3);
        assert(crate::json::jfields_of(fields@) =~= seq![
            ("uri"@, jval_of(fields@[0].1)),
            ("name"@, jval_of(fields@[1].1)),
            ("description"@, jval_of(fields@[2].1)),
            ("mimeType"@, jval_of(fields@[3].1)),
        ]);
    }
    Json::Obj(fields)
}

/// The `resources/list` reply: the instances resource, then one models
/// resource per configured instance, in order.
pub fn list_resources(instances: &Vec<String>) -> (r: Json)
    ensures
        r@ == JVal::Obj(
            seq![
                ("resources"@, JVal::Arr(
                    seq![spec_instances_entry()] + spec_models_entries(instances@),
                )),
            ],
        ),
{
    let head = {
        let mut fields: Vec<(String, Json)> = Vec::new();
        fields.push(("uri".to_owned(), Json::Str("odoo://instances".to_owned())));
        fields.push(("name".to_owned(), Json::Str("Odoo Instances".to_owned())));
        fields.push(
            ("description".to_owned(), Json::Str(
                "List of configured Odoo instances".to_owned(),
            )),
        );
        fields.push(("mimeType".to_owned(), Json::Str("application/json".to_owned())));
        proof {
            crate::json::lemma_jfields_of_len(fields@);
            crate::json::lemma_jfields_of_index(fields@, 0);
            crate::json::lemma_jfields_of_index(fields@, 1);
            crate::json::lemma_jfields_of_index(fields@, 2);
            crate::json::lemma_jfields_of_index(fields@, 3);
            assert(crate::json::jfields_of(fields@) =~= seq![
                ("uri"@, jval_of(fields@[0].1)),
                ("name"@, jval_of(fields@[1].1)),
                ("description"@, jval_of(fields@[2].1)),
                ("mimeType"@, jval_of(fields@[3].1)),
            ]);
        }
        Json::Obj(fields)
    };
    let n = instances.len();
    let mut items: Vec<Json> = Vec::new();
    items.push(head);
    proof {
        crate::json::lemma_jvals_of_len(items@);
        crate::json::lemma_jvals_of_index(items@, 0);
        assert(jvals_of(items@) =~= seq![spec_instances_entry()] + spec_models_entries(
            instances@.take(0),
        ));
    }
    let mut i: usize = 0;
    while i < n
        invariant
            i <= n,
            n == instances@.len(),
            jvals_of(items@) == seq![spec_instances_entry()] + spec_models_entries(
                instances@.take(i as int),
            ),
        decreases n - i,
    {
        let entry = models_entry(&instances[i]);
        items.push(entry);
        proof {
            assert(instances@.take(i + 1).drop_last() =~= instances@.take(i as int));
            assert(instances@.take(i + 1).last() == instances@[i as int]);
            assert(jvals_of(items@) =~= seq![spec_instances_entry()] + spec_models_entries(
                instances@.take(i + 1),
            ));
        }
        i += 1;
    }
    proof {
        assert(instances@.take(n as int) =~= instances@);
    }
    jobj1("resources", Json::Arr(items))
}

/// The list of instance names as name objects.
pub open spec fn spec_instance_names_json(instances: Seq<String>) -> Seq<JVal>
    decreases instances,
{
    if instances.len() == 0 {
        Seq::empty()
    } else {
        spec_instance_names_json(instances.drop_last()).push(
            JVal::Obj(seq![("name"@, JVal::Str(instances.last()@))]),
        )
    }
}

/// The `resources/read` contents of the instances resource: one text
/// entry carrying the JSON of the instance name list.
pub fn instances_contents(instances: &Vec<String>) -> (r: Json)
    ensures
        r@ == JVal::Obj(
            seq![
                ("contents"@, JVal::Arr(
                    seq![
                        JVal::Obj(
                            seq![
                                ("uri"@, JVal::Str("odoo://instances"@)),
                                ("mimeType"@, JVal::Str("application/json"@)),
                                ("text"@, JVal::Str(
                                    jser_pretty(
                                        JVal::Arr(spec_instance_names_json(instances@)),
                                        0,
                                    ),
                                )),
                            ],
                        ),
                    ],
                )),
            ],
        ),
{
    let n = instances.len();
    let mut names: Vec<Json> = Vec::new();
    let mut i: usize = 0;
    while i < n
        invariant
            i <= n,
            n == instances@.len(),
            jvals_of(names@) == spec_instance_names_json(instances@.take(i as int)),
        decreases n - i,
    {
        let entry = jobj1("name", Json::Str(instances[i].clone()));
        names.push(entry);
        proof {
            assert(instances@.take(i + 1).drop_last() =~= instances@.take(i as int));
            assert(instances@.take(i + 1).last() == instances@[i as int]);
            assert(jvals_of(names@) =~= spec_instance_names_json(instances@.take(i + 1)));
        }
        i += 1;
    }
    proof {
        assert(instances@.take(n as int) =~= instances@);
    }
    let text = Json::Arr(names).to_pretty_text();
    let entry = jobj3(
        "uri",
        Json::Str("odoo://instances".to_owned()),
        "mimeType",
        Json::Str("application/json".to_owned()),
        "text",
        Json::Str(text),
    );
    jobj1("contents", jarr1(entry))
}

} // verus!
