//! The tool registry: declarative tool, prompt and server definitions,
//! guard evaluation, schema safety, and the atomically replaced snapshot.
//!
//! Loading and watching the definition files is I/O and happens outside the
//! library; what is validated, what a reload keeps and what it replaces is
//! decided here.

use vstd::prelude::*;

use crate::json::{JVal, Json, jfields_of, jval_of, jvals_of, lemma_jfields_of_index,
    lemma_jfields_of_len, lemma_jvals_of_index, lemma_jvals_of_len};
use crate::strutil::{lower_chars, lower_spec, str_eq, trim_chars, trim_spec, chars_of, string_of};

verus! {

broadcast use {vstd::std_specs::vec::group_vec_axioms, vstd::seq::group_seq_axioms};

/// Conditions gating a tool's visibility and callability.
#[derive(Debug)]
pub struct ToolGuards {
    /// The tool is listed and callable only while this environment
    /// variable holds a truthy value.
    pub requires_env_true: Option<String>,
}

/// Declarative operation of a tool: the operation type tag and the map
/// from logical parameter name to the JSON pointer that finds it in the
/// call arguments.
#[derive(Debug)]
pub struct OpSpec {
    pub op_type: String,
    pub map: Vec<(String, String)>,
}

/// One tool definition, replaced wholesale on reload.
#[derive(Debug)]
pub struct ToolDef {
    pub name: String,
    pub description: String,
    pub input_schema: Json,
    pub op: OpSpec,
    pub guards: Option<ToolGuards>,
}

/// One prompt definition.
#[derive(Debug)]
pub struct Prompt {
    pub name: String,
    pub description: String,
    pub content: String,
}

/// Server metadata from the server definition file.
#[derive(Debug)]
pub struct ServerMeta {
    pub server_name: String,
    pub instructions: String,
    pub protocol_version_default: Option<String>,
}

/// A read-only snapshot of process-environment entries, handed in by the
/// caller so that guard evaluation stays a function of plain values.
pub struct EnvSnapshot {
    pub vars: Vec<(String, String)>,
}

pub open spec fn env_view(vars: Seq<(String, String)>) -> Seq<(Seq<char>, Seq<char>)> {
    vars.map(|i: int, p: (String, String)| (p.0@, p.1@))
}

/// First entry with the given name.
pub open spec fn env_lookup(env: Seq<(Seq<char>, Seq<char>)>, name: Seq<char>) -> Option<
    Seq<char>,
>
    decreases env.len(),
{
    if env.len() == 0 {
        None
    } else if env[0].0 == name {
        Some(env[0].1)
    } else {
        env_lookup(env.drop_first(), name)
    }
}

impl EnvSnapshot {
    pub open spec fn view_env(&self) -> Seq<(Seq<char>, Seq<char>)> {
        env_view(self.vars@)
    }

    pub fn lookup(&self, name: &str) -> (r: Option<&String>)
        ensures
            match r {
                Some(v) => env_lookup(self.view_env(), name@) == Some(v@),
                None => env_lookup(self.view_env(), name@) is None,
            },
    {
        let n = self.vars.len();
        let mut i: usize = 0;
        while i < n
            invariant
                i <= n,
                n == self.vars@.len(),
                forall|j: int| 0 <= j < i ==> (#[trigger] self.view_env()[j]).0 != name@,
            decreases n - i,
        {
            if str_eq(self.vars[i].0.as_str(), name) {
                proof {
                    lemma_env_lookup_skip(self.view_env(), name@, i as int);
                    assert(self.view_env().skip(i as int)[0] == self.view_env()[i as int]);
                }
                return Some(&self.vars[i].1);
            }
            i += 1;
        }
        proof {
            lemma_env_lookup_skip(self.view_env(), name@, n as int);
            assert(self.view_env().skip(n as int) =~= Seq::<(Seq<char>, Seq<char>)>::empty());
        }
        None
    }
}

proof fn lemma_env_lookup_skip(env: Seq<(Seq<char>, Seq<char>)>, name: Seq<char>, i: int)
    requires
        0 <= i <= env.len(),
        forall|j: int| 0 <= j < i ==> (#[trigger] env[j]).0 != name,
    ensures
        env_lookup(env, name) == env_lookup(env.skip(i), name),
    decreases i,
{
    if i > 0 {
        lemma_env_lookup_skip(env.drop_first(), name, i - 1);
        assert(env.drop_first().skip(i - 1) =~= env.skip(i));
    } else {
        assert(env.skip(0) =~= env);
    }
}

/// A truthy guard value: after trimming and ASCII lowering, one of `1`,
/// `true`, `yes`, `y`, `on`.
pub open spec fn spec_truthy(s: Seq<char>) -> bool {
    let t = lower_spec(trim_spec(s));
    t == "1"@ || t == "true"@ || t == "yes"@ || t == "y"@ || t == "on"@
}

/// Whether an environment value counts as truthy for a guard.
pub fn env_truthy_value(v: &str) -> (r: bool)
    ensures
        r == spec_truthy(v@),
{
    let cs = chars_of(v);
    let t = lower_chars(&trim_chars(&cs));
    let s = string_of(&t);
    str_eq(s.as_str(), "1") || str_eq(s.as_str(), "true") || str_eq(s.as_str(), "yes") || str_eq(
        s.as_str(),
        "y",
    ) || str_eq(s.as_str(), "on")
}

/// Whether a tool's guards let it be listed and called under the given
/// environment.
pub open spec fn spec_guards_allow(g: Option<ToolGuards>, env: Seq<(Seq<char>, Seq<char>)>) -> bool {
    match g {
        None => true,
        Some(tg) => match tg.requires_env_true {
            None => true,
            Some(var) => match env_lookup(env, var@) {
                Some(v) => spec_truthy(v),
                None => false,
            },
        },
    }
}

pub fn guards_allow(guards: Option<&ToolGuards>, env: &EnvSnapshot) -> (r: bool)
    ensures
        match guards {
            Some(g) => r == spec_guards_allow(Some(*g), env.view_env()),
            None => r == spec_guards_allow(None, env.view_env()),
        },
{
    match guards {
        None => true,
        Some(g) => match &g.requires_env_true {
            None => true,
            Some(var) => match env.lookup(var.as_str()) {
                Some(v) => env_truthy_value(v.as_str()),
                None => false,
            },
        },
    }
}

/// Schema keys that break simple client-side schema consumers.
pub open spec fn forbidden_key(k: Seq<char>) -> bool {
    k == "anyOf"@ || k == "oneOf"@ || k == "allOf"@ || k == "$ref"@ || k == "definitions"@
}

/// A schema free of the hostile constructs: no forbidden key anywhere and
/// no `type` member holding an array.
pub open spec fn schema_safe(v: JVal) -> bool
    decreases v,
{
    match v {
        JVal::Obj(fs) => fields_all_safe(fs),
        JVal::Arr(items) => items_all_safe(items),
        _ => true,
    }
}

/// What `schema_safe` asks of one object member.
pub open spec fn member_safe(f: (Seq<char>, JVal)) -> bool
    decreases f,
{
    &&& !forbidden_key(f.0)
    &&& !(f.0 == "type"@ && f.1 is Arr)
    &&& schema_safe(f.1)
}

pub open spec fn fields_all_safe(fs: Seq<(Seq<char>, JVal)>) -> bool
    decreases fs,
{
    forall|i: int| 0 <= i < fs.len() ==> member_safe(#[trigger] fs[i])
}

pub open spec fn items_all_safe(items: Seq<JVal>) -> bool
    decreases items,
{
    forall|i: int| 0 <= i < items.len() ==> schema_safe(#[trigger] items[i])
}

fn forbidden_key_exec(k: &str) -> (r: bool)
    ensures
        r == forbidden_key(k@),
{
    str_eq(k, "anyOf") || str_eq(k, "oneOf") || str_eq(k, "allOf") || str_eq(k, "$ref") || str_eq(
        k,
        "definitions",
    )
}

/// Whether some object member anywhere in the tree has the key `k`.
pub open spec fn key_in_schema(v: JVal, k: Seq<char>) -> bool
    decreases v,
{
    match v {
        JVal::Obj(fs) => key_in_fields(fs, k),
        JVal::Arr(items) => key_in_items(items, k),
        _ => false,
    }
}

pub open spec fn key_in_fields(fs: Seq<(Seq<char>, JVal)>, k: Seq<char>) -> bool
    decreases fs,
{
    if fs.len() == 0 {
        false
    } else {
        key_in_fields(fs.drop_last(), k) || fs.last().0 == k || key_in_schema(fs.last().1, k)
    }
}

pub open spec fn key_in_items(items: Seq<JVal>, k: Seq<char>) -> bool
    decreases items,
{
    if items.len() == 0 {
        false
    } else {
        key_in_items(items.drop_last(), k) || key_in_schema(items.last(), k)
    }
}

/// Whether some object anywhere in the tree has a `type` member holding
/// an array.
pub open spec fn type_array_in_schema(v: JVal) -> bool
    decreases v,
{
    match v {
        JVal::Obj(fs) => type_array_in_fields(fs),
        JVal::Arr(items) => type_array_in_items(items),
        _ => false,
    }
}

pub open spec fn type_array_in_fields(fs: Seq<(Seq<char>, JVal)>) -> bool
    decreases fs,
{
    if fs.len() == 0 {
        false
    } else {
        type_array_in_fields(fs.drop_last()) || (fs.last().0 == "type"@ && fs.last().1 is Arr)
            || type_array_in_schema(fs.last().1)
    }
}

pub open spec fn type_array_in_items(items: Seq<JVal>) -> bool
    decreases items,
{
    if items.len() == 0 {
        false
    } else {
        type_array_in_items(items.drop_last()) || type_array_in_schema(items.last())
    }
}

proof fn lemma_key_in_fields_at(fs: Seq<(Seq<char>, JVal)>, k: Seq<char>, i: int)
    requires
        0 <= i < fs.len(),
        fs[i].0 == k || key_in_schema(fs[i].1, k),
    ensures
        key_in_fields(fs, k),
    decreases fs.len(),
{
    if i < fs.len() - 1 {
        lemma_key_in_fields_at(fs.drop_last(), k, i);
        assert(fs.drop_last()[i] == fs[i]);
    } else {
        assert(fs.last() == fs[i]);
    }
}

proof fn lemma_key_in_items_at(items: Seq<JVal>, k: Seq<char>, i: int)
    requires
        0 <= i < items.len(),
        key_in_schema(items[i], k),
    ensures
        key_in_items(items, k),
    decreases items.len(),
{
    if i < items.len() - 1 {
        lemma_key_in_items_at(items.drop_last(), k, i);
        assert(items.drop_last()[i] == items[i]);
    } else {
        assert(items.last() == items[i]);
    }
}

proof fn lemma_type_array_in_fields_at(fs: Seq<(Seq<char>, JVal)>, i: int)
    requires
        0 <= i < fs.len(),
        (fs[i].0 == "type"@ && fs[i].1 is Arr) || type_array_in_schema(fs[i].1),
    ensures
        type_array_in_fields(fs),
    decreases fs.len(),
{
    if i < fs.len() - 1 {
        lemma_type_array_in_fields_at(fs.drop_last(), i);
        assert(fs.drop_last()[i] == fs[i]);
    } else {
        assert(fs.last() == fs[i]);
    }
}

proof fn lemma_type_array_in_items_at(items: Seq<JVal>, i: int)
    requires
        0 <= i < items.len(),
        type_array_in_schema(items[i]),
    ensures
        type_array_in_items(items),
    decreases items.len(),
{
    if i < items.len() - 1 {
        lemma_type_array_in_items_at(items.drop_last(), i);
        assert(items.drop_last()[i] == items[i]);
    } else {
        assert(items.last() == items[i]);
    }
}

/// What a schema rejection message says of the schema: it names a
/// forbidden key that occurs in the tree, or the type-array construct
/// that occurs there.
pub open spec fn spec_schema_complaint(schema: JVal, m: Seq<char>) -> bool {
    ||| (m == "schema contains type array"@ && type_array_in_schema(schema))
    ||| exists|k: Seq<char>|
        forbidden_key(k) && key_in_schema(schema, k) && m == "schema contains forbidden key '"@
            + k + "'"@
}

fn forbidden_key_msg(k: &str) -> (r: String)
    ensures
        r@ == "schema contains forbidden key '"@ + k@ + "'"@,
{
    let mut m = "schema contains forbidden key '".to_owned();
    m.append(k);
    m.append("'");
    proof {
        assert(m@ =~= "schema contains forbidden key '"@ + k@ + "'"@);
    }
    m
}

/// Checks a tool input schema for the constructs that the registry
/// rejects; a rejection names the offending construct.
pub fn validate_cursor_schema(schema: &Json) -> (r: Result<(), String>)
    ensures
        match r {
            Ok(_) => schema_safe(schema@),
            Err(m) => !schema_safe(schema@) && spec_schema_complaint(schema@, m@),
        },
    decreases *schema,
{
    match schema {
        Json::Obj(fields) => {
            proof {
                assert(decreases_to!(*schema => *fields));
            }
            let r = validate_schema_fields(fields);
            proof {
                assert(schema@ == JVal::Obj(jfields_of(fields@)));
            }
            r
        },
        Json::Arr(items) => {
            proof {
                assert(decreases_to!(*schema => *items));
            }
            let r = validate_schema_items(items);
            proof {
                assert(schema@ == JVal::Arr(jvals_of(items@)));
            }
            r
        },
        _ => Ok(()),
    }
}

fn validate_schema_fields(fields: &Vec<(String, Json)>) -> (r: Result<(), String>)
    ensures
        match r {
            Ok(_) => fields_all_safe(jfields_of(fields@)),
            Err(m) => !fields_all_safe(jfields_of(fields@)) && spec_schema_complaint(
                JVal::Obj(jfields_of(fields@)),
                m@,
            ),
        },
    decreases *fields,
{
    proof {
        lemma_jfields_of_len(fields@);
    }
    let ghost fs = jfields_of(fields@);
    let n = fields.len();
    let mut i: usize = 0;
    while i < n
        invariant
            i <= n,
            n == fields@.len(),
            fs == jfields_of(fields@),
            fs.len() == n,
            forall|j: int| 0 <= j < i ==> member_safe(#[trigger] fs[j]),
        decreases n - i,
    {
        proof {
            lemma_jfields_of_index(fields@, i as int);
            assert(decreases_to!(*fields => fields@));
            assert(decreases_to!(fields@ => fields@[i as int]));
            assert(decreases_to!(fields@[i as int] => fields@[i as int].1));
        }
        if forbidden_key_exec(fields[i].0.as_str()) {
            let m = forbidden_key_msg(fields[i].0.as_str());
            proof {
                assert(!member_safe(fs[i as int]));
                let k = fs[i as int].0;
                assert(k == fields@[i as int].0@);
                lemma_key_in_fields_at(fs, k, i as int);
                assert(spec_schema_complaint(JVal::Obj(fs), m@));
            }
            return Err(m);
        }
        let is_arr = match &fields[i].1 {
            Json::Arr(_) => true,
            _ => false,
        };
        if is_arr && str_eq(fields[i].0.as_str(), "type") {
            proof {
                assert(!member_safe(fs[i as int]));
                assert(fs[i as int].0 == "type"@ && fs[i as int].1 is Arr);
                lemma_type_array_in_fields_at(fs, i as int);
            }
            return Err("schema contains type array".to_owned());
        }
        match validate_cursor_schema(&fields[i].1) {
            Ok(_) => (),
            Err(m) => {
                proof {
                    assert(!member_safe(fs[i as int]));
                    assert(fs[i as int].1 == jval_of(fields@[i as int].1));
                    if m@ == "schema contains type array"@ && type_array_in_schema(
                        fs[i as int].1,
                    ) {
                        lemma_type_array_in_fields_at(fs, i as int);
                    } else {
                        let k = choose|k: Seq<char>|
                            forbidden_key(k) && key_in_schema(fs[i as int].1, k) && m@
                                == "schema contains forbidden key '"@ + k + "'"@;
                        assert(key_in_schema(fs[i as int].1, k));
                        lemma_key_in_fields_at(fs, k, i as int);
                        assert(spec_schema_complaint(JVal::Obj(fs), m@));
                    }
                }
                return Err(m);
            },
        }
        i += 1;
    }
    Ok(())
}

pub open spec fn tool_names(ts: Seq<ToolDef>) -> Seq<Seq<char>> {
    ts.map(|i: int, t: ToolDef| t.name@)
}

pub open spec fn prompt_names(ps: Seq<Prompt>) -> Seq<Seq<char>> {
    ps.map(|i: int, p: Prompt| p.name@)
}

pub open spec fn unique_names(names: Seq<Seq<char>>) -> bool {
    forall|i: int, j: int| 0 <= i < j < names.len() ==> names[i] != names[j]
}

pub open spec fn all_schemas_safe(ts: Seq<ToolDef>) -> bool {
    forall|i: int| 0 <= i < ts.len() ==> schema_safe((#[trigger] ts[i]).input_schema@)
}

/// The bundle that one load publishes atomically.
#[derive(Debug)]
pub struct RegistrySnapshot {
    pub tools: Vec<ToolDef>,
    pub prompts: Vec<Prompt>,
    pub server: ServerMeta,
}

impl RegistrySnapshot {
    /// No two tools and no two prompts share a name, and every tool's
    /// schema is safe.
    pub open spec fn wf(self) -> bool {
        &&& unique_names(tool_names(self.tools@))
        &&& unique_names(prompt_names(self.prompts@))
        &&& all_schemas_safe(self.tools@)
    }
}

/// Why a load was rejected.
#[derive(Debug)]
pub enum ConfigError {
    /// A tool's input schema holds a rejected construct; the message
    /// names it.
    InvalidSchema { tool: String, message: String },
    DuplicateTool { name: String },
    DuplicatePrompt { name: String },
}

/// Scans for the first name that repeats an earlier one.
fn find_duplicate(names: &Vec<String>) -> (r: Option<usize>)
    ensures
        match r {
            Some(j) => j < names@.len() && exists|i: int|
                0 <= i < j && (#[trigger] names@[i])@ == names@[j as int]@,
            None => forall|i: int, j: int|
                0 <= i < j < names@.len() ==> (#[trigger] names@[i])@ != (#[trigger] names@[j])@,
        },
{
    let n = names.len();
    let mut j: usize = 1;
    if n == 0 {
        return None;
    }
    while j < n
        invariant
            1 <= j <= n,
            n == names@.len(),
            forall|a: int, b: int|
                0 <= a < b < j ==> (#[trigger] names@[a])@ != (#[trigger] names@[b])@,
        decreases n - j,
    {
        let mut i: usize = 0;
        while i < j
            invariant
                i <= j < n,
                n == names@.len(),
                forall|a: int| 0 <= a < i ==> (#[trigger] names@[a])@ != names@[j as int]@,
            decreases j - i,
        {
            if str_eq(names[i].as_str(), names[j].as_str()) {
                return Some(j);
            }
            i += 1;
        }
        j += 1;
    }
    None
}

/// The in-memory registry state; the caller serialises access to it and
/// swaps it atomically.
pub struct Registry {
    snapshot: RegistrySnapshot,
}

pub open spec fn default_server_meta(s: ServerMeta) -> bool {
    &&& s.server_name@ == "odoo-rust-mcp"@
    &&& s.instructions@ == "Odoo MCP server"@
    &&& s.protocol_version_default matches Some(v) && v@ == "2025-11-05"@
}

impl Registry {
    pub closed spec fn snap(self) -> RegistrySnapshot {
        self.snapshot
    }

    pub open spec fn wf(self) -> bool {
        self.snap().wf()
    }

    /// The state before the first load: no tools, no prompts, built-in
    /// server metadata.
    pub fn empty() -> (r: Registry)
        ensures
            r.wf(),
            r.snap().tools@.len() == 0,
            r.snap().prompts@.len() == 0,
            default_server_meta(r.snap().server),
    {
        Registry {
            snapshot: RegistrySnapshot {
                tools: Vec::new(),
                prompts: Vec::new(),
                server: ServerMeta {
                    server_name: "odoo-rust-mcp".to_owned(),
                    instructions: "Odoo MCP server".to_owned(),
                    protocol_version_default: Some("2025-11-05".to_owned()),
                },
            },
        }
    }

    /// Validates freshly parsed definitions and publishes them; a rejected
    /// load keeps the prior snapshot untouched, so no reader ever sees a
    /// duplicate name or a partial state.
    pub fn reload(&mut self, tools: Vec<ToolDef>, prompts: Vec<Prompt>, server: ServerMeta) -> (r:
        Result<(), ConfigError>)
        requires
            old(self).wf(),
        ensures
            final(self).wf(),
            match r {
                Ok(_) => {
                    &&& final(self).snap().tools@ == tools@
                    &&& final(self).snap().prompts@ == prompts@
                    &&& final(self).snap().server == server
                    &&& unique_names(tool_names(tools@))
                    &&& unique_names(prompt_names(prompts@))
                    &&& all_schemas_safe(tools@)
                },
                Err(e) => {
                    &&& *final(self) == *old(self)
                    &&& !(unique_names(tool_names(tools@)) && unique_names(prompt_names(prompts@))
                        && all_schemas_safe(tools@))
                    &&& match e {
                        ConfigError::InvalidSchema { tool, message } => !all_schemas_safe(tools@)
                            && exists|i: int|
                            0 <= i < tools@.len() && (#[trigger] tools@[i]).name@ == tool@
                                && !schema_safe(tools@[i].input_schema@) && spec_schema_complaint(
                                tools@[i].input_schema@,
                                message@,
                            ),
                        ConfigError::DuplicateTool { name } => !unique_names(tool_names(tools@))
                            && exists|i: int, j: int|
                            0 <= i < j < tools@.len() && #[trigger] tool_names(tools@)[i]
                                == #[trigger] tool_names(tools@)[j] && tool_names(tools@)[j]
                                == name@,
                        ConfigError::DuplicatePrompt { name } => !unique_names(
                            prompt_names(prompts@),
                        ) && exists|i: int, j: int|
                            0 <= i < j < prompts@.len() && #[trigger] prompt_names(prompts@)[i]
                                == #[trigger] prompt_names(prompts@)[j] && prompt_names(
                                prompts@,
                            )[j] == name@,
                    }
                },
            },
    {
        let nt = tools.len();
        let mut i: usize = 0;
        while i < nt
            invariant
                i <= nt,
                nt == tools@.len(),
                *self == *old(self),
                old(self).wf(),
                forall|j: int| 0 <= j < i ==> schema_safe((#[trigger] tools@[j]).input_schema@),
            decreases nt - i,
        {
            match validate_cursor_schema(&tools[i].input_schema) {
                Ok(_) => (),
                Err(m) => {
                    return Err(
                        ConfigError::InvalidSchema { tool: tools[i].name.clone(), message: m },
                    );
                },
            }
            i += 1;
        }
        let mut tnames: Vec<String> = Vec::new();
        let mut k: usize = 0;
        while k < nt
            invariant
                k <= nt,
                nt == tools@.len(),
                tnames@.len() == k,
                forall|j: int| 0 <= j < k ==> (#[trigger] tnames@[j])@ == tool_names(tools@)[j],
            decreases nt - k,
        {
            tnames.push(tools[k].name.clone());
            k += 1;
        }
        if let Some(j) = find_duplicate(&tnames) {
            proof {
                let i0 = choose|i0: int|
                    0 <= i0 < j && (#[trigger] tnames@[i0])@ == tnames@[j as int]@;
                assert(tool_names(tools@)[i0] == tool_names(tools@)[j as int]);
            }
            return Err(ConfigError::DuplicateTool { name: tnames[j].clone() });
        }
        let np = prompts.len();
        let mut pnames: Vec<String> = Vec::new();
        let mut k2: usize = 0;
        while k2 < np
            invariant
                k2 <= np,
                np == prompts@.len(),
                pnames@.len() == k2,
                forall|j: int| 0 <= j < k2 ==> (#[trigger] pnames@[j])@ == prompt_names(prompts@)[j],
            decreases np - k2,
        {
            pnames.push(prompts[k2].name.clone());
            k2 += 1;
        }
        if let Some(j) = find_duplicate(&pnames) {
            proof {
                let i0 = choose|i0: int|
                    0 <= i0 < j && (#[trigger] pnames@[i0])@ == pnames@[j as int]@;
                assert(prompt_names(prompts@)[i0] == prompt_names(prompts@)[j as int]);
            }
            return Err(ConfigError::DuplicatePrompt { name: pnames[j].clone() });
        }
        proof {
            assert forall|a: int, b: int| 0 <= a < b < tool_names(tools@).len() implies
                tool_names(tools@)[a] != tool_names(tools@)[b] by {
                assert(tnames@[a]@ == tool_names(tools@)[a]);
                assert(tnames@[b]@ == tool_names(tools@)[b]);
            }
            assert forall|a: int, b: int| 0 <= a < b < prompt_names(prompts@).len() implies
                prompt_names(prompts@)[a] != prompt_names(prompts@)[b] by {
                assert(pnames@[a]@ == prompt_names(prompts@)[a]);
                assert(pnames@[b]@ == prompt_names(prompts@)[b]);
            }
        }
        self.snapshot = RegistrySnapshot { tools, prompts, server };
        Ok(())
    }
}

fn validate_schema_items(items: &Vec<Json>) -> (r: Result<(), String>)
    ensures
        match r {
            Ok(_) => items_all_safe(jvals_of(items@)),
            Err(m) => !items_all_safe(jvals_of(items@)) && spec_schema_complaint(
                JVal::Arr(jvals_of(items@)),
                m@,
            ),
        },
    decreases *items,
{
    proof {
        lemma_jvals_of_len(items@);
    }
    let ghost vs = jvals_of(items@);
    let n = items.len();
    let mut i: usize = 0;
    while i < n
        invariant
            i <= n,
            n == items@.len(),
            vs == jvals_of(items@),
            vs.len() == n,
            forall|j: int| 0 <= j < i ==> schema_safe(#[trigger] vs[j]),
        decreases n - i,
    {
        proof {
            lemma_jvals_of_index(items@, i as int);
            assert(decreases_to!(*items => items@));
            assert(decreases_to!(items@ => items@[i as int]));
        }
        match validate_cursor_schema(&items[i]) {
            Ok(_) => (),
            Err(m) => {
                proof {
                    assert(!schema_safe(vs[i as int]));
                    assert(vs[i as int] == jval_of(items@[i as int]));
                    if m@ == "schema contains type array"@ && type_array_in_schema(
                        vs[i as int],
                    ) {
                        lemma_type_array_in_items_at(vs, i as int);
                    } else {
                        let k = choose|k: Seq<char>|
                            forbidden_key(k) && key_in_schema(vs[i as int], k) && m@
                                == "schema contains forbidden key '"@ + k + "'"@;
                        assert(key_in_schema(vs[i as int], k));
                        lemma_key_in_items_at(vs, k, i as int);
                        assert(spec_schema_complaint(JVal::Arr(vs), m@));
                    }
                }
                return Err(m);
            },
        }
        i += 1;
    }
    Ok(())
}

/// Guard evaluation for one tool.
pub open spec fn spec_guard_ok(t: ToolDef, env: Seq<(Seq<char>, Seq<char>)>) -> bool {
    spec_guards_allow(t.guards, env)
}

/// The listing entry for one tool.
pub open spec fn summary_of(t: ToolDef) -> JVal {
    JVal::Obj(
        seq![
            ("name"@, JVal::Str(t.name@)),
            ("description"@, JVal::Str(t.description@)),
            ("inputSchema"@, t.input_schema@),
        ],
    )
}

/// The tool listing: a summary for each tool whose guard passes, fully
/// omitting the others, in definition order.
pub open spec fn listed_tools(ts: Seq<ToolDef>, env: Seq<(Seq<char>, Seq<char>)>) -> Seq<JVal>
    decreases ts,
{
    if ts.len() == 0 {
        Seq::empty()
    } else {
        let p = listed_tools(ts.drop_last(), env);
        if spec_guard_ok(ts.last(), env) {
            p.push(summary_of(ts.last()))
        } else {
            p
        }
    }
}

/// First tool with the given name.
pub open spec fn find_tool(ts: Seq<ToolDef>, name: Seq<char>) -> Option<ToolDef>
    decreases ts.len(),
{
    if ts.len() == 0 {
        None
    } else if ts[0].name@ == name {
        Some(ts[0])
    } else {
        find_tool(ts.drop_first(), name)
    }
}

/// Name lookup gated by the guard: a guarded-off tool is as absent as an
/// unknown one.
pub open spec fn gated_tool(ts: Seq<ToolDef>, name: Seq<char>, env: Seq<(Seq<char>, Seq<char>)>)
    -> Option<ToolDef> {
    match find_tool(ts, name) {
        Some(t) => if spec_guard_ok(t, env) {
            Some(t)
        } else {
            None
        },
        None => None,
    }
}

/// First prompt with the given name.
pub open spec fn find_prompt(ps: Seq<Prompt>, name: Seq<char>) -> Option<Prompt>
    decreases ps.len(),
{
    if ps.len() == 0 {
        None
    } else if ps[0].name@ == name {
        Some(ps[0])
    } else {
        find_prompt(ps.drop_first(), name)
    }
}

fn summary_json(t: &ToolDef) -> (r: Json)
    ensures
        r@ == summary_of(*t),
{
    let mut fields: Vec<(String, Json)> = Vec::new();
    fields.push(("name".to_owned(), Json::Str(t.name.clone())));
    fields.push(("description".to_owned(), Json::Str(t.description.clone())));
    fields.push(("inputSchema".to_owned(), t.input_schema.clone()));
    proof {
        let fs = jfields_of(fields@);
        lemma_jfields_of_len(fields@);
        lemma_jfields_of_index(fields@, 0);
        lemma_jfields_of_index(fields@, 1);
        lemma_jfields_of_index(fields@, 2);
        assert(fs =~= seq![
            ("name"@, JVal::Str(t.name@)),
            ("description"@, JVal::Str(t.description@)),
            ("inputSchema"@, t.input_schema@),
        ]);
    }
    Json::Obj(fields)
}

proof fn lemma_find_tool_at(ts: Seq<ToolDef>, name: Seq<char>, i: int)
    requires
        0 <= i < ts.len(),
        forall|j: int| 0 <= j < i ==> (#[trigger] ts[j]).name@ != name,
        ts[i].name@ == name,
    ensures
        find_tool(ts, name) == Some(ts[i]),
    decreases i,
{
    if i > 0 {
        lemma_find_tool_at(ts.drop_first(), name, i - 1);
    }
}

proof fn lemma_find_tool_none(ts: Seq<ToolDef>, name: Seq<char>)
    requires
        forall|j: int| 0 <= j < ts.len() ==> (#[trigger] ts[j]).name@ != name,
    ensures
        find_tool(ts, name) is None,
    decreases ts.len(),
{
    if ts.len() > 0 {
        lemma_find_tool_none(ts.drop_first(), name);
    }
}

proof fn lemma_find_prompt_at(ps: Seq<Prompt>, name: Seq<char>, i: int)
    requires
        0 <= i < ps.len(),
        forall|j: int| 0 <= j < i ==> (#[trigger] ps[j]).name@ != name,
        ps[i].name@ == name,
    ensures
        find_prompt(ps, name) == Some(ps[i]),
    decreases i,
{
    if i > 0 {
        lemma_find_prompt_at(ps.drop_first(), name, i - 1);
    }
}

proof fn lemma_find_prompt_none(ps: Seq<Prompt>, name: Seq<char>)
    requires
        forall|j: int| 0 <= j < ps.len() ==> (#[trigger] ps[j]).name@ != name,
    ensures
        find_prompt(ps, name) is None,
    decreases ps.len(),
{
    if ps.len() > 0 {
        lemma_find_prompt_none(ps.drop_first(), name);
    }
}

impl Registry {
    /// Guard-filtered tool summaries, for `tools/list`.
    pub fn list_tools(&self, env: &EnvSnapshot) -> (r: Vec<Json>)
        ensures
            jvals_of(r@) == listed_tools(self.snap().tools@, env.view_env()),
    {
        let ts = &self.snapshot.tools;
        let n = ts.len();
        let mut out: Vec<Json> = Vec::new();
        let mut i: usize = 0;
        while i < n
            invariant
                i <= n,
                n == ts@.len(),
                ts@ == self.snap().tools@,
                jvals_of(out@) == listed_tools(ts@.take(i as int), env.view_env()),
            decreases n - i,
        {
            let allowed = match &ts[i].guards {
                Some(g) => guards_allow(Some(g), env),
                None => true,
            };
            proof {
                assert(ts@.take(i + 1).drop_last() =~= ts@.take(i as int));
                assert(ts@.take(i + 1).last() == ts@[i as int]);
            }
            if allowed {
                let s = summary_json(&ts[i]);
                let ghost prev = out@;
                out.push(s);
                proof {
                    assert(out@.drop_last() =~= prev);
                    assert(jvals_of(out@) == jvals_of(out@.drop_last()).push(jval_of(out@.last())));
                }
            }
            i += 1;
        }
        proof {
            assert(ts@.take(n as int) =~= ts@);
        }
        out
    }

    /// Tool lookup by name for `tools/call`: an unknown and a guarded-off
    /// name are alike not found.
    pub fn get_tool<'a>(&'a self, name: &str, env: &EnvSnapshot) -> (r: Option<&'a ToolDef>)
        ensures
            match r {
                Some(t) => gated_tool(self.snap().tools@, name@, env.view_env()) == Some(*t),
                None => gated_tool(self.snap().tools@, name@, env.view_env()) is None,
            },
    {
        let ts = &self.snapshot.tools;
        let n = ts.len();
        let mut i: usize = 0;
        while i < n
            invariant
                i <= n,
                n == ts@.len(),
                ts@ == self.snap().tools@,
                forall|j: int| 0 <= j < i ==> (#[trigger] ts@[j]).name@ != name@,
            decreases n - i,
        {
            if str_eq(ts[i].name.as_str(), name) {
                proof {
                    lemma_find_tool_at(ts@, name@, i as int);
                }
                let allowed = match &ts[i].guards {
                    Some(g) => guards_allow(Some(g), env),
                    None => true,
                };
                if allowed {
                    return Some(&ts[i]);
                } else {
                    return None;
                }
            }
            i += 1;
        }
        proof {
            lemma_find_tool_none(ts@, name@);
        }
        None
    }

    /// Prompt names and descriptions in declared order, for
    /// `prompts/list`.
    pub fn list_prompts(&self) -> (r: Vec<(String, String)>)
        ensures
            r@.len() == self.snap().prompts@.len(),
            forall|i: int|
                0 <= i < r@.len() ==> (#[trigger] r@[i]).0@ == self.snap().prompts@[i].name@
                    && r@[i].1@ == self.snap().prompts@[i].description@,
    {
        let ps = &self.snapshot.prompts;
        let n = ps.len();
        let mut out: Vec<(String, String)> = Vec::new();
        let mut i: usize = 0;
        while i < n
            invariant
                i <= n,
                n == ps@.len(),
                ps@ == self.snap().prompts@,
                out@.len() == i,
                forall|j: int|
                    0 <= j < i ==> (#[trigger] out@[j]).0@ == ps@[j].name@ && out@[j].1@
                        == ps@[j].description@,
            decreases n - i,
        {
            out.push((ps[i].name.clone(), ps[i].description.clone()));
            i += 1;
        }
        out
    }

    /// Prompt lookup by name, for `prompts/get`.
    pub fn get_prompt<'a>(&'a self, name: &str) -> (r: Option<&'a Prompt>)
        ensures
            match r {
                Some(p) => find_prompt(self.snap().prompts@, name@) == Some(*p),
                None => find_prompt(self.snap().prompts@, name@) is None,
            },
    {
        let ps = &self.snapshot.prompts;
        let n = ps.len();
        let mut i: usize = 0;
        while i < n
            invariant
                i <= n,
                n == ps@.len(),
                ps@ == self.snap().prompts@,
                forall|j: int| 0 <= j < i ==> (#[trigger] ps@[j]).name@ != name@,
            decreases n - i,
        {
            if str_eq(ps[i].name.as_str(), name) {
                proof {
                    lemma_find_prompt_at(ps@, name@, i as int);
                }
                return Some(&ps[i]);
            }
            i += 1;
        }
        proof {
            lemma_find_prompt_none(ps@, name@);
        }
        None
    }

    pub fn server_name(&self) -> (r: String)
        ensures
            r@ == self.snap().server.server_name@,
    {
        self.snapshot.server.server_name.clone()
    }

    pub fn instructions(&self) -> (r: String)
        ensures
            r@ == self.snap().server.instructions@,
    {
        self.snapshot.server.instructions.clone()
    }

    /// The configured default protocol version, or the built-in one.
    pub fn protocol_version_default(&self) -> (r: String)
        ensures
            r@ == match self.snap().server.protocol_version_default {
                Some(v) => v@,
                None => "2025-11-05"@,
            },
    {
        match &self.snapshot.server.protocol_version_default {
            Some(v) => v.clone(),
            None => "2025-11-05".to_owned(),
        }
    }
}

/// Every listing entry is the summary of some tool whose guard passes.
pub proof fn lemma_listed_tools_member(
    ts: Seq<ToolDef>,
    env: Seq<(Seq<char>, Seq<char>)>,
    k: int,
)
    requires
        0 <= k < listed_tools(ts, env).len(),
    ensures
        exists|j: int|
            0 <= j < ts.len() && spec_guard_ok(#[trigger] ts[j], env) && listed_tools(ts, env)[k]
                == summary_of(ts[j]),
    decreases ts.len(),
{
    if ts.len() > 0 {
        let p = listed_tools(ts.drop_last(), env);
        if spec_guard_ok(ts.last(), env) && k == p.len() {
            assert(ts[ts.len() - 1] == ts.last());
        } else {
            lemma_listed_tools_member(ts.drop_last(), env, k);
            let j0 = choose|j0: int|
                0 <= j0 < ts.drop_last().len() && spec_guard_ok(#[trigger] ts.drop_last()[j0], env)
                    && listed_tools(ts.drop_last(), env)[k] == summary_of(ts.drop_last()[j0]);
            assert(ts.drop_last()[j0] == ts[j0]);
        }
    }
}

/// A tool whose guard does not pass is wholly absent: no listing entry is
/// its summary, and a gated lookup of its name finds nothing.
pub proof fn lemma_guarded_tool_hidden(
    ts: Seq<ToolDef>,
    env: Seq<(Seq<char>, Seq<char>)>,
    i: int,
)
    requires
        0 <= i < ts.len(),
        unique_names(tool_names(ts)),
        !spec_guard_ok(ts[i], env),
    ensures
        gated_tool(ts, ts[i].name@, env) is None,
        forall|k: int|
            0 <= k < listed_tools(ts, env).len() ==> #[trigger] listed_tools(ts, env)[k]
                != summary_of(ts[i]),
{
    assert forall|j: int| 0 <= j < i implies (#[trigger] ts[j]).name@ != ts[i].name@ by {
        assert(tool_names(ts)[j] != tool_names(ts)[i]);
    }
    lemma_find_tool_at(ts, ts[i].name@, i);
    assert forall|k: int| 0 <= k < listed_tools(ts, env).len() implies #[trigger] listed_tools(
        ts,
        env,
    )[k] != summary_of(ts[i]) by {
        lemma_listed_tools_member(ts, env, k);
        let j = choose|j: int|
            0 <= j < ts.len() && spec_guard_ok(#[trigger] ts[j], env) && listed_tools(ts, env)[k]
                == summary_of(ts[j]);
        assert(j != i);
        assert(tool_names(ts)[j] != tool_names(ts)[i]);
        if summary_of(ts[j]) == summary_of(ts[i]) {
            let fsj = seq![
                ("name"@, JVal::Str(ts[j].name@)),
                ("description"@, JVal::Str(ts[j].description@)),
                ("inputSchema"@, ts[j].input_schema@),
            ];
            let fsi = seq![
                ("name"@, JVal::Str(ts[i].name@)),
                ("description"@, JVal::Str(ts[i].description@)),
                ("inputSchema"@, ts[i].input_schema@),
            ];
            assert(fsj == fsi);
            assert(fsj[0] == fsi[0]);
            assert(ts[j].name@ == ts[i].name@);
        }
    }
}

/// A tool whose guard passes is reachable: a gated lookup of its name
/// finds exactly it.
pub proof fn lemma_allowed_tool_reachable(
    ts: Seq<ToolDef>,
    env: Seq<(Seq<char>, Seq<char>)>,
    i: int,
)
    requires
        0 <= i < ts.len(),
        unique_names(tool_names(ts)),
        spec_guard_ok(ts[i], env),
    ensures
        gated_tool(ts, ts[i].name@, env) == Some(ts[i]),
{
    assert forall|j: int| 0 <= j < i implies (#[trigger] ts[j]).name@ != ts[i].name@ by {
        assert(tool_names(ts)[j] != tool_names(ts)[i]);
    }
    lemma_find_tool_at(ts, ts[i].name@, i);
}

} // verus!
