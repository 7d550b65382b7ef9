//! The crate's own model of a JSON document.
//!
//! Call arguments, tool schemas, wire messages and backend payloads are all
//! JSON. The executable type `Json` keeps a number that does not fit `i64`
//! as its literal text, so the tree holds plain values only; its mathematical
//! model is the ghost type `JVal`.

use vstd::prelude::*;

verus! {

broadcast use {vstd::std_specs::vec::group_vec_axioms, vstd::seq::group_seq_axioms};

/// Mathematical model of a JSON document.
pub ghost enum JVal {
    Null,
    Bool(bool),
    Int(i64),
    /// A number not representable as `i64`, as its literal text.
    Num(Seq<char>),
    Str(Seq<char>),
    Arr(Seq<JVal>),
    Obj(Seq<(Seq<char>, JVal)>),
}

/// A JSON document as plain values.
///
/// An object keeps its members in declaration order; lookups take the first
/// member with the asked-for name.
#[derive(Debug, PartialEq, Eq)]
pub enum Json {
    Null,
    Bool(bool),
    Int(i64),
    /// A number not representable as `i64`, kept as its literal text.
    Num(String),
    Str(String),
    Arr(Vec<Json>),
    Obj(Vec<(String, Json)>),
}

pub open spec fn jval_of(j: Json) -> JVal
    decreases j,
{
    match j {
        Json::Null => JVal::Null,
        Json::Bool(b) => JVal::Bool(b),
        Json::Int(n) => JVal::Int(n),
        Json::Num(s) => JVal::Num(s@),
        Json::Str(s) => JVal::Str(s@),
        Json::Arr(items) => JVal::Arr(jvals_of(items@)),
        Json::Obj(fields) => JVal::Obj(jfields_of(fields@)),
    }
}

pub open spec fn jvals_of(v: Seq<Json>) -> Seq<JVal>
    decreases v,
{
    if v.len() == 0 {
        Seq::empty()
    } else {
        jvals_of(v.drop_last()).push(jval_of(v.last()))
    }
}

pub open spec fn jfields_of(v: Seq<(String, Json)>) -> Seq<(Seq<char>, JVal)>
    decreases v,
{
    if v.len() == 0 {
        Seq::empty()
    } else {
        jfields_of(v.drop_last()).push((v.last().0@, jval_of(v.last().1)))
    }
}

pub broadcast proof fn lemma_jvals_of_push(v: Seq<Json>, x: Json)
    ensures
        #[trigger] jvals_of(v.push(x)) == jvals_of(v).push(jval_of(x)),
{
    assert(v.push(x).drop_last() =~= v);
    assert(v.push(x).last() == x);
}

pub broadcast proof fn lemma_jfields_of_push(v: Seq<(String, Json)>, x: (String, Json))
    ensures
        #[trigger] jfields_of(v.push(x)) == jfields_of(v).push((x.0@, jval_of(x.1))),
{
    assert(v.push(x).drop_last() =~= v);
    assert(v.push(x).last() == x);
}

impl View for Json {
    type V = JVal;

    open spec fn view(&self) -> JVal {
        jval_of(*self)
    }
}

pub broadcast proof fn lemma_jvals_of_len(v: Seq<Json>)
    ensures
        #[trigger] jvals_of(v).len() == v.len(),
    decreases v,
{
    if v.len() > 0 {
        lemma_jvals_of_len(v.drop_last());
    }
}

pub broadcast proof fn lemma_jvals_of_index(v: Seq<Json>, i: int)
    requires
        0 <= i < v.len(),
    ensures
        #[trigger] jvals_of(v)[i] == jval_of(v[i]),
    decreases v,
{
    lemma_jvals_of_len(v.drop_last());
    if i < v.len() - 1 {
        lemma_jvals_of_index(v.drop_last(), i);
    }
}

pub broadcast proof fn lemma_jfields_of_len(v: Seq<(String, Json)>)
    ensures
        #[trigger] jfields_of(v).len() == v.len(),
    decreases v,
{
    if v.len() > 0 {
        lemma_jfields_of_len(v.drop_last());
    }
}

pub broadcast proof fn lemma_jfields_of_index(v: Seq<(String, Json)>, i: int)
    requires
        0 <= i < v.len(),
    ensures
        #[trigger] jfields_of(v)[i] == (v[i].0@, jval_of(v[i].1)),
    decreases v,
{
    lemma_jfields_of_len(v.drop_last());
    if i < v.len() - 1 {
        lemma_jfields_of_index(v.drop_last(), i);
    }
}

impl Json {
    pub fn is_null(&self) -> (r: bool)
        ensures
            r == (self@ is Null),
    {
        match self {
            Json::Null => true,
            _ => false,
        }
    }

    pub fn as_str(&self) -> (r: Option<&String>)
        ensures
            match r {
                Some(s) => self@ == JVal::Str(s@),
                None => !(self@ is Str),
            },
    {
        match self {
            Json::Str(s) => Some(s),
            _ => None,
        }
    }

    pub fn as_i64(&self) -> (r: Option<i64>)
        ensures
            match r {
                Some(n) => self@ == JVal::Int(n),
                None => !(self@ is Int),
            },
    {
        match self {
            Json::Int(n) => Some(*n),
            _ => None,
        }
    }

    pub fn as_bool(&self) -> (r: Option<bool>)
        ensures
            match r {
                Some(b) => self@ == JVal::Bool(b),
                None => !(self@ is Bool),
            },
    {
        match self {
            Json::Bool(b) => Some(*b),
            _ => None,
        }
    }

    pub fn as_array(&self) -> (r: Option<&Vec<Json>>)
        ensures
            match r {
                Some(items) => self@ == JVal::Arr(jvals_of(items@)),
                None => !(self@ is Arr),
            },
    {
        match self {
            Json::Arr(items) => Some(items),
            _ => None,
        }
    }

    pub fn as_object(&self) -> (r: Option<&Vec<(String, Json)>>)
        ensures
            match r {
                Some(fields) => self@ == JVal::Obj(jfields_of(fields@)),
                None => !(self@ is Obj),
            },
    {
        match self {
            Json::Obj(fields) => Some(fields),
            _ => None,
        }
    }
}

impl Clone for Json {
    fn clone(&self) -> (res: Self)
        ensures
            res@ == self@,
        decreases self,
    {
        match self {
            Json::Null => Json::Null,
            Json::Bool(b) => Json::Bool(*b),
            Json::Int(n) => Json::Int(*n),
            Json::Num(s) => Json::Num(s.clone()),
            Json::Str(s) => Json::Str(s.clone()),
            Json::Arr(items) => {
                proof {
                    assert(decreases_to!(*self => *items));
                }
                Json::Arr(clone_json_vec(items))
            },
            Json::Obj(fields) => {
                proof {
                    assert(decreases_to!(*self => *fields));
                }
                Json::Obj(clone_json_fields(fields))
            },
        }
    }
}

fn clone_json_vec(items: &Vec<Json>) -> (out: Vec<Json>)
    ensures
        jvals_of(out@) == jvals_of(items@),
        out@.len() == items@.len(),
    decreases *items,
{
    let mut out: Vec<Json> = Vec::new();
    let n = items.len();
    let mut i: usize = 0;
    while i < n
        invariant
            n == items.len(),
            i <= n,
            jvals_of(out@) == jvals_of(items@.take(i as int)),
            out@.len() == i,
        decreases n - i,
    {
        proof {
            assert(decreases_to!(*items => items@));
            assert(decreases_to!(items@ => items@[i as int]));
        }
        let c = items[i].clone();
        let ghost prev = out@;
        out.push(c);
        proof {
            assert(out@.drop_last() =~= prev);
            lemma_clone_push(items@, out@, i as int);
        }
        i += 1;
    }
    proof {
        assert(items@.take(n as int) =~= items@);
    }
    out
}

fn clone_json_fields(fields: &Vec<(String, Json)>) -> (out: Vec<(String, Json)>)
    ensures
        jfields_of(out@) == jfields_of(fields@),
        out@.len() == fields@.len(),
    decreases *fields,
{
    let mut out: Vec<(String, Json)> = Vec::new();
    let n = fields.len();
    let mut i: usize = 0;
    while i < n
        invariant
            n == fields.len(),
            i <= n,
            jfields_of(out@) == jfields_of(fields@.take(i as int)),
            out@.len() == i,
        decreases n - i,
    {
        proof {
            assert(decreases_to!(*fields => fields@));
            assert(decreases_to!(fields@ => fields@[i as int]));
            assert(decreases_to!(fields@[i as int] => fields@[i as int].1));
        }
        let k = fields[i].0.clone();
        let v = fields[i].1.clone();
        let ghost prev = out@;
        out.push((k, v));
        proof {
            assert(out@.drop_last() =~= prev);
            lemma_clone_push_field(fields@, out@, i as int);
        }
        i += 1;
    }
    proof {
        assert(fields@.take(n as int) =~= fields@);
    }
    out
}

/// `s` with every non-overlapping occurrence of the two characters `a b`
/// replaced by the single character `r`, scanning from the left.
pub open spec fn replace2_spec(s: Seq<char>, a: char, b: char, r: char) -> Seq<char>
    decreases s.len(),
{
    if s.len() >= 2 && s[0] == a && s[1] == b {
        seq![r] + replace2_spec(s.skip(2), a, b, r)
    } else if s.len() == 0 {
        s
    } else {
        seq![s[0]] + replace2_spec(s.skip(1), a, b, r)
    }
}

/// A pointer reference token with its two escapes undone: `~1` means `/`
/// and `~0` means `~`.
pub open spec fn unescape_token(t: Seq<char>) -> Seq<char> {
    replace2_spec(replace2_spec(t, '~', '1', '/'), '~', '0', '~')
}

pub fn replace2(v: &Vec<char>, a: char, b: char, r: char) -> (out: Vec<char>)
    ensures
        out@ == replace2_spec(v@, a, b, r),
{
    let n = v.len();
    let mut out: Vec<char> = Vec::new();
    let mut i: usize = 0;
    proof {
        assert(v@.skip(0) =~= v@);
    }
    while i < n
        invariant
            i <= n,
            n == v@.len(),
            replace2_spec(v@, a, b, r) == out@ + replace2_spec(v@.skip(i as int), a, b, r),
        decreases n - i,
    {
        let ghost pre = out@;
        let ghost s = v@.skip(i as int);
        if i + 1 < n && v[i] == a && v[i + 1] == b {
            out.push(r);
            proof {
                assert(s.len() >= 2 && s[0] == a && s[1] == b);
                assert(s.skip(2) =~= v@.skip(i + 2));
                assert(replace2_spec(s, a, b, r) == seq![r] + replace2_spec(v@.skip(i + 2), a, b, r));
                assert(pre + replace2_spec(s, a, b, r) =~= out@ + replace2_spec(
                    v@.skip(i + 2),
                    a,
                    b,
                    r,
                ));
            }
            i += 2;
        } else {
            out.push(v[i]);
            proof {
                assert(s.len() >= 1);
                assert(s[0] == v@[i as int]);
                assert(!(s.len() >= 2 && s[0] == a && s[1] == b));
                assert(s.skip(1) =~= v@.skip(i + 1));
                assert(replace2_spec(s, a, b, r) == seq![s[0]] + replace2_spec(
                    v@.skip(i + 1),
                    a,
                    b,
                    r,
                ));
                assert(pre + replace2_spec(s, a, b, r) =~= out@ + replace2_spec(
                    v@.skip(i + 1),
                    a,
                    b,
                    r,
                ));
            }
            i += 1;
        }
    }
    proof {
        assert(v@.skip(n as int) =~= Seq::<char>::empty());
        assert(out@ + replace2_spec(v@.skip(n as int), a, b, r) =~= out@);
    }
    out
}

/// An array reference token as an index: no empty token, no leading `+`,
/// no superfluous leading zero, digits only, and a value that fits `usize`.
pub open spec fn parse_index_spec(t: Seq<char>) -> Option<int> {
    if t.len() == 0 {
        None
    } else if t[0] == '+' || (t[0] == '0' && t.len() != 1) {
        None
    } else if !crate::strutil::all_digits(t) {
        None
    } else if crate::strutil::digits_val(t) > usize::MAX {
        None
    } else {
        Some(crate::strutil::digits_val(t))
    }
}

pub fn parse_index(t: &Vec<char>) -> (r: Option<usize>)
    ensures
        match r {
            Some(ix) => parse_index_spec(t@) == Some(ix as int),
            None => parse_index_spec(t@) is None,
        },
{
    let n = t.len();
    if n == 0 {
        return None;
    }
    if t[0] == '+' || (t[0] == '0' && n != 1) {
        return None;
    }
    let mut val: usize = 0;
    let mut i: usize = 0;
    while i < n
        invariant
            i <= n,
            n == t@.len(),
            n > 0,
            t@[0] != '+',
            !(t@[0] == '0' && n != 1),
            forall|j: int| 0 <= j < i ==> crate::strutil::is_digit(#[trigger] t@[j]),
            val == crate::strutil::digits_val(t@.take(i as int)),
        decreases n - i,
    {
        let c = t[i];
        if c < '0' || c > '9' {
            return None;
        }
        let d: usize = (c as usize) - ('0' as usize);
        proof {
            assert(t@.take(i + 1).drop_last() =~= t@.take(i as int));
            assert(t@.take(i + 1).last() == t@[i as int]);
        }
        if val > (usize::MAX - d) / 10 {
            proof {
                assert(val * 10 + d > usize::MAX) by (nonlinear_arith)
                    requires
                        val > (usize::MAX - d) / 10,
                        0 <= d <= 9,
                        val >= 0,
                ;
                if crate::strutil::all_digits(t@) {
                    crate::strutil::lemma_digits_val_mono(t@, i + 1);
                }
            }
            return None;
        }
        val = val * 10 + d;
        i += 1;
    }
    proof {
        assert(t@.take(n as int) =~= t@);
    }
    Some(val)
}

/// First member of a JSON object with the given name.
pub open spec fn jobj_lookup(fields: Seq<(Seq<char>, JVal)>, key: Seq<char>) -> Option<JVal>
    decreases fields.len(),
{
    if fields.len() == 0 {
        None
    } else if fields[0].0 == key {
        Some(fields[0].1)
    } else {
        jobj_lookup(fields.drop_first(), key)
    }
}

pub proof fn lemma_jobj_lookup_skip(fields: Seq<(Seq<char>, JVal)>, key: Seq<char>, i: int)
    requires
        0 <= i <= fields.len(),
        forall|j: int| 0 <= j < i ==> (#[trigger] fields[j]).0 != key,
    ensures
        jobj_lookup(fields, key) == jobj_lookup(fields.skip(i), key),
    decreases i,
{
    if i > 0 {
        lemma_jobj_lookup_skip(fields.drop_first(), key, i - 1);
        assert(fields.drop_first().skip(i - 1) =~= fields.skip(i));
    } else {
        assert(fields.skip(0) =~= fields);
    }
}

/// The member of `j` that a single reference token selects.
pub open spec fn jchild(j: JVal, tok: Seq<char>) -> Option<JVal> {
    match j {
        JVal::Obj(fields) => jobj_lookup(fields, tok),
        JVal::Arr(items) => match parse_index_spec(tok) {
            Some(ix) => if ix < items.len() {
                Some(items[ix])
            } else {
                None
            },
            None => None,
        },
        _ => None,
    }
}

/// Resolution of the part of a pointer that follows a `/`.
pub open spec fn jptr_rest(j: JVal, p: Seq<char>) -> Option<JVal>
    decreases p.len(),
{
    let e = crate::strutil::find_char(p, '/');
    if e >= p.len() {
        jchild(j, unescape_token(p))
    } else {
        match jchild(j, unescape_token(p.take(e as int))) {
            Some(c) => jptr_rest(c, p.skip(e + 1int)),
            None => None,
        }
    }
}

/// JSON pointer resolution: the empty pointer names the whole document,
/// any other pointer starts with `/` and names a descendant.
pub open spec fn jptr(j: JVal, p: Seq<char>) -> Option<JVal> {
    if p.len() == 0 {
        Some(j)
    } else if p[0] != '/' {
        None
    } else {
        jptr_rest(j, p.skip(1))
    }
}

fn obj_get_vec<'a>(fields: &'a Vec<(String, Json)>, key: &Vec<char>) -> (r: Option<&'a Json>)
    ensures
        match r {
            Some(v) => jobj_lookup(jfields_of(fields@), key@) == Some(v@),
            None => jobj_lookup(jfields_of(fields@), key@) is None,
        },
{
    let n = fields.len();
    proof {
        lemma_jfields_of_len(fields@);
    }
    let ks = crate::strutil::string_of(key);
    let mut i: usize = 0;
    while i < n
        invariant
            i <= n,
            n == fields@.len(),
            jfields_of(fields@).len() == n,
            ks@ == key@,
            forall|j: int| 0 <= j < i ==> (#[trigger] jfields_of(fields@)[j]).0 != key@,
        decreases n - i,
    {
        proof {
            lemma_jfields_of_index(fields@, i as int);
        }
        if crate::strutil::str_eq(fields[i].0.as_str(), ks.as_str()) {
            proof {
                lemma_jobj_lookup_skip(jfields_of(fields@), key@, i as int);
                assert(jfields_of(fields@).skip(i as int)[0] == jfields_of(fields@)[i as int]);
            }
            return Some(&fields[i].1);
        }
        i += 1;
    }
    proof {
        lemma_jobj_lookup_skip(jfields_of(fields@), key@, n as int);
        assert(jfields_of(fields@).skip(n as int) =~= Seq::<(Seq<char>, JVal)>::empty());
    }
    None
}

fn ptr_rest<'a>(j: &'a Json, pv: &Vec<char>, pos: usize) -> (r: Option<&'a Json>)
    requires
        pos <= pv@.len(),
    ensures
        match r {
            Some(v) => jptr_rest(j@, pv@.skip(pos as int)) == Some(v@),
            None => jptr_rest(j@, pv@.skip(pos as int)) is None,
        },
    decreases pv@.len() - pos,
{
    let ghost p = pv@.skip(pos as int);
    let e = crate::strutil::find_char_from(pv, '/', pos);
    proof {
        assert(pv@.subrange(pos as int, e as int) =~= p.take(e - pos));
    }
    let raw = crate::strutil::subrange_chars(pv, pos, e);
    let t1 = replace2(&raw, '~', '1', '/');
    let tok = replace2(&t1, '~', '0', '~');
    proof {
        assert(tok@ == unescape_token(p.take(e - pos)));
    }
    let child: Option<&Json> = match j {
        Json::Obj(fields) => obj_get_vec(fields, &tok),
        Json::Arr(items) => {
            proof {
                lemma_jvals_of_len(items@);
            }
            match parse_index(&tok) {
                Some(ix) => {
                    if ix < items.len() {
                        proof {
                            lemma_jvals_of_index(items@, ix as int);
                        }
                        Some(&items[ix])
                    } else {
                        None
                    }
                },
                None => None,
            }
        },
        _ => None,
    };
    if e == pv.len() {
        proof {
            assert(p.take(e - pos) =~= p);
        }
        child
    } else {
        match child {
            Some(c) => {
                proof {
                    assert(p.skip(e - pos + 1) =~= pv@.skip(e + 1));
                }
                ptr_rest(c, pv, e + 1)
            },
            None => None,
        }
    }
}

impl Json {
    /// The member of this object with the given name; `None` when this is
    /// not an object or has no such member.
    pub fn get<'a>(&'a self, key: &str) -> (r: Option<&'a Json>)
        ensures
            match r {
                Some(v) => self@ matches JVal::Obj(fs) && jobj_lookup(fs, key@) == Some(v@),
                None => !(self@ is Obj) || (self@ matches JVal::Obj(fs) && jobj_lookup(fs, key@)
                    is None),
            },
    {
        let kv = crate::strutil::chars_of(key);
        match self {
            Json::Obj(fields) => obj_get_vec(fields, &kv),
            _ => None,
        }
    }

    /// JSON pointer lookup into this document.
    pub fn pointer<'a>(&'a self, p: &str) -> (r: Option<&'a Json>)
        ensures
            match r {
                Some(v) => jptr(self@, p@) == Some(v@),
                None => jptr(self@, p@) is None,
            },
    {
        let pv = crate::strutil::chars_of(p);
        if pv.len() == 0 {
            return Some(self);
        }
        if pv[0] != '/' {
            return None;
        }
        ptr_rest(self, &pv, 1)
    }
}

pub open spec fn hex_digit(d: int) -> char {
    if d == 10 {
        'a'
    } else if d == 11 {
        'b'
    } else if d == 12 {
        'c'
    } else if d == 13 {
        'd'
    } else if d == 14 {
        'e'
    } else if d == 15 {
        'f'
    } else {
        crate::strutil::dec_digit(d)
    }
}

/// The JSON escape of one character inside a string literal.
pub open spec fn esc_char(c: char) -> Seq<char> {
    if c == '"' {
        seq!['\\', '"']
    } else if c == '\\' {
        seq!['\\', '\\']
    } else if c == '\u{08}' {
        seq!['\\', 'b']
    } else if c == '\u{0C}' {
        seq!['\\', 'f']
    } else if c == '\n' {
        seq!['\\', 'n']
    } else if c == '\r' {
        seq!['\\', 'r']
    } else if c == '\t' {
        seq!['\\', 't']
    } else if (c as u32) < 0x20 {
        seq!['\\', 'u', '0', '0', hex_digit(c as u32 as int / 16), hex_digit(c as u32 as int % 16)]
    } else {
        seq![c]
    }
}

pub open spec fn esc(s: Seq<char>) -> Seq<char>
    decreases s.len(),
{
    if s.len() == 0 {
        Seq::empty()
    } else {
        esc(s.drop_last()) + esc_char(s.last())
    }
}

/// The JSON text of a document: compact, with `,` and `:` as the only
/// separators and keys in declaration order.
pub open spec fn jser(j: JVal) -> Seq<char>
    decreases j,
{
    match j {
        JVal::Null => "null"@,
        JVal::Bool(b) => if b {
            "true"@
        } else {
            "false"@
        },
        JVal::Int(n) => crate::strutil::dec_int(n as int),
        JVal::Num(s) => s,
        JVal::Str(s) => seq!['"'] + esc(s) + seq!['"'],
        JVal::Arr(items) => seq!['['] + jser_items(items) + seq![']'],
        JVal::Obj(fields) => seq!['{'] + jser_fields(fields) + seq!['}'],
    }
}

pub open spec fn jser_items(items: Seq<JVal>) -> Seq<char>
    decreases items,
{
    if items.len() == 0 {
        Seq::empty()
    } else if items.len() == 1 {
        jser(items[0])
    } else {
        jser_items(items.drop_last()) + seq![','] + jser(items.last())
    }
}

pub open spec fn jser_field(f: (Seq<char>, JVal)) -> Seq<char>
    decreases f,
{
    seq!['"'] + esc(f.0) + seq!['"', ':'] + jser(f.1)
}

pub open spec fn jser_fields(fields: Seq<(Seq<char>, JVal)>) -> Seq<char>
    decreases fields,
{
    if fields.len() == 0 {
        Seq::empty()
    } else if fields.len() == 1 {
        jser_field(fields[0])
    } else {
        jser_fields(fields.drop_last()) + seq![','] + jser_field(fields.last())
    }
}

fn hex_digit_exec(d: u32) -> (c: char)
    requires
        d < 16,
    ensures
        c == hex_digit(d as int),
{
    match d {
        0 => '0',
        1 => '1',
        2 => '2',
        3 => '3',
        4 => '4',
        5 => '5',
        6 => '6',
        7 => '7',
        8 => '8',
        9 => '9',
        10 => 'a',
        11 => 'b',
        12 => 'c',
        13 => 'd',
        14 => 'e',
        _ => 'f',
    }
}

fn write_escaped(out: &mut String, s: &str)
    ensures
        final(out)@ == old(out)@ + esc(s@),
{
    let cs = crate::strutil::chars_of(s);
    let n = cs.len();
    let mut i: usize = 0;
    proof {
        assert(old(out)@ + esc(s@.take(0)) =~= old(out)@);
    }
    while i < n
        invariant
            i <= n,
            n == cs@.len(),
            cs@ == s@,
            out@ == old(out)@ + esc(s@.take(i as int)),
        decreases n - i,
    {
        let c = cs[i];
        let ghost pre = out@;
        if c == '"' {
            out.push('\\');
            out.push('"');
        } else if c == '\\' {
            out.push('\\');
            out.push('\\');
        } else if c == '\u{08}' {
            out.push('\\');
            out.push('b');
        } else if c == '\u{0C}' {
            out.push('\\');
            out.push('f');
        } else if c == '\n' {
            out.push('\\');
            out.push('n');
        } else if c == '\r' {
            out.push('\\');
            out.push('r');
        } else if c == '\t' {
            out.push('\\');
            out.push('t');
        } else if (c as u32) < 0x20 {
            out.push('\\');
            out.push('u');
            out.push('0');
            out.push('0');
            out.push(hex_digit_exec((c as u32) / 16));
            out.push(hex_digit_exec((c as u32) % 16));
        } else {
            out.push(c);
        }
        proof {
            assert(out@ =~= pre + esc_char(s@[i as int]));
            assert(s@.take(i + 1).drop_last() =~= s@.take(i as int));
            assert(s@.take(i + 1).last() == s@[i as int]);
            assert(esc(s@.take(i + 1)) == esc(s@.take(i as int)) + esc_char(s@[i as int]));
            assert(out@ =~= old(out)@ + esc(s@.take(i + 1)));
        }
        i += 1;
    }
    proof {
        assert(s@.take(n as int) =~= s@);
    }
}

fn write_json(j: &Json, out: &mut String)
    ensures
        final(out)@ == old(out)@ + jser(j@),
    decreases j,
{
    match j {
        Json::Null => {
            out.append("null");
        },
        Json::Bool(b) => {
            if *b {
                out.append("true");
            } else {
                out.append("false");
            }
        },
        Json::Int(n) => {
            let d = crate::strutil::i64_to_string(*n);
            out.append(d.as_str());
        },
        Json::Num(s) => {
            out.append(s.as_str());
        },
        Json::Str(s) => {
            out.push('"');
            write_escaped(out, s.as_str());
            out.push('"');
            proof {
                assert(out@ =~= old(out)@ + (seq!['"'] + esc(s@) + seq!['"']));
            }
        },
        Json::Arr(items) => {
            proof {
                assert(decreases_to!(*j => *items));
            }
            out.push('[');
            write_items(items, out);
            out.push(']');
            proof {
                assert(out@ =~= old(out)@ + (seq!['['] + jser_items(jvals_of(items@)) + seq![
                    ']',
                ]));
            }
        },
        Json::Obj(fields) => {
            proof {
                assert(decreases_to!(*j => *fields));
            }
            out.push('{');
            write_fields(fields, out);
            out.push('}');
            proof {
                assert(out@ =~= old(out)@ + (seq!['{'] + jser_fields(jfields_of(fields@)) + seq![
                    '}',
                ]));
            }
        },
    }
}

fn write_items(items: &Vec<Json>, out: &mut String)
    ensures
        final(out)@ == old(out)@ + jser_items(jvals_of(items@)),
    decreases *items,
{
    proof {
        lemma_jvals_of_len(items@);
    }
    let n = items.len();
    let mut i: usize = 0;
    while i < n
        invariant
            i <= n,
            n == items@.len(),
            jvals_of(items@).len() == n,
            out@ == old(out)@ + jser_items(jvals_of(items@).take(i as int)),
        decreases n - i,
    {
        proof {
            assert(decreases_to!(*items => items@));
            assert(decreases_to!(items@ => items@[i as int]));
        }
        if i > 0 {
            out.push(',');
        }
        let ghost pre = out@;
        write_json(&items[i], out);
        proof {
            lemma_jvals_of_index(items@, i as int);
            let vs = jvals_of(items@);
            assert(vs.take(i + 1).drop_last() =~= vs.take(i as int));
            assert(vs.take(i + 1).last() == vs[i as int]);
            if i == 0 {
                assert(vs.take(1).len() == 1);
                assert(vs.take(1)[0] == vs[0]);
                assert(out@ =~= old(out)@ + jser_items(vs.take(1)));
            } else {
                assert(jser_items(vs.take(i + 1)) == jser_items(vs.take(i as int)) + seq![',']
                    + jser(vs[i as int]));
                assert(out@ =~= old(out)@ + jser_items(vs.take(i + 1)));
            }
        }
        i += 1;
    }
    proof {
        assert(jvals_of(items@).take(n as int) =~= jvals_of(items@));
    }
}

fn write_fields(fields: &Vec<(String, Json)>, out: &mut String)
    ensures
        final(out)@ == old(out)@ + jser_fields(jfields_of(fields@)),
    decreases *fields,
{
    proof {
        lemma_jfields_of_len(fields@);
    }
    let n = fields.len();
    let mut i: usize = 0;
    while i < n
        invariant
            i <= n,
            n == fields@.len(),
            jfields_of(fields@).len() == n,
            out@ == old(out)@ + jser_fields(jfields_of(fields@).take(i as int)),
        decreases n - i,
    {
        proof {
            assert(decreases_to!(*fields => fields@));
            assert(decreases_to!(fields@ => fields@[i as int]));
            assert(decreases_to!(fields@[i as int] => fields@[i as int].1));
        }
        if i > 0 {
            out.push(',');
        }
        let ghost pre = out@;
        out.push('"');
        write_escaped(out, fields[i].0.as_str());
        out.push('"');
        out.push(':');
        write_json(&fields[i].1, out);
        proof {
            lemma_jfields_of_index(fields@, i as int);
            let fs = jfields_of(fields@);
            assert(out@ =~= pre + jser_field(fs[i as int]));
            assert(fs.take(i + 1).drop_last() =~= fs.take(i as int));
            assert(fs.take(i + 1).last() == fs[i as int]);
            if i == 0 {
                assert(fs.take(1).len() == 1);
                assert(fs.take(1)[0] == fs[0]);
                assert(out@ =~= old(out)@ + jser_fields(fs.take(1)));
            } else {
                assert(jser_fields(fs.take(i + 1)) == jser_fields(fs.take(i as int)) + seq![',']
                    + jser_field(fs[i as int]));
                assert(out@ =~= old(out)@ + jser_fields(fs.take(i + 1)));
            }
        }
        i += 1;
    }
    proof {
        assert(jfields_of(fields@).take(n as int) =~= jfields_of(fields@));
    }
}

impl Json {
    /// This document as JSON text.
    pub fn to_text(&self) -> (s: String)
        ensures
            s@ == jser(self@),
    {
        let mut out = String::new();
        write_json(self, &mut out);
        proof {
            assert(Seq::<char>::empty() + jser(self@) =~= jser(self@));
        }
        out
    }
}

/// Two spaces of indentation for each nesting level.
pub open spec fn ind(d: nat) -> Seq<char>
    decreases d,
{
    if d == 0 {
        Seq::empty()
    } else {
        ind((d - 1) as nat) + seq![' ', ' ']
    }
}

/// The pretty JSON text of a document at nesting depth `d`: two-space
/// indentation, one element or member per line, a space after each key's
/// colon; empty arrays and objects stay on one line; scalars render as in
/// the compact form.
pub open spec fn jser_pretty(j: JVal, d: nat) -> Seq<char>
    decreases j,
{
    match j {
        JVal::Arr(items) => if items.len() == 0 {
            "[]"@
        } else {
            seq!['['] + jser_pretty_items(items, d + 1) + seq!['\n'] + ind(d) + seq![']']
        },
        JVal::Obj(fields) => if fields.len() == 0 {
            "{}"@
        } else {
            seq!['{'] + jser_pretty_fields(fields, d + 1) + seq!['\n'] + ind(d) + seq!['}']
        },
        _ => jser(j),
    }
}

pub open spec fn jser_pretty_items(items: Seq<JVal>, d: nat) -> Seq<char>
    decreases items,
{
    if items.len() == 0 {
        Seq::empty()
    } else if items.len() == 1 {
        seq!['\n'] + ind(d) + jser_pretty(items[0], d)
    } else {
        jser_pretty_items(items.drop_last(), d) + seq![',', '\n'] + ind(d) + jser_pretty(
            items.last(),
            d,
        )
    }
}

pub open spec fn jser_pretty_field(f: (Seq<char>, JVal), d: nat) -> Seq<char>
    decreases f,
{
    seq!['"'] + esc(f.0) + seq!['"', ':', ' '] + jser_pretty(f.1, d)
}

pub open spec fn jser_pretty_fields(fields: Seq<(Seq<char>, JVal)>, d: nat) -> Seq<char>
    decreases fields,
{
    if fields.len() == 0 {
        Seq::empty()
    } else if fields.len() == 1 {
        seq!['\n'] + ind(d) + jser_pretty_field(fields[0], d)
    } else {
        jser_pretty_fields(fields.drop_last(), d) + seq![',', '\n'] + ind(d) + jser_pretty_field(
            fields.last(),
            d,
        )
    }
}

fn write_json_pretty(j: &Json, out: &mut String, indent: &String, Ghost(d): Ghost<nat>)
    requires
        indent@ == ind(d),
    ensures
        final(out)@ == old(out)@ + jser_pretty(j@, d),
    decreases j,
{
    proof {
        reveal_strlit("  ");
        reveal_strlit("[]");
        reveal_strlit("{}");
    }
    match j {
        Json::Arr(items) => {
            proof {
                assert(decreases_to!(*j => *items));
                lemma_jvals_of_len(items@);
            }
            if items.len() == 0 {
                out.append("[]");
                proof {
                    assert(jser_pretty(j@, d) == "[]"@);
                }
            } else {
                out.push('[');
                let mut deeper = indent.clone();
                deeper.append("  ");
                proof {
                    assert(deeper@ =~= ind(d + 1));
                }
                write_pretty_items(items, out, &deeper, Ghost((d + 1) as nat));
                out.push('\n');
                out.append(indent.as_str());
                out.push(']');
                proof {
                    assert(out@ =~= old(out)@ + (seq!['['] + jser_pretty_items(
                        jvals_of(items@),
                        d + 1,
                    ) + seq!['\n'] + ind(d) + seq![']']));
                }
            }
        },
        Json::Obj(fields) => {
            proof {
                assert(decreases_to!(*j => *fields));
                lemma_jfields_of_len(fields@);
            }
            if fields.len() == 0 {
                out.append("{}");
                proof {
                    assert(jser_pretty(j@, d) == "{}"@);
                }
            } else {
                out.push('{');
                let mut deeper = indent.clone();
                deeper.append("  ");
                proof {
                    assert(deeper@ =~= ind(d + 1));
                }
                write_pretty_fields(fields, out, &deeper, Ghost((d + 1) as nat));
                out.push('\n');
                out.append(indent.as_str());
                out.push('}');
                proof {
                    assert(out@ =~= old(out)@ + (seq!['{'] + jser_pretty_fields(
                        jfields_of(fields@),
                        d + 1,
                    ) + seq!['\n'] + ind(d) + seq!['}']));
                }
            }
        },
        _ => {
            write_json(j, out);
            proof {
                assert(jser_pretty(j@, d) == jser(j@));
            }
        },
    }
}

fn write_pretty_items(items: &Vec<Json>, out: &mut String, indent: &String, Ghost(d): Ghost<nat>)
    requires
        indent@ == ind(d),
    ensures
        final(out)@ == old(out)@ + jser_pretty_items(jvals_of(items@), d),
    decreases *items,
{
    proof {
        lemma_jvals_of_len(items@);
    }
    let n = items.len();
    let mut i: usize = 0;
    while i < n
        invariant
            i <= n,
            n == items@.len(),
            jvals_of(items@).len() == n,
            indent@ == ind(d),
            out@ == old(out)@ + jser_pretty_items(jvals_of(items@).take(i as int), d),
        decreases n - i,
    {
        proof {
            assert(decreases_to!(*items => items@));
            assert(decreases_to!(items@ => items@[i as int]));
        }
        if i > 0 {
            out.push(',');
        }
        out.push('\n');
        out.append(indent.as_str());
        write_json_pretty(&items[i], out, indent, Ghost(d));
        proof {
            lemma_jvals_of_index(items@, i as int);
            let vs = jvals_of(items@);
            assert(vs.take(i + 1).drop_last() =~= vs.take(i as int));
            assert(vs.take(i + 1).last() == vs[i as int]);
            if i == 0 {
                assert(vs.take(1).len() == 1);
                assert(vs.take(1)[0] == vs[0]);
                assert(out@ =~= old(out)@ + jser_pretty_items(vs.take(1), d));
            } else {
                assert(jser_pretty_items(vs.take(i + 1), d) == jser_pretty_items(
                    vs.take(i as int),
                    d,
                ) + seq![',', '\n'] + ind(d) + jser_pretty(vs[i as int], d));
                assert(out@ =~= old(out)@ + jser_pretty_items(vs.take(i + 1), d));
            }
        }
        i += 1;
    }
    proof {
        assert(jvals_of(items@).take(n as int) =~= jvals_of(items@));
    }
}

fn write_pretty_fields(
    fields: &Vec<(String, Json)>,
    out: &mut String,
    indent: &String,
    Ghost(d): Ghost<nat>,
)
    requires
        indent@ == ind(d),
    ensures
        final(out)@ == old(out)@ + jser_pretty_fields(jfields_of(fields@), d),
    decreases *fields,
{
    proof {
        lemma_jfields_of_len(fields@);
    }
    let n = fields.len();
    let mut i: usize = 0;
    while i < n
        invariant
            i <= n,
            n == fields@.len(),
            jfields_of(fields@).len() == n,
            indent@ == ind(d),
            out@ == old(out)@ + jser_pretty_fields(jfields_of(fields@).take(i as int), d),
        decreases n - i,
    {
        proof {
            assert(decreases_to!(*fields => fields@));
            assert(decreases_to!(fields@ => fields@[i as int]));
            assert(decreases_to!(fields@[i as int] => fields@[i as int].1));
        }
        if i > 0 {
            out.push(',');
        }
        out.push('\n');
        out.append(indent.as_str());
        let ghost pre = out@;
        out.push('"');
        write_escaped(out, fields[i].0.as_str());
        out.push('"');
        out.push(':');
        out.push(' ');
        write_json_pretty(&fields[i].1, out, indent, Ghost(d));
        proof {
            lemma_jfields_of_index(fields@, i as int);
            let fs = jfields_of(fields@);
            assert(out@ =~= pre + jser_pretty_field(fs[i as int], d));
            assert(fs.take(i + 1).drop_last() =~= fs.take(i as int));
            assert(fs.take(i + 1).last() == fs[i as int]);
            if i == 0 {
                assert(fs.take(1).len() == 1);
                assert(fs.take(1)[0] == fs[0]);
                assert(out@ =~= old(out)@ + jser_pretty_fields(fs.take(1), d));
            } else {
                assert(jser_pretty_fields(fs.take(i + 1), d) == jser_pretty_fields(
                    fs.take(i as int),
                    d,
                ) + seq![',', '\n'] + ind(d) + jser_pretty_field(fs[i as int], d));
                assert(out@ =~= old(out)@ + jser_pretty_fields(fs.take(i + 1), d));
            }
        }
        i += 1;
    }
    proof {
        assert(jfields_of(fields@).take(n as int) =~= jfields_of(fields@));
    }
}

impl Json {
    /// This document as pretty JSON text, the form the tool payloads
    /// carry.
    pub fn to_pretty_text(&self) -> (s: String)
        ensures
            s@ == jser_pretty(self@, 0),
    {
        let mut out = String::new();
        let indent = String::new();
        proof {
            assert(indent@ =~= ind(0));
        }
        write_json_pretty(self, &mut out, &indent, Ghost(0nat));
        proof {
            assert(Seq::<char>::empty() + jser_pretty(self@, 0) =~= jser_pretty(self@, 0));
        }
        out
    }
}

/// An object of one member.
pub fn jobj1(k1: &str, v1: Json) -> (r: Json)
    ensures
        r@ == JVal::Obj(seq![(k1@, jval_of(v1))]),
{
    let mut fields: Vec<(String, Json)> = Vec::new();
    fields.push((k1.to_owned(), v1));
    proof {
        lemma_jfields_of_len(fields@);
        lemma_jfields_of_index(fields@, 0);
        assert(jfields_of(fields@) =~= seq![(k1@, jval_of(fields@[0].1))]);
    }
    Json::Obj(fields)
}

/// An object of two members.
pub fn jobj2(k1: &str, v1: Json, k2: &str, v2: Json) -> (r: Json)
    ensures
        r@ == JVal::Obj(seq![(k1@, jval_of(v1)), (k2@, jval_of(v2))]),
{
    let mut fields: Vec<(String, Json)> = Vec::new();
    fields.push((k1.to_owned(), v1));
    fields.push((k2.to_owned(), v2));
    proof {
        lemma_jfields_of_len(fields@);
        lemma_jfields_of_index(fields@, 0);
        lemma_jfields_of_index(fields@, 1);
        assert(jfields_of(fields@) =~= seq![
            (k1@, jval_of(fields@[0].1)),
            (k2@, jval_of(fields@[1].1)),
        ]);
    }
    Json::Obj(fields)
}

/// An object of three members.
pub fn jobj3(k1: &str, v1: Json, k2: &str, v2: Json, k3: &str, v3: Json) -> (r: Json)
    ensures
        r@ == JVal::Obj(seq![(k1@, jval_of(v1)), (k2@, jval_of(v2)), (k3@, jval_of(v3))]),
{
    let mut fields: Vec<(String, Json)> = Vec::new();
    fields.push((k1.to_owned(), v1));
    fields.push((k2.to_owned(), v2));
    fields.push((k3.to_owned(), v3));
    proof {
        lemma_jfields_of_len(fields@);
        lemma_jfields_of_index(fields@, 0);
        lemma_jfields_of_index(fields@, 1);
        lemma_jfields_of_index(fields@, 2);
        assert(jfields_of(fields@) =~= seq![
            (k1@, jval_of(fields@[0].1)),
            (k2@, jval_of(fields@[1].1)),
            (k3@, jval_of(fields@[2].1)),
        ]);
    }
    Json::Obj(fields)
}

/// An array of one element.
pub fn jarr1(v1: Json) -> (r: Json)
    ensures
        r@ == JVal::Arr(seq![jval_of(v1)]),
{
    let mut items: Vec<Json> = Vec::new();
    items.push(v1);
    proof {
        lemma_jvals_of_len(items@);
        lemma_jvals_of_index(items@, 0);
        assert(jvals_of(items@) =~= seq![jval_of(items@[0])]);
    }
    Json::Arr(items)
}

proof fn lemma_clone_push(items: Seq<Json>, out: Seq<Json>, i: int)
    requires
        0 <= i < items.len(),
        out.len() == i + 1,
        jvals_of(out.drop_last()) == jvals_of(items.take(i)),
        jval_of(out.last()) == jval_of(items[i]),
    ensures
        jvals_of(out) == jvals_of(items.take(i + 1)),
{
    assert(items.take(i + 1).drop_last() =~= items.take(i));
    assert(items.take(i + 1).last() == items[i]);
    assert(jvals_of(items.take(i + 1)) == jvals_of(items.take(i)).push(jval_of(items[i])));
    assert(jvals_of(out) == jvals_of(out.drop_last()).push(jval_of(out.last())));
}

proof fn lemma_clone_push_field(fields: Seq<(String, Json)>, out: Seq<(String, Json)>, i: int)
    requires
        0 <= i < fields.len(),
        out.len() == i + 1,
        jfields_of(out.drop_last()) == jfields_of(fields.take(i)),
        out.last().0@ == fields[i].0@,
        jval_of(out.last().1) == jval_of(fields[i].1),
    ensures
        jfields_of(out) == jfields_of(fields.take(i + 1)),
{
    assert(fields.take(i + 1).drop_last() =~= fields.take(i));
    assert(fields.take(i + 1).last() == fields[i]);
}

} // verus!
