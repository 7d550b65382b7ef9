//! Resource URIs: the fixed three-shape grammar under the `odoo://`
//! scheme, its parser, and the printer that the parser inverts.

use vstd::prelude::*;
use vstd::string::StringExecFns;

use crate::strutil::{chars_match_at, chars_of, find_char, find_char_from, string_of,
    subrange_chars};

verus! {

broadcast use {vstd::std_specs::vec::group_vec_axioms, vstd::seq::group_seq_axioms};

/// Mathematical model of a resource URI.
pub ghost enum RUri {
    Instances,
    Models(Seq<char>),
    Metadata(Seq<char>, Seq<char>),
}

/// A parsed resource URI: the instance listing, an instance's model
/// listing, or one model's metadata.
#[derive(Debug, Clone, PartialEq, Eq)]
pub enum ResourceUri {
    Instances,
    Models { instance: String },
    Metadata { instance: String, model: String },
}

impl View for ResourceUri {
    type V = RUri;

    open spec fn view(&self) -> RUri {
        match self {
            ResourceUri::Instances => RUri::Instances,
            ResourceUri::Models { instance } => RUri::Models(instance@),
            ResourceUri::Metadata { instance, model } => RUri::Metadata(instance@, model@),
        }
    }
}

/// The text of a resource URI.
pub open spec fn spec_uri_text(u: RUri) -> Seq<char> {
    match u {
        RUri::Instances => "odoo://instances"@,
        RUri::Models(instance) => "odoo://"@ + instance + "/models"@,
        RUri::Metadata(instance, model) => "odoo://"@ + instance + "/metadata/"@ + model,
    }
}

/// The grammar: `odoo://instances`, `odoo://{instance}/models`,
/// `odoo://{instance}/metadata/{model}` with a non-empty model; the
/// instance is everything up to the first `/` after the scheme.
pub open spec fn spec_parse_uri(s: Seq<char>) -> Option<RUri> {
    if s.len() < 7 || s.take(7) != "odoo://"@ {
        None
    } else {
        let path = s.skip(7);
        if path == "instances"@ {
            Some(RUri::Instances)
        } else {
            let k = find_char(path, '/');
            if k >= path.len() {
                None
            } else {
                let instance = path.take(k as int);
                let rest = path.skip(k + 1int);
                if rest == "models"@ {
                    Some(RUri::Models(instance))
                } else if rest.len() > 9 && rest.take(9) == "metadata/"@ {
                    Some(RUri::Metadata(instance, rest.skip(9)))
                } else {
                    None
                }
            }
        }
    }
}

/// The rejection message of a URI the grammar refuses; each shape of
/// refusal carries the offending input text.
pub open spec fn spec_parse_uri_err(s: Seq<char>) -> Seq<char> {
    if s.len() < 7 || s.take(7) != "odoo://"@ {
        "Invalid URI scheme: expected 'odoo://', got '"@ + s + "'"@
    } else if find_char(s.skip(7), '/') >= s.skip(7).len() {
        "Invalid resource URI: "@ + s
    } else {
        "Invalid resource type in URI: "@ + s
    }
}

impl ResourceUri {
    /// Parses a resource URI; the rejection message carries the offending
    /// input.
    pub fn parse(uri: &str) -> (r: Result<ResourceUri, String>)
        ensures
            match r {
                Ok(u) => spec_parse_uri(uri@) == Some(u@),
                Err(m) => spec_parse_uri(uri@) is None && m@ == spec_parse_uri_err(uri@),
            },
    {
        proof {
            reveal_strlit("odoo://");
            reveal_strlit("metadata/");
        }
        let pv = chars_of(uri);
        let n = pv.len();
        if n < 7 || !chars_match_at(&pv, 0, "odoo://") {
            let mut m = "Invalid URI scheme: expected 'odoo://', got '".to_owned();
            m.append(uri);
            m.append("'");
            proof {
                if n >= 7 {
                    assert(pv@.subrange(0, 7) =~= pv@.take(7));
                }
            }
            return Err(m);
        }
        proof {
            assert(pv@.subrange(0, 7) =~= pv@.take(7));
        }
        let ghost path = pv@.skip(7);
        let rest_str = string_of(&subrange_chars(&pv, 7, n));
        proof {
            assert(pv@.subrange(7, n as int) =~= path);
        }
        if crate::strutil::str_eq(rest_str.as_str(), "instances") {
            return Ok(ResourceUri::Instances);
        }
        let e = find_char_from(&pv, '/', 7);
        proof {
            assert(find_char(path, '/') == e - 7);
        }
        if e == n {
            let mut m = "Invalid resource URI: ".to_owned();
            m.append(uri);
            return Err(m);
        }
        let instance = string_of(&subrange_chars(&pv, 7, e));
        proof {
            assert(pv@.subrange(7, e as int) =~= path.take(e - 7));
        }
        let ghost rest = path.skip(e - 7 + 1);
        proof {
            assert(pv@.subrange(e + 1, n as int) =~= rest);
        }
        let rest_part = string_of(&subrange_chars(&pv, e + 1, n));
        if crate::strutil::str_eq(rest_part.as_str(), "models") {
            return Ok(ResourceUri::Models { instance });
        }
        if n - (e + 1) > 9 && chars_match_at(&pv, e + 1, "metadata/") {
            proof {
                assert(pv@.subrange(e + 1, e + 1 + 9) =~= rest.take(9));
                assert(pv@.subrange(e + 1 + 9, n as int) =~= rest.skip(9));
            }
            let model = string_of(&subrange_chars(&pv, e + 1 + 9, n));
            return Ok(ResourceUri::Metadata { instance, model });
        }
        proof {
            if rest.len() > 9 {
                assert(pv@.subrange(e + 1, e + 1 + 9) =~= rest.take(9));
            }
        }
        let mut m = "Invalid resource type in URI: ".to_owned();
        m.append(uri);
        Err(m)
    }

    /// The URI text of this resource.
    pub fn to_uri(&self) -> (r: String)
        ensures
            r@ == spec_uri_text(self@),
    {
        match self {
            ResourceUri::Instances => "odoo://instances".to_owned(),
            ResourceUri::Models { instance } => {
                let mut s = "odoo://".to_owned();
                s.append(instance.as_str());
                s.append("/models");
                s
            },
            ResourceUri::Metadata { instance, model } => {
                let mut s = "odoo://".to_owned();
                s.append(instance.as_str());
                s.append("/metadata/");
                s.append(model.as_str());
                s
            },
        }
    }
}

/// Printing a resource URI and parsing it back gives the same resource,
/// for every instance name without a path separator and every non-empty
/// model name.
pub proof fn lemma_uri_round_trip(u: RUri)
    requires
        match u {
            RUri::Instances => true,
            RUri::Models(instance) => forall|k: int|
                0 <= k < instance.len() ==> instance[k] != '/',
            RUri::Metadata(instance, model) => (forall|k: int|
                0 <= k < instance.len() ==> instance[k] != '/') && model.len() > 0,
        },
    ensures
        spec_parse_uri(spec_uri_text(u)) == Some(u),
{
    reveal_strlit("odoo://");
    reveal_strlit("odoo://instances");
    reveal_strlit("instances");
    reveal_strlit("/models");
    reveal_strlit("models");
    reveal_strlit("/metadata/");
    reveal_strlit("metadata/");
    match u {
        RUri::Instances => {
            let s = "odoo://instances"@;
            assert(s.len() == 16);
            assert(s.take(7) =~= "odoo://"@);
            assert(s.skip(7) =~= "instances"@);
        },
        RUri::Models(instance) => {
            let s = "odoo://"@ + instance + "/models"@;
            assert(s.len() == 7 + instance.len() + 7);
            assert(s.take(7) =~= "odoo://"@);
            let path = s.skip(7);
            assert(path =~= instance + "/models"@);
            assert(path[instance.len() as int] == '/');
            assert(path != "instances"@) by {
                if path == "instances"@ {
                    assert(path.len() == 9);
                    assert(instance.len() == 2);
                    assert(path[2] == '/');
                    assert("instances"@[2] == 's');
                }
            }
            assert forall|k: int| 0 <= k < instance.len() implies path[k] != '/' by {
                assert(path[k] == instance[k]);
            }
            crate::strutil::lemma_find_char_is(path, '/', instance.len() as int);
            assert(path.take(instance.len() as int) =~= instance);
            assert(path.skip(instance.len() + 1int) =~= "models"@);
        },
        RUri::Metadata(instance, model) => {
            let s = "odoo://"@ + instance + "/metadata/"@ + model;
            assert(s.len() == 7 + instance.len() + 10 + model.len());
            assert(s.take(7) =~= "odoo://"@);
            let path = s.skip(7);
            assert(path =~= instance + "/metadata/"@ + model);
            assert(path[instance.len() as int] == '/');
            assert(path != "instances"@) by {
                if path == "instances"@ {
                    assert(path.len() == 9);
                    assert(instance.len() + 10 + model.len() == 9);
                }
            }
            assert forall|k: int| 0 <= k < instance.len() implies path[k] != '/' by {
                assert(path[k] == instance[k]);
            }
            crate::strutil::lemma_find_char_is(path, '/', instance.len() as int);
            assert(path.take(instance.len() as int) =~= instance);
            let rest = path.skip(instance.len() + 1int);
            assert(rest =~= "metadata/"@ + model);
            assert(rest.len() == 9 + model.len());
            assert(rest != "models"@) by {
                if rest == "models"@ {
                    assert(rest.len() == 6);
                }
            }
            assert(rest.take(9) =~= "metadata/"@);
            assert(rest.skip(9) =~= model);
        },
    }
}

} // verus!
