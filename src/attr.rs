//! Reading a field's `env` annotation: the environment variable's name and an
//! optional default, as the literal tokens written in the annotation.
use vstd::prelude::*;
use crate::text::{same_text, views};

verus! {

/// The form an annotation is written in.
pub enum AttrMeta {
    /// `path(tok, tok, ...)`, with the text of each token between the parentheses.
    List(Vec<String>),
    /// `path = value`.
    NameValue,
    /// A bare `path`.
    Path,
}

/// One annotation on a field: its path (`env`) and what follows it.
pub struct FieldAttr {
    pub path: String,
    pub meta: AttrMeta,
}

/// What the `env` annotation of a field binds it to: the variable's name and
/// the default, each as the source text of a literal (`"HOST"`).
pub struct Binding {
    pub var: String,
    pub default: Option<String>,
}

/// Why the constructor of a structure cannot be generated.
#[derive(Clone, Copy, Debug, PartialEq, Eq, Structural)]
pub enum GenError {
    /// The declaration is an enum or a union.
    NotAStruct,
    /// The structure's fields have no names.
    UnnamedFields,
    /// A field carries no `env` annotation.
    MissingEnvAttr,
    /// The `env` annotation is not of the parenthesised list form.
    InvalidEnvAttr,
    /// The `env` annotation's list is empty.
    EmptyEnvAttr,
}

/// The tokens of an annotation's list without its separating commas.
pub open spec fn params(ts: Seq<Seq<char>>) -> Seq<Seq<char>>
    decreases ts.len(),
{
    if ts.len() == 0 {
        Seq::empty()
    } else if ts.last() == ","@ {
        params(ts.drop_last())
    } else {
        params(ts.drop_last()).push(ts.last())
    }
}

/// The name and default that an annotation gives, or why it gives none.
pub open spec fn binding_of_meta(m: AttrMeta) -> Result<(Seq<char>, Option<Seq<char>>), GenError> {
    match m {
        AttrMeta::List(ts) => {
            let ps = params(views(ts@));
            if ps.len() == 0 {
                Err(GenError::EmptyEnvAttr)
            } else {
                Ok((ps[0], if ps.len() >= 2 { Some(ps[1]) } else { None }))
            }
        },
        AttrMeta::NameValue => Err(GenError::InvalidEnvAttr),
        AttrMeta::Path => Err(GenError::InvalidEnvAttr),
    }
}

/// `i` is the first annotation whose path is `env`.
pub open spec fn first_env_attr(attrs: Seq<FieldAttr>, i: int) -> bool {
    &&& 0 <= i < attrs.len()
    &&& attrs[i].path@ == "env"@
    &&& forall|j: int| 0 <= j < i ==> (#[trigger] attrs[j]).path@ != "env"@
}

pub open spec fn has_env_attr(attrs: Seq<FieldAttr>) -> bool {
    exists|i: int| 0 <= i < attrs.len() && (#[trigger] attrs[i]).path@ == "env"@
}

/// The binding that a field's annotations give: that of its first `env`
/// annotation.
pub open spec fn binding_of_attrs(attrs: Seq<FieldAttr>) -> Result<(Seq<char>, Option<Seq<char>>), GenError> {
    if has_env_attr(attrs) {
        let i = choose|i: int| first_env_attr(attrs, i);
        binding_of_meta(attrs[i].meta)
    } else {
        Err(GenError::MissingEnvAttr)
    }
}

pub open spec fn binding_view(b: Binding) -> (Seq<char>, Option<Seq<char>>) {
    (b.var@, match b.default {
        Some(d) => Some(d@),
        None => None,
    })
}

pub open spec fn same_binding(r: Result<Binding, GenError>, s: Result<(Seq<char>, Option<Seq<char>>), GenError>) -> bool {
    match r {
        Ok(b) => s == Ok::<(Seq<char>, Option<Seq<char>>), GenError>(binding_view(b)),
        Err(e) => s == Err::<(Seq<char>, Option<Seq<char>>), GenError>(e),
    }
}

/// The tokens of a list without the commas between them.
pub fn param_tokens(tokens: &Vec<String>) -> (r: Vec<String>)
    ensures
        views(r@) == params(views(tokens@)),
{
    let ghost ts = views(tokens@);
    let mut out: Vec<String> = Vec::new();
    let mut i: usize = 0;
    assert(ts.subrange(0, 0) =~= Seq::<Seq<char>>::empty());
    while i < tokens.len()
        invariant
            ts == views(tokens@),
            i <= tokens.len(),
            views(out@) == params(ts.subrange(0, i as int)),
        decreases tokens.len() - i,
    {
        let t = &tokens[i];
        let ghost before = out@;
        proof {
            let next = ts.subrange(0, i + 1);
            assert(next.drop_last() =~= ts.subrange(0, i as int));
            assert(next.last() == t@);
        }
        if !same_text(t.as_str(), ",") {
            out.push(t.clone());
            assert(views(out@) =~= views(before).push(t@));
        }
        i = i + 1;
    }
    assert(ts.subrange(0, tokens.len() as int) =~= ts);
    out
}

/// The name and default that an annotation gives: its first and second
/// tokens, the commas between them left out.
pub fn parse_binding(meta: &AttrMeta) -> (r: Result<Binding, GenError>)
    ensures
        same_binding(r, binding_of_meta(*meta)),
{
    match meta {
        AttrMeta::List(tokens) => {
            let ps = param_tokens(tokens);
            if ps.len() == 0 {
                return Err(GenError::EmptyEnvAttr);
            }
            let var = ps[0].clone();
            let default = if ps.len() >= 2 {
                Some(ps[1].clone())
            } else {
                None
            };
            proof {
                assert(views(ps@)[0] == ps@[0]@);
                if ps.len() >= 2 {
                    assert(views(ps@)[1] == ps@[1]@);
                }
            }
            Ok(Binding { var, default })
        },
        AttrMeta::NameValue => Err(GenError::InvalidEnvAttr),
        AttrMeta::Path => Err(GenError::InvalidEnvAttr),
    }
}

/// The position of the first annotation whose path is `env`.
pub fn find_env_attr(attrs: &Vec<FieldAttr>) -> (r: Option<usize>)
    ensures
        match r {
            Some(i) => first_env_attr(attrs@, i as int),
            None => !has_env_attr(attrs@),
        },
{
    let mut i: usize = 0;
    while i < attrs.len()
        invariant
            i <= attrs.len(),
            forall|j: int| 0 <= j < i ==> (#[trigger] attrs@[j]).path@ != "env"@,
        decreases attrs.len() - i,
    {
        if same_text(attrs[i].path.as_str(), "env") {
            return Some(i);
        }
        i = i + 1;
    }
    None
}

/// The binding of a field, from its first `env` annotation.
pub fn field_binding(attrs: &Vec<FieldAttr>) -> (r: Result<Binding, GenError>)
    ensures
        same_binding(r, binding_of_attrs(attrs@)),
{
    match find_env_attr(attrs) {
        Some(i) => {
            proof {
                let k = choose|k: int| first_env_attr(attrs@, k);
                if k < i {
                    assert(attrs@[k].path@ != "env"@);
                } else if k > i {
                    assert(attrs@[i as int].path@ != "env"@);
                }
            }
            parse_binding(&attrs[i].meta)
        },
        None => Err(GenError::MissingEnvAttr),
    }
}

} // verus!
