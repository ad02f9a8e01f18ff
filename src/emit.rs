//! Emitting the source text of a structure's `FromEnv` implementation: one
//! initializer per field, each a call of the matching conversion in
//! [`crate::load`].
use vstd::prelude::*;
use crate::attr::{binding_of_attrs, field_binding, Binding, FieldAttr, GenError};
use crate::dispatch::{classify, elem_name, elem_type_name, template_of, ElemType, Template};
use crate::text::{join_commas, join_with_commas, views};

verus! {

/// What a missing variable means.
#[derive(Clone, Copy, Debug, PartialEq, Eq, Structural)]
pub enum Policy {
    /// A missing variable takes the default; an unreadable scalar takes zero.
    Lenient,
    /// A missing variable or an unreadable text stops the program.
    Strict,
}

/// A field as declared: its name, the printed tokens of its type, and its
/// annotations.
pub struct FieldDecl {
    pub name: String,
    pub ty: String,
    pub attrs: Vec<FieldAttr>,
}

/// The shape of the declaration that the implementation is asked for.
pub enum Shape {
    /// A structure with named fields.
    Named(Vec<FieldDecl>),
    /// A tuple structure.
    Unnamed,
    /// A structure without fields.
    Unit,
    /// An enum or a union.
    NotAStruct,
}

pub open spec fn lookup_text(var: Seq<char>) -> Seq<char> {
    "std::env::var("@ + var + ").ok().as_deref()"@
}

/// A scalar of a type outside the known ones, read with defaults by its own
/// `FromStr`; the type's `Default` where the text does not read.
pub open spec fn lenient_parsed_text(ty: Seq<char>, var: Seq<char>, default: Seq<char>) -> Seq<char> {
    "env2config::load::lenient_parsed::<"@ + ty + ">(env2config::load::source("@ + lookup_text(var) + ", "@ + default
        + ").parse::<"@ + ty + ">().ok(), Default::default())"@
}

/// A scalar of a type outside the known ones, read strictly by its own
/// `FromStr`.
pub open spec fn strict_parsed_text(ty: Seq<char>, var: Seq<char>) -> Seq<char> {
    "{ let value = std::env::var("@ + var + ").ok(); env2config::load::strict_parsed::<"@ + ty + ">("@ + var
        + ", value.as_deref(), value.as_deref().and_then(|s| s.parse::<"@ + ty + ">().ok()))"@ + unwrap_text() + " }"@
}

pub open spec fn unwrap_text() -> Seq<char> {
    ".unwrap_or_else(|e| panic!(\"{}\", e.diagnostic()))"@
}

/// The default text handed to a lenient conversion: the annotation's default,
/// or the empty literal.
///
/// A list of booleans always defaults to `"false"` and ignores the
/// annotation's default. This is kept so that existing configurations read as
/// they always have; whether the written default should win for this one type
/// too is an open question.
pub open spec fn default_text(t: Template, default: Option<Seq<char>>) -> Seq<char> {
    if t == Template::List(ElemType::Bool) {
        "\"false\""@
    } else {
        match default {
            Some(d) => d,
            None => "\"\""@,
        }
    }
}

/// The call that computes a field's value.
pub open spec fn call_text(p: Policy, ty: Seq<char>, var: Seq<char>, default: Option<Seq<char>>) -> Seq<char> {
    let t = template_of(ty);
    match (p, t) {
        (Policy::Lenient, Template::Scalar(_)) => "env2config::load::lenient_scalar::<"@ + ty + ">("@ + lookup_text(var) + ", "@
            + default_text(t, default) + ")"@,
        (Policy::Lenient, Template::Parsed) => lenient_parsed_text(ty, var, default_text(t, default)),
        (Policy::Lenient, Template::List(e)) => "env2config::load::lenient_list::<"@ + elem_name(e) + ">("@ + var + ", "@
            + lookup_text(var) + ", "@ + default_text(t, default) + ")"@ + unwrap_text(),
        (Policy::Strict, Template::Scalar(_)) => "env2config::load::strict_scalar::<"@ + ty + ">("@ + var + ", "@
            + lookup_text(var) + ")"@ + unwrap_text(),
        (Policy::Strict, Template::Parsed) => strict_parsed_text(ty, var),
        (Policy::Strict, Template::List(e)) => "env2config::load::strict_list::<"@ + elem_name(e) + ">("@ + var + ", "@
            + lookup_text(var) + ")"@ + unwrap_text(),
    }
}

/// A field's initializer: `name: call`.
pub open spec fn init_text(p: Policy, name: Seq<char>, ty: Seq<char>, var: Seq<char>, default: Option<Seq<char>>) -> Seq<char> {
    name + ": "@ + call_text(p, ty, var, default)
}

pub open spec fn field_result(p: Policy, f: FieldDecl) -> Result<Seq<char>, GenError> {
    match binding_of_attrs(f.attrs@) {
        Ok((var, default)) => Ok(init_text(p, f.name@, f.ty@, var, default)),
        Err(e) => Err(e),
    }
}

/// The initializers of the fields in order, or the error of the first field
/// that has none.
pub open spec fn inits_of(p: Policy, fs: Seq<FieldDecl>) -> Result<Seq<Seq<char>>, GenError>
    decreases fs.len(),
{
    if fs.len() == 0 {
        Ok(Seq::empty())
    } else {
        match inits_of(p, fs.drop_last()) {
            Ok(xs) => match field_result(p, fs.last()) {
                Ok(x) => Ok(xs.push(x)),
                Err(e) => Err(e),
            },
            Err(e) => Err(e),
        }
    }
}

pub open spec fn impl_text(name: Seq<char>, body: Seq<char>) -> Seq<char> {
    "impl env2config::FromEnv for "@ + name + " { fn from_env() -> Self { Self { "@ + body + " } } }"@
}

/// The implementation of `FromEnv` for the declaration `name` of shape `s`.
pub open spec fn generated(p: Policy, name: Seq<char>, s: Shape) -> Result<Seq<char>, GenError> {
    match s {
        Shape::Named(fs) => match inits_of(p, fs@) {
            Ok(xs) => Ok(impl_text(name, join_commas(xs))),
            Err(e) => Err(e),
        },
        Shape::Unnamed => Err(GenError::UnnamedFields),
        Shape::Unit => Err(GenError::UnnamedFields),
        Shape::NotAStruct => Err(GenError::NotAStruct),
    }
}

pub open spec fn default_view(b: Binding) -> Option<Seq<char>> {
    match b.default {
        Some(d) => Some(d@),
        None => None,
    }
}

fn lookup_call(var: &str) -> (r: String)
    ensures
        r@ == lookup_text(var@),
{
    String::from_str("std::env::var(").concat(var).concat(").ok().as_deref()")
}

fn lenient_parsed_call(ty: &str, var: &str, default: &str) -> (r: String)
    ensures
        r@ == lenient_parsed_text(ty@, var@, default@),
{
    String::from_str("env2config::load::lenient_parsed::<").concat(ty).concat(">(env2config::load::source(")
        .concat(lookup_call(var).as_str()).concat(", ").concat(default).concat(").parse::<").concat(ty)
        .concat(">().ok(), Default::default())")
}

fn strict_parsed_call(ty: &str, var: &str) -> (r: String)
    ensures
        r@ == strict_parsed_text(ty@, var@),
{
    String::from_str("{ let value = std::env::var(").concat(var).concat(").ok(); env2config::load::strict_parsed::<")
        .concat(ty).concat(">(").concat(var).concat(", value.as_deref(), value.as_deref().and_then(|s| s.parse::<")
        .concat(ty).concat(">().ok()))").concat(unwrap_call().as_str()).concat(" }")
}

fn unwrap_call() -> (r: String)
    ensures
        r@ == unwrap_text(),
{
    String::from_str(".unwrap_or_else(|e| panic!(\"{}\", e.diagnostic()))")
}

/// The initializer of one field, given its binding.
pub fn field_init(p: Policy, name: &str, ty: &str, b: &Binding) -> (r: String)
    ensures
        r@ == init_text(p, name@, ty@, b.var@, default_view(*b)),
{
    let t = classify(ty);
    let var = b.var.as_str();
    let default: String = if t == Template::List(ElemType::Bool) {
        String::from_str("\"false\"")
    } else {
        match &b.default {
            Some(d) => d.clone(),
            None => String::from_str("\"\""),
        }
    };
    assert(default@ == default_text(t, default_view(*b)));
    let call = match (p, t) {
        (Policy::Lenient, Template::Scalar(_)) => String::from_str("env2config::load::lenient_scalar::<").concat(ty).concat(">(")
            .concat(lookup_call(var).as_str()).concat(", ").concat(default.as_str()).concat(")"),
        (Policy::Lenient, Template::Parsed) => lenient_parsed_call(ty, var, default.as_str()),
        (Policy::Lenient, Template::List(e)) => String::from_str("env2config::load::lenient_list::<").concat(elem_type_name(e))
            .concat(">(").concat(var).concat(", ").concat(lookup_call(var).as_str()).concat(", ").concat(default.as_str())
            .concat(")").concat(unwrap_call().as_str()),
        (Policy::Strict, Template::Scalar(_)) => String::from_str("env2config::load::strict_scalar::<").concat(ty).concat(">(")
            .concat(var).concat(", ").concat(lookup_call(var).as_str()).concat(")").concat(unwrap_call().as_str()),
        (Policy::Strict, Template::Parsed) => strict_parsed_call(ty, var),
        (Policy::Strict, Template::List(e)) => String::from_str("env2config::load::strict_list::<").concat(elem_type_name(e))
            .concat(">(").concat(var).concat(", ").concat(lookup_call(var).as_str()).concat(")").concat(unwrap_call().as_str()),
    };
    String::from_str(name).concat(": ").concat(call.as_str())
}

/// The source text of the `FromEnv` implementation for the declaration `name`
/// of shape `s`, or why there is none.
pub fn generate_impl(p: Policy, name: &str, s: &Shape) -> (r: Result<String, GenError>)
    ensures
        match r {
            Ok(t) => generated(p, name@, *s) == Ok::<Seq<char>, GenError>(t@),
            Err(e) => generated(p, name@, *s) == Err::<Seq<char>, GenError>(e),
        },
{
    let fields = match s {
        Shape::Named(fs) => fs,
        Shape::Unnamed => return Err(GenError::UnnamedFields),
        Shape::Unit => return Err(GenError::UnnamedFields),
        Shape::NotAStruct => return Err(GenError::NotAStruct),
    };
    let mut inits: Vec<String> = Vec::new();
    let mut i: usize = 0;
    assert(fields@.subrange(0, 0) =~= Seq::<FieldDecl>::empty());
    assert(views(inits@) =~= Seq::<Seq<char>>::empty());
    while i < fields.len()
        invariant
            s matches Shape::Named(fs) && fs@ == fields@,
            i <= fields.len(),
            inits_of(p, fields@.subrange(0, i as int)) == Ok::<Seq<Seq<char>>, GenError>(views(inits@)),
        decreases fields.len() - i,
    {
        let f = &fields[i];
        let ghost next = fields@.subrange(0, i + 1);
        assert(next.drop_last() =~= fields@.subrange(0, i as int));
        assert(next.last() == *f);
        match field_binding(&f.attrs) {
            Ok(b) => {
                let init = field_init(p, f.name.as_str(), f.ty.as_str(), &b);
                let ghost before = inits@;
                inits.push(init);
                assert(views(inits@) =~= views(before).push(init@));
            },
            Err(e) => {
                proof {
                    assert(field_result(p, *f) == Err::<Seq<char>, GenError>(e));
                    assert(inits_of(p, next) == Err::<Seq<Seq<char>>, GenError>(e));
                    lemma_inits_error_sticks(p, fields@, i + 1, e);
                    assert(fields@.subrange(0, fields@.len() as int) =~= fields@);
                }
                return Err(e);
            },
        }
        i = i + 1;
    }
    assert(fields@.subrange(0, fields.len() as int) =~= fields@);
    let body = join_with_commas(&inits);
    Ok(String::from_str("impl env2config::FromEnv for ").concat(name).concat(" { fn from_env() -> Self { Self { ")
        .concat(body.as_str()).concat(" } } }"))
}

/// Once a prefix of the fields fails, every longer prefix fails the same way.
proof fn lemma_inits_error_sticks(p: Policy, fs: Seq<FieldDecl>, k: int, e: GenError)
    requires
        0 <= k <= fs.len(),
        inits_of(p, fs.subrange(0, k)) == Err::<Seq<Seq<char>>, GenError>(e),
    ensures
        inits_of(p, fs.subrange(0, fs.len() as int)) == Err::<Seq<Seq<char>>, GenError>(e),
    decreases fs.len() - k,
{
    if k < fs.len() {
        let next = fs.subrange(0, k + 1);
        assert(next.drop_last() =~= fs.subrange(0, k));
        lemma_inits_error_sticks(p, fs, k + 1, e);
    }
}

} // verus!
