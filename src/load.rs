//! The conversions that fill one field from the value of its environment
//! variable: with defaults (a missing variable takes the default text, an
//! unreadable scalar takes the type's zero value) or strictly (a missing
//! variable or an unreadable text is an error).
use vstd::prelude::*;
use crate::text::{split_commas, split_on_commas, views};
use crate::value::EnvValue;

verus! {

/// Why a field could not be filled.
#[derive(Debug)]
pub enum LoadError {
    /// The variable is not set.
    Missing { var: String },
    /// The text, or one piece of a list, does not read as the field's type.
    Malformed { var: String, text: String },
}

pub open spec fn opt_view(value: Option<&str>) -> Option<Seq<char>> {
    match value {
        Some(s) => Some(s@),
        None => None,
    }
}

/// The text a field is read from when defaults apply.
pub open spec fn source_text(value: Option<Seq<char>>, default: Seq<char>) -> Seq<char> {
    match value {
        Some(s) => s,
        None => default,
    }
}

/// A scalar read with defaults: the parsed text, or the zero value.
pub open spec fn lenient_value<T: EnvValue>(s: Seq<char>) -> T::Model {
    match T::parse_spec(s) {
        Some(m) => m,
        None => T::zero_model(),
    }
}

/// One piece of a list; with defaults an empty piece may stand for zero.
pub open spec fn piece_value<T: EnvValue>(p: Seq<char>, lenient: bool) -> Option<T::Model> {
    if lenient && p.len() == 0 && T::is_integer() {
        Some(T::zero_model())
    } else {
        T::parse_spec(p)
    }
}

pub open spec fn models<T: EnvValue>(v: Seq<T>) -> Seq<T::Model> {
    v.map_values(|x: T| x.model())
}

/// Whether every piece reads as `T`.
pub open spec fn all_pieces_parse<T: EnvValue>(ps: Seq<Seq<char>>, lenient: bool) -> bool {
    forall|i: int| 0 <= i < ps.len() ==> (#[trigger] piece_value::<T>(ps[i], lenient)) is Some
}

/// The values of the pieces, in order, where every piece reads as `T`.
pub open spec fn parsed_pieces<T: EnvValue>(ps: Seq<Seq<char>>, lenient: bool) -> Option<Seq<T::Model>> {
    if all_pieces_parse::<T>(ps, lenient) {
        Some(ps.map_values(|p: Seq<char>| piece_value::<T>(p, lenient)->0))
    } else {
        None
    }
}

/// `k` is the first piece that does not read as `T`.
pub open spec fn first_bad_piece<T: EnvValue>(ps: Seq<Seq<char>>, lenient: bool, k: int) -> bool {
    &&& 0 <= k < ps.len()
    &&& piece_value::<T>(ps[k], lenient) is None
    &&& forall|j: int| 0 <= j < k ==> (#[trigger] piece_value::<T>(ps[j], lenient)) is Some
}

/// `e` reports piece `text` of variable `var` as unreadable.
pub open spec fn is_malformed(e: LoadError, var: Seq<char>, text: Seq<char>) -> bool {
    match e {
        LoadError::Malformed { var: v, text: t } => v@ == var && t@ == text,
        LoadError::Missing { .. } => false,
    }
}

/// `e` reports variable `var` as not set.
pub open spec fn is_missing(e: LoadError, var: Seq<char>) -> bool {
    match e {
        LoadError::Missing { var: v } => v@ == var,
        LoadError::Malformed { .. } => false,
    }
}

/// The outcome of reading the pieces `ps` of variable `var` as a list of `T`.
pub open spec fn list_outcome<T: EnvValue>(
    r: Result<Vec<T>, LoadError>,
    var: Seq<char>,
    ps: Seq<Seq<char>>,
    lenient: bool,
) -> bool {
    match r {
        Ok(v) => parsed_pieces::<T>(ps, lenient) == Some(models(v@)),
        Err(e) => parsed_pieces::<T>(ps, lenient) is None && exists|k: int|
            first_bad_piece::<T>(ps, lenient, k) && is_malformed(e, var, #[trigger] ps[k]),
    }
}

impl LoadError {
    /// The message that names what went wrong.
    pub fn diagnostic(&self) -> (r: String)
        ensures
            match self {
                LoadError::Missing { var } => r@ == "Environment variable "@ + var@ + " not set"@,
                LoadError::Malformed { var, text } => r@ == "failed to parse "@ + text@ + " from "@ + var@,
            },
    {
        match self {
            LoadError::Missing { var } => {
                String::from_str("Environment variable ").concat(var.as_str()).concat(" not set")
            },
            LoadError::Malformed { var, text } => {
                String::from_str("failed to parse ").concat(text.as_str()).concat(" from ").concat(var.as_str())
            },
        }
    }
}

/// Reads each piece as `T`, stopping at the first that does not read.
pub fn parse_pieces<T: EnvValue>(var: &str, pieces: &Vec<String>, lenient: bool) -> (r: Result<Vec<T>, LoadError>)
    ensures
        list_outcome(r, var@, views(pieces@), lenient),
{
    let ghost ps = views(pieces@);
    let integer = T::integer_type();
    let mut out: Vec<T> = Vec::new();
    let mut i: usize = 0;
    while i < pieces.len()
        invariant
            ps == views(pieces@),
            integer == T::is_integer(),
            i <= pieces.len(),
            out@.len() == i,
            forall|j: int| 0 <= j < i ==> piece_value::<T>(#[trigger] ps[j], lenient) == Some(out@[j].model()),
        decreases pieces.len() - i,
    {
        let p = pieces[i].as_str();
        assert(p@ == ps[i as int]);
        let parsed: Option<T> = if lenient && integer && p.unicode_len() == 0 {
            Some(T::zero())
        } else {
            T::parse_text(p)
        };
        match parsed {
            Some(x) => {
                out.push(x);
            },
            None => {
                let e = LoadError::Malformed { var: String::from_str(var), text: String::from_str(p) };
                proof {
                    assert(first_bad_piece::<T>(ps, lenient, i as int));
                    assert(!all_pieces_parse::<T>(ps, lenient));
                    assert(is_malformed(e, var@, ps[i as int]));
                }
                return Err(e);
            },
        }
        i = i + 1;
    }
    proof {
        assert(all_pieces_parse::<T>(ps, lenient));
        assert(ps.map_values(|p: Seq<char>| piece_value::<T>(p, lenient)->0) =~= models(out@));
    }
    Ok(out)
}

/// The text a field is read from when defaults apply: the variable's text,
/// or `default` where it is not set.
pub fn source<'a>(value: Option<&'a str>, default: &'a str) -> (r: &'a str)
    ensures
        r@ == source_text(opt_view(value), default@),
{
    match value {
        Some(s) => s,
        None => default,
    }
}

/// A scalar field with defaults: the variable's text, or `default` where it is
/// not set, read as `T`; the zero value where that text does not read.
pub fn lenient_scalar<T: EnvValue>(value: Option<&str>, default: &str) -> (r: T)
    ensures
        r.model() == lenient_value::<T>(source_text(opt_view(value), default@)),
{
    match T::parse_text(source(value, default)) {
        Some(x) => x,
        None => T::zero(),
    }
}

/// A scalar field with defaults, of a type that reads itself: `parsed` is what
/// the type's `FromStr` made of the text that [`source`] gives, and `zero` is
/// the type's default value, taken where the text did not read.
pub fn lenient_parsed<T>(parsed: Option<T>, zero: T) -> (r: T)
    ensures
        r == match parsed {
            Some(x) => x,
            None => zero,
        },
{
    match parsed {
        Some(x) => x,
        None => zero,
    }
}

/// A scalar field read strictly, of a type that reads itself: `value` is the
/// variable's text, if set, and `parsed` what the type's `FromStr` made of it.
pub fn strict_parsed<T>(var: &str, value: Option<&str>, parsed: Option<T>) -> (r: Result<T, LoadError>)
    ensures
        match value {
            None => r matches Err(e) && is_missing(e, var@),
            Some(s) => match parsed {
                Some(x) => r matches Ok(y) && y == x,
                None => r matches Err(e) && is_malformed(e, var@, s@),
            },
        },
{
    match value {
        None => Err(LoadError::Missing { var: String::from_str(var) }),
        Some(s) => match parsed {
            Some(x) => Ok(x),
            None => Err(LoadError::Malformed { var: String::from_str(var), text: String::from_str(s) }),
        },
    }
}

/// A list field with defaults: the variable's text, or `default` where it is
/// not set, split on commas; each piece read as `T`, an empty piece of an
/// integer list as zero.
pub fn lenient_list<T: EnvValue>(var: &str, value: Option<&str>, default: &str) -> (r: Result<Vec<T>, LoadError>)
    ensures
        list_outcome(r, var@, split_commas(source_text(opt_view(value), default@)), true),
{
    let pieces = split_on_commas(source(value, default));
    parse_pieces(var, &pieces, true)
}

/// A scalar field read strictly: the variable must be set and read as `T`.
pub fn strict_scalar<T: EnvValue>(var: &str, value: Option<&str>) -> (r: Result<T, LoadError>)
    ensures
        match value {
            None => r matches Err(e) && is_missing(e, var@),
            Some(s) => match T::parse_spec(s@) {
                Some(m) => r matches Ok(x) && x.model() == m,
                None => r matches Err(e) && is_malformed(e, var@, s@),
            },
        },
{
    match value {
        None => Err(LoadError::Missing { var: String::from_str(var) }),
        Some(s) => match T::parse_text(s) {
            Some(x) => Ok(x),
            None => Err(LoadError::Malformed { var: String::from_str(var), text: String::from_str(s) }),
        },
    }
}

/// A list field read strictly: the variable must be set; its text is split on
/// commas and every piece must read as `T`.
pub fn strict_list<T: EnvValue>(var: &str, value: Option<&str>) -> (r: Result<Vec<T>, LoadError>)
    ensures
        match value {
            None => r matches Err(e) && is_missing(e, var@),
            Some(s) => list_outcome(r, var@, split_commas(s@), false),
        },
{
    match value {
        None => Err(LoadError::Missing { var: String::from_str(var) }),
        Some(s) => {
            let pieces = split_on_commas(s);
            parse_pieces(var, &pieces, false)
        },
    }
}

} // verus!
