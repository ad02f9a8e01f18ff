//! Choosing a field's conversion from the text of its declared type.
//!
//! Twelve element types are known: `String`, `bool` and the ten integer
//! types. A field of one of them, or a `Vec` of one of them, is read by this
//! library's own verified parsers. The set of list types is closed: any other
//! type, `Vec` of another type included, is read as one value by its own
//! `FromStr`.
use vstd::prelude::*;
use crate::text::same_text;

verus! {

/// A type whose reading from text the library states and proves.
#[derive(Clone, Copy, Debug, PartialEq, Eq, Structural)]
pub enum ElemType {
    Str,
    Bool,
    U8,
    U16,
    U32,
    U64,
    U128,
    I8,
    I16,
    I32,
    I64,
    I128,
}

/// The conversion that fills a field.
#[derive(Clone, Copy, Debug, PartialEq, Eq, Structural)]
pub enum Template {
    /// One value of a known type, read by the library's parser for it.
    Scalar(ElemType),
    /// One value of any other type, read by that type's `FromStr`.
    Parsed,
    /// A comma separated list of the given element type.
    List(ElemType),
}

/// The element type's name, as Rust source.
pub open spec fn elem_name(e: ElemType) -> Seq<char> {
    match e {
        ElemType::Str => "String"@,
        ElemType::Bool => "bool"@,
        ElemType::U8 => "u8"@,
        ElemType::U16 => "u16"@,
        ElemType::U32 => "u32"@,
        ElemType::U64 => "u64"@,
        ElemType::U128 => "u128"@,
        ElemType::I8 => "i8"@,
        ElemType::I16 => "i16"@,
        ElemType::I32 => "i32"@,
        ElemType::I64 => "i64"@,
        ElemType::I128 => "i128"@,
    }
}

/// The text of the list type, as a type's tokens print (`Vec < u8 >`).
pub open spec fn list_signature(e: ElemType) -> Seq<char> {
    match e {
        ElemType::Str => "Vec < String >"@,
        ElemType::Bool => "Vec < bool >"@,
        ElemType::U8 => "Vec < u8 >"@,
        ElemType::U16 => "Vec < u16 >"@,
        ElemType::U32 => "Vec < u32 >"@,
        ElemType::U64 => "Vec < u64 >"@,
        ElemType::U128 => "Vec < u128 >"@,
        ElemType::I8 => "Vec < i8 >"@,
        ElemType::I16 => "Vec < i16 >"@,
        ElemType::I32 => "Vec < i32 >"@,
        ElemType::I64 => "Vec < i64 >"@,
        ElemType::I128 => "Vec < i128 >"@,
    }
}

/// The printed text of the list type of `e` (where `list`), or of `e` itself.
pub open spec fn type_text(e: ElemType, list: bool) -> Seq<char> {
    if list {
        list_signature(e)
    } else {
        elem_name(e)
    }
}

/// The type among the non-numeric element types whose text (or list signature, where `list`) is `ty`.
pub open spec fn text_elem(ty: Seq<char>, list: bool) -> Option<ElemType> {
    if ty == type_text(ElemType::Str, list) {
        Some(ElemType::Str)
    } else if ty == type_text(ElemType::Bool, list) {
        Some(ElemType::Bool)
    } else {
        None
    }
}

/// The type among the unsigned integer element types whose text (or list signature, where `list`) is `ty`.
pub open spec fn unsigned_elem(ty: Seq<char>, list: bool) -> Option<ElemType> {
    if ty == type_text(ElemType::U8, list) {
        Some(ElemType::U8)
    } else if ty == type_text(ElemType::U16, list) {
        Some(ElemType::U16)
    } else if ty == type_text(ElemType::U32, list) {
        Some(ElemType::U32)
    } else if ty == type_text(ElemType::U64, list) {
        Some(ElemType::U64)
    } else if ty == type_text(ElemType::U128, list) {
        Some(ElemType::U128)
    } else {
        None
    }
}

/// The type among the signed integer element types whose text (or list signature, where `list`) is `ty`.
pub open spec fn signed_elem(ty: Seq<char>, list: bool) -> Option<ElemType> {
    if ty == type_text(ElemType::I8, list) {
        Some(ElemType::I8)
    } else if ty == type_text(ElemType::I16, list) {
        Some(ElemType::I16)
    } else if ty == type_text(ElemType::I32, list) {
        Some(ElemType::I32)
    } else if ty == type_text(ElemType::I64, list) {
        Some(ElemType::I64)
    } else if ty == type_text(ElemType::I128, list) {
        Some(ElemType::I128)
    } else {
        None
    }
}

/// The known type whose text (or list signature, where `list`) is `ty`.
pub open spec fn known_elem(ty: Seq<char>, list: bool) -> Option<ElemType> {
    match text_elem(ty, list) {
        Some(e) => Some(e),
        None => match unsigned_elem(ty, list) {
            Some(e) => Some(e),
            None => signed_elem(ty, list),
        },
    }
}

/// The conversion for a declared type: the list of a known type whose
/// signature is the text, else the known scalar type of that name, else the
/// type's own `FromStr`.
pub open spec fn template_of(ty: Seq<char>) -> Template {
    match known_elem(ty, true) {
        Some(e) => Template::List(e),
        None => match known_elem(ty, false) {
            Some(e) => Template::Scalar(e),
            None => Template::Parsed,
        },
    }
}

/// Each list signature selects the list of its own element type, and each
/// known type's name the scalar conversion for it: no text in the table
/// stands twice.
#[verifier::rlimit(50)]
pub proof fn law_signature_selects_list(e: ElemType)
    ensures
        template_of(list_signature(e)) == Template::List(e),
        template_of(elem_name(e)) == Template::Scalar(e),
{
    reveal_strlit("Vec < String >");
    reveal_strlit("Vec < bool >");
    reveal_strlit("Vec < u8 >");
    reveal_strlit("Vec < u16 >");
    reveal_strlit("Vec < u32 >");
    reveal_strlit("Vec < u64 >");
    reveal_strlit("Vec < u128 >");
    reveal_strlit("Vec < i8 >");
    reveal_strlit("Vec < i16 >");
    reveal_strlit("Vec < i32 >");
    reveal_strlit("Vec < i64 >");
    reveal_strlit("Vec < i128 >");
    reveal_strlit("String");
    reveal_strlit("bool");
    reveal_strlit("u8");
    reveal_strlit("u16");
    reveal_strlit("u32");
    reveal_strlit("u64");
    reveal_strlit("u128");
    reveal_strlit("i8");
    reveal_strlit("i16");
    reveal_strlit("i32");
    reveal_strlit("i64");
    reveal_strlit("i128");
    assert("Vec < String >"@.len() == 14 && "Vec < String >"@[6] == 'S'
        && "Vec < String >"@[7] == 't' && "Vec < String >"@[8] == 'r');
    assert("Vec < bool >"@.len() == 12 && "Vec < bool >"@[6] == 'b'
        && "Vec < bool >"@[7] == 'o' && "Vec < bool >"@[8] == 'o');
    assert("Vec < u8 >"@.len() == 10 && "Vec < u8 >"@[6] == 'u'
        && "Vec < u8 >"@[7] == '8' && "Vec < u8 >"@[8] == ' ');
    assert("Vec < u16 >"@.len() == 11 && "Vec < u16 >"@[6] == 'u'
        && "Vec < u16 >"@[7] == '1' && "Vec < u16 >"@[8] == '6');
    assert("Vec < u32 >"@.len() == 11 && "Vec < u32 >"@[6] == 'u'
        && "Vec < u32 >"@[7] == '3' && "Vec < u32 >"@[8] == '2');
    assert("Vec < u64 >"@.len() == 11 && "Vec < u64 >"@[6] == 'u'
        && "Vec < u64 >"@[7] == '6' && "Vec < u64 >"@[8] == '4');
    assert("Vec < u128 >"@.len() == 12 && "Vec < u128 >"@[6] == 'u'
        && "Vec < u128 >"@[7] == '1' && "Vec < u128 >"@[8] == '2');
    assert("Vec < i8 >"@.len() == 10 && "Vec < i8 >"@[6] == 'i'
        && "Vec < i8 >"@[7] == '8' && "Vec < i8 >"@[8] == ' ');
    assert("Vec < i16 >"@.len() == 11 && "Vec < i16 >"@[6] == 'i'
        && "Vec < i16 >"@[7] == '1' && "Vec < i16 >"@[8] == '6');
    assert("Vec < i32 >"@.len() == 11 && "Vec < i32 >"@[6] == 'i'
        && "Vec < i32 >"@[7] == '3' && "Vec < i32 >"@[8] == '2');
    assert("Vec < i64 >"@.len() == 11 && "Vec < i64 >"@[6] == 'i'
        && "Vec < i64 >"@[7] == '6' && "Vec < i64 >"@[8] == '4');
    assert("Vec < i128 >"@.len() == 12 && "Vec < i128 >"@[6] == 'i'
        && "Vec < i128 >"@[7] == '1' && "Vec < i128 >"@[8] == '2');
    assert("String"@.len() == 6 && "String"@[0] == 'S' && "String"@[1] == 't' && "String"@[2] == 'r');
    assert("bool"@.len() == 4 && "bool"@[0] == 'b' && "bool"@[1] == 'o' && "bool"@[2] == 'o');
    assert("u8"@.len() == 2 && "u8"@[0] == 'u' && "u8"@[1] == '8');
    assert("u16"@.len() == 3 && "u16"@[0] == 'u' && "u16"@[1] == '1' && "u16"@[2] == '6');
    assert("u32"@.len() == 3 && "u32"@[0] == 'u' && "u32"@[1] == '3' && "u32"@[2] == '2');
    assert("u64"@.len() == 3 && "u64"@[0] == 'u' && "u64"@[1] == '6' && "u64"@[2] == '4');
    assert("u128"@.len() == 4 && "u128"@[0] == 'u' && "u128"@[1] == '1' && "u128"@[2] == '2');
    assert("i8"@.len() == 2 && "i8"@[0] == 'i' && "i8"@[1] == '8');
    assert("i16"@.len() == 3 && "i16"@[0] == 'i' && "i16"@[1] == '1' && "i16"@[2] == '6');
    assert("i32"@.len() == 3 && "i32"@[0] == 'i' && "i32"@[1] == '3' && "i32"@[2] == '2');
    assert("i64"@.len() == 3 && "i64"@[0] == 'i' && "i64"@[1] == '6' && "i64"@[2] == '4');
    assert("i128"@.len() == 4 && "i128"@[0] == 'i' && "i128"@[1] == '1' && "i128"@[2] == '2');
}

/// The element type's name, as Rust source.
pub fn elem_type_name(e: ElemType) -> (r: &'static str)
    ensures
        r@ == elem_name(e),
{
    match e {
        ElemType::Str => "String",
        ElemType::Bool => "bool",
        ElemType::U8 => "u8",
        ElemType::U16 => "u16",
        ElemType::U32 => "u32",
        ElemType::U64 => "u64",
        ElemType::U128 => "u128",
        ElemType::I8 => "i8",
        ElemType::I16 => "i16",
        ElemType::I32 => "i32",
        ElemType::I64 => "i64",
        ElemType::I128 => "i128",
    }
}

/// The text of the list type of element type `e`.
pub fn list_type_signature(e: ElemType) -> (r: &'static str)
    ensures
        r@ == list_signature(e),
{
    match e {
        ElemType::Str => "Vec < String >",
        ElemType::Bool => "Vec < bool >",
        ElemType::U8 => "Vec < u8 >",
        ElemType::U16 => "Vec < u16 >",
        ElemType::U32 => "Vec < u32 >",
        ElemType::U64 => "Vec < u64 >",
        ElemType::U128 => "Vec < u128 >",
        ElemType::I8 => "Vec < i8 >",
        ElemType::I16 => "Vec < i16 >",
        ElemType::I32 => "Vec < i32 >",
        ElemType::I64 => "Vec < i64 >",
        ElemType::I128 => "Vec < i128 >",
    }
}

fn type_text_of(e: ElemType, list: bool) -> (r: &'static str)
    ensures
        r@ == type_text(e, list),
{
    if list {
        list_type_signature(e)
    } else {
        elem_type_name(e)
    }
}

fn match_text(ty: &str, list: bool) -> (r: Option<ElemType>)
    ensures
        r == text_elem(ty@, list),
{
    if same_text(ty, type_text_of(ElemType::Str, list)) {
        Some(ElemType::Str)
    } else if same_text(ty, type_text_of(ElemType::Bool, list)) {
        Some(ElemType::Bool)
    } else {
        None
    }
}

fn match_unsigned(ty: &str, list: bool) -> (r: Option<ElemType>)
    ensures
        r == unsigned_elem(ty@, list),
{
    if same_text(ty, type_text_of(ElemType::U8, list)) {
        Some(ElemType::U8)
    } else if same_text(ty, type_text_of(ElemType::U16, list)) {
        Some(ElemType::U16)
    } else if same_text(ty, type_text_of(ElemType::U32, list)) {
        Some(ElemType::U32)
    } else if same_text(ty, type_text_of(ElemType::U64, list)) {
        Some(ElemType::U64)
    } else if same_text(ty, type_text_of(ElemType::U128, list)) {
        Some(ElemType::U128)
    } else {
        None
    }
}

fn match_signed(ty: &str, list: bool) -> (r: Option<ElemType>)
    ensures
        r == signed_elem(ty@, list),
{
    if same_text(ty, type_text_of(ElemType::I8, list)) {
        Some(ElemType::I8)
    } else if same_text(ty, type_text_of(ElemType::I16, list)) {
        Some(ElemType::I16)
    } else if same_text(ty, type_text_of(ElemType::I32, list)) {
        Some(ElemType::I32)
    } else if same_text(ty, type_text_of(ElemType::I64, list)) {
        Some(ElemType::I64)
    } else if same_text(ty, type_text_of(ElemType::I128, list)) {
        Some(ElemType::I128)
    } else {
        None
    }
}

/// The known type whose text (or list signature, where `list`) is `ty`.
pub fn match_known(ty: &str, list: bool) -> (r: Option<ElemType>)
    ensures
        r == known_elem(ty@, list),
{
    match match_text(ty, list) {
        Some(e) => Some(e),
        None => match match_unsigned(ty, list) {
            Some(e) => Some(e),
            None => match_signed(ty, list),
        },
    }
}

/// The conversion for a field whose declared type prints as `ty`.
pub fn classify(ty: &str) -> (r: Template)
    ensures
        r == template_of(ty@),
{
    match match_known(ty, true) {
        Some(e) => Template::List(e),
        None => match match_known(ty, false) {
            Some(e) => Template::Scalar(e),
            None => Template::Parsed,
        },
    }
}

} // verus!
