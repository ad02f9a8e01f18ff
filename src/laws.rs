//! Properties that relate the conversions over all inputs.
use vstd::prelude::*;
use crate::load::{lenient_value, parsed_pieces, models, piece_value, source_text, all_pieces_parse};
use crate::text::{has_no_comma, join_commas, lemma_split_join, split_commas};
use crate::value::EnvValue;

verus! {

/// The texts that `Display` writes for the values of a list.
pub open spec fn texts<T: EnvValue>(v: Seq<T>) -> Seq<Seq<char>> {
    v.map_values(|x: T| T::text_of(x.model()))
}

/// A variable set to a text that reads as `T` gives that value, whatever the
/// default.
pub proof fn law_set_scalar_is_parsed<T: EnvValue>(value: Seq<char>, default: Seq<char>)
    requires
        T::parse_spec(value) is Some,
    ensures
        lenient_value::<T>(source_text(Some(value), default)) == T::parse_spec(value)->0,
{
}

/// With defaults, an unset variable without a default gives the zero value.
pub proof fn law_unset_without_default<T: EnvValue>()
    ensures
        lenient_value::<T>(source_text(None, Seq::empty())) == T::zero_model(),
{
    T::lemma_empty_text();
}

/// With defaults, an unset variable gives the default read as `T`, or the zero
/// value where the default does not read.
pub proof fn law_unset_with_default<T: EnvValue>(default: Seq<char>)
    ensures
        lenient_value::<T>(source_text(None, default)) == match T::parse_spec(default) {
            Some(m) => m,
            None => T::zero_model(),
        },
{
}

/// A list of well-formed pieces joined by commas reads as the list of their
/// values, of the same length and in the same order.
pub proof fn law_list_elements<T: EnvValue>(ps: Seq<Seq<char>>, lenient: bool)
    requires
        ps.len() >= 1,
        forall|i: int| 0 <= i < ps.len() ==> has_no_comma(#[trigger] ps[i]) && T::parse_spec(ps[i]) is Some,
    ensures
        parsed_pieces::<T>(split_commas(join_commas(ps)), lenient) matches Some(ms) && ms.len() == ps.len()
            && forall|i: int| 0 <= i < ps.len() ==> #[trigger] ms[i] == T::parse_spec(ps[i])->0,
{
    lemma_split_join(ps);
    assert forall|i: int| 0 <= i < ps.len() implies (#[trigger] piece_value::<T>(ps[i], lenient)) is Some by {
        assert(has_no_comma(ps[i]) && T::parse_spec(ps[i]) is Some);
        T::lemma_empty_text();
    }
    assert(all_pieces_parse::<T>(ps, lenient));
    let ms = ps.map_values(|p: Seq<char>| piece_value::<T>(p, lenient)->0);
    assert forall|i: int| 0 <= i < ps.len() implies #[trigger] ms[i] == T::parse_spec(ps[i])->0 by {
        assert(has_no_comma(ps[i]) && T::parse_spec(ps[i]) is Some);
        assert(ms[i] == piece_value::<T>(ps[i], lenient)->0);
        T::lemma_empty_text();
        if lenient && ps[i].len() == 0 && T::is_integer() {
            assert(ps[i] =~= Seq::<char>::empty());
        }
    }
}

/// A list of integers written out with commas between the values reads back
/// as the same list.
pub proof fn law_integer_list_round_trip<T: EnvValue>(v: Seq<T>, lenient: bool)
    requires
        T::is_integer(),
        v.len() >= 1,
    ensures
        parsed_pieces::<T>(split_commas(join_commas(texts(v))), lenient) == Some(models(v)),
{
    let ps = texts(v);
    assert forall|i: int| 0 <= i < ps.len() implies has_no_comma(#[trigger] ps[i]) && piece_value::<T>(ps[i], lenient)
        == Some(v[i].model()) by {
        T::lemma_text_round_trip(&v[i]);
    }
    lemma_split_join(ps);
    assert(all_pieces_parse::<T>(ps, lenient));
    assert(ps.map_values(|p: Seq<char>| piece_value::<T>(p, lenient)->0) =~= models(v));
}

} // verus!
