//! Splitting and comparing text, character by character.
use vstd::prelude::*;

verus! {

/// The pieces of `s` between commas, in order: `n` commas give `n + 1` pieces,
/// and the empty text gives one empty piece.
pub open spec fn split_commas(s: Seq<char>) -> Seq<Seq<char>>
    decreases s.len(),
{
    if s.len() == 0 {
        seq![Seq::<char>::empty()]
    } else {
        let init = split_commas(s.drop_last());
        if s.last() == ',' {
            init.push(Seq::<char>::empty())
        } else {
            init.update(init.len() - 1, init.last().push(s.last()))
        }
    }
}

/// The pieces joined back together, with one comma between neighbours.
pub open spec fn join_commas(ps: Seq<Seq<char>>) -> Seq<char>
    decreases ps.len(),
{
    if ps.len() <= 1 {
        if ps.len() == 0 { Seq::<char>::empty() } else { ps[0] }
    } else {
        join_commas(ps.drop_last()) + seq![','] + ps.last()
    }
}

pub open spec fn has_no_comma(s: Seq<char>) -> bool {
    forall|i: int| 0 <= i < s.len() ==> s[i] != ','
}

pub open spec fn views(v: Seq<String>) -> Seq<Seq<char>> {
    v.map_values(|x: String| x@)
}

pub proof fn lemma_split_nonempty(s: Seq<char>)
    ensures
        split_commas(s).len() >= 1,
    decreases s.len(),
{
    if s.len() > 0 {
        lemma_split_nonempty(s.drop_last());
    }
}

/// Splitting `x`, a comma and a comma-free `p` gives the pieces of `x` and then `p`.
proof fn lemma_split_append(x: Seq<char>, p: Seq<char>)
    requires
        has_no_comma(p),
    ensures
        split_commas(x + seq![','] + p) == split_commas(x).push(p),
    decreases p.len(),
{
    let xc = x + seq![','];
    if p.len() == 0 {
        assert(xc + p =~= xc);
        assert(xc.drop_last() =~= x);
        assert(xc.last() == ',');
        assert(p =~= Seq::<char>::empty());
    } else {
        let q = p.drop_last();
        assert(p.last() != ',') by { assert(p[p.len() - 1] != ','); }
        assert(has_no_comma(q)) by { assert forall|i: int| 0 <= i < q.len() implies q[i] != ',' by { assert(q[i] == p[i]); } }
        lemma_split_append(x, q);
        assert((xc + p).drop_last() =~= xc + q);
        assert((xc + p).last() == p.last());
        lemma_split_nonempty(x);
        assert(q.push(p.last()) =~= p);
        assert(split_commas(x).push(q).update(split_commas(x).len() as int, p) =~= split_commas(x).push(p));
    }
}

/// Joining comma-free pieces and splitting the result gives the pieces back.
pub proof fn lemma_split_join(ps: Seq<Seq<char>>)
    requires
        ps.len() >= 1,
        forall|i: int| 0 <= i < ps.len() ==> has_no_comma(#[trigger] ps[i]),
    ensures
        split_commas(join_commas(ps)) == ps,
    decreases ps.len(),
{
    if ps.len() == 1 {
        let p = ps[0];
        lemma_split_comma_free(p);
        assert(seq![p] =~= ps);
    } else {
        let init = ps.drop_last();
        assert forall|i: int| 0 <= i < init.len() implies has_no_comma(#[trigger] init[i]) by {
            assert(init[i] == ps[i]);
        }
        lemma_split_join(init);
        lemma_split_append(join_commas(init), ps.last());
        assert(init.push(ps.last()) =~= ps);
    }
}

/// Text without a comma is a single piece.
proof fn lemma_split_comma_free(p: Seq<char>)
    requires
        has_no_comma(p),
    ensures
        split_commas(p) == seq![p],
    decreases p.len(),
{
    if p.len() == 0 {
        assert(p =~= Seq::<char>::empty());
    } else {
        let q = p.drop_last();
        assert(p.last() != ',') by { assert(p[p.len() - 1] != ','); }
        assert(has_no_comma(q)) by { assert forall|i: int| 0 <= i < q.len() implies q[i] != ',' by { assert(q[i] == p[i]); } }
        lemma_split_comma_free(q);
        assert(q.push(p.last()) =~= p);
        assert(seq![q].update(0, p) =~= seq![p]);
    }
}

/// Whether two texts hold the same characters.
pub fn same_text(a: &str, b: &str) -> (r: bool)
    ensures
        r == (a@ == b@),
{
    let n = a.unicode_len();
    if n != b.unicode_len() {
        return false;
    }
    let mut i: usize = 0;
    while i < n
        invariant
            n == a@.len(),
            n == b@.len(),
            i <= n,
            forall|j: int| 0 <= j < i ==> a@[j] == b@[j],
        decreases n - i,
    {
        if a.get_char(i) != b.get_char(i) {
            return false;
        }
        i = i + 1;
    }
    assert(a@ =~= b@);
    true
}

/// The texts joined with one comma between neighbours.
pub fn join_with_commas(ps: &Vec<String>) -> (r: String)
    ensures
        r@ == join_commas(views(ps@)),
{
    let ghost vs = views(ps@);
    let mut out = String::new();
    let mut i: usize = 0;
    while i < ps.len()
        invariant
            vs == views(ps@),
            i <= ps.len(),
            out@ == join_commas(vs.subrange(0, i as int)),
        decreases ps.len() - i,
    {
        let ghost prev = vs.subrange(0, i as int);
        let ghost next = vs.subrange(0, i + 1);
        assert(next.drop_last() =~= prev);
        assert(next.last() == ps@[i as int]@);
        if i == 0 {
            out = ps[i].clone();
            assert(next =~= seq![ps@[0]@]);
        } else {
            out = out.concat(",").concat(ps[i].as_str());
            proof {
                reveal_strlit(",");
            }
            assert(out@ =~= join_commas(prev) + seq![','] + ps@[i as int]@);
        }
        i = i + 1;
    }
    assert(vs.subrange(0, ps.len() as int) =~= vs);
    out
}

/// The pieces of `s` between commas.
pub fn split_on_commas(s: &str) -> (r: Vec<String>)
    ensures
        views(r@) == split_commas(s@),
{
    let n = s.unicode_len();
    let mut pieces: Vec<String> = Vec::new();
    let mut start: usize = 0;
    let mut i: usize = 0;
    assert(s@.subrange(0, 0) =~= Seq::<char>::empty());
    assert(views(pieces@).push(s@.subrange(0, 0)) =~= seq![Seq::<char>::empty()]);
    while i < n
        invariant
            n == s@.len(),
            start <= i <= n,
            split_commas(s@.subrange(0, i as int)) == views(pieces@).push(s@.subrange(start as int, i as int)),
        decreases n - i,
    {
        let c = s.get_char(i);
        proof {
            let pre = s@.subrange(0, i as int);
            let next = s@.subrange(0, i + 1);
            assert(next.drop_last() =~= pre);
            assert(next.last() == c);
            assert(s@.subrange(start as int, i as int).push(c) =~= s@.subrange(start as int, i + 1));
        }
        if c == ',' {
            let piece = String::from_str(s.substring_char(start, i));
            let ghost before = pieces@;
            pieces.push(piece);
            start = i + 1;
            proof {
                assert(views(pieces@) =~= views(before).push(piece@));
                assert(s@.subrange(start as int, i + 1) =~= Seq::<char>::empty());
            }
        }
        i = i + 1;
    }
    let last = String::from_str(s.substring_char(start, n));
    pieces.push(last);
    assert(s@.subrange(0, n as int) =~= s@);
    assert(views(pieces@) =~= split_commas(s@));
    pieces
}

} // verus!
