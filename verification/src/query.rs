use vstd::prelude::*;

use crate::text::{
    bool_str, bool_to_string, count_char, dec_str, free_of, i64_to_string, int_str,
    is_dec_digit, lemma_bool_str_clean, lemma_count_char_concat, lemma_dec_str_digits,
    lemma_free_of_count, lemma_int_str_clean, usize_to_string,
};

verus! {

/// One query parameter, rendered as the API expects it: `filter[<name>]=<value>`.
pub open spec fn qunit(name: Seq<char>, value: Seq<char>) -> Seq<char> {
    "filter["@ + name + "]="@ + value
}

/// The tail of a query string: every pair after the first, each preceded by `&`.
pub open spec fn amp_units(pairs: Seq<(Seq<char>, Seq<char>)>) -> Seq<char>
    decreases pairs.len(),
{
    if pairs.len() == 0 {
        Seq::<char>::empty()
    } else {
        seq!['&'] + qunit(pairs[0].0, pairs[0].1) + amp_units(pairs.drop_first())
    }
}

/// The query string for a list of `(name, value)` pairs: empty when there is
/// no pair, else `?` before the first pair and `&` before each later one.
/// Values are taken verbatim: a caller whose value holds a reserved character
/// such as `&` or `?` must encode it first, or the query is malformed.
pub open spec fn query_string(pairs: Seq<(Seq<char>, Seq<char>)>) -> Seq<char>
    decreases pairs.len(),
{
    if pairs.len() == 0 {
        Seq::<char>::empty()
    } else {
        seq!['?'] + qunit(pairs[0].0, pairs[0].1) + amp_units(pairs.drop_first())
    }
}

/// The character `c` occurs in no name and no value of `pairs`.
pub open spec fn pairs_free_of(pairs: Seq<(Seq<char>, Seq<char>)>, c: char) -> bool {
    forall|i: int|
        0 <= i < pairs.len() ==> free_of(#[trigger] pairs[i].0, c) && free_of(pairs[i].1, c)
}

/// With no filter present, the query string is empty and the collection path
/// is queried bare.
pub proof fn lemma_query_string_empty(pairs: Seq<(Seq<char>, Seq<char>)>)
    requires
        pairs.len() == 0,
    ensures
        query_string(pairs) == Seq::<char>::empty(),
{
}

proof fn lemma_pairs_free_of_drop_first(pairs: Seq<(Seq<char>, Seq<char>)>, c: char)
    requires
        pairs.len() >= 1,
        pairs_free_of(pairs, c),
    ensures
        pairs_free_of(pairs.drop_first(), c),
{
    let rest = pairs.drop_first();
    assert forall|i: int| 0 <= i < rest.len() implies free_of(#[trigger] rest[i].0, c) && free_of(
        rest[i].1,
        c,
    ) by {
        assert(rest[i] == pairs[i + 1]);
    }
}

proof fn lemma_count_single(c: char, d: char)
    ensures
        count_char(seq![c], d) == (if c == d {
            1nat
        } else {
            0nat
        }),
{
    reveal_with_fuel(count_char, 2);
    assert(seq![c].drop_first() =~= Seq::<char>::empty());
    assert(count_char(seq![c].drop_first(), d) == 0);
}

proof fn lemma_strlit_clean(c: char)
    requires
        c == '&' || c == '?',
    ensures
        free_of("filter["@, c),
        free_of("]="@, c),
{
    reveal_strlit("filter[");
    reveal_strlit("]=");
}

/// A rendered pair holds `c` exactly as often as its name and value together do.
proof fn lemma_qunit_count(name: Seq<char>, value: Seq<char>, c: char)
    requires
        c == '&' || c == '?',
    ensures
        count_char(qunit(name, value), c) == count_char(name, c) + count_char(value, c),
{
    lemma_strlit_clean(c);
    lemma_free_of_count("filter["@, c);
    lemma_free_of_count("]="@, c);
    lemma_count_char_concat("filter["@ + name + "]="@, value, c);
    lemma_count_char_concat("filter["@ + name, "]="@, c);
    lemma_count_char_concat("filter["@, name, c);
}

proof fn lemma_amp_units_counts(pairs: Seq<(Seq<char>, Seq<char>)>)
    requires
        pairs_free_of(pairs, '&'),
        pairs_free_of(pairs, '?'),
    ensures
        count_char(amp_units(pairs), '&') == pairs.len(),
        count_char(amp_units(pairs), '?') == 0,
    decreases pairs.len(),
{
    if pairs.len() > 0 {
        let head = qunit(pairs[0].0, pairs[0].1);
        let tail = amp_units(pairs.drop_first());
        lemma_pairs_free_of_drop_first(pairs, '&');
        lemma_pairs_free_of_drop_first(pairs, '?');
        lemma_amp_units_counts(pairs.drop_first());
        lemma_free_of_count(pairs[0].0, '&');
        lemma_free_of_count(pairs[0].1, '&');
        lemma_free_of_count(pairs[0].0, '?');
        lemma_free_of_count(pairs[0].1, '?');
        lemma_qunit_count(pairs[0].0, pairs[0].1, '&');
        lemma_qunit_count(pairs[0].0, pairs[0].1, '?');
        lemma_count_char_concat(seq!['&'] + head, tail, '&');
        lemma_count_char_concat(seq!['&'], head, '&');
        lemma_count_char_concat(seq!['&'] + head, tail, '?');
        lemma_count_char_concat(seq!['&'], head, '?');
        lemma_count_single('&', '&');
        lemma_count_single('&', '?');
    }
}

/// With exactly one filter present, the query string is exactly
/// `?filter[<name>]=<value>`, and no `&` occurs in it.
pub proof fn lemma_query_string_single(pairs: Seq<(Seq<char>, Seq<char>)>)
    requires
        pairs.len() == 1,
        pairs_free_of(pairs, '&'),
    ensures
        query_string(pairs) == seq!['?'] + qunit(pairs[0].0, pairs[0].1),
        count_char(query_string(pairs), '&') == 0,
{
    let head = qunit(pairs[0].0, pairs[0].1);
    assert(pairs.drop_first().len() == 0);
    assert(query_string(pairs) =~= seq!['?'] + head) by {
        assert(amp_units(pairs.drop_first()) =~= Seq::<char>::empty());
        assert((seq!['?'] + head) + Seq::<char>::empty() =~= seq!['?'] + head);
    }
    lemma_free_of_count(pairs[0].0, '&');
    lemma_free_of_count(pairs[0].1, '&');
    lemma_qunit_count(pairs[0].0, pairs[0].1, '&');
    lemma_count_char_concat(seq!['?'], head, '&');
    lemma_count_single('?', '&');
}

/// With at least one filter present, exactly one `?` appears, before the first
/// pair, and exactly one `&` fewer than there are pairs, each standing
/// immediately before a rendered `filter[<name>]=<value>` pair.
pub proof fn lemma_query_string_counts(pairs: Seq<(Seq<char>, Seq<char>)>)
    requires
        pairs.len() >= 1,
        pairs_free_of(pairs, '&'),
        pairs_free_of(pairs, '?'),
    ensures
        query_string(pairs) == seq!['?'] + qunit(pairs[0].0, pairs[0].1) + amp_units(
            pairs.drop_first(),
        ),
        count_char(query_string(pairs), '?') == 1,
        count_char(query_string(pairs), '&') == pairs.len() - 1,
{
    let head = qunit(pairs[0].0, pairs[0].1);
    let tail = amp_units(pairs.drop_first());
    lemma_pairs_free_of_drop_first(pairs, '&');
    lemma_pairs_free_of_drop_first(pairs, '?');
    lemma_amp_units_counts(pairs.drop_first());
    lemma_free_of_count(pairs[0].0, '&');
    lemma_free_of_count(pairs[0].1, '&');
    lemma_free_of_count(pairs[0].0, '?');
    lemma_free_of_count(pairs[0].1, '?');
    lemma_qunit_count(pairs[0].0, pairs[0].1, '&');
    lemma_qunit_count(pairs[0].0, pairs[0].1, '?');
    lemma_count_char_concat(seq!['?'] + head, tail, '&');
    lemma_count_char_concat(seq!['?'], head, '&');
    lemma_count_char_concat(seq!['?'] + head, tail, '?');
    lemma_count_char_concat(seq!['?'], head, '?');
    lemma_count_single('?', '?');
    lemma_count_single('?', '&');
}

/// Appends `filter[<name>]=<value>` to `out`.
fn push_unit(out: &mut String, name: &str, value: &str)
    ensures
        final (out)@ == old(out)@ + qunit(name@, value@),
{
    out.append("filter[");
    out.append(name);
    out.append("]=");
    out.append(value);
    proof {
        assert(final (out)@ =~= old(out)@ + qunit(name@, value@));
    }
}

fn append_amp_units(out: &mut String, pairs: &Vec<(String, String)>, i: usize)
    requires
        i <= pairs@.len(),
    ensures
        final (out)@ == old(out)@ + amp_units(pairs.deep_view().skip(i as int)),
    decreases pairs@.len() - i,
{
    if i < pairs.len() {
        let p = &pairs[i];
        out.append("&");
        push_unit(out, p.0.as_str(), p.1.as_str());
        append_amp_units(out, pairs, i + 1);
        proof {
            reveal_strlit("&");
            let dv = pairs.deep_view();
            assert(dv.skip(i as int).drop_first() =~= dv.skip(i + 1));
            assert(dv.skip(i as int)[0] == dv[i as int]);
            assert(final (out)@ =~= old(out)@ + amp_units(dv.skip(i as int)));
        }
    } else {
        proof {
            assert(pairs.deep_view().skip(i as int) =~= Seq::<(Seq<char>, Seq<char>)>::empty());
            assert(final (out)@ =~= old(out)@ + amp_units(pairs.deep_view().skip(i as int)));
        }
    }
}

/// Builds the query string for the present filters: empty for no pair,
/// `?filter[..]=..` for the first and `&filter[..]=..` for each later one.
/// Values are appended verbatim, without percent-encoding.
pub fn build_query(pairs: &Vec<(String, String)>) -> (q: String)
    ensures
        q@ == query_string(pairs.deep_view()),
{
    let mut q = String::new();
    if pairs.len() > 0 {
        let p = &pairs[0];
        q.append("?");
        push_unit(&mut q, p.0.as_str(), p.1.as_str());
        append_amp_units(&mut q, pairs, 1);
        proof {
            reveal_strlit("?");
            let dv = pairs.deep_view();
            assert(dv.skip(1) =~= dv.drop_first());
            assert(q@ =~= query_string(dv));
        }
    }
    q
}



/// The pair an optional integer filter emits: nothing when unset.
pub open spec fn opt_int_pair(name: Seq<char>, v: Option<i64>) -> Seq<(Seq<char>, Seq<char>)> {
    match v {
        Option::None => Seq::<(Seq<char>, Seq<char>)>::empty(),
        Option::Some(i) => seq![(name, int_str(i as int))],
    }
}

/// The pair an optional index filter emits: nothing when unset.
pub open spec fn opt_usize_pair(name: Seq<char>, v: Option<usize>) -> Seq<(Seq<char>, Seq<char>)> {
    match v {
        Option::None => Seq::<(Seq<char>, Seq<char>)>::empty(),
        Option::Some(i) => seq![(name, dec_str(i as nat))],
    }
}

/// The pair an optional string filter emits: nothing when unset.
pub open spec fn opt_str_pair(name: Seq<char>, v: Option<String>) -> Seq<(Seq<char>, Seq<char>)> {
    match v {
        Option::None => Seq::<(Seq<char>, Seq<char>)>::empty(),
        Option::Some(s) => seq![(name, s@)],
    }
}

/// The pair an optional boolean filter emits: nothing when unset.
pub open spec fn opt_bool_pair(name: Seq<char>, v: Option<bool>) -> Seq<(Seq<char>, Seq<char>)> {
    match v {
        Option::None => Seq::<(Seq<char>, Seq<char>)>::empty(),
        Option::Some(b) => seq![(name, bool_str(b))],
    }
}

/// Pairs free of `c` stay free of it under concatenation.
pub proof fn lemma_pairs_free_of_concat(
    a: Seq<(Seq<char>, Seq<char>)>,
    b: Seq<(Seq<char>, Seq<char>)>,
    c: char,
)
    requires
        pairs_free_of(a, c),
        pairs_free_of(b, c),
    ensures
        pairs_free_of(a + b, c),
{
    assert forall|i: int| 0 <= i < (a + b).len() implies free_of(#[trigger] (a + b)[i].0, c)
        && free_of((a + b)[i].1, c) by {
        if i < a.len() {
            assert((a + b)[i] == a[i]);
            assert(free_of(a[i].0, c) && free_of(a[i].1, c));
        } else {
            assert((a + b)[i] == b[i - a.len()]);
            assert(free_of(b[i - a.len()].0, c) && free_of(b[i - a.len()].1, c));
        }
    }
}

/// An optional integer filter emits no separator characters.
pub proof fn lemma_opt_int_pair_clean(name: Seq<char>, v: Option<i64>, c: char)
    requires
        free_of(name, c),
        !is_dec_digit(c),
        c != '-',
    ensures
        pairs_free_of(opt_int_pair(name, v), c),
{
    match v {
        Option::Some(i) => {
            lemma_int_str_clean(i as int, c);
        },
        Option::None => {},
    }
}

/// An optional index filter emits no separator characters.
pub proof fn lemma_opt_usize_pair_clean(name: Seq<char>, v: Option<usize>, c: char)
    requires
        free_of(name, c),
        !is_dec_digit(c),
        c != '-',
    ensures
        pairs_free_of(opt_usize_pair(name, v), c),
{
    match v {
        Option::Some(i) => {
            lemma_dec_str_digits(i as nat);
        },
        Option::None => {},
    }
}

/// An optional boolean filter emits only letters.
pub proof fn lemma_opt_bool_pair_clean(name: Seq<char>, v: Option<bool>, c: char)
    requires
        free_of(name, c),
        c == '&' || c == '?',
    ensures
        pairs_free_of(opt_bool_pair(name, v), c),
{
    match v {
        Option::Some(b) => {
            lemma_bool_str_clean(b, c);
        },
        Option::None => {},
    }
}

/// An optional string filter whose value is free of `c` emits pairs free of
/// `c`.
pub proof fn lemma_opt_str_pair_clean(name: Seq<char>, v: Option<String>, c: char)
    requires
        free_of(name, c),
        (v matches Some(s) ==> free_of(s@, c)),
    ensures
        pairs_free_of(opt_str_pair(name, v), c),
{
}

/// Appends the pair for an optional integer filter, when it is set.
pub fn push_opt_int_pair(pairs: &mut Vec<(String, String)>, name: &str, v: &Option<i64>)
    ensures
        final (pairs).deep_view() == old(pairs).deep_view() + opt_int_pair(name@, *v),
{
    match v {
        Option::Some(i) => {
            pairs.push((String::from_str(name), i64_to_string(*i)));
        },
        Option::None => {},
    }
    proof {
        assert(final (pairs).deep_view() =~= old(pairs).deep_view() + opt_int_pair(name@, *v));
    }
}

/// Appends the pair for an optional index filter, when it is set.
pub fn push_opt_usize_pair(pairs: &mut Vec<(String, String)>, name: &str, v: &Option<usize>)
    ensures
        final (pairs).deep_view() == old(pairs).deep_view() + opt_usize_pair(name@, *v),
{
    match v {
        Option::Some(i) => {
            pairs.push((String::from_str(name), usize_to_string(*i)));
        },
        Option::None => {},
    }
    proof {
        assert(final (pairs).deep_view() =~= old(pairs).deep_view() + opt_usize_pair(name@, *v));
    }
}

/// Appends the pair for an optional string filter, when it is set.
pub fn push_opt_str_pair(pairs: &mut Vec<(String, String)>, name: &str, v: &Option<String>)
    ensures
        final (pairs).deep_view() == old(pairs).deep_view() + opt_str_pair(name@, *v),
{
    match v {
        Option::Some(s) => {
            pairs.push((String::from_str(name), s.clone()));
        },
        Option::None => {},
    }
    proof {
        assert(final (pairs).deep_view() =~= old(pairs).deep_view() + opt_str_pair(name@, *v));
    }
}

/// Appends the pair for an optional boolean filter, when it is set.
pub fn push_opt_bool_pair(pairs: &mut Vec<(String, String)>, name: &str, v: &Option<bool>)
    ensures
        final (pairs).deep_view() == old(pairs).deep_view() + opt_bool_pair(name@, *v),
{
    match v {
        Option::Some(b) => {
            pairs.push((String::from_str(name), bool_to_string(*b)));
        },
        Option::None => {},
    }
    proof {
        assert(final (pairs).deep_view() =~= old(pairs).deep_view() + opt_bool_pair(name@, *v));
    }
}

} // verus!
