//! Text helpers: stripping the quotes around a rendered literal, and joining
//! rendered fragments with a separator.
use vstd::prelude::*;

verus! {

/// The text with every single quote at its start and at its end removed.
pub open spec fn trim_quotes_spec(s: Seq<char>) -> Seq<char>
    decreases s.len(),
{
    if s.len() > 0 && s.first() == '\'' {
        trim_quotes_spec(s.drop_first())
    } else if s.len() > 0 && s.last() == '\'' {
        trim_quotes_spec(s.drop_last())
    } else {
        s
    }
}

/// The parts, in order, with `sep` between each two neighbours.
pub open spec fn join_spec(parts: Seq<Seq<char>>, sep: Seq<char>) -> Seq<char>
    decreases parts.len(),
{
    if parts.len() == 0 {
        Seq::empty()
    } else if parts.len() == 1 {
        parts[0]
    } else {
        join_spec(parts.drop_last(), sep) + sep + parts.last()
    }
}

/// The character sequences of a sequence of strings.
pub open spec fn texts(parts: Seq<String>) -> Seq<Seq<char>> {
    parts.map_values(|p: String| p@)
}

/// Removes the single quotes that surround a rendered string literal, so that
/// a key written as a JSON string can stand as a bare column name.
pub fn trim_quotes(s: &str) -> (r: String)
    ensures
        r@ == trim_quotes_spec(s@),
{
    let n = s.unicode_len();
    let mut i: usize = 0;
    assert(s@.subrange(0, n as int) =~= s@);
    while i < n && s.get_char(i) == '\''
        invariant
            n == s@.len(),
            i <= n,
            trim_quotes_spec(s@) == trim_quotes_spec(s@.subrange(i as int, n as int)),
        decreases n - i,
    {
        assert(s@.subrange(i as int, n as int).drop_first() =~= s@.subrange(i + 1, n as int));
        i = i + 1;
    }
    let mut j: usize = n;
    while j > i && s.get_char(j - 1) == '\''
        invariant
            n == s@.len(),
            i <= j <= n,
            i < n ==> s@[i as int] != '\'',
            trim_quotes_spec(s@) == trim_quotes_spec(s@.subrange(i as int, j as int)),
        decreases j - i,
    {
        assert(s@.subrange(i as int, j as int).drop_last() =~= s@.subrange(i as int, j - 1));
        j = j - 1;
    }
    String::from_str(s.substring_char(i, j))
}

/// Joins `parts[from..]` with `sep` between each two neighbours.
pub fn join_from(parts: &Vec<String>, from: usize, sep: &str) -> (r: String)
    requires
        from <= parts@.len(),
    ensures
        r@ == join_spec(texts(parts@.subrange(from as int, parts@.len() as int)), sep@),
{
    let mut r = String::new();
    let mut k: usize = from;
    while k < parts.len()
        invariant
            from <= k <= parts@.len(),
            r@ == join_spec(texts(parts@.subrange(from as int, k as int)), sep@),
        decreases parts@.len() - k,
    {
        let ghost before = texts(parts@.subrange(from as int, k as int));
        let ghost after = texts(parts@.subrange(from as int, k + 1));
        assert(after.drop_last() =~= before);
        if k > from {
            r.append(sep);
        }
        r.append(parts[k].as_str());
        proof {
            if k == from {
                assert(before =~= Seq::<Seq<char>>::empty());
                assert(r@ =~= after[0]);
            } else {
                assert(r@ =~= join_spec(before, sep@) + sep@ + after.last());
            }
        }
        k = k + 1;
    }
    r
}

} // verus!
