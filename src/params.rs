//! Turning a command line into key/value query parameters.
use vstd::prelude::*;
use crate::text::{split, split_on, trim, trimmed, views};

verus! {

/// `k` is the index of the first `d` in `s`.
pub open spec fn is_first(s: Seq<char>, d: char, k: int) -> bool {
    0 <= k < s.len() && s[k] == d && forall|j: int| 0 <= j < k ==> s[j] != d
}

/// The index of the first `d` in `s`, where `s` holds one.
pub open spec fn first_index(s: Seq<char>, d: char) -> int {
    choose|k: int| is_first(s, d, k)
}

/// What stands before the first `d` in `s`.
pub open spec fn head_before(s: Seq<char>, d: char) -> Seq<char> {
    s.subrange(0, first_index(s, d))
}

/// What stands after the first `d` in `s`.
pub open spec fn rest_after(s: Seq<char>, d: char) -> Seq<char> {
    s.subrange(first_index(s, d) + 1, s.len() as int)
}

/// The parameter a `key:value` segment gives: the two trimmed pieces, when
/// its colons cut it into exactly two.
pub open spec fn segment_param(seg: Seq<char>) -> Option<(Seq<char>, Seq<char>)> {
    let parts = split(seg, ':');
    if parts.len() == 2 {
        Some((trimmed(parts[0]), trimmed(parts[1])))
    } else {
        None
    }
}

/// The parameters of the well-formed segments among `segs`, in order.
pub open spec fn collect_params(segs: Seq<Seq<char>>) -> Seq<(Seq<char>, Seq<char>)>
    decreases segs.len(),
{
    if segs.len() == 0 {
        seq![]
    } else {
        let prev = collect_params(segs.drop_last());
        match segment_param(segs.last()) {
            Some(p) => prev.push(p),
            None => prev,
        }
    }
}

/// The parameters a remainder stands for: without a colon, the whole
/// trimmed remainder under the default key; else one parameter per
/// well-formed comma-separated segment.
pub open spec fn parse_spec(rest: Seq<char>, default: Seq<char>) -> Seq<(Seq<char>, Seq<char>)> {
    if !rest.contains(':') {
        seq![(default, trimmed(rest))]
    } else {
        collect_params(split(rest, ','))
    }
}

/// The views of a sequence of key/value pairs.
pub open spec fn pair_views(v: Seq<(&str, &str)>) -> Seq<(Seq<char>, Seq<char>)> {
    v.map_values(|p: (&str, &str)| (p.0@, p.1@))
}

pub proof fn lemma_first_index(s: Seq<char>, d: char, k: int)
    requires
        is_first(s, d, k),
    ensures
        first_index(s, d) == k,
{
    let c = first_index(s, d);
    assert(is_first(s, d, c));
    if c < k {
        assert(s[c] != d);
    } else if c > k {
        assert(s[k] != d);
    }
}

/// A remainder without a colon gives exactly one parameter: the default key
/// with the trimmed remainder as its value.
pub proof fn lemma_no_colon_single_param(rest: Seq<char>, default: Seq<char>)
    requires
        !rest.contains(':'),
    ensures
        parse_spec(rest, default) == seq![(default, trimmed(rest))],
        parse_spec(rest, default).len() == 1,
{
}

/// Parameters of consecutive runs of segments are those of each run, one
/// after the other.
pub proof fn lemma_collect_concat(a: Seq<Seq<char>>, b: Seq<Seq<char>>)
    ensures
        collect_params(a + b) == collect_params(a) + collect_params(b),
    decreases b.len(),
{
    if b.len() == 0 {
        assert(a + b =~= a);
        assert(collect_params(b) =~= seq![]);
        assert(collect_params(a) + collect_params(b) =~= collect_params(a));
    } else {
        lemma_collect_concat(a, b.drop_last());
        assert((a + b).drop_last() =~= a + b.drop_last());
        assert((a + b).last() == b.last());
        match segment_param(b.last()) {
            Some(p) => {
                assert(collect_params(a) + collect_params(b) =~= (collect_params(a)
                    + collect_params(b.drop_last())).push(p));
            },
            None => {},
        }
    }
}

/// Where every segment is a well-formed `key:value` pair, each one gives a
/// parameter, in the order of the segments.
pub proof fn lemma_collect_well_formed(segs: Seq<Seq<char>>)
    requires
        forall|i: int| 0 <= i < segs.len() ==> #[trigger] split(segs[i], ':').len() == 2,
    ensures
        collect_params(segs).len() == segs.len(),
        forall|i: int|
            0 <= i < segs.len() ==> #[trigger] collect_params(segs)[i] == (
                trimmed(split(segs[i], ':')[0]),
                trimmed(split(segs[i], ':')[1]),
            ),
    decreases segs.len(),
{
    if segs.len() > 0 {
        let prev = segs.drop_last();
        assert forall|i: int| 0 <= i < prev.len() implies #[trigger] split(prev[i], ':').len()
            == 2 by {
            assert(prev[i] == segs[i]);
        }
        lemma_collect_well_formed(prev);
        assert(split(segs[segs.len() - 1], ':').len() == 2);
        assert forall|i: int| 0 <= i < segs.len() implies #[trigger] collect_params(segs)[i] == (
            trimmed(split(segs[i], ':')[0]),
            trimmed(split(segs[i], ':')[1]),
        ) by {
            if i < prev.len() {
                assert(prev[i] == segs[i]);
            }
        }
    }
}

/// A remainder with a colon whose comma-separated segments are all
/// well-formed `key:value` pairs gives one parameter per segment, in input
/// order, with key and value trimmed.
pub proof fn lemma_well_formed_params(rest: Seq<char>, default: Seq<char>)
    requires
        rest.contains(':'),
        forall|i: int|
            0 <= i < split(rest, ',').len() ==> #[trigger] split(split(rest, ',')[i], ':').len()
                == 2,
    ensures
        parse_spec(rest, default).len() == split(rest, ',').len(),
        forall|i: int|
            0 <= i < split(rest, ',').len() ==> #[trigger] parse_spec(rest, default)[i] == (
                trimmed(split(split(rest, ',')[i], ':')[0]),
                trimmed(split(split(rest, ',')[i], ':')[1]),
            ),
{
    lemma_collect_well_formed(split(rest, ','));
}

/// A segment that its colons do not cut into exactly two pieces is dropped,
/// and the segments around it are parsed as if it were not there.
pub proof fn lemma_malformed_segment_dropped(segs: Seq<Seq<char>>, i: int)
    requires
        0 <= i < segs.len(),
        split(segs[i], ':').len() != 2,
    ensures
        collect_params(segs) == collect_params(segs.remove(i)),
{
    let a = segs.subrange(0, i);
    let b = segs.subrange(i + 1, segs.len() as int);
    let m = seq![segs[i]];
    assert(segs =~= a + m + b);
    assert(segs.remove(i) =~= a + b);
    lemma_collect_concat(a + m, b);
    lemma_collect_concat(a, m);
    lemma_collect_concat(a, b);
    assert(m.drop_last() =~= Seq::<Seq<char>>::empty());
    assert(collect_params(m.drop_last()) =~= seq![]);
    assert(m.last() == segs[i]);
    assert(segment_param(segs[i]) is None);
    assert(collect_params(m) =~= seq![]);
    assert(collect_params(a) + collect_params(m) =~= collect_params(a));
}

/// Whether `s` holds `c`.
pub fn contains_char(s: &str, c: char) -> (r: bool)
    ensures
        r == s@.contains(c),
{
    let n = s.unicode_len();
    let mut i: usize = 0;
    while i < n
        invariant
            i <= n,
            n == s@.len(),
            forall|j: int| 0 <= j < i ==> s@[j] != c,
        decreases n - i,
    {
        if s.get_char(i) == c {
            assert(s@[i as int] == c);
            return true;
        }
        i = i + 1;
    }
    false
}

/// Splits `in_string` at the first `delim` into what stands before it and
/// what stands after it; fails where `delim` does not occur.
pub fn split_command<'a>(in_string: &'a str, delim: char) -> (r: Result<(&'a str, &'a str), ()>)
    ensures
        match r {
            Ok((a, b)) => in_string@.contains(delim) && a@ == head_before(in_string@, delim)
                && b@ == rest_after(in_string@, delim),
            Err(_) => !in_string@.contains(delim),
        },
{
    let n = in_string.unicode_len();
    let mut i: usize = 0;
    while i < n
        invariant
            i <= n,
            n == in_string@.len(),
            forall|j: int| 0 <= j < i ==> in_string@[j] != delim,
        decreases n - i,
    {
        if in_string.get_char(i) == delim {
            proof {
                lemma_first_index(in_string@, delim, i as int);
            }
            let first = in_string.substring_char(0, i);
            let second = in_string.substring_char(i + 1, n);
            return Ok((first, second));
        }
        i = i + 1;
    }
    Err(())
}

/// The parameters of a command remainder: see `parse_spec`.
pub fn parse<'a>(remainder: &'a str, default: &'a str) -> (r: Vec<(&'a str, &'a str)>)
    ensures
        pair_views(r@) == parse_spec(remainder@, default@),
{
    if !contains_char(remainder, ':') {
        let v = trim(remainder);
        let r = vec![(default, v)];
        assert(pair_views(r@) =~= parse_spec(remainder@, default@));
        return r;
    }
    let segs = split_on(remainder, ',');
    let mut out: Vec<(&'a str, &'a str)> = Vec::new();
    let mut k: usize = 0;
    assert(pair_views(out@) =~= collect_params(views(segs@).subrange(0, 0)));
    while k < segs.len()
        invariant
            k <= segs@.len(),
            views(segs@) == split(remainder@, ','),
            pair_views(out@) == collect_params(views(segs@).subrange(0, k as int)),
        decreases segs@.len() - k,
    {
        let ghost before = pair_views(out@);
        let seg = segs[k];
        assert(views(segs@).subrange(0, k + 1).drop_last() =~= views(segs@).subrange(0, k as int));
        assert(views(segs@).subrange(0, k + 1).last() == seg@);
        let parts = split_on(seg, ':');
        if parts.len() == 2 {
            let key = trim(parts[0]);
            let value = trim(parts[1]);
            out.push((key, value));
            assert(pair_views(out@) =~= before.push((key@, value@)));
        }
        k = k + 1;
    }
    assert(views(segs@).subrange(0, segs@.len() as int) =~= views(segs@));
    out
}

/// The parameters of a whole command line: everything after its first space
/// is parsed as a remainder; a line without a space is a failure.
pub fn to_params<'a>(input: &'a str, default: &'a str) -> (r: Result<Vec<(&'a str, &'a str)>, ()>)
    ensures
        match r {
            Ok(v) => input@.contains(' ') && pair_views(v@) == parse_spec(
                rest_after(input@, ' '),
                default@,
            ),
            Err(_) => !input@.contains(' '),
        },
{
    match split_command(input, ' ') {
        Ok((_, rest)) => Ok(parse(rest, default)),
        Err(_) => Err(()),
    }
}

} // verus!
