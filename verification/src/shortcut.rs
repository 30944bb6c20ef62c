//! Canonicalization of shortcut strings.
//!
//! A shortcut string is a sequence of segments joined by `'+'`. Normalization
//! lower-cases every segment and rewrites the vendor-specific modifier names
//! `ctrl`, `cmd`, `win` and `meta` to the canonical `control` and `super`,
//! keeping the segment order.

use vstd::prelude::*;
use vstd::string::*;
use crate::text::{lower_seq, push_char, str_eq, to_lower};

verus! {

/// The segments of `s`, split on `'+'`. The result always holds at least
/// one segment; `n` separators yield `n + 1` segments.
pub open spec fn split_plus(s: Seq<char>) -> Seq<Seq<char>>
    decreases s.len(),
{
    if s.len() == 0 {
        seq![Seq::<char>::empty()]
    } else if s[0] == '+' {
        seq![Seq::<char>::empty()] + split_plus(s.skip(1))
    } else {
        let rest = split_plus(s.skip(1));
        seq![seq![s[0]] + rest[0]] + rest.skip(1)
    }
}

/// The segments joined back with `'+'`.
pub open spec fn join_plus(parts: Seq<Seq<char>>) -> Seq<char>
    decreases parts.len(),
{
    if parts.len() == 0 {
        Seq::<char>::empty()
    } else if parts.len() == 1 {
        parts[0]
    } else {
        parts[0] + seq!['+'] + join_plus(parts.skip(1))
    }
}

/// The canonical form of one segment: lower-cased, with the modifier
/// rewrite table applied.
pub open spec fn canonical_segment(seg: Seq<char>) -> Seq<char> {
    let low = lower_seq(seg);
    if low == "ctrl"@ {
        "control"@
    } else if low == "cmd"@ || low == "win"@ || low == "meta"@ {
        "super"@
    } else {
        low
    }
}

/// The canonical form of a whole shortcut string: every segment is
/// canonicalized and the segment order is kept.
pub open spec fn normalize_spec(s: Seq<char>) -> Seq<char> {
    join_plus(split_plus(s).map_values(|seg: Seq<char>| canonical_segment(seg)))
}

pub proof fn lemma_split_plus_len(s: Seq<char>)
    ensures
        split_plus(s).len() >= 1,
    decreases s.len(),
{
    if s.len() > 0 {
        lemma_split_plus_len(s.skip(1));
    }
}

/// Appending a non-separator character extends the last segment.
pub proof fn lemma_split_plus_push_char(s: Seq<char>, c: char)
    requires
        c != '+',
    ensures
        split_plus(s).len() >= 1,
        split_plus(s.push(c)) == split_plus(s).update(
            split_plus(s).len() - 1,
            split_plus(s).last().push(c),
        ),
    decreases s.len(),
{
    lemma_split_plus_len(s);
    let ps = split_plus(s);
    let goal = ps.update(ps.len() - 1, ps.last().push(c));
    if s.len() == 0 {
        assert(s =~= Seq::<char>::empty());
        assert(split_plus(Seq::<char>::empty()) == seq![Seq::<char>::empty()]);
        assert(s.push(c).skip(1) =~= Seq::<char>::empty());
        assert(s.push(c)[0] == c);
        assert(split_plus(s.push(c)) =~~= goal);
    } else {
        lemma_split_plus_push_char(s.skip(1), c);
        lemma_split_plus_len(s.skip(1));
        assert(s.push(c).skip(1) =~= s.skip(1).push(c));
        assert(s.push(c)[0] == s[0]);
        let rest = split_plus(s.skip(1));
        let rest2 = split_plus(s.skip(1).push(c));
        assert(rest2 == rest.update(rest.len() - 1, rest.last().push(c)));
        if s[0] == '+' {
            assert(split_plus(s.push(c)) == seq![Seq::<char>::empty()] + rest2);
            assert(ps == seq![Seq::<char>::empty()] + rest);
            assert(split_plus(s.push(c)) =~~= goal);
        } else {
            assert(split_plus(s.push(c)) == seq![seq![s[0]] + rest2[0]] + rest2.skip(1));
            assert(ps == seq![seq![s[0]] + rest[0]] + rest.skip(1));
            if rest.len() == 1 {
                assert(rest2[0] == rest[0].push(c));
                assert(seq![s[0]] + rest[0].push(c) =~= (seq![s[0]] + rest[0]).push(c));
                assert(split_plus(s.push(c)) =~~= goal);
            } else {
                assert(rest2[0] == rest[0]);
                assert(split_plus(s.push(c)) =~~= goal);
            }
        }
    }
}

/// Appending a separator opens a new, empty last segment.
pub proof fn lemma_split_plus_push_sep(s: Seq<char>)
    ensures
        split_plus(s.push('+')) == split_plus(s).push(Seq::<char>::empty()),
    decreases s.len(),
{
    if s.len() == 0 {
        assert(s =~= Seq::<char>::empty());
        assert(split_plus(Seq::<char>::empty()) == seq![Seq::<char>::empty()]);
        assert(s.push('+').skip(1) =~= Seq::<char>::empty());
        assert(s.push('+')[0] == '+');
        assert(split_plus(s.push('+')) =~~= split_plus(s).push(Seq::<char>::empty()));
    } else {
        lemma_split_plus_push_sep(s.skip(1));
        assert(s.push('+').skip(1) =~= s.skip(1).push('+'));
        assert(s.push('+')[0] == s[0]);
        if s[0] == '+' {
            assert(split_plus(s.push('+')) == seq![Seq::<char>::empty()] + split_plus(
                s.skip(1).push('+'),
            ));
            assert(split_plus(s.push('+')) =~~= split_plus(s).push(Seq::<char>::empty()));
        } else {
            let rest = split_plus(s.skip(1));
            let rest2 = split_plus(s.skip(1).push('+'));
            assert(rest2 == rest.push(Seq::<char>::empty()));
            lemma_split_plus_len(s.skip(1));
            assert(rest2[0] == rest[0]);
            assert(split_plus(s.push('+')) == seq![seq![s[0]] + rest2[0]] + rest2.skip(1));
            assert(split_plus(s.push('+')) =~~= split_plus(s).push(Seq::<char>::empty()));
        }
    }
}

/// Joining after appending one more segment appends a separator and the
/// segment (or is the segment itself, when nothing was there to join).
pub proof fn lemma_join_plus_push(ps: Seq<Seq<char>>, p: Seq<char>)
    ensures
        ps.len() == 0 ==> join_plus(ps.push(p)) == p,
        ps.len() >= 1 ==> join_plus(ps.push(p)) == join_plus(ps) + seq!['+'] + p,
    decreases ps.len(),
{
    if ps.len() == 0 {
        assert(ps.push(p)[0] == p);
    } else if ps.len() == 1 {
        assert(ps.push(p).skip(1) =~= seq![p]);
        assert(join_plus(seq![p]) == p);
        assert(ps.push(p)[0] == ps[0]);
        assert(join_plus(ps.push(p)) == ps[0] + seq!['+'] + p);
    } else {
        lemma_join_plus_push(ps.skip(1), p);
        assert(ps.push(p).skip(1) =~= ps.skip(1).push(p));
        assert(join_plus(ps.push(p)) == ps[0] + seq!['+'] + (join_plus(ps.skip(1)) + seq!['+']
            + p));
        assert(ps[0] + seq!['+'] + (join_plus(ps.skip(1)) + seq!['+'] + p) =~= (ps[0] + seq!['+']
            + join_plus(ps.skip(1))) + seq!['+'] + p);
    }
}

/// Canonicalizes one segment.
pub fn canonical_token(seg: &str) -> (r: String)
    ensures
        r@ == canonical_segment(seg@),
{
    let low = to_lower(seg);
    if str_eq(low.as_str(), "ctrl") {
        String::from_str("control")
    } else if str_eq(low.as_str(), "cmd") || str_eq(low.as_str(), "win") || str_eq(
        low.as_str(),
        "meta",
    ) {
        String::from_str("super")
    } else {
        low
    }
}

/// Splits a string into its `'+'`-separated segments.
pub fn split_segments(s: &str) -> (parts: Vec<String>)
    ensures
        parts@.map_values(|p: String| p@) == split_plus(s@),
{
    let len = s.unicode_len();
    let mut done: Vec<String> = Vec::new();
    let mut cur = String::new();
    let mut i: usize = 0;
    while i < len
        invariant
            i <= len,
            len == s@.len(),
            done@.map_values(|p: String| p@).push(cur@) == split_plus(s@.take(i as int)),
        decreases len - i,
    {
        let c = s.get_char(i);
        let ghost prefix = s@.take(i as int);
        if c == '+' {
            done.push(cur);
            cur = String::new();
            proof {
                lemma_split_plus_push_sep(prefix);
                assert(s@.take(i as int + 1) =~= prefix.push('+'));
                assert(done@.map_values(|p: String| p@).push(cur@) =~= split_plus(
                    s@.take(i as int + 1),
                ));
            }
        } else {
            push_char(&mut cur, c);
            proof {
                lemma_split_plus_push_char(prefix, c);
                assert(s@.take(i as int + 1) =~= prefix.push(c));
                assert(done@.map_values(|p: String| p@).push(cur@) =~= split_plus(
                    s@.take(i as int + 1),
                ));
            }
        }
        i = i + 1;
    }
    done.push(cur);
    proof {
        assert(s@.take(len as int) =~= s@);
        assert(done@.map_values(|p: String| p@) =~= split_plus(s@));
    }
    done
}

/// Joins segments with `'+'`.
pub fn join_segments(parts: &Vec<String>) -> (r: String)
    ensures
        r@ == join_plus(parts@.map_values(|p: String| p@)),
{
    let ghost views = parts@.map_values(|p: String| p@);
    let mut r = String::new();
    let mut j: usize = 0;
    while j < parts.len()
        invariant
            j <= parts.len(),
            views == parts@.map_values(|p: String| p@),
            r@ == join_plus(views.take(j as int)),
        decreases parts.len() - j,
    {
        if j > 0 {
            push_char(&mut r, '+');
        }
        r.append(parts[j].as_str());
        proof {
            lemma_join_plus_push(views.take(j as int), views[j as int]);
            assert(views.take(j as int + 1) =~= views.take(j as int).push(views[j as int]));
            if j == 0 {
                assert(r@ =~= join_plus(views.take(j as int + 1)));
            } else {
                assert(r@ =~= join_plus(views.take(j as int)) + seq!['+'] + views[j as int]);
                assert(r@ =~= join_plus(views.take(j as int + 1)));
            }
        }
        j = j + 1;
    }
    proof {
        assert(views.take(parts@.len() as int) =~= views);
    }
    r
}

/// Normalizes a shortcut string: splits on `'+'`, canonicalizes every
/// segment, and joins the segments back in their original order.
pub fn normalize(s: &str) -> (r: String)
    ensures
        r@ == normalize_spec(s@),
{
    let parts = split_segments(s);
    let ghost part_views = parts@.map_values(|p: String| p@);
    let mut canon: Vec<String> = Vec::new();
    let mut k: usize = 0;
    while k < parts.len()
        invariant
            k <= parts.len(),
            part_views == parts@.map_values(|p: String| p@),
            canon@.len() == k,
            forall|i: int|
                0 <= i < k ==> canon@.map_values(|p: String| p@)[i] == canonical_segment(
                    part_views[i],
                ),
        decreases parts.len() - k,
    {
        let t = canonical_token(parts[k].as_str());
        canon.push(t);
        k = k + 1;
    }
    let r = join_segments(&canon);
    proof {
        assert(canon@.map_values(|p: String| p@) =~= part_views.map_values(
            |seg: Seq<char>| canonical_segment(seg),
        ));
    }
    r
}

} // verus!
