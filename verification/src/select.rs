//! The newest-key selector: among the keys stored for one historical day,
//! the chronologically most recent bucket is wanted. Because the date and
//! hour components are fixed-width and zero-padded, lexicographic order on
//! whole keys agrees with chronological order, so the selector returns the
//! lexicographically greatest key.

use vstd::prelude::*;
use vstd::string::StrSliceExecFns;
use crate::errors::ErrorKind;

verus! {

/// Strict lexicographic order on character sequences: the order Rust gives
/// `str` values, with characters compared by their code points and a proper
/// prefix ordered before its extensions.
pub open spec fn lex_lt(a: Seq<char>, b: Seq<char>) -> bool
    decreases a.len(),
{
    if b.len() == 0 {
        false
    } else if a.len() == 0 {
        true
    } else if a[0] == b[0] {
        lex_lt(a.drop_first(), b.drop_first())
    } else {
        (a[0] as u32) < (b[0] as u32)
    }
}

/// Two sequences are lexicographically ordered one way or the other, or
/// they are equal.
pub proof fn lemma_lex_lt_trichotomy(a: Seq<char>, b: Seq<char>)
    ensures
        lex_lt(a, b) || lex_lt(b, a) || a == b,
    decreases a.len(),
{
    if a.len() == 0 || b.len() == 0 {
        if a.len() == 0 && b.len() == 0 {
            assert(a =~= b);
        }
    } else if a[0] != b[0] {
        if a[0] as u32 == b[0] as u32 {
            vstd::utf8::char_u32_cast(a[0], a[0] as u32);
            vstd::utf8::char_u32_cast(b[0], b[0] as u32);
        }
    } else {
        lemma_lex_lt_trichotomy(a.drop_first(), b.drop_first());
        if !lex_lt(a, b) && !lex_lt(b, a) {
            assert(a.drop_first() =~= b.drop_first());
            assert(forall|i: int|
                1 <= i < a.len() ==> a[i] == a.drop_first()[i - 1] && b[i] == b.drop_first()[i - 1]);
            assert(a =~= b);
        }
    }
}

/// The order is irreflexive: no sequence is below itself.
pub proof fn lemma_lex_lt_irreflexive(a: Seq<char>)
    ensures
        !lex_lt(a, a),
    decreases a.len(),
{
    if a.len() > 0 {
        lemma_lex_lt_irreflexive(a.drop_first());
    }
}

/// The order is asymmetric: two sequences are never each below the other.
pub proof fn lemma_lex_lt_asymmetric(a: Seq<char>, b: Seq<char>)
    ensures
        !(lex_lt(a, b) && lex_lt(b, a)),
    decreases a.len(),
{
    if a.len() > 0 && b.len() > 0 && a[0] == b[0] {
        lemma_lex_lt_asymmetric(a.drop_first(), b.drop_first());
    }
}

/// The order is transitive.
pub proof fn lemma_lex_lt_transitive(a: Seq<char>, b: Seq<char>, c: Seq<char>)
    requires
        lex_lt(a, b),
        lex_lt(b, c),
    ensures
        lex_lt(a, c),
    decreases a.len(),
{
    if a.len() == 0 {
        assert(c.len() > 0);
    } else {
        assert(b.len() > 0 && c.len() > 0);
        if a[0] == b[0] && b[0] == c[0] {
            lemma_lex_lt_transitive(a.drop_first(), b.drop_first(), c.drop_first());
        }
    }
}

/// A shared prefix never decides the order: two sequences with the same
/// prefix compare as their tails do.
pub proof fn lemma_lex_lt_common_prefix(p: Seq<char>, s1: Seq<char>, s2: Seq<char>)
    ensures
        lex_lt(p + s1, p + s2) == lex_lt(s1, s2),
    decreases p.len(),
{
    if p.len() == 0 {
        assert(p + s1 =~= s1);
        assert(p + s2 =~= s2);
    } else {
        assert((p + s1)[0] == p[0]);
        assert((p + s2)[0] == p[0]);
        assert((p + s1).drop_first() =~= p.drop_first() + s1);
        assert((p + s2).drop_first() =~= p.drop_first() + s2);
        lemma_lex_lt_common_prefix(p.drop_first(), s1, s2);
    }
}

proof fn lemma_lex_lt_skip_step(a: Seq<char>, b: Seq<char>, i: int)
    requires
        0 <= i < a.len(),
        i < b.len(),
        a[i] == b[i],
    ensures
        lex_lt(a.skip(i), b.skip(i)) == lex_lt(a.skip(i + 1), b.skip(i + 1)),
{
    assert(a.skip(i)[0] == a[i]);
    assert(b.skip(i)[0] == b[i]);
    assert(a.skip(i).drop_first() =~= a.skip(i + 1));
    assert(b.skip(i).drop_first() =~= b.skip(i + 1));
}

/// Decides `lex_lt` on two string slices by walking their characters.
pub fn str_lex_lt(a: &str, b: &str) -> (r: bool)
    ensures
        r == lex_lt(a@, b@),
{
    let a_len = a.unicode_len();
    let b_len = b.unicode_len();
    let mut i: usize = 0;
    proof {
        assert(a@.skip(0) =~= a@);
        assert(b@.skip(0) =~= b@);
    }
    while i < a_len && i < b_len
        invariant
            a_len == a@.len(),
            b_len == b@.len(),
            i <= a_len,
            i <= b_len,
            lex_lt(a@, b@) == lex_lt(a@.skip(i as int), b@.skip(i as int)),
        decreases a_len - i,
    {
        let ca = a.get_char(i);
        let cb = b.get_char(i);
        if ca != cb {
            proof {
                assert(a@.skip(i as int)[0] == a@[i as int]);
                assert(b@.skip(i as int)[0] == b@[i as int]);
            }
            return (ca as u32) < (cb as u32);
        }
        proof {
            lemma_lex_lt_skip_step(a@, b@, i as int);
        }
        i = i + 1;
    }
    if i < b_len {
        proof {
            assert(a@.skip(i as int).len() == 0);
            assert(b@.skip(i as int).len() > 0);
        }
        true
    } else {
        proof {
            assert(b@.skip(i as int).len() == 0);
        }
        false
    }
}

/// The lexicographically greatest sequence among `keys`; on ties the
/// earliest occurrence is kept, so the choice is deterministic.
pub open spec fn spec_newest(keys: Seq<Seq<char>>) -> Seq<char>
    recommends
        keys.len() > 0,
    decreases keys.len(),
{
    if keys.len() <= 1 {
        keys[0]
    } else {
        let prior = spec_newest(keys.drop_last());
        if lex_lt(prior, keys.last()) {
            keys.last()
        } else {
            prior
        }
    }
}

/// The selected sequence is one of the keys.
pub proof fn lemma_newest_contained(keys: Seq<Seq<char>>)
    requires
        keys.len() > 0,
    ensures
        keys.contains(spec_newest(keys)),
    decreases keys.len(),
{
    if keys.len() > 1 {
        lemma_newest_contained(keys.drop_last());
        let prior = spec_newest(keys.drop_last());
        if !lex_lt(prior, keys.last()) {
            let i = choose|i: int| 0 <= i < keys.drop_last().len() && keys.drop_last()[i] == prior;
            assert(keys[i] == prior);
        }
    }
}

/// No key is lexicographically above the selected one.
pub proof fn lemma_newest_is_max(keys: Seq<Seq<char>>, i: int)
    requires
        0 <= i < keys.len(),
    ensures
        !lex_lt(spec_newest(keys), keys[i]),
    decreases keys.len(),
{
    if keys.len() > 1 {
        let prior = spec_newest(keys.drop_last());
        let last = keys.last();
        if i < keys.len() - 1 {
            lemma_newest_is_max(keys.drop_last(), i);
            assert(keys.drop_last()[i] == keys[i]);
            if lex_lt(prior, last) {
                if lex_lt(last, keys[i]) {
                    lemma_lex_lt_trichotomy(keys[i], prior);
                    if lex_lt(keys[i], prior) {
                        lemma_lex_lt_transitive(last, keys[i], prior);
                        lemma_lex_lt_asymmetric(prior, last);
                    } else {
                        lemma_lex_lt_asymmetric(prior, last);
                    }
                }
            }
        } else {
            if !lex_lt(prior, last) {
                lemma_lex_lt_asymmetric(prior, last);
                lemma_lex_lt_trichotomy(prior, last);
            } else {
                lemma_lex_lt_irreflexive(last);
            }
        }
    } else {
        lemma_lex_lt_irreflexive(keys[0]);
    }
}

/// Picks the newest key: the lexicographically greatest, which the
/// fixed-width key layout makes the chronologically most recent. An empty
/// key set is refused with `EmptyKeySet`.
pub fn extract_newest_key(redis_keys: Vec<String>) -> (r: Result<String, ErrorKind>)
    ensures
        redis_keys@.len() == 0 ==> r == Err::<String, ErrorKind>(ErrorKind::EmptyKeySet),
        redis_keys@.len() > 0 ==> (r matches Ok(k) && k@ == spec_newest(redis_keys.deep_view())),
{
    if redis_keys.len() == 0 {
        return Err(ErrorKind::EmptyKeySet);
    }
    let ghost dv = redis_keys.deep_view();
    proof {
        assert(dv.take(1) =~= seq![dv[0]]);
    }
    let mut best_idx: usize = 0;
    let mut i: usize = 1;
    while i < redis_keys.len()
        invariant
            1 <= i <= redis_keys@.len(),
            best_idx < i,
            dv == redis_keys.deep_view(),
            dv.len() == redis_keys@.len(),
            redis_keys@[best_idx as int]@ == spec_newest(dv.take(i as int)),
        decreases redis_keys@.len() - i,
    {
        let replace = str_lex_lt(redis_keys[best_idx].as_str(), redis_keys[i].as_str());
        proof {
            let t = dv.take(i + 1 as int);
            assert(t.drop_last() =~= dv.take(i as int));
            assert(t.last() == dv[i as int]);
            assert(dv[i as int] == redis_keys@[i as int]@);
        }
        if replace {
            best_idx = i;
        }
        i = i + 1;
    }
    proof {
        assert(dv.take(redis_keys@.len() as int) =~= dv);
    }
    Ok(redis_keys[best_idx].clone())
}

} // verus!
