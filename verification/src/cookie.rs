//! Finding the session token in a `Cookie` request header.
use vstd::prelude::*;
use vstd::string::*;
use crate::text::{chars_of, has_prefix, is_ws, trim, trim_bounds, trim_end, trim_start};

verus! {

/// Index of the first `;` in `s`, or `s.len()` when there is none.
pub open spec fn semi_index(s: Seq<char>) -> int
    decreases s.len(),
{
    if s.len() == 0 {
        0
    } else if s[0] == ';' {
        0
    } else {
        1 + semi_index(s.drop_first())
    }
}

/// The name and `=` that open the session cookie.
pub open spec fn token_eq() -> Seq<char> {
    seq!['t', 'o', 'k', 'e', 'n', '=']
}

/// The value of the session cookie in the header text `s`: the header is
/// split at each `;`, and the first piece that, trimmed, starts with
/// `token=` gives the rest of that trimmed piece.
pub open spec fn cookie_token(s: Seq<char>) -> Option<Seq<char>>
    decreases s.len(),
{
    let k = semi_index(s);
    let seg = trim(s.take(k));
    if has_prefix(seg, token_eq()) {
        Some(seg.skip(6))
    } else if k >= s.len() {
        None
    } else {
        proof {
            lemma_semi_index_bounds(s);
        }
        cookie_token(s.skip(k + 1))
    }
}

pub proof fn lemma_semi_index_bounds(s: Seq<char>)
    ensures
        0 <= semi_index(s) <= s.len(),
        semi_index(s) < s.len() ==> s[semi_index(s)] == ';',
        forall|i: int| 0 <= i < semi_index(s) ==> s[i] != ';',
    decreases s.len(),
{
    if s.len() > 0 && s[0] != ';' {
        lemma_semi_index_bounds(s.drop_first());
        assert forall|i: int| 0 <= i < semi_index(s) implies s[i] != ';' by {
            if i > 0 {
                assert(s[i] == s.drop_first()[i - 1]);
            }
        }
    }
}

pub proof fn lemma_semi_index_is(s: Seq<char>, m: int)
    requires
        0 <= m <= s.len(),
        m < s.len() ==> s[m] == ';',
        forall|i: int| 0 <= i < m ==> s[i] != ';',
    ensures
        semi_index(s) == m,
    decreases s.len(),
{
    if s.len() > 0 && m > 0 {
        assert(s[0] != ';');
        assert forall|i: int| 0 <= i < m - 1 implies s.drop_first()[i] != ';' by {
            assert(s.drop_first()[i] == s[i + 1]);
        }
        lemma_semi_index_is(s.drop_first(), m - 1);
    }
}

/// The value of the `token` cookie in the `Cookie` header text, if any.
pub fn token_in_cookie_header(header: &str) -> (r: Option<String>)
    ensures
        r matches Some(t) ==> cookie_token(header@) == Some(t@),
        r is None ==> cookie_token(header@) is None,
{
    let v = chars_of(header);
    let n = v.len();
    let mut from: usize = 0;
    assert(header@.skip(0) =~= header@);
    loop
        invariant
            v@ == header@,
            n == v@.len(),
            from <= n,
            cookie_token(header@) == cookie_token(header@.skip(from as int)),
        decreases n - from,
    {
        let ghost rest = header@.skip(from as int);
        let mut k = from;
        while k < n && v[k] != ';'
            invariant
                v@ == header@,
                n == v@.len(),
                from <= k <= n,
                forall|i: int| from <= i < k ==> v@[i] != ';',
            decreases n - k,
        {
            k = k + 1;
        }
        proof {
            assert forall|i: int| 0 <= i < k - from implies rest[i] != ';' by {
                assert(rest[i] == v@[from + i]);
            }
            lemma_semi_index_is(rest, k - from);
            assert(rest.take(k - from) =~= v@.subrange(from as int, k as int));
        }
        let (a, b) = trim_bounds(&v, from, k);
        let ghost seg = v@.subrange(a as int, b as int);
        if b - a >= 6 && v[a] == 't' && v[a + 1] == 'o' && v[a + 2] == 'k' && v[a + 3] == 'e'
            && v[a + 4] == 'n' && v[a + 5] == '=' {
            assert(seg.take(6) =~= token_eq());
            let t = header.substring_char(a + 6, b);
            assert(t@ =~= seg.skip(6));
            return Some(t.to_owned());
        }
        proof {
            if has_prefix(seg, token_eq()) {
                assert(seg.take(6)[0] == 't');
                assert(seg.take(6)[1] == 'o');
                assert(seg.take(6)[2] == 'k');
                assert(seg.take(6)[3] == 'e');
                assert(seg.take(6)[4] == 'n');
                assert(seg.take(6)[5] == '=');
            }
        }
        if k == n {
            return None;
        }
        assert(rest.skip(k - from + 1) =~= header@.skip(k + 1));
        from = k + 1;
    }
}

} // verus!

verus! {

/// Leading white space does not change what `trim_start` keeps.
proof fn lemma_trim_start_skips_ws(w: Seq<char>, x: Seq<char>)
    requires
        forall|i: int| 0 <= i < w.len() ==> is_ws(#[trigger] w[i]),
        x.len() > 0 && !is_ws(x[0]),
    ensures
        trim_start(w + x) == x,
    decreases w.len(),
{
    if w.len() == 0 {
        assert(w + x =~= x);
    } else {
        assert((w + x).drop_first() =~= w.drop_first() + x);
        assert((w + x)[0] == w[0]);
        lemma_trim_start_skips_ws(w.drop_first(), x);
    }
}

/// A session cookie read back: a `Cookie` header piece `token=<t>`,
/// possibly after white space, gives `t` when `t` holds no `;` and does
/// not end in white space (a token issued at login is such a `t`).
pub proof fn lemma_session_cookie_reads_back(lead: Seq<char>, t: Seq<char>)
    requires
        forall|i: int| 0 <= i < lead.len() ==> is_ws(#[trigger] lead[i]),
        forall|i: int| 0 <= i < t.len() ==> #[trigger] t[i] != ';',
        t.len() == 0 || !is_ws(t.last()),
    ensures
        cookie_token(lead + token_eq() + t) == Some(t),
{
    let s = lead + token_eq() + t;
    let x = token_eq() + t;
    assert(s =~= lead + x);
    assert(x[0] == 't');
    lemma_trim_start_skips_ws(lead, x);
    if t.len() == 0 {
        assert(x.last() == '=');
    } else {
        assert(x.last() == t.last());
    }
    assert(trim_end(x) == x);
    assert forall|i: int| 0 <= i < s.len() implies s[i] != ';' by {
        if i < lead.len() {
            assert(s[i] == lead[i]);
        } else if i < lead.len() + 6 {
            assert(s[i] == token_eq()[i - lead.len()]);
        } else {
            assert(s[i] == t[i - lead.len() - 6]);
        }
    }
    lemma_semi_index_is(s, s.len() as int);
    assert(s.take(s.len() as int) =~= s);
    assert(trim(s) == x);
    assert(has_prefix(x, token_eq())) by {
        assert(x.take(6) =~= token_eq());
    }
    assert(x.skip(6) =~= t);
}

/// A cookie that is not the session cookie is passed over: the search
/// goes on after the `;` that ends it.
pub proof fn lemma_other_cookie_skipped(other: Seq<char>, rest: Seq<char>)
    requires
        forall|i: int| 0 <= i < other.len() ==> #[trigger] other[i] != ';',
        !has_prefix(trim(other), token_eq()),
    ensures
        cookie_token(other + seq![';'] + rest) == cookie_token(rest),
{
    let s = other + seq![';'] + rest;
    assert forall|i: int| 0 <= i < other.len() implies s[i] != ';' by {
        assert(s[i] == other[i]);
    }
    assert(s[other.len() as int] == ';');
    lemma_semi_index_is(s, other.len() as int);
    assert(s.take(other.len() as int) =~= other);
    assert(s.skip(other.len() as int + 1) =~= rest);
}

} // verus!
