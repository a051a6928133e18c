//! Character-level string helpers: comparison, prefixes and suffixes,
//! whitespace handling, lexicographic order, path joining and decimal text.
use vstd::prelude::*;
use vstd::string::*;

verus! {

// ---------------------------------------------------------------------------
// Building strings
// ---------------------------------------------------------------------------

/// `String::push` (std): appends one character at the end of the string.
#[verifier::external_body]
pub(crate) fn push_char(s: &mut String, c: char)
    ensures
        final(s)@ == old(s)@.push(c),
{
    s.push(c);
}

/// An owned copy of a string slice.
pub fn owned(s: &str) -> (r: String)
    ensures
        r@ == s@,
{
    String::from_str(s)
}

/// Concatenation of the two slices.
pub fn concat2(a: &str, b: &str) -> (r: String)
    ensures
        r@ == a@ + b@,
{
    let mut r = String::from_str(a);
    r.append(b);
    r
}

/// Concatenation of the three slices.
pub fn concat3(a: &str, b: &str, c: &str) -> (r: String)
    ensures
        r@ == a@ + b@ + c@,
{
    let mut r = String::from_str(a);
    r.append(b);
    r.append(c);
    r
}

// ---------------------------------------------------------------------------
// Comparison and searching
// ---------------------------------------------------------------------------

/// Whether `t` occurs in `s` starting at character index `start`.
pub open spec fn occurs_at(s: Seq<char>, t: Seq<char>, start: int) -> bool {
    0 <= start && start + t.len() <= s.len() && s.subrange(start, start + t.len()) == t
}

pub open spec fn has_prefix(s: Seq<char>, p: Seq<char>) -> bool {
    occurs_at(s, p, 0)
}

pub open spec fn has_suffix(s: Seq<char>, p: Seq<char>) -> bool {
    occurs_at(s, p, s.len() - p.len())
}

pub open spec fn contains_seq(s: Seq<char>, t: Seq<char>) -> bool {
    exists|i: int| occurs_at(s, t, i)
}

/// Character-wise equality of two slices.
pub fn str_eq(a: &str, b: &str) -> (r: bool)
    ensures
        r == (a@ == b@),
{
    let n = a.unicode_len();
    if n != b.unicode_len() {
        return false;
    }
    let mut i: usize = 0;
    while i < n
        invariant
            n == a@.len(),
            n == b@.len(),
            0 <= i <= n,
            forall|j: int| 0 <= j < i ==> a@[j] == b@[j],
        decreases n - i,
    {
        if a.get_char(i) != b.get_char(i) {
            return false;
        }
        i = i + 1;
    }
    assert(a@ =~= b@);
    true
}

/// Whether `t` occurs in `s` at character index `start`.
pub fn matches_at(s: &str, t: &str, start: usize) -> (r: bool)
    ensures
        r == occurs_at(s@, t@, start as int),
{
    let n = s.unicode_len();
    let m = t.unicode_len();
    if start > n || m > n - start {
        return false;
    }
    let mut i: usize = 0;
    while i < m
        invariant
            n == s@.len(),
            m == t@.len(),
            start + m <= n,
            0 <= i <= m,
            forall|j: int| 0 <= j < i ==> s@[start + j] == t@[j],
        decreases m - i,
    {
        if s.get_char(start + i) != t.get_char(i) {
            assert(s@.subrange(start as int, start + m)[i as int] != t@[i as int]);
            return false;
        }
        i = i + 1;
    }
    assert(s@.subrange(start as int, start + m) =~= t@);
    true
}

pub fn starts_with(s: &str, p: &str) -> (r: bool)
    ensures
        r == has_prefix(s@, p@),
{
    matches_at(s, p, 0)
}

pub fn ends_with(s: &str, p: &str) -> (r: bool)
    ensures
        r == has_suffix(s@, p@),
{
    let n = s.unicode_len();
    let m = p.unicode_len();
    if m > n {
        return false;
    }
    matches_at(s, p, n - m)
}

/// Whether `t` occurs anywhere in `s`.
pub fn contains_str(s: &str, t: &str) -> (r: bool)
    ensures
        r == contains_seq(s@, t@),
{
    let n = s.unicode_len();
    let m = t.unicode_len();
    if m > n {
        assert forall|k: int| !occurs_at(s@, t@, k) by {}
        return false;
    }
    if m == 0 {
        assert(s@.subrange(0, 0) =~= t@);
        assert(occurs_at(s@, t@, 0));
        return true;
    }
    let mut i: usize = 0;
    while i <= n - m
        invariant
            n == s@.len(),
            m == t@.len(),
            0 < m <= n,
            0 <= i <= n - m + 1,
            forall|k: int| 0 <= k < i ==> !occurs_at(s@, t@, k),
        decreases n - m + 1 - i,
    {
        if matches_at(s, t, i) {
            return true;
        }
        i = i + 1;
    }
    assert forall|k: int| !occurs_at(s@, t@, k) by {
        if 0 <= k < i {
        }
    }
    false
}

/// The part of `s` after the prefix `p`, when `s` starts with `p`.
pub fn strip_prefix<'a>(s: &'a str, p: &str) -> (r: Option<&'a str>)
    ensures
        match r {
            Some(rest) => has_prefix(s@, p@) && rest@ == s@.subrange(p@.len() as int, s@.len() as int),
            None => !has_prefix(s@, p@),
        },
{
    if starts_with(s, p) {
        let n = s.unicode_len();
        let m = p.unicode_len();
        Some(s.substring_char(m, n))
    } else {
        None
    }
}

/// The part of `s` before the suffix `p`, when `s` ends with `p`.
pub fn strip_suffix<'a>(s: &'a str, p: &str) -> (r: Option<&'a str>)
    ensures
        match r {
            Some(rest) => has_suffix(s@, p@) && rest@ == s@.subrange(0, s@.len() - p@.len()),
            None => !has_suffix(s@, p@),
        },
{
    if ends_with(s, p) {
        let n = s.unicode_len();
        let m = p.unicode_len();
        Some(s.substring_char(0, n - m))
    } else {
        None
    }
}

// ---------------------------------------------------------------------------
// Lexicographic order (code-point order, which is the byte order of UTF-8)
// ---------------------------------------------------------------------------

/// `a <= b` in lexicographic order of code points.
pub open spec fn lex_le(a: Seq<char>, b: Seq<char>) -> bool
    decreases a.len(),
{
    if a.len() == 0 {
        true
    } else if b.len() == 0 {
        false
    } else if a[0] != b[0] {
        (a[0] as u32) < (b[0] as u32)
    } else {
        lex_le(a.drop_first(), b.drop_first())
    }
}

pub proof fn lemma_lex_le_total(a: Seq<char>, b: Seq<char>)
    ensures
        lex_le(a, b) || lex_le(b, a),
    decreases a.len(),
{
    if a.len() > 0 && b.len() > 0 {
        if a[0] == b[0] {
            lemma_lex_le_total(a.drop_first(), b.drop_first());
        } else {
            vstd::utf8::char_u32_cast(a[0], a[0] as u32);
            vstd::utf8::char_u32_cast(b[0], b[0] as u32);
        }
    }
}

pub proof fn lemma_lex_le_trans(a: Seq<char>, b: Seq<char>, c: Seq<char>)
    requires
        lex_le(a, b),
        lex_le(b, c),
    ensures
        lex_le(a, c),
    decreases a.len(),
{
    if a.len() > 0 && b.len() > 0 && c.len() > 0 && a[0] == b[0] && b[0] == c[0] {
        lemma_lex_le_trans(a.drop_first(), b.drop_first(), c.drop_first());
    }
}

pub proof fn lemma_lex_le_refl(a: Seq<char>)
    ensures
        lex_le(a, a),
    decreases a.len(),
{
    if a.len() > 0 {
        lemma_lex_le_refl(a.drop_first());
    }
}

/// Lexicographic comparison of two slices.
pub fn str_lex_le(a: &str, b: &str) -> (r: bool)
    ensures
        r == lex_le(a@, b@),
{
    let n = a.unicode_len();
    let m = b.unicode_len();
    let mut i: usize = 0;
    assert(a@.skip(0) =~= a@);
    assert(b@.skip(0) =~= b@);
    while i < n && i < m
        invariant
            n == a@.len(),
            m == b@.len(),
            0 <= i <= n,
            i <= m,
            lex_le(a@, b@) == lex_le(a@.skip(i as int), b@.skip(i as int)),
        decreases n - i,
    {
        let ca = a.get_char(i);
        let cb = b.get_char(i);
        if ca != cb {
            assert(a@.skip(i as int)[0] == ca);
            assert(b@.skip(i as int)[0] == cb);
            return (ca as u32) < (cb as u32);
        }
        assert(a@.skip(i as int).drop_first() =~= a@.skip(i + 1));
        assert(b@.skip(i as int).drop_first() =~= b@.skip(i + 1));
        i = i + 1;
    }
    i == n
}

/// `r` is the least element of `xs` (so `xs` holds it and it precedes every element).
pub open spec fn is_least(r: Seq<char>, xs: Seq<Seq<char>>) -> bool {
    xs.contains(r) && forall|i: int| 0 <= i < xs.len() ==> lex_le(r, #[trigger] xs[i])
}

/// The least of the two candidates (the current best, if any, and a new one).
pub fn least_of(best: Option<String>, cand: String) -> (r: String)
    ensures
        match best {
            None => r@ == cand@,
            Some(b) => (r@ == b@ || r@ == cand@) && lex_le(r@, b@) && lex_le(r@, cand@),
        },
{
    match best {
        None => cand,
        Some(b) => {
            if str_lex_le(cand.as_str(), b.as_str()) {
                proof {
                    lemma_lex_le_refl(cand@);
                }
                cand
            } else {
                proof {
                    lemma_lex_le_total(cand@, b@);
                    lemma_lex_le_refl(b@);
                }
                b
            }
        }
    }
}

pub proof fn lemma_lex_le_antisym(a: Seq<char>, b: Seq<char>)
    requires
        lex_le(a, b),
        lex_le(b, a),
    ensures
        a == b,
    decreases a.len(),
{
    if a.len() > 0 && b.len() > 0 {
        if a[0] == b[0] {
            lemma_lex_le_antisym(a.drop_first(), b.drop_first());
            assert(a =~= seq![a[0]] + a.drop_first());
            assert(b =~= seq![b[0]] + b.drop_first());
        }
    } else {
        assert(a =~= b);
    }
}

/// The least element of `xs`, if `xs` is not empty.
pub open spec fn least_opt(xs: Seq<Seq<char>>) -> Option<Seq<char>> {
    if xs.len() == 0 {
        None
    } else {
        Some(choose|r: Seq<char>| is_least(r, xs))
    }
}

pub proof fn lemma_least_unique(r1: Seq<char>, r2: Seq<char>, xs: Seq<Seq<char>>)
    requires
        is_least(r1, xs),
        is_least(r2, xs),
    ensures
        r1 == r2,
{
    let i1 = choose|i: int| 0 <= i < xs.len() && xs[i] == r1;
    let i2 = choose|i: int| 0 <= i < xs.len() && xs[i] == r2;
    assert(lex_le(r1, xs[i2]));
    assert(lex_le(r2, xs[i1]));
    lemma_lex_le_antisym(r1, r2);
}

/// When `r` is the least element of `xs`, `least_opt(xs)` names it.
pub proof fn lemma_least_opt_is(r: Seq<char>, xs: Seq<Seq<char>>)
    requires
        is_least(r, xs),
    ensures
        least_opt(xs) == Some(r),
{
    let c = choose|r0: Seq<char>| is_least(r0, xs);
    lemma_least_unique(c, r, xs);
}

/// A non-empty list has a least element.
proof fn lemma_least_exists(xs: Seq<Seq<char>>)
    requires
        xs.len() > 0,
    ensures
        exists|r: Seq<char>| is_least(r, xs),
    decreases xs.len(),
{
    let init = xs.drop_last();
    let x = xs.last();
    assert(init.push(x) =~= xs);
    if init.len() == 0 {
        lemma_least_push(init, x, None, x);
        assert(is_least(x, xs));
    } else {
        lemma_least_exists(init);
        let b = choose|b: Seq<char>| is_least(b, init);
        lemma_lex_le_total(b, x);
        lemma_lex_le_refl(b);
        lemma_lex_le_refl(x);
        let r = if lex_le(b, x) {
            b
        } else {
            x
        };
        lemma_least_push(init, x, Some(b), r);
        assert(is_least(r, xs));
    }
}

/// `least_opt` names a member of the list, and does so whenever the list is not empty.
pub proof fn lemma_least_opt_member(xs: Seq<Seq<char>>)
    ensures
        xs.len() > 0 ==> least_opt(xs) is Some,
        least_opt(xs) matches Some(r) ==> xs.contains(r),
{
    if xs.len() > 0 {
        lemma_least_exists(xs);
    }
}

/// With a filter that keeps names unchanged, the kept names are names of
/// the list, and every name the filter accepts is kept.
pub proof fn lemma_filter_names_members(xs: Seq<Seq<char>>, f: spec_fn(Seq<char>) -> Option<Seq<char>>)
    requires
        forall|x: Seq<char>| (#[trigger] f(x)) is Some ==> f(x) == Some(x),
    ensures
        forall|y: Seq<char>| #[trigger] filter_map_names(xs, f).contains(y) ==> xs.contains(y),
        forall|x: Seq<char>| xs.contains(x) && (#[trigger] f(x)) is Some ==> filter_map_names(xs, f).contains(x),
    decreases xs.len(),
{
    if xs.len() > 0 {
        let init = xs.drop_last();
        let x = xs.last();
        assert(init.push(x) =~= xs);
        lemma_filter_names_members(init, f);
        lemma_filter_map_push(init, x, f);
        let r = filter_map_names(init, f);
        assert forall|y: Seq<char>| #[trigger] filter_map_names(xs, f).contains(y) implies xs.contains(y) by {
            let k = choose|k: int| 0 <= k < filter_map_names(xs, f).len() && filter_map_names(xs, f)[k] == y;
            if k < r.len() {
                assert(filter_map_names(xs, f)[k] == r[k]);
                assert(r.contains(y));
                let j = choose|j: int| 0 <= j < init.len() && init[j] == y;
                assert(xs[j] == y);
            } else {
                assert(y == x);
                assert(xs[xs.len() - 1] == x);
            }
        }
        assert forall|z: Seq<char>| xs.contains(z) && (#[trigger] f(z)) is Some implies filter_map_names(
            xs,
            f,
        ).contains(z) by {
            let j = choose|j: int| 0 <= j < xs.len() && xs[j] == z;
            if j < init.len() {
                assert(init[j] == z);
                assert(r.contains(z));
                let k = choose|k: int| 0 <= k < r.len() && r[k] == z;
                if f(x) is Some {
                    assert(r.push(f(x).unwrap())[k] == z);
                }
            } else {
                assert(z == x);
                assert(r.push(x)[r.len() as int] == x);
            }
        }
    }
}

/// The least element after one more element, given the least of the elements
/// before (`b`, absent when there were none) and the lesser `r` of `b` and `x`.
pub proof fn lemma_least_push(xs: Seq<Seq<char>>, x: Seq<char>, b: Option<Seq<char>>, r: Seq<char>)
    requires
        match b {
            None => xs.len() == 0 && r == x,
            Some(b) => is_least(b, xs) && (r == b || r == x) && lex_le(r, b) && lex_le(r, x),
        },
    ensures
        is_least(r, xs.push(x)),
{
    let ys = xs.push(x);
    match b {
        None => {
            assert(ys[0] == x);
            lemma_lex_le_refl(x);
        },
        Some(b) => {
            assert forall|i: int| 0 <= i < ys.len() implies lex_le(r, #[trigger] ys[i]) by {
                if i < xs.len() {
                    assert(ys[i] == xs[i]);
                    assert(lex_le(b, xs[i]));
                    lemma_lex_le_trans(r, b, xs[i]);
                }
            }
            if r == x {
                assert(ys[xs.len() as int] == x);
            } else {
                let k = choose|k: int| 0 <= k < xs.len() && xs[k] == b;
                assert(ys[k] == b);
            }
        },
    }
}

/// `best` holds the least element of `xs` (and is absent exactly when `xs` is empty).
pub open spec fn least_state(best: Option<String>, xs: Seq<Seq<char>>) -> bool {
    match best {
        None => xs.len() == 0,
        Some(b) => is_least(b@, xs),
    }
}

pub open spec fn opt_view(o: Option<String>) -> Option<Seq<char>> {
    match o {
        None => None,
        Some(s) => Some(s@),
    }
}

/// One step of a running minimum: `cand` joins the elements already seen.
pub(crate) fn fold_least(best: Option<String>, cand: String, Ghost(xs): Ghost<Seq<Seq<char>>>) -> (r:
    Option<String>)
    requires
        least_state(best, xs),
    ensures
        least_state(r, xs.push(cand@)),
        r is Some,
{
    let ghost b = opt_view(best);
    let ghost c = cand@;
    let m = least_of(best, cand);
    proof {
        lemma_least_push(xs, c, b, m@);
    }
    Some(m)
}

pub proof fn lemma_least_state_opt(best: Option<String>, xs: Seq<Seq<char>>)
    requires
        least_state(best, xs),
    ensures
        opt_view(best) == least_opt(xs),
{
    if let Some(b) = best {
        lemma_least_opt_is(b@, xs);
    }
}

/// A copy of an optional string.
pub fn clone_opt(o: &Option<String>) -> (r: Option<String>)
    ensures
        opt_view(r) == opt_view(*o),
{
    match o {
        Some(s) => Some(s.clone()),
        None => None,
    }
}

/// The names that `f` keeps, mapped by `f`, in order (`filter_map`).
pub open spec fn filter_map_names(
    xs: Seq<Seq<char>>,
    f: spec_fn(Seq<char>) -> Option<Seq<char>>,
) -> Seq<Seq<char>>
    decreases xs.len(),
{
    if xs.len() == 0 {
        seq![]
    } else {
        let r = filter_map_names(xs.drop_last(), f);
        match f(xs.last()) {
            Some(y) => r.push(y),
            None => r,
        }
    }
}

pub proof fn lemma_filter_map_push(
    xs: Seq<Seq<char>>,
    x: Seq<char>,
    f: spec_fn(Seq<char>) -> Option<Seq<char>>,
)
    ensures
        filter_map_names(xs.push(x), f) == match f(x) {
            Some(y) => filter_map_names(xs, f).push(y),
            None => filter_map_names(xs, f),
        },
{
    assert(xs.push(x).drop_last() =~= xs);
}

/// The views of a vector of strings.
pub open spec fn views(v: Seq<String>) -> Seq<Seq<char>> {
    v.map_values(|s: String| s@)
}

pub proof fn lemma_views_take_push(v: Seq<String>, i: int)
    requires
        0 <= i < v.len(),
    ensures
        views(v.take(i + 1)) == views(v.take(i)).push(v[i]@),
        views(v.take(v.len() as int)) == views(v),
{
    assert(views(v.take(i + 1)) =~= views(v.take(i)).push(v[i]@));
    assert(v.take(v.len() as int) =~= v);
}

/// Scan state of a path's components after reading `s`: the finished
/// normal components and the one being read. Separators `/` end a
/// component; empty components and `.` components are dropped.
pub open spec fn component_scan(s: Seq<char>) -> (Seq<Seq<char>>, Seq<char>)
    decreases s.len(),
{
    if s.len() == 0 {
        (seq![], seq![])
    } else {
        let (done, cur) = component_scan(s.drop_last());
        let c = s.last();
        if c == '/' {
            if cur.len() > 0 && cur != seq!['.'] {
                (done.push(cur), seq![])
            } else {
                (done, seq![])
            }
        } else {
            (done, cur.push(c))
        }
    }
}

/// The normal components of a path (what `Path::components` yields after
/// the root and a leading `.`).
pub open spec fn path_parts(s: Seq<char>) -> Seq<Seq<char>> {
    let (done, cur) = component_scan(s);
    if cur.len() > 0 && cur != seq!['.'] {
        done.push(cur)
    } else {
        done
    }
}

/// Whether a path has a root (`/`).
pub open spec fn has_root(s: Seq<char>) -> bool {
    s.len() > 0 && s[0] == '/'
}

/// Whether a relative path starts with a `.` component (kept by `Path::components`).
pub open spec fn leading_cur_dir(s: Seq<char>) -> bool {
    !has_root(s) && s.len() > 0 && s[0] == '.' && (s.len() == 1 || s[1] == '/')
}

/// A path's components: root, leading `.`, then the normal components.
/// Two paths are equal as `Path`s exactly when these are equal.
pub open spec fn path_key(s: Seq<char>) -> (bool, bool, Seq<Seq<char>>) {
    (has_root(s), leading_cur_dir(s), path_parts(s))
}

fn is_dot(s: &String) -> (r: bool)
    ensures
        r == (s@ == seq!['.']),
{
    let r = s.unicode_len() == 1 && s.get_char(0) == '.';
    proof {
        if s@.len() == 1 && s@[0] == '.' {
            assert(s@ =~= seq!['.']);
        }
    }
    r
}

fn component_list(s: &str) -> (r: Vec<String>)
    ensures
        views(r@) == path_parts(s@),
{
    let n = s.unicode_len();
    let mut done: Vec<String> = Vec::new();
    let mut cur = String::new();
    let mut i: usize = 0;
    while i < n
        invariant
            n == s@.len(),
            0 <= i <= n,
            component_scan(s@.take(i as int)) == (views(done@), cur@),
        decreases n - i,
    {
        let c = s.get_char(i);
        assert(s@.take(i + 1).drop_last() =~= s@.take(i as int));
        assert(s@.take(i + 1).last() == c);
        if c == '/' {
            if cur.unicode_len() > 0 && !is_dot(&cur) {
                let ghost before = done@;
                done.push(cur);
                assert(views(done@) =~= views(before).push(cur@));
            }
            cur = String::new();
        } else {
            push_char(&mut cur, c);
        }
        i = i + 1;
    }
    assert(s@.take(n as int) =~= s@);
    if cur.unicode_len() > 0 && !is_dot(&cur) {
        let ghost before = done@;
        let ghost last = cur@;
        done.push(cur);
        assert(views(done@) =~= views(before).push(last));
    }
    done
}

/// Whether two lists of strings hold the same texts in the same order.
pub fn strings_equal(a: &Vec<String>, b: &Vec<String>) -> (r: bool)
    ensures
        r == (views(a@) == views(b@)),
{
    if a.len() != b.len() {
        assert(views(a@).len() != views(b@).len());
        return false;
    }
    let mut i: usize = 0;
    while i < a.len()
        invariant
            a.len() == b.len(),
            0 <= i <= a.len(),
            forall|j: int| 0 <= j < i ==> a@[j]@ == b@[j]@,
        decreases a.len() - i,
    {
        if !str_eq(a[i].as_str(), b[i].as_str()) {
            assert(views(a@)[i as int] != views(b@)[i as int]);
            return false;
        }
        i = i + 1;
    }
    assert(views(a@) =~= views(b@));
    true
}

fn starts_with_root(s: &str) -> (r: bool)
    ensures
        r == has_root(s@),
{
    s.unicode_len() > 0 && s.get_char(0) == '/'
}

fn starts_with_cur_dir(s: &str) -> (r: bool)
    ensures
        r == leading_cur_dir(s@),
{
    let n = s.unicode_len();
    !starts_with_root(s) && n > 0 && s.get_char(0) == '.' && (n == 1 || s.get_char(1) == '/')
}

/// Whether two paths are the same `Path`: equal component by component
/// (repeated and trailing separators and inner `.` components do not count).
pub fn same_path(a: &str, b: &str) -> (r: bool)
    ensures
        r == (path_key(a@) == path_key(b@)),
{
    if starts_with_root(a) != starts_with_root(b) || starts_with_cur_dir(a) != starts_with_cur_dir(b) {
        return false;
    }
    let pa = component_list(a);
    let pb = component_list(b);
    strings_equal(&pa, &pb)
}

/// Whether one of the paths of `d` is the same `Path` as `p`.
pub open spec fn has_path(d: Seq<Seq<char>>, p: Seq<char>) -> bool {
    exists|k: int| 0 <= k < d.len() && #[trigger] path_key(d[k]) == path_key(p)
}

pub fn vec_contains_path(v: &Vec<String>, p: &str) -> (r: bool)
    ensures
        r == has_path(views(v@), p@),
{
    let mut i: usize = 0;
    while i < v.len()
        invariant
            0 <= i <= v.len(),
            forall|j: int| 0 <= j < i ==> path_key(#[trigger] views(v@)[j]) != path_key(p@),
        decreases v.len() - i,
    {
        if same_path(v[i].as_str(), p) {
            assert(views(v@)[i as int] == v@[i as int]@);
            return true;
        }
        assert(views(v@)[i as int] == v@[i as int]@);
        i = i + 1;
    }
    false
}

/// Whether one of the strings of `v` equals `name`.
pub fn vec_contains_str(v: &Vec<String>, name: &str) -> (r: bool)
    ensures
        r == views(v@).contains(name@),
{
    let mut i: usize = 0;
    while i < v.len()
        invariant
            0 <= i <= v.len(),
            forall|j: int| 0 <= j < i ==> v@[j]@ != name@,
        decreases v.len() - i,
    {
        if str_eq(v[i].as_str(), name) {
            assert(views(v@)[i as int] == name@);
            return true;
        }
        i = i + 1;
    }
    assert forall|j: int| 0 <= j < views(v@).len() implies views(v@)[j] != name@ by {
        assert(views(v@)[j] == v@[j]@);
    }
    false
}

// ---------------------------------------------------------------------------
// Whitespace
// ---------------------------------------------------------------------------

/// Unicode `White_Space` (the characters that `char::is_whitespace` accepts).
pub open spec fn is_white_space(c: char) -> bool {
    let u = c as u32;
    ||| 0x09 <= u <= 0x0D
    ||| u == 0x20
    ||| u == 0x85
    ||| u == 0xA0
    ||| u == 0x1680
    ||| 0x2000 <= u <= 0x200A
    ||| u == 0x2028
    ||| u == 0x2029
    ||| u == 0x202F
    ||| u == 0x205F
    ||| u == 0x3000
}

pub fn is_whitespace_char(c: char) -> (r: bool)
    ensures
        r == is_white_space(c),
{
    let u = c as u32;
    (0x09 <= u && u <= 0x0D) || u == 0x20 || u == 0x85 || u == 0xA0 || u == 0x1680 || (0x2000
        <= u && u <= 0x200A) || u == 0x2028 || u == 0x2029 || u == 0x202F || u == 0x205F || u
        == 0x3000
}

/// Scan state of `split_whitespace` after reading `s`: the finished words and
/// the word being read.
pub open spec fn word_scan(s: Seq<char>) -> (Seq<Seq<char>>, Seq<char>)
    decreases s.len(),
{
    if s.len() == 0 {
        (seq![], seq![])
    } else {
        let (done, cur) = word_scan(s.drop_last());
        let c = s.last();
        if is_white_space(c) {
            if cur.len() > 0 {
                (done.push(cur), seq![])
            } else {
                (done, cur)
            }
        } else {
            (done, cur.push(c))
        }
    }
}

/// The maximal runs of non-whitespace characters of `s`, in order
/// (what `str::split_whitespace` yields).
pub open spec fn words(s: Seq<char>) -> Seq<Seq<char>> {
    let (done, cur) = word_scan(s);
    if cur.len() > 0 {
        done.push(cur)
    } else {
        done
    }
}

/// The pieces joined with `sep` between consecutive pieces.
pub open spec fn join_with(list: Seq<Seq<char>>, sep: Seq<char>) -> Seq<char>
    decreases list.len(),
{
    if list.len() == 0 {
        seq![]
    } else if list.len() == 1 {
        list[0]
    } else {
        join_with(list.drop_last(), sep) + sep + list.last()
    }
}

pub proof fn lemma_join_push(list: Seq<Seq<char>>, x: Seq<char>, sep: Seq<char>)
    ensures
        join_with(list.push(x), sep) == if list.len() == 0 {
            x
        } else {
            join_with(list, sep) + sep + x
        },
{
    assert(list.push(x).drop_last() =~= list);
    if list.len() == 0 {
        assert(list.push(x)[0] == x);
    }
}

/// A piece that `split_whitespace` could yield: non-empty, no whitespace.
pub open spec fn is_word(w: Seq<char>) -> bool {
    w.len() > 0 && forall|i: int| 0 <= i < w.len() ==> !is_white_space(#[trigger] w[i])
}

/// The words of `s` joined by single spaces.
pub open spec fn normalized(s: Seq<char>) -> Seq<char> {
    join_with(words(s), " "@)
}

/// Reading a run of non-whitespace characters extends the current word.
proof fn lemma_scan_extend(s: Seq<char>, w: Seq<char>)
    requires
        forall|i: int| 0 <= i < w.len() ==> !is_white_space(#[trigger] w[i]),
    ensures
        word_scan(s + w) == (word_scan(s).0, word_scan(s).1 + w),
    decreases w.len(),
{
    if w.len() == 0 {
        assert(s + w =~= s);
        assert(word_scan(s).1 + w =~= word_scan(s).1);
    } else {
        let wi = w.drop_last();
        assert forall|i: int| 0 <= i < wi.len() implies !is_white_space(#[trigger] wi[i]) by {
            assert(wi[i] == w[i]);
        }
        lemma_scan_extend(s, wi);
        assert((s + w).drop_last() =~= s + wi);
        assert((s + w).last() == w[w.len() - 1]);
        assert((word_scan(s).1 + wi).push(w.last()) =~= word_scan(s).1 + w);
    }
}

/// The scan state holds only words, and the current word has no whitespace.
proof fn lemma_scan_words(s: Seq<char>)
    ensures
        forall|k: int| 0 <= k < word_scan(s).0.len() ==> is_word(#[trigger] word_scan(s).0[k]),
        forall|i: int| 0 <= i < word_scan(s).1.len() ==> !is_white_space(#[trigger] word_scan(s).1[i]),
    decreases s.len(),
{
    if s.len() > 0 {
        lemma_scan_words(s.drop_last());
        let (done, cur) = word_scan(s.drop_last());
        let c = s.last();
        if !is_white_space(c) {
            assert forall|i: int| 0 <= i < cur.push(c).len() implies !is_white_space(
                #[trigger] cur.push(c)[i],
            ) by {
                if i < cur.len() {
                    assert(cur.push(c)[i] == cur[i]);
                }
            }
        } else if cur.len() > 0 {
            assert forall|k: int| 0 <= k < done.push(cur).len() implies is_word(#[trigger] done.push(cur)[k]) by {
                if k < done.len() {
                    assert(done.push(cur)[k] == done[k]);
                }
            }
        }
    }
}

/// Every piece of `words(s)` is a word.
pub proof fn lemma_words_are_words(s: Seq<char>)
    ensures
        forall|k: int| 0 <= k < words(s).len() ==> is_word(#[trigger] words(s)[k]),
{
    lemma_scan_words(s);
    let (done, cur) = word_scan(s);
    if cur.len() > 0 {
        assert forall|k: int| 0 <= k < done.push(cur).len() implies is_word(#[trigger] done.push(cur)[k]) by {
            if k < done.len() {
                assert(done.push(cur)[k] == done[k]);
            }
        }
    }
}

/// Scanning words joined by single spaces: all but the last are finished,
/// the last is being read.
proof fn lemma_scan_joined(ws: Seq<Seq<char>>)
    requires
        ws.len() > 0,
        forall|k: int| 0 <= k < ws.len() ==> is_word(#[trigger] ws[k]),
    ensures
        word_scan(join_with(ws, " "@)) == (ws.drop_last(), ws.last()),
    decreases ws.len(),
{
    reveal_strlit(" ");
    if ws.len() == 1 {
        assert(is_word(ws[0]));
        lemma_scan_extend(seq![], ws[0]);
        assert(Seq::<char>::empty() + ws[0] =~= ws[0]);
        assert(Seq::<char>::empty() + ws[0] =~= ws[0]);
        assert(ws.drop_last() =~= Seq::<Seq<char>>::empty());
        assert(word_scan(Seq::<char>::empty()) == (Seq::<Seq<char>>::empty(), Seq::<char>::empty()));
    } else {
        let init = ws.drop_last();
        let l = ws.last();
        assert forall|k: int| 0 <= k < init.len() implies is_word(#[trigger] init[k]) by {
            assert(init[k] == ws[k]);
        }
        lemma_scan_joined(init);
        let j = join_with(init, " "@);
        let js = j + " "@;
        assert(js.drop_last() =~= j);
        assert(js.last() == ' ');
        assert(is_white_space(' '));
        assert(is_word(init.last())) by {
            assert(init.last() == init[init.len() - 1]);
        }
        assert(init.drop_last().push(init.last()) =~= init);
        assert(word_scan(js) == (init, Seq::<char>::empty()));
        assert(is_word(l)) by {
            assert(l == ws[ws.len() - 1]);
        }
        lemma_scan_extend(js, l);
        assert(Seq::<char>::empty() + l =~= l);
        assert(join_with(ws, " "@) == js + l);
    }
}

/// Splitting words joined by single spaces gives the words back.
pub proof fn lemma_words_of_joined(ws: Seq<Seq<char>>)
    requires
        forall|k: int| 0 <= k < ws.len() ==> is_word(#[trigger] ws[k]),
    ensures
        words(join_with(ws, " "@)) == ws,
{
    if ws.len() == 0 {
        assert(join_with(ws, " "@) == Seq::<char>::empty());
        assert(word_scan(Seq::<char>::empty()) == (Seq::<Seq<char>>::empty(), Seq::<char>::empty()));
    } else {
        lemma_scan_joined(ws);
        assert(is_word(ws.last())) by {
            assert(ws.last() == ws[ws.len() - 1]);
        }
        assert(ws.drop_last().push(ws.last()) =~= ws);
    }
}

/// Normalising whitespace twice is normalising it once.
pub proof fn lemma_normalized_idempotent(s: Seq<char>)
    ensures
        normalized(normalized(s)) == normalized(s),
{
    lemma_words_are_words(s);
    lemma_words_of_joined(words(s));
}

/// The words of `s` joined by `sep` (`s.split_whitespace().collect::<Vec<_>>().join(sep)`).
pub fn join_words(s: &str, sep: &str) -> (r: String)
    ensures
        r@ == join_with(words(s@), sep@),
{
    let n = s.unicode_len();
    let mut out = String::new();
    let mut cur = String::new();
    let mut any = false;
    let mut i: usize = 0;
    while i < n
        invariant
            n == s@.len(),
            0 <= i <= n,
            word_scan(s@.take(i as int)).1 == cur@,
            out@ == join_with(word_scan(s@.take(i as int)).0, sep@),
            any == (word_scan(s@.take(i as int)).0.len() > 0),
        decreases n - i,
    {
        let c = s.get_char(i);
        let ghost prev = s@.take(i as int);
        assert(s@.take(i + 1).drop_last() =~= prev);
        assert(s@.take(i + 1).last() == c);
        if is_whitespace_char(c) {
            if cur.unicode_len() > 0 {
                proof {
                    lemma_join_push(word_scan(prev).0, cur@, sep@);
                }
                if any {
                    out.append(sep);
                }
                out.append(cur.as_str());
                cur = String::new();
                any = true;
            }
        } else {
            push_char(&mut cur, c);
        }
        i = i + 1;
    }
    assert(s@.take(n as int) =~= s@);
    if cur.unicode_len() > 0 {
        proof {
            lemma_join_push(word_scan(s@).0, cur@, sep@);
        }
        if any {
            out.append(sep);
        }
        out.append(cur.as_str());
    }
    out
}

/// `s` without leading whitespace.
pub open spec fn trim_start(s: Seq<char>) -> Seq<char>
    decreases s.len(),
{
    if s.len() > 0 && is_white_space(s[0]) {
        trim_start(s.drop_first())
    } else {
        s
    }
}

/// `s` without trailing whitespace.
pub open spec fn trim_end(s: Seq<char>) -> Seq<char>
    decreases s.len(),
{
    if s.len() > 0 && is_white_space(s.last()) {
        trim_end(s.drop_last())
    } else {
        s
    }
}

/// `s` without leading and trailing whitespace (`str::trim`).
pub open spec fn trim(s: Seq<char>) -> Seq<char> {
    trim_end(trim_start(s))
}

/// `str::trim`: the slice without leading and trailing whitespace.
pub fn trim_str(s: &str) -> (r: &str)
    ensures
        r@ == trim(s@),
{
    let n = s.unicode_len();
    let mut i: usize = 0;
    assert(s@.subrange(0, n as int) =~= s@);
    while i < n && is_whitespace_char(s.get_char(i))
        invariant
            n == s@.len(),
            0 <= i <= n,
            trim_start(s@) == trim_start(s@.subrange(i as int, n as int)),
        decreases n - i,
    {
        assert(s@.subrange(i as int, n as int).drop_first() =~= s@.subrange(i + 1, n as int));
        i = i + 1;
    }
    assert(trim_start(s@.subrange(i as int, n as int)) == s@.subrange(i as int, n as int));
    let mut j: usize = n;
    while j > i && is_whitespace_char(s.get_char(j - 1))
        invariant
            n == s@.len(),
            0 <= i <= j <= n,
            trim(s@) == trim_end(s@.subrange(i as int, j as int)),
        decreases j,
    {
        assert(s@.subrange(i as int, j as int).drop_last() =~= s@.subrange(i as int, j - 1));
        j = j - 1;
    }
    s.substring_char(i, j)
}

// ---------------------------------------------------------------------------
// Paths and numbers
// ---------------------------------------------------------------------------

/// `Path::join` on Unix: an absolute `name` replaces `dir`; otherwise `name`
/// is appended after a `/` unless `dir` is empty or already ends with `/`.
pub open spec fn path_join(dir: Seq<char>, name: Seq<char>) -> Seq<char> {
    if name.len() > 0 && name[0] == '/' {
        name
    } else if dir.len() == 0 || dir.last() == '/' {
        dir + name
    } else {
        dir + seq!['/'] + name
    }
}

/// Whether the path is absolute (starts at the root `/`).
pub open spec fn is_absolute(p: Seq<char>) -> bool {
    p.len() > 0 && p[0] == '/'
}

pub fn join_path(dir: &str, name: &str) -> (r: String)
    ensures
        r@ == path_join(dir@, name@),
{
    let m = name.unicode_len();
    if m > 0 && name.get_char(0) == '/' {
        return owned(name);
    }
    let n = dir.unicode_len();
    let mut r = owned(dir);
    if n > 0 && dir.get_char(n - 1) != '/' {
        push_char(&mut r, '/');
    }
    r.append(name);
    r
}

pub fn path_is_absolute(p: &str) -> (r: bool)
    ensures
        r == is_absolute(p@),
{
    p.unicode_len() > 0 && p.get_char(0) == '/'
}

pub open spec fn digit_char(d: nat) -> char {
    if d == 0 {
        '0'
    } else if d == 1 {
        '1'
    } else if d == 2 {
        '2'
    } else if d == 3 {
        '3'
    } else if d == 4 {
        '4'
    } else if d == 5 {
        '5'
    } else if d == 6 {
        '6'
    } else if d == 7 {
        '7'
    } else if d == 8 {
        '8'
    } else {
        '9'
    }
}

/// Decimal notation of `n` without leading zeros.
pub open spec fn decimal(n: nat) -> Seq<char>
    decreases n,
{
    if n < 10 {
        seq![digit_char(n)]
    } else {
        decimal(n / 10).push(digit_char(n % 10))
    }
}

proof fn lemma_decimal_len(n: nat)
    ensures
        decimal(n).len() >= 1,
        n >= 10 ==> decimal(n).len() >= 2,
    decreases n,
{
    if n >= 10 {
        lemma_decimal_len(n / 10);
    }
}

/// Distinct numbers have distinct decimal texts.
pub proof fn lemma_decimal_injective(a: nat, b: nat)
    requires
        decimal(a) == decimal(b),
    ensures
        a == b,
    decreases a,
{
    lemma_decimal_len(a);
    lemma_decimal_len(b);
    if a < 10 && b < 10 {
        assert(decimal(a)[0] == digit_char(a));
        assert(decimal(b)[0] == digit_char(b));
    } else if a >= 10 && b >= 10 {
        assert(decimal(a).drop_last() =~= decimal(a / 10));
        assert(decimal(b).drop_last() =~= decimal(b / 10));
        assert(decimal(a).last() == digit_char(a % 10));
        assert(decimal(b).last() == digit_char(b % 10));
        lemma_decimal_injective(a / 10, b / 10);
        assert(a % 10 == b % 10);
    }
}

/// Files named `<prefix><n><suffix>` in one directory differ for
/// different numbers (the prefix does not start with `/`).
pub proof fn lemma_numbered_paths_differ(dir: Seq<char>, prefix: Seq<char>, suffix: Seq<char>, a: nat, b: nat)
    requires
        prefix.len() > 0,
        prefix[0] != '/',
        a != b,
    ensures
        path_join(dir, prefix + decimal(a) + suffix) != path_join(dir, prefix + decimal(b) + suffix),
{
    let na = prefix + decimal(a) + suffix;
    let nb = prefix + decimal(b) + suffix;
    let pa = path_join(dir, na);
    let pb = path_join(dir, nb);
    if pa == pb {
        assert(na[0] == prefix[0]);
        assert(nb[0] == prefix[0]);
        if dir.len() == 0 || dir.last() == '/' {
            assert(na =~= pa.subrange(dir.len() as int, pa.len() as int));
            assert(nb =~= pb.subrange(dir.len() as int, pb.len() as int));
        } else {
            assert(na =~= pa.subrange(dir.len() as int + 1, pa.len() as int));
            assert(nb =~= pb.subrange(dir.len() as int + 1, pb.len() as int));
        }
        let lo = prefix.len() as int;
        assert(decimal(a) =~= na.subrange(lo, na.len() - suffix.len()));
        assert(decimal(b) =~= nb.subrange(lo, nb.len() - suffix.len()));
        lemma_decimal_injective(a, b);
    }
}

fn digit(d: u64) -> (c: char)
    requires
        d < 10,
    ensures
        c == digit_char(d as nat),
{
    if d == 0 {
        '0'
    } else if d == 1 {
        '1'
    } else if d == 2 {
        '2'
    } else if d == 3 {
        '3'
    } else if d == 4 {
        '4'
    } else if d == 5 {
        '5'
    } else if d == 6 {
        '6'
    } else if d == 7 {
        '7'
    } else if d == 8 {
        '8'
    } else {
        '9'
    }
}

/// Decimal text of `n` (`n.to_string()`).
pub fn decimal_string(n: u64) -> (r: String)
    ensures
        r@ == decimal(n as nat),
    decreases n,
{
    if n < 10 {
        let mut s = String::new();
        push_char(&mut s, digit(n));
        assert(s@ =~= seq![digit_char(n as nat)]);
        s
    } else {
        let mut s = decimal_string(n / 10);
        push_char(&mut s, digit(n % 10));
        s
    }
}

/// Decimal notation of a signed number (`-` before negative numbers).
pub open spec fn signed_decimal(v: int) -> Seq<char> {
    if v < 0 {
        seq!['-'] + decimal((-v) as nat)
    } else {
        decimal(v as nat)
    }
}

/// Decimal text of `v` (`v.to_string()`).
pub fn i32_decimal_string(v: i32) -> (r: String)
    ensures
        r@ == signed_decimal(v as int),
{
    if v < 0 {
        let w: i64 = v as i64;
        let m: u64 = (-w) as u64;
        let d = decimal_string(m);
        let mut r = String::new();
        push_char(&mut r, '-');
        r.append(d.as_str());
        assert(r@ =~= seq!['-'] + decimal((-v) as nat));
        r
    } else {
        decimal_string(v as u64)
    }
}

/// The strings joined with `sep` between consecutive ones.
pub fn join_strings(v: &Vec<String>, sep: &str) -> (r: String)
    ensures
        r@ == join_with(views(v@), sep@),
{
    let mut out = String::new();
    let mut i: usize = 0;
    while i < v.len()
        invariant
            0 <= i <= v.len(),
            out@ == join_with(views(v@.take(i as int)), sep@),
        decreases v.len() - i,
    {
        proof {
            lemma_views_take_push(v@, i as int);
            lemma_join_push(views(v@.take(i as int)), v@[i as int]@, sep@);
        }
        if i > 0 {
            out.append(sep);
        }
        out.append(v[i].as_str());
        i = i + 1;
    }
    assert(v@.take(v.len() as int) =~= v@);
    out
}

} // verus!
