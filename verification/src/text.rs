//! Character-level string operations with their meaning stated over `Seq<char>`.
use vstd::prelude::*;
use vstd::string::{StrSliceExecFns, StringExecFns};

verus! {

broadcast use vstd::string::group_string_axioms;

/// The characters of `s`, in order.
pub fn to_chars(s: &str) -> (v: Vec<char>)
    ensures
        v@ == s@,
{
    let mut v: Vec<char> = Vec::new();
    for c in it: s.chars()
        invariant
            v@ == it.seq().take(it.index() as int),
            it.seq() == s@,
    {
        v.push(c);
    }
    v
}


/// Whether `a` and `b` hold the same characters.
pub fn str_eq(a: &str, b: &str) -> (r: bool)
    ensures
        r == (a@ == b@),
{
    let x = to_chars(a);
    let y = to_chars(b);
    if x.len() != y.len() {
        return false;
    }
    let mut i: usize = 0;
    while i < x.len()
        invariant
            x@ == a@,
            y@ == b@,
            x@.len() == y@.len(),
            i <= x@.len(),
            forall|j: int| 0 <= j < i ==> x@[j] == y@[j],
        decreases x@.len() - i,
    {
        if x[i] != y[i] {
            return false;
        }
        i = i + 1;
    }
    assert(a@ =~= b@);
    true
}

/// `p` occurs in `s` starting at position `i`.
pub open spec fn occurs_at(s: Seq<char>, p: Seq<char>, i: int) -> bool {
    0 <= i && i + p.len() <= s.len() && s.subrange(i, i + p.len()) == p
}

/// The last position, at or before `end`, at which `p` occurs in `s`.
pub open spec fn last_occurrence_upto(s: Seq<char>, p: Seq<char>, end: int) -> Option<int>
    decreases end + 1,
{
    if end < 0 {
        None
    } else if occurs_at(s, p, end) {
        Some(end)
    } else {
        last_occurrence_upto(s, p, end - 1)
    }
}

/// The position of the last occurrence of `p` in `s` (what `str::rfind` returns, counted
/// in characters).
pub open spec fn rfind_spec(s: Seq<char>, p: Seq<char>) -> Option<int> {
    last_occurrence_upto(s, p, s.len() - p.len())
}

/// `last_occurrence_upto` finds an occurrence at or before `end`, with none after it up to `end`.
pub proof fn lemma_last_occurrence_upto(s: Seq<char>, p: Seq<char>, end: int)
    ensures
        match last_occurrence_upto(s, p, end) {
            Some(i) => occurs_at(s, p, i) && i <= end && forall|j: int|
                i < j <= end ==> !#[trigger] occurs_at(s, p, j),
            None => forall|j: int| j <= end ==> !#[trigger] occurs_at(s, p, j),
        },
    decreases end + 1,
{
    if end >= 0 && !occurs_at(s, p, end) {
        lemma_last_occurrence_upto(s, p, end - 1);
    }
}

/// `rfind_spec` is the last occurrence: it occurs there, and nowhere after it.
pub proof fn lemma_rfind(s: Seq<char>, p: Seq<char>)
    ensures
        match rfind_spec(s, p) {
            Some(i) => occurs_at(s, p, i) && forall|j: int| i < j ==> !#[trigger] occurs_at(s, p, j),
            None => forall|j: int| !#[trigger] occurs_at(s, p, j),
        },
{
    lemma_last_occurrence_upto(s, p, s.len() - p.len());
}

/// An occurrence at `i` after which none follows is the one `rfind_spec` finds.
pub proof fn lemma_rfind_is(s: Seq<char>, p: Seq<char>, i: int)
    requires
        occurs_at(s, p, i),
        forall|j: int| i < j ==> !#[trigger] occurs_at(s, p, j),
    ensures
        rfind_spec(s, p) == Some(i),
{
    lemma_rfind(s, p);
    match rfind_spec(s, p) {
        Some(k) => {
            if k < i {
                assert(!occurs_at(s, p, i));
            }
            if k > i {
                assert(!occurs_at(s, p, k));
            }
        },
        None => {
            assert(!occurs_at(s, p, i));
        },
    }
}

/// Whether `p` occurs in `s` at position `i`.
fn matches_at(s: &Vec<char>, p: &Vec<char>, i: usize) -> (r: bool)
    requires
        i + p@.len() <= s@.len(),
    ensures
        r == occurs_at(s@, p@, i as int),
{
    let sl = s.len();
    let mut k: usize = 0;
    while k < p.len()
        invariant
            sl == s@.len(),
            k <= p@.len(),
            i + p@.len() <= s@.len(),
            forall|t: int| 0 <= t < k ==> s@[i + t] == p@[t],
        decreases p@.len() - k,
    {
        if s[i + k] != p[k] {
            assert(s@.subrange(i as int, i + p@.len())[k as int] != p@[k as int]);
            return false;
        }
        k = k + 1;
    }
    assert(s@.subrange(i as int, i + p@.len()) =~= p@);
    true
}

/// The position of the last occurrence of `p` in `s`, counted in characters.
pub fn rfind_chars(s: &Vec<char>, p: &Vec<char>) -> (r: Option<usize>)
    ensures
        match r {
            Some(i) => rfind_spec(s@, p@) == Some(i as int),
            None => rfind_spec(s@, p@) is None,
        },
{
    if p.len() > s.len() {
        assert(last_occurrence_upto(s@, p@, s@.len() - p@.len()) is None);
        return None;
    }
    let mut i: usize = s.len() - p.len();
    loop
        invariant
            i <= s@.len() - p@.len(),
            p@.len() <= s@.len(),
            rfind_spec(s@, p@) == last_occurrence_upto(s@, p@, i as int),
        decreases i,
    {
        if matches_at(s, p, i) {
            return Some(i);
        }
        if i == 0 {
            assert(last_occurrence_upto(s@, p@, -1) is None);
            return None;
        }
        i = i - 1;
    }
}

/// The position of the last occurrence of `p` in `s` (`str::rfind`, counted in characters).
pub fn rfind(s: &str, p: &str) -> (r: Option<usize>)
    ensures
        match r {
            Some(i) => rfind_spec(s@, p@) == Some(i as int),
            None => rfind_spec(s@, p@) is None,
        },
{
    let sc = to_chars(s);
    let pc = to_chars(p);
    rfind_chars(&sc, &pc)
}

/// Whether `c` has the Unicode `White_Space` property (what `char::is_whitespace` tests).
pub open spec fn is_white_space(c: char) -> bool {
    let n = c as u32;
    ||| n == 0x20
    ||| 0x09 <= n <= 0x0d
    ||| n == 0x85
    ||| n == 0xa0
    ||| n == 0x1680
    ||| 0x2000 <= n <= 0x200a
    ||| n == 0x2028
    ||| n == 0x2029
    ||| n == 0x202f
    ||| n == 0x205f
    ||| n == 0x3000
}

/// Whether `c` is white space in the sense of `is_white_space`.
pub fn white_space(c: char) -> (r: bool)
    ensures
        r == is_white_space(c),
{
    let n = c as u32;
    n == 0x20 || (0x09 <= n && n <= 0x0d) || n == 0x85 || n == 0xa0 || n == 0x1680 || (0x2000
        <= n && n <= 0x200a) || n == 0x2028 || n == 0x2029 || n == 0x202f || n == 0x205f || n
        == 0x3000
}

/// `s` without its leading white space.
pub open spec fn trim_start_spec(s: Seq<char>) -> Seq<char>
    decreases s.len(),
{
    if s.len() > 0 && is_white_space(s[0]) {
        trim_start_spec(s.drop_first())
    } else {
        s
    }
}

/// `s` without its trailing white space.
pub open spec fn trim_end_spec(s: Seq<char>) -> Seq<char>
    decreases s.len(),
{
    if s.len() > 0 && is_white_space(s.last()) {
        trim_end_spec(s.drop_last())
    } else {
        s
    }
}

/// `s` without its leading and trailing white space (what `str::trim` returns).
pub open spec fn trim_spec(s: Seq<char>) -> Seq<char> {
    trim_end_spec(trim_start_spec(s))
}

/// Leading white space: `trim_start_spec` drops exactly the white space before the first
/// character that is not white space.
proof fn lemma_trim_start(s: Seq<char>) -> (a: int)
    ensures
        0 <= a <= s.len(),
        trim_start_spec(s) == s.skip(a),
        forall|i: int| 0 <= i < a ==> is_white_space(#[trigger] s[i]),
        a < s.len() ==> !is_white_space(s[a]),
    decreases s.len(),
{
    if s.len() > 0 && is_white_space(s[0]) {
        let a1 = lemma_trim_start(s.drop_first());
        assert(s.drop_first().skip(a1) =~= s.skip(a1 + 1));
        assert forall|i: int| 0 <= i < a1 + 1 implies is_white_space(#[trigger] s[i]) by {
            if i > 0 {
                assert(s[i] == s.drop_first()[i - 1]);
            }
        }
        a1 + 1
    } else {
        assert(s.skip(0) =~= s);
        0
    }
}

/// Trailing white space: `trim_end_spec` drops exactly the white space after the last
/// character that is not white space.
proof fn lemma_trim_end(s: Seq<char>) -> (b: int)
    ensures
        0 <= b <= s.len(),
        trim_end_spec(s) == s.take(b),
        forall|i: int| b <= i < s.len() ==> is_white_space(#[trigger] s[i]),
        b > 0 ==> !is_white_space(s[b - 1]),
    decreases s.len(),
{
    if s.len() > 0 && is_white_space(s.last()) {
        let b1 = lemma_trim_end(s.drop_last());
        assert(s.drop_last().take(b1) =~= s.take(b1));
        assert forall|i: int| b1 <= i < s.len() implies is_white_space(#[trigger] s[i]) by {
            if i < s.len() - 1 {
                assert(s[i] == s.drop_last()[i]);
            }
        }
        b1
    } else {
        assert(s.take(s.len() as int) =~= s);
        s.len() as int
    }
}

/// Trimming keeps the characters from the first to the last that are not white space, and
/// drops the white space around them: all of a string that is only white space.
pub proof fn law_trim(s: Seq<char>)
    ensures
        exists|a: int, b: int|
            0 <= a <= b <= s.len() && #[trigger] trim_spec(s) == s.subrange(a, b) && (forall|i: int|
                0 <= i < a ==> is_white_space(#[trigger] s[i])) && (forall|i: int|
                b <= i < s.len() ==> is_white_space(#[trigger] s[i])) && (a < b ==> !is_white_space(
                s[a]) && !is_white_space(s[b - 1])),
{
    let a = lemma_trim_start(s);
    let t = s.skip(a);
    let b1 = lemma_trim_end(t);
    let b = a + b1;
    assert(t.take(b1) =~= s.subrange(a, b));
    assert forall|i: int| b <= i < s.len() implies is_white_space(#[trigger] s[i]) by {
        assert(s[i] == t[i - a]);
    }
    if a < b {
        assert(s[b - 1] == t[b1 - 1]);
    }
    assert(trim_spec(s) == s.subrange(a, b));
}

/// `s` without its leading and trailing white space.
pub fn trim(s: &str) -> (r: String)
    ensures
        r@ == trim_spec(s@),
{
    let v = to_chars(s);
    let n = v.len();
    let mut a: usize = 0;
    assert(s@.subrange(0, n as int) =~= s@);
    while a < n && white_space(v[a])
        invariant
            a <= n,
            n == s@.len(),
            v@ == s@,
            trim_start_spec(s@) == trim_start_spec(s@.subrange(a as int, n as int)),
        decreases n - a,
    {
        assert(s@.subrange(a as int, n as int).drop_first() =~= s@.subrange(a + 1, n as int));
        a = a + 1;
    }
    assert(trim_start_spec(s@) == s@.subrange(a as int, n as int));
    let mut b: usize = n;
    while b > a && white_space(v[b - 1])
        invariant
            a <= b <= n,
            n == s@.len(),
            v@ == s@,
            trim_spec(s@) == trim_end_spec(s@.subrange(a as int, b as int)),
        decreases b,
    {
        assert(s@.subrange(a as int, b as int).drop_last() =~= s@.subrange(a as int, b - 1));
        b = b - 1;
    }
    String::from_str(s.substring_char(a, b))
}


/// `s` with every occurrence of `p`, taken from left to right without overlap, replaced by `r`
/// (what `str::replace` returns for a non-empty pattern).
pub open spec fn replace_spec(s: Seq<char>, p: Seq<char>, r: Seq<char>) -> Seq<char>
    decreases s.len(),
{
    if s.len() == 0 {
        s
    } else if p.len() > 0 && occurs_at(s, p, 0) {
        r + replace_spec(s.skip(p.len() as int), p, r)
    } else {
        seq![s[0]] + replace_spec(s.drop_first(), p, r)
    }
}

/// Characters that cannot start the pattern pass through a replacement unchanged.
pub proof fn lemma_replace_passes_prefix(s: Seq<char>, t: Seq<char>, p: Seq<char>, r: Seq<char>)
    requires
        p.len() > 0,
        forall|i: int| 0 <= i < s.len() ==> s[i] != p[0],
    ensures
        replace_spec(s + t, p, r) == s + replace_spec(t, p, r),
    decreases s.len(),
{
    if s.len() > 0 {
        let st = s + t;
        assert(st[0] == s[0]);
        assert(!occurs_at(st, p, 0)) by {
            if occurs_at(st, p, 0) {
                assert(st.subrange(0, p.len() as int)[0] == st[0]);
            }
        }
        assert(st.drop_first() =~= s.drop_first() + t);
        lemma_replace_passes_prefix(s.drop_first(), t, p, r);
        assert(s =~= seq![s[0]] + s.drop_first());
    } else {
        assert(s + t =~= t);
    }
}

/// The pattern alone is replaced by the replacement.
pub proof fn lemma_replace_pattern(p: Seq<char>, r: Seq<char>)
    requires
        p.len() > 0,
    ensures
        replace_spec(p, p, r) == r,
{
    assert(p.subrange(0, p.len() as int) =~= p);
    assert(occurs_at(p, p, 0));
    assert(p.skip(p.len() as int) =~= Seq::<char>::empty());
    assert(replace_spec(Seq::<char>::empty(), p, r) == Seq::<char>::empty());
    assert(r + Seq::<char>::empty() =~= r);
}

/// A text that starts with the pattern is replaced by the replacement followed by the rest.
pub proof fn lemma_replace_leading_pattern(p: Seq<char>, t: Seq<char>, r: Seq<char>)
    requires
        p.len() > 0,
    ensures
        replace_spec(p + t, p, r) == r + replace_spec(t, p, r),
{
    assert((p + t).subrange(0, p.len() as int) =~= p);
    assert((p + t).skip(p.len() as int) =~= t);
}

/// With a one-character pattern, replacing in a concatenation replaces in each part.
pub proof fn lemma_replace_concat(x: Seq<char>, y: Seq<char>, c: char, r: Seq<char>)
    ensures
        replace_spec(x + y, seq![c], r) == replace_spec(x, seq![c], r) + replace_spec(y, seq![c], r),
    decreases x.len(),
{
    let p = seq![c];
    if x.len() == 0 {
        assert(x + y =~= y);
        assert(replace_spec(x, p, r) == Seq::<char>::empty());
        assert(Seq::<char>::empty() + replace_spec(y, p, r) =~= replace_spec(y, p, r));
    } else {
        let xy = x + y;
        assert(xy[0] == x[0]);
        assert(xy.drop_first() =~= x.drop_first() + y);
        assert(xy.skip(1) =~= x.skip(1) + y);
        assert(x.skip(1) =~= x.drop_first());
        lemma_replace_concat(x.drop_first(), y, c, r);
        if x[0] == c {
            assert(xy.subrange(0, 1) =~= p);
            assert(x.subrange(0, 1) =~= p);
            assert(replace_spec(xy, p, r) == r + replace_spec(xy.skip(1), p, r));
            assert(replace_spec(x, p, r) == r + replace_spec(x.skip(1), p, r));
            assert(r + (replace_spec(x.drop_first(), p, r) + replace_spec(y, p, r)) =~= (r
                + replace_spec(x.drop_first(), p, r)) + replace_spec(y, p, r));
        } else {
            assert(!occurs_at(xy, p, 0)) by {
                assert(xy.subrange(0, 1)[0] == xy[0]);
            }
            assert(!occurs_at(x, p, 0)) by {
                assert(x.subrange(0, 1)[0] == x[0]);
            }
            assert(seq![x[0]] + (replace_spec(x.drop_first(), p, r) + replace_spec(y, p, r))
                =~= (seq![x[0]] + replace_spec(x.drop_first(), p, r)) + replace_spec(y, p, r));
        }
    }
}

/// Escaping the quotes of a text: each `"` becomes `\"`, and every other character stays as it
/// is, in place.
pub proof fn law_quotes_escaped(x: Seq<char>, y: Seq<char>)
    ensures
        replace_spec(x + y, "\""@, "\\\""@) == replace_spec(x, "\""@, "\\\""@) + replace_spec(
            y,
            "\""@,
            "\\\""@,
        ),
        replace_spec("\""@, "\""@, "\\\""@) == "\\\""@,
        (forall|i: int| 0 <= i < x.len() ==> x[i] != '"') ==> replace_spec(x, "\""@, "\\\""@)
            == x,
{
    reveal_strlit("\"");
    let q = "\""@;
    let e = "\\\""@;
    assert(q =~= seq!['"']);
    lemma_replace_concat(x, y, '"', e);
    lemma_replace_pattern(q, e);
    if forall|i: int| 0 <= i < x.len() ==> x[i] != '"' {
        lemma_replace_passes_prefix(x, Seq::<char>::empty(), q, e);
        assert(x + Seq::<char>::empty() =~= x);
        assert(replace_spec(Seq::<char>::empty(), q, e) == Seq::<char>::empty());
        assert(x + Seq::<char>::empty() =~= x);
    }
}

/// `s` with every occurrence of the non-empty pattern `p` replaced by `r`.
pub fn replace_all(s: &str, p: &str, r: &str) -> (out: String)
    requires
        p@.len() > 0,
    ensures
        out@ == replace_spec(s@, p@, r@),
{
    let v = to_chars(s);
    let pc = to_chars(p);
    let n = v.len();
    let m = pc.len();
    let mut out = String::new();
    let mut seg: usize = 0;
    let mut i: usize = 0;
    assert(s@.skip(0) =~= s@);
    while i < n
        invariant
            seg <= i <= n,
            n == s@.len(),
            v@ == s@,
            pc@ == p@,
            m == p@.len(),
            m > 0,
            out@ + s@.subrange(seg as int, i as int) + replace_spec(s@.skip(i as int), p@, r@)
                == replace_spec(s@, p@, r@),
        decreases n - i,
    {
        let ghost rest = s@.skip(i as int);
        if m <= n - i && matches_at(&v, &pc, i) {
            proof {
                assert(rest.subrange(0, m as int) =~= s@.subrange(i as int, i + m));
                assert(rest.skip(m as int) =~= s@.skip(i + m));
                assert(replace_spec(rest, p@, r@) == r@ + replace_spec(s@.skip(i + m), p@, r@));
            }
            let ghost before = out@;
            out.append(s.substring_char(seg, i));
            out.append(r);
            proof {
                assert(s@.subrange((i + m) as int, (i + m) as int) =~= Seq::<char>::empty());
                assert(before + s@.subrange(seg as int, i as int) + (r@ + replace_spec(
                    s@.skip(i + m),
                    p@,
                    r@,
                )) =~= out@ + s@.subrange((i + m) as int, (i + m) as int) + replace_spec(
                    s@.skip(i + m),
                    p@,
                    r@,
                ));
            }
            i = i + m;
            seg = i;
        } else {
            proof {
                if m <= n - i {
                    assert(rest.subrange(0, m as int) =~= s@.subrange(i as int, i + m));
                }
                assert(!occurs_at(rest, p@, 0));
                assert(rest.drop_first() =~= s@.skip(i + 1));
                assert(replace_spec(rest, p@, r@) == seq![s@[i as int]] + replace_spec(
                    s@.skip(i + 1),
                    p@,
                    r@,
                ));
                assert(s@.subrange(seg as int, i as int) + seq![s@[i as int]] =~= s@.subrange(
                    seg as int,
                    i + 1,
                ));
                assert(out@ + s@.subrange(seg as int, i as int) + (seq![s@[i as int]]
                    + replace_spec(s@.skip(i + 1), p@, r@)) =~= out@ + s@.subrange(
                    seg as int,
                    i + 1,
                ) + replace_spec(s@.skip(i + 1), p@, r@));
            }
            i = i + 1;
        }
    }
    out.append(s.substring_char(seg, n));
    proof {
        assert(s@.skip(n as int) =~= Seq::<char>::empty());
        assert(out@ =~= replace_spec(s@, p@, r@));
    }
    out
}

/// `s` with `ins` inserted before the character at position `pos`.
pub fn insert_at(s: &str, pos: usize, ins: &str) -> (r: String)
    requires
        pos <= s@.len(),
    ensures
        r@ == s@.take(pos as int) + ins@ + s@.skip(pos as int),
{
    let n = s.unicode_len();
    let mut r = String::from_str(s.substring_char(0, pos));
    r.append(ins);
    r.append(s.substring_char(pos, n));
    proof {
        assert(s@.subrange(0, pos as int) =~= s@.take(pos as int));
        assert(s@.subrange(pos as int, n as int) =~= s@.skip(pos as int));
    }
    r
}


/// The characters of an optional string.
pub open spec fn opt_view(o: Option<String>) -> Option<Seq<char>> {
    match o {
        Some(s) => Some(s@),
        None => None,
    }
}

/// The characters of an optional string slice.
pub open spec fn opt_str_view(o: Option<&str>) -> Option<Seq<char>> {
    match o {
        Some(s) => Some(s@),
        None => None,
    }
}

} // verus!
