//! Character-level text helpers shared by the dictionaries and the renderers.
//!
//! Every string is modelled by its view, a `Seq<char>`; each helper states its
//! result over that view.
use vstd::prelude::*;

verus! {

/// The characters of `s`, in order.
pub fn chars_of(s: &str) -> (v: Vec<char>)
    ensures
        v@ == s@,
{
    let mut v: Vec<char> = Vec::new();
    for c in it: s.chars()
        invariant
            v@ == it.seq().take(it.index() as int),
            it.seq() == s@,
    {
        v.push(c);
    }
    v
}

/// Appends one character to a string (`String::push`).
#[verifier::external_body]
pub fn push_char(s: &mut String, c: char)
    ensures
        final(s)@ == old(s)@.push(c),
{
    s.push(c);
}

/// The string made of the characters `cs[from..to]`.
pub fn string_from_chars(cs: &Vec<char>, from: usize, to: usize) -> (s: String)
    requires
        from <= to <= cs@.len(),
    ensures
        s@ == cs@.subrange(from as int, to as int),
{
    let mut s = String::new();
    let mut i = from;
    while i < to
        invariant
            from <= i <= to <= cs@.len(),
            s@ == cs@.subrange(from as int, i as int),
        decreases to - i,
    {
        push_char(&mut s, cs[i]);
        i = i + 1;
    }
    s
}

/// A copy of `s` as an owned string.
pub fn owned(s: &str) -> (r: String)
    ensures
        r@ == s@,
{
    let mut r = String::new();
    r.append(s);
    r
}

/// Whether two character sequences are equal.
pub fn chars_eq(a: &Vec<char>, b: &Vec<char>) -> (r: bool)
    ensures
        r == (a@ == b@),
{
    if a.len() != b.len() {
        return false;
    }
    let mut i: usize = 0;
    while i < a.len()
        invariant
            a@.len() == b@.len(),
            i <= a@.len(),
            forall|j: int| 0 <= j < i ==> a@[j] == b@[j],
        decreases a.len() - i,
    {
        if a[i] != b[i] {
            return false;
        }
        i = i + 1;
    }
    assert(a@ =~= b@);
    true
}

/// Whether a string equals a given text.
pub fn str_eq(a: &str, b: &str) -> (r: bool)
    ensures
        r == (a@ == b@),
{
    let av = chars_of(a);
    let bv = chars_of(b);
    chars_eq(&av, &bv)
}

/// The Unicode `White_Space` property, the set that `char::is_whitespace`
/// tests.
pub open spec fn is_white_space(c: char) -> bool {
    ||| ('\u{9}' <= c && c <= '\u{d}')
    ||| c == ' '
    ||| c == '\u{85}'
    ||| c == '\u{a0}'
    ||| c == '\u{1680}'
    ||| ('\u{2000}' <= c && c <= '\u{200a}')
    ||| c == '\u{2028}'
    ||| c == '\u{2029}'
    ||| c == '\u{202f}'
    ||| c == '\u{205f}'
    ||| c == '\u{3000}'
}

/// Whether `c` is white space in the sense of `char::is_whitespace`.
pub fn is_whitespace(c: char) -> (b: bool)
    ensures
        b == is_white_space(c),
{
    ('\u{9}' <= c && c <= '\u{d}') || c == ' ' || c == '\u{85}' || c == '\u{a0}'
        || c == '\u{1680}' || ('\u{2000}' <= c && c <= '\u{200a}') || c == '\u{2028}'
        || c == '\u{2029}' || c == '\u{202f}' || c == '\u{205f}' || c == '\u{3000}'
}

/// `s` without its leading white space.
pub open spec fn trim_start(s: Seq<char>) -> Seq<char>
    decreases s.len(),
{
    if s.len() > 0 && is_white_space(s[0]) {
        trim_start(s.drop_first())
    } else {
        s
    }
}

/// `s` without its trailing white space.
pub open spec fn trim_end(s: Seq<char>) -> Seq<char>
    decreases s.len(),
{
    if s.len() > 0 && is_white_space(s.last()) {
        trim_end(s.drop_last())
    } else {
        s
    }
}

/// `s` without leading and trailing white space (`str::trim`).
pub open spec fn trim(s: Seq<char>) -> Seq<char> {
    trim_end(trim_start(s))
}

proof fn lemma_trim_start_at(s: Seq<char>, a: int)
    requires
        0 <= a <= s.len(),
        forall|j: int| 0 <= j < a ==> is_white_space(#[trigger] s[j]),
        a < s.len() ==> !is_white_space(s[a]),
    ensures
        trim_start(s) == s.subrange(a, s.len() as int),
    decreases a,
{
    if a == 0 {
        assert(s.subrange(0, s.len() as int) =~= s);
    } else {
        assert(is_white_space(s[0]));
        let t = s.drop_first();
        assert forall|j: int| 0 <= j < a - 1 implies is_white_space(#[trigger] t[j]) by {
            assert(t[j] == s[j + 1]);
        }
        lemma_trim_start_at(t, a - 1);
        assert(t.subrange(a - 1, t.len() as int) =~= s.subrange(a, s.len() as int));
    }
}

proof fn lemma_trim_end_at(s: Seq<char>, b: int)
    requires
        0 <= b <= s.len(),
        forall|j: int| b <= j < s.len() ==> is_white_space(#[trigger] s[j]),
        b > 0 ==> !is_white_space(s[b - 1]),
    ensures
        trim_end(s) == s.subrange(0, b),
    decreases s.len() - b,
{
    if b == s.len() {
        assert(s.subrange(0, b) =~= s);
    } else {
        assert(is_white_space(s.last()));
        let t = s.drop_last();
        assert forall|j: int| b <= j < t.len() implies is_white_space(#[trigger] t[j]) by {
            assert(t[j] == s[j]);
        }
        lemma_trim_end_at(t, b);
        assert(t.subrange(0, b) =~= s.subrange(0, b));
    }
}

/// `s` without leading and trailing white space.
pub fn trim_str(s: &str) -> (r: String)
    ensures
        r@ == trim(s@),
{
    let cs = chars_of(s);
    let n = cs.len();
    let mut a: usize = 0;
    while a < n && is_whitespace(cs[a])
        invariant
            a <= n == cs@.len(),
            forall|j: int| 0 <= j < a ==> is_white_space(#[trigger] cs@[j]),
        decreases n - a,
    {
        a = a + 1;
    }
    let mut b: usize = n;
    while b > a && is_whitespace(cs[b - 1])
        invariant
            a <= b <= n == cs@.len(),
            forall|j: int| b <= j < n ==> is_white_space(#[trigger] cs@[j]),
        decreases b,
    {
        b = b - 1;
    }
    proof {
        lemma_trim_start_at(cs@, a as int);
        let t = cs@.subrange(a as int, n as int);
        assert forall|j: int| b - a <= j < t.len() implies is_white_space(#[trigger] t[j]) by {
            assert(t[j] == cs@[j + a]);
        }
        if b > a {
            assert(!is_white_space(cs@[b - 1]));
            assert(t[b - a - 1] == cs@[b - 1]);
        }
        lemma_trim_end_at(t, b - a);
        assert(t.subrange(0, b - a) =~= cs@.subrange(a as int, b as int));
    }
    string_from_chars(&cs, a, b)
}


/// The white-space separated words of `s` (`str::split_whitespace`).
pub open spec fn split_ws(s: Seq<char>) -> Seq<Seq<char>>
    decreases s.len(),
{
    if s.len() == 0 {
        seq![]
    } else {
        let p = split_ws(s.drop_last());
        let c = s.last();
        if is_white_space(c) {
            p
        } else if s.len() >= 2 && !is_white_space(s[s.len() - 2]) {
            p.update(p.len() - 1, p.last().push(c))
        } else {
            p.push(seq![c])
        }
    }
}

proof fn lemma_split_ws_nonempty(s: Seq<char>)
    requires
        s.len() > 0,
        !is_white_space(s.last()),
    ensures
        split_ws(s).len() > 0,
    decreases s.len(),
{
    if s.len() >= 2 && !is_white_space(s[s.len() - 2]) {
        let t = s.drop_last();
        assert(t.last() == s[s.len() - 2]);
        lemma_split_ws_nonempty(t);
    }
}

/// The white-space separated words of `s`, in order.
pub fn split_whitespace(s: &str) -> (words: Vec<String>)
    ensures
        words.deep_view() == split_ws(s@),
{
    let cs = chars_of(s);
    let n = cs.len();
    let mut words: Vec<String> = Vec::new();
    let mut i: usize = 0;
    while i < n
        invariant
            i <= n == cs@.len(),
            cs@ == s@,
            words.deep_view() == split_ws(cs@.take(i as int)),
        decreases n - i,
    {
        let c = cs[i];
        let ghost before = words.deep_view();
        assert(cs@.take(i + 1).drop_last() =~= cs@.take(i as int));
        if is_whitespace(c) {
        } else if i >= 1 && !is_whitespace(cs[i - 1]) {
            proof {
                assert(cs@.take(i as int).last() == cs@[i - 1]);
                lemma_split_ws_nonempty(cs@.take(i as int));
            }
            let mut last = words.pop().unwrap();
            push_char(&mut last, c);
            words.push(last);
            assert(words.deep_view() =~= before.update(before.len() - 1, before.last().push(c)));
        } else {
            let mut w = String::new();
            push_char(&mut w, c);
            words.push(w);
            assert(words.deep_view() =~= before.push(seq![c]));
        }
        i = i + 1;
    }
    assert(cs@.take(n as int) =~= cs@);
    words
}

/// The index of the first occurrence of `c` in `s`.
pub open spec fn find_char(s: Seq<char>, c: char) -> Option<int>
    decreases s.len(),
{
    if s.len() == 0 {
        None
    } else if s[0] == c {
        Some(0)
    } else {
        match find_char(s.drop_first(), c) {
            Some(i) => Some(i + 1),
            None => None,
        }
    }
}

pub(crate) proof fn lemma_find_char(s: Seq<char>, c: char, i: int)
    requires
        0 <= i <= s.len(),
        forall|j: int| 0 <= j < i ==> s[j] != c,
        i < s.len() ==> s[i] == c,
    ensures
        find_char(s, c) == (if i < s.len() { Some(i) } else { None::<int> }),
    decreases i,
{
    if i > 0 {
        let t = s.drop_first();
        assert forall|j: int| 0 <= j < i - 1 implies t[j] != c by {
            assert(t[j] == s[j + 1]);
        }
        lemma_find_char(t, c, i - 1);
    }
}

/// The position of the first `c` in `s`, counted in characters.
pub fn find_char_index(s: &Vec<char>, c: char) -> (r: Option<usize>)
    ensures
        r matches Some(i) ==> find_char(s@, c) == Some(i as int) && i < s@.len() && s@[i as int]
            == c,
        r is None ==> find_char(s@, c) is None,
{
    let mut i: usize = 0;
    while i < s.len() && s[i] != c
        invariant
            i <= s@.len(),
            forall|j: int| 0 <= j < i ==> s@[j] != c,
        decreases s.len() - i,
    {
        i = i + 1;
    }
    proof {
        lemma_find_char(s@, c, i as int);
    }
    if i < s.len() {
        Some(i)
    } else {
        None
    }
}

/// The index of the last occurrence of `c` in `s`.
pub open spec fn rfind_char(s: Seq<char>, c: char) -> Option<int>
    decreases s.len(),
{
    if s.len() == 0 {
        None
    } else if s.last() == c {
        Some(s.len() - 1)
    } else {
        rfind_char(s.drop_last(), c)
    }
}

proof fn lemma_rfind_char(s: Seq<char>, c: char, b: int)
    requires
        0 <= b <= s.len(),
        forall|j: int| b <= j < s.len() ==> s[j] != c,
        b > 0 ==> s[b - 1] == c,
    ensures
        rfind_char(s, c) == (if b > 0 { Some(b - 1) } else { None::<int> }),
    decreases s.len() - b,
{
    if b < s.len() {
        let t = s.drop_last();
        assert forall|j: int| b <= j < t.len() implies t[j] != c by {
            assert(t[j] == s[j]);
        }
        lemma_rfind_char(t, c, b);
    }
}

/// `s` split around its last `c` (`str::rsplit_once`).
pub open spec fn rsplit_once(s: Seq<char>, c: char) -> Option<(Seq<char>, Seq<char>)> {
    match rfind_char(s, c) {
        Some(i) => Some((s.take(i), s.skip(i + 1))),
        None => None,
    }
}

/// `s` split around its last `c`, if it holds one.
pub fn rsplit_once_char(s: &str, c: char) -> (r: Option<(String, String)>)
    ensures
        r matches Some(p) ==> rsplit_once(s@, c) == Some((p.0@, p.1@)),
        r is None ==> rsplit_once(s@, c) is None,
{
    let cs = chars_of(s);
    let mut b: usize = cs.len();
    while b > 0 && cs[b - 1] != c
        invariant
            b <= cs@.len(),
            forall|j: int| b <= j < cs@.len() ==> cs@[j] != c,
        decreases b,
    {
        b = b - 1;
    }
    proof {
        lemma_rfind_char(cs@, c, b as int);
    }
    if b > 0 {
        let hd = string_from_chars(&cs, 0, b - 1);
        let tl = string_from_chars(&cs, b, cs.len());
        assert(cs@.subrange(0, b - 1) =~= cs@.take(b - 1));
        assert(cs@.subrange(b as int, cs@.len() as int) =~= cs@.skip(b as int));
        Some((hd, tl))
    } else {
        None
    }
}

/// Whether `needle` occurs in `hay` (`str::contains`).
pub open spec fn contains_seq(hay: Seq<char>, needle: Seq<char>) -> bool {
    exists|i: int|
        0 <= i && i + needle.len() <= hay.len() && #[trigger] hay.subrange(i, i + needle.len())
            == needle
}

/// Whether `needle` occurs in `hay`.
pub fn contains_str(hay: &str, needle: &str) -> (r: bool)
    ensures
        r == contains_seq(hay@, needle@),
{
    let h = chars_of(hay);
    let nd = chars_of(needle);
    if nd.len() > h.len() {
        return false;
    }
    if nd.len() == 0 {
        assert(h@.subrange(0, 0 + nd@.len() as int) =~= nd@);
        return true;
    }
    let hn = h.len();
    let nn = nd.len();
    let last = hn - nn;
    let mut i: usize = 0;
    while i <= last
        invariant
            hn == h@.len(),
            nn == nd@.len(),
            last + nn == hn,
            nn > 0,
            h@ == hay@,
            nd@ == needle@,
            forall|k: int| 0 <= k < i ==> #[trigger] h@.subrange(k, k + nd@.len()) != nd@,
        decreases last + 1 - i,
    {
        let mut j: usize = 0;
        let mut same = true;
        while same && j < nn
            invariant
                i <= last,
                hn == h@.len(),
                nn == nd@.len(),
                last + nn == hn,
                j <= nn,
                same ==> forall|k: int| 0 <= k < j ==> h@[i + k] == nd@[k],
                !same ==> j < nn && h@[i + j] != nd@[j as int],
            decreases nn - j + (if same { 1int } else { 0int }),
        {
            if h[i + j] == nd[j] {
                j = j + 1;
            } else {
                same = false;
            }
        }
        if same {
            assert(h@.subrange(i as int, i + nd@.len()) =~= nd@);
            return true;
        }
        assert(h@.subrange(i as int, i + nd@.len())[j as int] != nd@[j as int]);
        i = i + 1;
    }
    assert forall|k: int| 0 <= k && k + nd@.len() <= h@.len() implies #[trigger] h@.subrange(
        k,
        k + nd@.len(),
    ) != nd@ by {
        assert(k < i);
    }
    false
}


/// `l` without one trailing carriage return.
pub open spec fn strip_cr(l: Seq<char>) -> Seq<char> {
    if l.len() > 0 && l.last() == '\r' {
        l.drop_last()
    } else {
        l
    }
}

/// The lines completed so far in `s` and the text after the last line feed.
pub open spec fn lines_fold(s: Seq<char>) -> (Seq<Seq<char>>, Seq<char>)
    decreases s.len(),
{
    if s.len() == 0 {
        (seq![], seq![])
    } else {
        let (done, cur) = lines_fold(s.drop_last());
        if s.last() == '\n' {
            (done.push(strip_cr(cur)), seq![])
        } else {
            (done, cur.push(s.last()))
        }
    }
}

/// The lines of `s` (`str::lines`): split at each line feed, a carriage return
/// just before a line feed dropped, and no line after a final line feed.
pub open spec fn lines(s: Seq<char>) -> Seq<Seq<char>> {
    let (done, cur) = lines_fold(s);
    if cur.len() == 0 {
        done
    } else {
        done.push(cur)
    }
}

/// The lines of `s`.
pub fn split_lines(s: &str) -> (r: Vec<String>)
    ensures
        r.deep_view() == lines(s@),
{
    let cs = chars_of(s);
    let n = cs.len();
    let mut done: Vec<String> = Vec::new();
    let mut cur: Vec<char> = Vec::new();
    let mut i: usize = 0;
    while i < n
        invariant
            i <= n == cs@.len(),
            cs@ == s@,
            lines_fold(cs@.take(i as int)) == (done.deep_view(), cur@),
        decreases n - i,
    {
        assert(cs@.take(i + 1).drop_last() =~= cs@.take(i as int));
        let c = cs[i];
        if c == '\n' {
            let k = cur.len();
            let line = if k > 0 && cur[k - 1] == '\r' {
                string_from_chars(&cur, 0, k - 1)
            } else {
                string_from_chars(&cur, 0, k)
            };
            assert(cur@.subrange(0, k as int) =~= cur@);
            assert(cur@.subrange(0, k - 1) =~= cur@.drop_last());
            let ghost before = done.deep_view();
            done.push(line);
            assert(done.deep_view() =~= before.push(strip_cr(cur@)));
            cur = Vec::new();
            assert(cur@ =~= Seq::<char>::empty());
        } else {
            cur.push(c);
        }
        i = i + 1;
    }
    assert(cs@.take(n as int) =~= cs@);
    if cur.len() > 0 {
        let ghost before = done.deep_view();
        let last = string_from_chars(&cur, 0, cur.len());
        assert(cur@.subrange(0, cur@.len() as int) =~= cur@);
        done.push(last);
        assert(done.deep_view() =~= before.push(cur@));
    }
    done
}

/// The items of `list` joined by `sep` (`[String]::join`).
pub open spec fn join(list: Seq<Seq<char>>, sep: Seq<char>) -> Seq<char>
    decreases list.len(),
{
    if list.len() == 0 {
        seq![]
    } else if list.len() == 1 {
        list[0]
    } else {
        join(list.drop_last(), sep) + sep + list.last()
    }
}

/// The strings of `list` joined by `sep`.
pub fn join_strings(list: &Vec<String>, sep: &str) -> (r: String)
    ensures
        r@ == join(list.deep_view(), sep@),
{
    let mut r = String::new();
    let ghost dv = list.deep_view();
    let mut i: usize = 0;
    while i < list.len()
        invariant
            i <= list@.len(),
            dv == list.deep_view(),
            dv.len() == list@.len(),
            r@ == join(dv.take(i as int), sep@),
        decreases list.len() - i,
    {
        assert(dv.take(i + 1).drop_last() =~= dv.take(i as int));
        assert(dv[i as int] == list@[i as int]@);
        if i > 0 {
            r.append(sep);
        } else {
            assert(dv.take(0) =~= Seq::<Seq<char>>::empty());
        }
        r.append(list[i].as_str());
        i = i + 1;
    }
    assert(dv.take(list@.len() as int) =~= dv);
    r
}

/// The decimal digit for `d < 10`.
pub open spec fn digit_char(d: nat) -> char {
    (48 + d) as char
}

/// The decimal notation of `n`, as `usize`'s `Display` writes it.
pub open spec fn decimal(n: nat) -> Seq<char>
    decreases n,
{
    if n < 10 {
        seq![digit_char(n)]
    } else {
        decimal(n / 10).push(digit_char(n % 10))
    }
}

/// Appends the decimal notation of `n` to `s`.
pub fn push_decimal(s: &mut String, n: usize)
    ensures
        final(s)@ == old(s)@ + decimal(n as nat),
    decreases n,
{
    if n >= 10 {
        push_decimal(s, n / 10);
    }
    let d = (n % 10) as u32;
    let c = char_of_digit(d);
    push_char(s, c);
}

fn char_of_digit(d: u32) -> (c: char)
    requires
        d < 10,
    ensures
        c == digit_char(d as nat),
{
    if d == 0 { '0' }
    else if d == 1 { '1' }
    else if d == 2 { '2' }
    else if d == 3 { '3' }
    else if d == 4 { '4' }
    else if d == 5 { '5' }
    else if d == 6 { '6' }
    else if d == 7 { '7' }
    else if d == 8 { '8' }
    else { '9' }
}

/// `s` with each non-overlapping occurrence of `pat`, leftmost first,
/// replaced by `with` (`str::replace`).
pub open spec fn replace_all(s: Seq<char>, pat: Seq<char>, with: Seq<char>) -> Seq<char>
    recommends
        pat.len() > 0,
    decreases s.len(),
{
    if s.len() == 0 || pat.len() == 0 {
        s
    } else if pat.len() <= s.len() && s.take(pat.len() as int) == pat {
        with + replace_all(s.skip(pat.len() as int), pat, with)
    } else {
        seq![s[0]] + replace_all(s.drop_first(), pat, with)
    }
}

/// `s` with each occurrence of the non-empty `pat` replaced by `with`.
pub fn replace_str(s: &str, pat: &str, with: &str) -> (r: String)
    requires
        pat@.len() > 0,
    ensures
        r@ == replace_all(s@, pat@, with@),
{
    let cs = chars_of(s);
    let ps = chars_of(pat);
    let n = cs.len();
    let m = ps.len();
    let mut r = String::new();
    let mut i: usize = 0;
    assert(cs@.skip(0) =~= cs@);
    assert(r@ + replace_all(cs@, pat@, with@) =~= replace_all(cs@, pat@, with@));
    while i < n
        invariant
            i <= n == cs@.len(),
            m == ps@.len(),
            m > 0,
            cs@ == s@,
            ps@ == pat@,
            replace_all(s@, pat@, with@) == r@ + replace_all(cs@.skip(i as int), pat@, with@),
        decreases n - i,
    {
        let ghost rest = cs@.skip(i as int);
        let mut matched = m <= n - i;
        let mut j: usize = 0;
        while matched && j < m
            invariant
                i < n == cs@.len(),
                m == ps@.len(),
                j <= m,
                matched ==> m <= n - i,
                matched ==> forall|k: int| 0 <= k < j ==> cs@[i + k] == ps@[k],
                !matched ==> (m > n - i || (j < m && cs@[i + j] != ps@[j as int])),
            decreases m - j + (if matched { 1int } else { 0int }),
        {
            if cs[i + j] == ps[j] {
                j = j + 1;
            } else {
                matched = false;
            }
        }
        if matched {
            assert(rest.take(m as int) =~= ps@);
            r.append(with);
            assert(rest.skip(m as int) =~= cs@.skip(i + m));
            i = i + m;
        } else {
            if m <= n - i {
                assert(rest.take(m as int)[j as int] != ps@[j as int]);
            }
            push_char(&mut r, cs[i]);
            assert(rest.drop_first() =~= cs@.skip(i + 1));
            i = i + 1;
        }
    }
    assert(cs@.skip(n as int) =~= Seq::<char>::empty());
    r
}


/// Replacing in a text whose only occurrence of `pat` is at its end.
pub proof fn lemma_replace_once_at_end(p: Seq<char>, pat: Seq<char>, with: Seq<char>)
    requires
        pat.len() > 0,
        forall|i: int| 0 <= i < p.len() ==> p[i] != pat[0],
    ensures
        replace_all(p + pat, pat, with) == p + with,
    decreases p.len(),
{
    let s = p + pat;
    if p.len() == 0 {
        assert(s =~= pat);
        assert(s.take(pat.len() as int) =~= pat);
        assert(s.skip(pat.len() as int) =~= Seq::<char>::empty());
        assert(p + with =~= with);
        assert(with + Seq::<char>::empty() =~= with);
        assert(replace_all(Seq::<char>::empty(), pat, with) == Seq::<char>::empty());
        assert(replace_all(s, pat, with) == with + replace_all(s.skip(pat.len() as int), pat, with));
    } else {
        assert(s.take(pat.len() as int)[0] != pat[0]);
        let q = p.drop_first();
        assert forall|i: int| 0 <= i < q.len() implies q[i] != pat[0] by {
            assert(q[i] == p[i + 1]);
        }
        lemma_replace_once_at_end(q, pat, with);
        assert(s.drop_first() =~= q + pat);
        assert(p + with =~= seq![p[0]] + (q + with));
        assert(s[0] == p[0]);
        assert(s.take(pat.len() as int) != pat);
        assert(replace_all(s, pat, with) == seq![s[0]] + replace_all(s.drop_first(), pat, with));
    }
}


/// Appends `pre`, `s` and `post` to `r`.
pub fn append3(r: &mut String, pre: &str, s: &str, post: &str)
    ensures
        final(r)@ == old(r)@ + pre@ + s@ + post@,
{
    r.append(pre);
    r.append(s);
    r.append(post);
}

/// The characters of an optional string.
pub open spec fn opt_chars(o: Option<String>) -> Option<Seq<char>> {
    match o {
        Some(s) => Some(s@),
        None => None,
    }
}

/// A copy of a string.
pub fn copy_string(s: &String) -> (r: String)
    ensures
        r@ == s@,
{
    owned(s.as_str())
}


/// The concatenation of `f` applied to each element of `s`, in order.
pub open spec fn flat_map<A, B>(s: Seq<A>, f: spec_fn(A) -> Seq<B>) -> Seq<B>
    decreases s.len(),
{
    if s.len() == 0 {
        seq![]
    } else {
        flat_map(s.drop_last(), f) + f(s.last())
    }
}

/// Extending a prefix by one element extends the concatenation by that
/// element's image.
pub proof fn lemma_flat_map_take<A, B>(s: Seq<A>, f: spec_fn(A) -> Seq<B>, i: int)
    requires
        0 <= i < s.len(),
    ensures
        flat_map(s.take(i + 1), f) == flat_map(s.take(i), f) + f(s[i]),
{
    assert(s.take(i + 1).drop_last() =~= s.take(i));
}

/// The concatenation over a whole sequence is that over its full prefix.
pub proof fn lemma_take_all<A>(s: Seq<A>)
    ensures
        s.take(s.len() as int) == s,
{
    assert(s.take(s.len() as int) =~= s);
}

} // verus!
