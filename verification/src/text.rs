//! Character-level text helpers: trimming, case folding, searching and
//! line clean-up, each stated over the `Seq<char>` view of a string.

use vstd::prelude::*;

verus! {

/// The characters that a trimming operation removes.
#[derive(Clone, Copy, PartialEq, Eq, Debug, Structural)]
pub enum CharClass {
    /// Characters with the Unicode `White_Space` property.
    Whitespace,
    /// The NUL character `'\0'`.
    Nul,
    /// The slash `'/'`.
    Slash,
}

/// The Unicode `White_Space` property, which `char::is_whitespace` tests.
pub open spec fn is_white_space(c: char) -> bool {
    let n = c as u32;
    ||| 0x09 <= n <= 0x0D
    ||| n == 0x20
    ||| n == 0x85
    ||| n == 0xA0
    ||| n == 0x1680
    ||| 0x2000 <= n <= 0x200A
    ||| n == 0x2028
    ||| n == 0x2029
    ||| n == 0x202F
    ||| n == 0x205F
    ||| n == 0x3000
}

pub open spec fn in_class(k: CharClass, c: char) -> bool {
    match k {
        CharClass::Whitespace => is_white_space(c),
        CharClass::Nul => c == '\0',
        CharClass::Slash => c == '/',
    }
}

/// `s` with every leading character of class `k` removed.
pub open spec fn trim_start_seq(s: Seq<char>, k: CharClass) -> Seq<char>
    decreases s.len(),
{
    if s.len() > 0 && in_class(k, s[0]) {
        trim_start_seq(s.drop_first(), k)
    } else {
        s
    }
}

/// `s` with every trailing character of class `k` removed.
pub open spec fn trim_end_seq(s: Seq<char>, k: CharClass) -> Seq<char>
    decreases s.len(),
{
    if s.len() > 0 && in_class(k, s.last()) {
        trim_end_seq(s.drop_last(), k)
    } else {
        s
    }
}

/// `s` with the leading and trailing characters of class `k` removed.
pub open spec fn trim_seq(s: Seq<char>, k: CharClass) -> Seq<char> {
    trim_end_seq(trim_start_seq(s, k), k)
}

/// Whitespace trimming, as `str::trim` does it.
pub open spec fn trim_ws(s: Seq<char>) -> Seq<char> {
    trim_seq(s, CharClass::Whitespace)
}

/// ASCII lower-casing of one character, as `char::to_ascii_lowercase` does it.
pub open spec fn ascii_lower(c: char) -> char {
    if 'A' <= c <= 'Z' {
        ((c as u32) + 32) as char
    } else {
        c
    }
}

/// ASCII lower-casing of a string, as `str::to_ascii_lowercase` does it.
pub open spec fn ascii_lower_seq(s: Seq<char>) -> Seq<char> {
    s.map_values(|c: char| ascii_lower(c))
}

/// `needle` occurs in `hay` starting at index `i`.
pub open spec fn occurs_at(hay: Seq<char>, needle: Seq<char>, i: int) -> bool {
    0 <= i && i + needle.len() <= hay.len() && hay.subrange(i, i + needle.len()) == needle
}

/// `needle` occurs somewhere in `hay`, as `str::contains` tests it.
pub open spec fn contains_seq(hay: Seq<char>, needle: Seq<char>) -> bool {
    exists|i: int| occurs_at(hay, needle, i)
}

/// The first `n` characters of `s` (all of them when `s` is shorter).
pub open spec fn take_seq(s: Seq<char>, n: nat) -> Seq<char> {
    if n < s.len() {
        s.take(n as int)
    } else {
        s
    }
}

/// The pieces of `s` between its `'\n'` characters, as `str::split('\n')` gives them.
pub open spec fn split_lines(s: Seq<char>) -> Seq<Seq<char>>
    decreases s.len(),
{
    if s.len() == 0 {
        seq![Seq::<char>::empty()]
    } else {
        let rest = split_lines(s.drop_last());
        if s.last() == '\n' {
            rest.push(Seq::<char>::empty())
        } else {
            rest.update(rest.len() - 1, rest.last().push(s.last()))
        }
    }
}

/// The pieces of `lines` joined with `'\n'` between them.
pub open spec fn join_lines(lines: Seq<Seq<char>>) -> Seq<char>
    decreases lines.len(),
{
    if lines.len() == 0 {
        Seq::<char>::empty()
    } else if lines.len() == 1 {
        lines[0]
    } else {
        join_lines(lines.drop_last()) + seq!['\n'] + lines.last()
    }
}

/// Every line of `s` with its trailing whitespace removed, joined again with `'\n'`.
pub open spec fn trim_line_ends(s: Seq<char>) -> Seq<char> {
    join_lines(split_lines(s).map_values(|l: Seq<char>| trim_end_seq(l, CharClass::Whitespace)))
}

/// The decimal digits of `n`, most significant first, as `Display` writes an unsigned integer.
pub open spec fn decimal(n: nat) -> Seq<char>
    decreases n,
{
    if n < 10 {
        seq![digit_char(n)]
    } else {
        decimal(n / 10).push(digit_char(n % 10))
    }
}

pub open spec fn digit_char(d: nat) -> char {
    (('0' as u32) + d) as char
}

pub fn char_in_class(k: CharClass, c: char) -> (r: bool)
    ensures
        r == in_class(k, c),
{
    match k {
        CharClass::Whitespace => is_whitespace_char(c),
        CharClass::Nul => c == '\0',
        CharClass::Slash => c == '/',
    }
}

/// Whether `c` has the Unicode `White_Space` property.
pub fn is_whitespace_char(c: char) -> (r: bool)
    ensures
        r == is_white_space(c),
{
    let n = c as u32;
    (0x09 <= n && n <= 0x0D) || n == 0x20 || n == 0x85 || n == 0xA0 || n == 0x1680 || (0x2000
        <= n && n <= 0x200A) || n == 0x2028 || n == 0x2029 || n == 0x202F || n == 0x205F || n
        == 0x3000
}

pub fn ascii_lower_char(c: char) -> (r: char)
    ensures
        r == ascii_lower(c),
{
    if 'A' <= c && c <= 'Z' {
        let n = (c as u32) + 32;
        assert(0x61 <= n <= 0x7A);
        char_from_ascii_code(n)
    } else {
        c
    }
}

fn char_from_ascii_code(n: u32) -> (c: char)
    requires
        n < 0x80,
    ensures
        c == n as char,
{
    let b = n as u8;
    b as char
}

/// The characters of `s`, in order.
pub fn chars_of(s: &str) -> (v: Vec<char>)
    ensures
        v@ == s@,
{
    let mut v: Vec<char> = Vec::new();
    for c in it: s.chars()
        invariant
            v@ == it.seq().take(it.index() as int),
    {
        v.push(c);
    }
    v
}

/// Appends one character to a string with `String::push`.
#[verifier::external_body]
pub(crate) fn push_char(s: &mut String, c: char)
    ensures
        final(s)@ == old(s)@.push(c),
{
    s.push(c);
}

/// The string made of `v[from..to]`.
pub fn string_of_range(v: &Vec<char>, from: usize, to: usize) -> (s: String)
    requires
        from <= to <= v@.len(),
    ensures
        s@ == v@.subrange(from as int, to as int),
{
    let mut s = String::new();
    let mut i = from;
    while i < to
        invariant
            from <= i <= to <= v@.len(),
            s@ == v@.subrange(from as int, i as int),
        decreases to - i,
    {
        push_char(&mut s, v[i]);
        assert(v@.subrange(from as int, i + 1) =~= v@.subrange(from as int, i as int).push(v@[i as int]));
        i = i + 1;
    }
    s
}

/// The string made of the characters of `v`.
pub fn string_of(v: &Vec<char>) -> (s: String)
    ensures
        s@ == v@,
{
    let s = string_of_range(v, 0, v.len());
    assert(v@.subrange(0, v@.len() as int) =~= v@);
    s
}

/// A copy of `s` as an owned `String`.
pub fn owned(s: &str) -> (r: String)
    ensures
        r@ == s@,
{
    let v = chars_of(s);
    string_of(&v)
}

/// `a + b`.
pub fn concat(a: &str, b: &str) -> (r: String)
    ensures
        r@ == a@ + b@,
{
    let mut r = owned(a);
    r.append(b);
    r
}

/// `a + b + c`.
pub fn concat3(a: &str, b: &str, c: &str) -> (r: String)
    ensures
        r@ == a@ + b@ + c@,
{
    let mut r = owned(a);
    r.append(b);
    r.append(c);
    r
}

/// Whether the two strings hold the same characters.
pub fn str_eq(a: &str, b: &str) -> (r: bool)
    ensures
        r == (a@ == b@),
{
    let va = chars_of(a);
    let vb = chars_of(b);
    if va.len() != vb.len() {
        return false;
    }
    let mut i: usize = 0;
    while i < va.len()
        invariant
            va@ == a@,
            vb@ == b@,
            va@.len() == vb@.len(),
            i <= va@.len(),
            forall|j: int| 0 <= j < i ==> va@[j] == vb@[j],
        decreases va@.len() - i,
    {
        if va[i] != vb[i] {
            return false;
        }
        i = i + 1;
    }
    assert(va@ =~= vb@);
    true
}

proof fn lemma_trim_start_at(s: Seq<char>, k: CharClass, i: int)
    requires
        0 <= i <= s.len(),
        forall|j: int| 0 <= j < i ==> in_class(k, #[trigger] s[j]),
        i == s.len() || !in_class(k, s[i]),
    ensures
        trim_start_seq(s, k) == s.subrange(i, s.len() as int),
    decreases i,
{
    if i == 0 {
        assert(s.subrange(0, s.len() as int) =~= s);
    } else {
        let t = s.drop_first();
        assert forall|j: int| 0 <= j < i - 1 implies in_class(k, #[trigger] t[j]) by {
            assert(t[j] == s[j + 1]);
        }
        lemma_trim_start_at(t, k, i - 1);
        assert(t.subrange(i - 1, t.len() as int) =~= s.subrange(i, s.len() as int));
    }
}

proof fn lemma_trim_end_at(s: Seq<char>, k: CharClass, e: int)
    requires
        0 <= e <= s.len(),
        forall|j: int| e <= j < s.len() ==> in_class(k, #[trigger] s[j]),
        e == 0 || !in_class(k, s[e - 1]),
    ensures
        trim_end_seq(s, k) == s.subrange(0, e),
    decreases s.len() - e,
{
    if e == s.len() {
        assert(s.subrange(0, e) =~= s);
    } else {
        let t = s.drop_last();
        assert forall|j: int| e <= j < t.len() implies in_class(k, #[trigger] t[j]) by {
            assert(t[j] == s[j]);
        }
        lemma_trim_end_at(t, k, e);
        assert(t.subrange(0, e) =~= s.subrange(0, e));
    }
}

/// The bounds `(start, end)` of `v` with the characters of class `k` trimmed at both ends.
pub fn trim_bounds(v: &Vec<char>, k: CharClass) -> (r: (usize, usize))
    ensures
        r.0 <= r.1 <= v@.len(),
        v@.subrange(r.0 as int, r.1 as int) == trim_seq(v@, k),
{
    let n = v.len();
    let mut i: usize = 0;
    while i < n && char_in_class(k, v[i])
        invariant
            n == v@.len(),
            i <= n,
            forall|j: int| 0 <= j < i ==> in_class(k, #[trigger] v@[j]),
        decreases n - i,
    {
        i = i + 1;
    }
    proof {
        lemma_trim_start_at(v@, k, i as int);
    }
    let ghost t = v@.subrange(i as int, n as int);
    let mut e: usize = n;
    while e > i && char_in_class(k, v[e - 1])
        invariant
            n == v@.len(),
            i <= e <= n,
            t == v@.subrange(i as int, n as int),
            forall|j: int| e <= j < n ==> in_class(k, #[trigger] v@[j]),
        decreases e - i,
    {
        e = e - 1;
    }
    proof {
        assert forall|j: int| e - i <= j < t.len() implies in_class(k, #[trigger] t[j]) by {
            assert(t[j] == v@[j + i]);
        }
        if e > i {
            assert(t[e - i - 1] == v@[e - 1]);
        }
        lemma_trim_end_at(t, k, e - i);
        assert(t.subrange(0, e - i) =~= v@.subrange(i as int, e as int));
    }
    (i, e)
}

/// `s` with the characters of class `k` removed from both ends.
pub fn trim_class(s: &str, k: CharClass) -> (r: String)
    ensures
        r@ == trim_seq(s@, k),
{
    let v = chars_of(s);
    let (a, b) = trim_bounds(&v, k);
    string_of_range(&v, a, b)
}

/// `s` with the trailing characters of class `k` removed.
pub fn trim_end_class(s: &str, k: CharClass) -> (r: String)
    ensures
        r@ == trim_end_seq(s@, k),
{
    let v = chars_of(s);
    let ghost t = v@;
    let mut e: usize = v.len();
    while e > 0 && char_in_class(k, v[e - 1])
        invariant
            e <= v@.len(),
            t == v@,
            forall|j: int| e <= j < v@.len() ==> in_class(k, #[trigger] v@[j]),
        decreases e,
    {
        e = e - 1;
    }
    proof {
        lemma_trim_end_at(t, k, e as int);
    }
    string_of_range(&v, 0, e)
}

/// `s` with leading and trailing whitespace removed, as `str::trim` does it.
pub fn trim(s: &str) -> (r: String)
    ensures
        r@ == trim_ws(s@),
{
    trim_class(s, CharClass::Whitespace)
}

/// Whether `s` is empty once its surrounding whitespace is removed.
pub fn is_blank(s: &str) -> (r: bool)
    ensures
        r == (trim_ws(s@).len() == 0),
{
    let t = trim(s);
    t.unicode_len() == 0
}

/// `v[0..to]` with its trailing whitespace removed.
pub fn trim_end_range(v: &Vec<char>, to: usize) -> (r: usize)
    requires
        to <= v@.len(),
    ensures
        r <= to,
        v@.subrange(0, r as int) == trim_end_seq(v@.subrange(0, to as int), CharClass::Whitespace),
{
    let ghost t = v@.subrange(0, to as int);
    let mut e = to;
    while e > 0 && is_whitespace_char(v[e - 1])
        invariant
            e <= to <= v@.len(),
            t == v@.subrange(0, to as int),
            forall|j: int| e <= j < to ==> is_white_space(#[trigger] v@[j]),
        decreases e,
    {
        e = e - 1;
    }
    proof {
        assert forall|j: int| e <= j < t.len() implies in_class(
            CharClass::Whitespace,
            #[trigger] t[j],
        ) by {
            assert(t[j] == v@[j]);
        }
        if e > 0 {
            assert(t[e - 1] == v@[e - 1]);
        }
        lemma_trim_end_at(t, CharClass::Whitespace, e as int);
        assert(t.subrange(0, e as int) =~= v@.subrange(0, e as int));
    }
    e
}

/// ASCII lower-casing, as `str::to_ascii_lowercase` does it.
pub fn to_ascii_lowercase(s: &str) -> (r: Vec<char>)
    ensures
        r@ == ascii_lower_seq(s@),
{
    let v = chars_of(s);
    let mut out: Vec<char> = Vec::new();
    let mut i: usize = 0;
    while i < v.len()
        invariant
            v@ == s@,
            i <= v@.len(),
            out@ == ascii_lower_seq(v@.take(i as int)),
        decreases v@.len() - i,
    {
        out.push(ascii_lower_char(v[i]));
        assert(ascii_lower_seq(v@.take(i + 1)) =~= ascii_lower_seq(v@.take(i as int)).push(
            ascii_lower(v@[i as int]),
        ));
        i = i + 1;
    }
    assert(v@.take(v@.len() as int) =~= v@);
    out
}

/// Whether `needle` occurs in `hay` at index `i`.
pub fn occurs_at_exec(hay: &Vec<char>, needle: &Vec<char>, i: usize) -> (r: bool)
    ensures
        r == occurs_at(hay@, needle@, i as int),
{
    if i > hay.len() || needle.len() > hay.len() - i {
        return false;
    }
    let hl = hay.len();
    let mut j: usize = 0;
    while j < needle.len()
        invariant
            hl == hay@.len(),
            i + needle@.len() <= hay@.len(),
            j <= needle@.len(),
            forall|m: int| 0 <= m < j ==> hay@[i + m] == needle@[m],
        decreases needle@.len() - j,
    {
        assert(i + j < hay@.len());
        if hay[i + j] != needle[j] {
            proof {
                let sub = hay@.subrange(i as int, i + needle@.len());
                assert(sub[j as int] == hay@[i + j]);
            }
            return false;
        }
        j = j + 1;
    }
    assert(hay@.subrange(i as int, i + needle@.len()) =~= needle@);
    true
}

/// Whether `needle` occurs anywhere in `hay`.
pub fn contains_chars(hay: &Vec<char>, needle: &Vec<char>) -> (r: bool)
    ensures
        r == contains_seq(hay@, needle@),
{
    if needle.len() == 0 {
        assert(hay@.subrange(0, 0) =~= needle@);
        assert(occurs_at(hay@, needle@, 0));
        return true;
    }
    if needle.len() > hay.len() {
        assert forall|m: int| !occurs_at(hay@, needle@, m) by {}
        return false;
    }
    let last = hay.len() - needle.len();
    let mut i: usize = 0;
    let hl = hay.len();
    while i <= last
        invariant
            hl == hay@.len(),
            last == hay@.len() - needle@.len(),
            last < hay@.len(),
            i <= last + 1,
            forall|m: int| 0 <= m < i ==> !occurs_at(hay@, needle@, m),
        decreases last + 1 - i,
    {
        if occurs_at_exec(hay, needle, i) {
            return true;
        }
        i = i + 1;
    }
    assert forall|m: int| !occurs_at(hay@, needle@, m) by {
        if 0 <= m < i {
        }
    }
    false
}

/// Whether the characters of `needle` occur in `hay`.
pub fn contains_str(hay: &Vec<char>, needle: &str) -> (r: bool)
    ensures
        r == contains_seq(hay@, needle@),
{
    let n = chars_of(needle);
    contains_chars(hay, &n)
}

/// Whether `hay` starts with `prefix`.
pub fn starts_with_str(hay: &Vec<char>, prefix: &str) -> (r: bool)
    ensures
        r == occurs_at(hay@, prefix@, 0),
{
    let p = chars_of(prefix);
    occurs_at_exec(hay, &p, 0)
}

/// The first `n` characters of `s`.
pub fn take_chars(s: &str, n: usize) -> (r: String)
    ensures
        r@ == take_seq(s@, n as nat),
{
    let v = chars_of(s);
    if n < v.len() {
        let r = string_of_range(&v, 0, n);
        assert(v@.subrange(0, n as int) =~= v@.take(n as int));
        r
    } else {
        string_of(&v)
    }
}

proof fn lemma_decimal_nonempty(n: nat)
    ensures
        decimal(n).len() >= 1,
    decreases n,
{
    if n >= 10 {
        lemma_decimal_nonempty(n / 10);
    }
}

/// The decimal digits of `n`, as `n.to_string()` writes them.
pub fn decimal_string(n: u128) -> (r: String)
    ensures
        r@ == decimal(n as nat),
{
    let mut digits: Vec<char> = Vec::new();
    let mut m = n;
    // digits holds the low-order digits of n, least significant first
    let ghost mut tail: Seq<char> = Seq::empty();
    loop
        invariant_except_break
            decimal(n as nat) == decimal(m as nat) + tail,
        invariant
            digits@ == tail.reverse(),
        ensures
            decimal(n as nat) == tail,
        decreases m,
    {
        let d = (m % 10) as u32;
        let c = char_from_ascii_code(0x30 + d);
        if m < 10 {
            proof {
                assert(decimal(m as nat) == seq![digit_char(m as nat)]);
            }
            digits.push(c);
            proof {
                assert(decimal(n as nat) =~= seq![c] + tail);
                tail = seq![c] + tail;
                assert(digits@ =~= tail.reverse());
            }
            break;
        }
        proof {
            assert(decimal(m as nat) == decimal((m / 10) as nat).push(digit_char((m % 10) as nat)));
            assert(decimal(m as nat) + tail =~= decimal((m / 10) as nat) + (seq![c] + tail));
        }
        digits.push(c);
        proof {
            tail = seq![c] + tail;
            assert(digits@ =~= tail.reverse());
        }
        m = m / 10;
    }
    // reverse the digits
    let mut out: Vec<char> = Vec::new();
    let mut i = digits.len();
    while i > 0
        invariant
            i <= digits@.len(),
            digits@ == tail.reverse(),
            out@ == tail.subrange(0, (digits@.len() - i) as int),
        decreases i,
    {
        i = i - 1;
        proof {
            assert(digits@[i as int] == tail[(digits@.len() - 1 - i) as int]);
            assert(tail.subrange(0, (digits@.len() - i) as int) =~= tail.subrange(
                0,
                (digits@.len() - i - 1) as int,
            ).push(digits@[i as int]));
        }
        out.push(digits[i]);
    }
    assert(tail.subrange(0, tail.len() as int) =~= tail);
    assert(decimal(n as nat) =~= tail);
    string_of(&out)
}

proof fn lemma_join_step(ls: Seq<Seq<char>>)
    requires
        ls.len() >= 2,
    ensures
        join_lines(ls) == join_lines(ls.drop_last()) + seq!['\n'] + ls.last(),
{
}

/// The text of `v` with every line's trailing whitespace removed.
pub fn trim_line_ends_exec(v: &Vec<char>) -> (r: Vec<char>)
    ensures
        r@ == trim_line_ends(v@),
{
    let mut out: Vec<char> = Vec::new();
    // the characters of the current (unfinished) line
    let mut line: Vec<char> = Vec::new();
    let mut i: usize = 0;
    while i < v.len()
        invariant
            i <= v@.len(),
            ({
                let parts = split_lines(v@.take(i as int));
                &&& parts.len() >= 1
                &&& line@ == parts.last()
                &&& out@ == (if parts.len() == 1 {
                    Seq::<char>::empty()
                } else {
                    join_lines(
                        parts.drop_last().map_values(
                            |l: Seq<char>| trim_end_seq(l, CharClass::Whitespace),
                        ),
                    ) + seq!['\n']
                })
            }),
        decreases v@.len() - i,
    {
        let ghost pre = v@.take(i as int);
        let ghost parts = split_lines(pre);
        let c = v[i];
        assert(v@.take(i + 1).drop_last() =~= pre);
        if c == '\n' {
            let e = trim_end_range(&line, line.len());
            assert(line@.subrange(0, line@.len() as int) =~= line@);
            append_range(&mut out, &line, 0, e);
            out.push('\n');
            line = Vec::new();
            proof {
                let f = |l: Seq<char>| trim_end_seq(l, CharClass::Whitespace);
                let np = split_lines(v@.take(i + 1));
                assert(np == parts.push(Seq::<char>::empty()));
                assert(np.drop_last() =~= parts);
                if parts.len() == 1 {
                    assert(parts.map_values(f) =~= seq![f(parts[0])]);
                } else {
                    lemma_join_step(parts.map_values(f));
                    assert(parts.map_values(f).drop_last() =~= parts.drop_last().map_values(f));
                }
                assert(out@ =~= join_lines(np.drop_last().map_values(f)) + seq!['\n']);
            }
        } else {
            line.push(c);
            proof {
                let np = split_lines(v@.take(i + 1));
                assert(np.drop_last() =~= parts.drop_last());
            }
        }
        i = i + 1;
    }
    let e = trim_end_range(&line, line.len());
    assert(line@.subrange(0, line@.len() as int) =~= line@);
    let ghost parts = split_lines(v@.take(i as int));
    append_range(&mut out, &line, 0, e);
    proof {
        let f = |l: Seq<char>| trim_end_seq(l, CharClass::Whitespace);
        assert(v@.take(v@.len() as int) =~= v@);
        if parts.len() == 1 {
            assert(parts.map_values(f) =~= seq![f(parts[0])]);
        } else {
            lemma_join_step(parts.map_values(f));
            assert(parts.map_values(f).drop_last() =~= parts.drop_last().map_values(f));
        }
        assert(out@ =~= join_lines(parts.map_values(f)));
    }
    out
}

/// Appends `src[from..to]` to `out`.
pub fn append_range(out: &mut Vec<char>, src: &Vec<char>, from: usize, to: usize)
    requires
        from <= to <= src@.len(),
    ensures
        final(out)@ == old(out)@ + src@.subrange(from as int, to as int),
{
    let mut j = from;
    while j < to
        invariant
            from <= j <= to <= src@.len(),
            out@ == old(out)@ + src@.subrange(from as int, j as int),
        decreases to - j,
    {
        out.push(src[j]);
        assert(src@.subrange(from as int, j + 1) =~= src@.subrange(from as int, j as int).push(src@[j as int]));
        j = j + 1;
    }
}

/// After trimming the start, the first character (if any) is not of class `k`.
pub proof fn lemma_trim_start_first(s: Seq<char>, k: CharClass)
    ensures
        trim_start_seq(s, k).len() == 0 || !in_class(k, trim_start_seq(s, k)[0]),
    decreases s.len(),
{
    if s.len() > 0 && in_class(k, s[0]) {
        lemma_trim_start_first(s.drop_first(), k);
    }
}

/// Trimming the end keeps a prefix whose last character (if any) is not of class `k`.
pub proof fn lemma_trim_end_prefix(s: Seq<char>, k: CharClass)
    ensures
        trim_end_seq(s, k).len() <= s.len(),
        trim_end_seq(s, k) == s.subrange(0, trim_end_seq(s, k).len() as int),
        trim_end_seq(s, k).len() == 0 || !in_class(k, trim_end_seq(s, k).last()),
        s.len() > 0 && !in_class(k, s[0]) ==> trim_end_seq(s, k).len() > 0,
    decreases s.len(),
{
    if s.len() > 0 && in_class(k, s.last()) {
        let t = s.drop_last();
        lemma_trim_end_prefix(t, k);
        let r = trim_end_seq(t, k);
        assert(r =~= s.subrange(0, r.len() as int));
        if !in_class(k, s[0]) {
            assert(s.len() > 1);
            assert(t[0] == s[0]);
        }
    } else {
        assert(s.subrange(0, s.len() as int) =~= s);
    }
}

/// A sequence whose ends are not of class `k` is unchanged by trimming.
pub proof fn lemma_trim_fixed_class(t: Seq<char>, k: CharClass)
    requires
        t.len() == 0 || (!in_class(k, t[0]) && !in_class(k, t.last())),
    ensures
        trim_seq(t, k) == t,
{
}

/// Trimming twice is trimming once.
pub proof fn lemma_trim_idempotent(s: Seq<char>, k: CharClass)
    ensures
        trim_seq(trim_seq(s, k), k) == trim_seq(s, k),
{
    let ts = trim_start_seq(s, k);
    lemma_trim_start_first(s, k);
    lemma_trim_end_prefix(ts, k);
    let t = trim_seq(s, k);
    if t.len() > 0 {
        assert(t[0] == ts[0]);
    }
    lemma_trim_fixed_class(t, k);
}

} // verus!
