//! Text utilities over character sequences: decimal rendering, searching,
//! prefix and suffix tests, line splitting and trimming.

use vstd::prelude::*;

verus! {

/// The character of a decimal digit.
pub open spec fn digit_char(d: nat) -> char {
    ((48 + d) as u8) as char
}

/// Decimal rendering of a natural number, most significant digit first.
pub open spec fn decimal_nat(n: nat) -> Seq<char>
    decreases n,
{
    if n < 10 {
        seq![digit_char(n)]
    } else {
        decimal_nat(n / 10).push(digit_char(n % 10))
    }
}

/// Decimal rendering of an integer, with a leading `-` for negative values.
pub open spec fn decimal_int(n: int) -> Seq<char> {
    if n < 0 {
        seq!['-'] + decimal_nat((-n) as nat)
    } else {
        decimal_nat(n as nat)
    }
}

/// The characters of a string slice.
#[verifier::external_body]
pub(crate) fn chars_of(s: &str) -> (v: Vec<char>)
    ensures
        v@ == s@,
{
    s.chars().collect()
}

/// The string made of the given characters.
#[verifier::external_body]
pub(crate) fn string_of(v: &[char]) -> (s: String)
    ensures
        s@ == v@,
{
    v.iter().collect()
}

fn digit(d: u64) -> (c: char)
    requires
        d < 10,
    ensures
        c == digit_char(d as nat),
{
    let b: u8 = 48u8 + (d as u8);
    b as char
}

/// Renders a natural number in decimal.
pub fn u64_to_decimal(n: u64) -> (s: String)
    ensures
        s@ == decimal_nat(n as nat),
{
    let mut m: u64 = n;
    let mut acc: Vec<char> = Vec::new();
    while m >= 10
        invariant
            decimal_nat(n as nat) == decimal_nat(m as nat) + acc@,
        decreases m,
    {
        let c = digit(m % 10);
        proof {
            assert(decimal_nat(m as nat) == decimal_nat((m / 10) as nat).push(digit_char((m % 10) as nat)));
            assert(decimal_nat((m / 10) as nat) + seq![c].add(acc@) =~= decimal_nat(m as nat) + acc@);
        }
        acc.insert(0, c);
        m = m / 10;
    }
    let c = digit(m);
    acc.insert(0, c);
    assert(acc@ =~= decimal_nat(m as nat) + acc@.skip(1));
    string_of(acc.as_slice())
}

/// Renders a signed integer in decimal.
pub fn i64_to_decimal(n: i64) -> (s: String)
    ensures
        s@ == decimal_int(n as int),
{
    if n < 0 {
        let mag: u64 = (-(n as i128)) as u64;
        let digits = u64_to_decimal(mag);
        let mut s = String::from_str("-");
        s.append(digits.as_str());
        proof {
            reveal_strlit("-");
            assert(s@ =~= seq!['-'] + decimal_nat(mag as nat));
        }
        s
    } else {
        u64_to_decimal(n as u64)
    }
}


/// `p` occurs in `s` starting at position `i`.
pub open spec fn occurs_at(s: Seq<char>, p: Seq<char>, i: int) -> bool {
    0 <= i && i + p.len() <= s.len() && s.subrange(i, i + p.len() as int) == p
}

/// `p` is a prefix of `s`.
pub open spec fn has_prefix(s: Seq<char>, p: Seq<char>) -> bool {
    occurs_at(s, p, 0)
}

/// `p` is a suffix of `s`.
pub open spec fn has_suffix(s: Seq<char>, p: Seq<char>) -> bool {
    p.len() <= s.len() && occurs_at(s, p, s.len() - p.len())
}

/// `p` occurs somewhere in `s`.
pub open spec fn contains_seq(s: Seq<char>, p: Seq<char>) -> bool {
    exists|i: int| occurs_at(s, p, i)
}

/// The first position at or after `start` where `p` occurs in `s`.
pub open spec fn find_from(s: Seq<char>, p: Seq<char>, start: int) -> Option<int>
    decreases s.len() + 1 - start,
{
    if start < 0 || start + p.len() > s.len() {
        None
    } else if occurs_at(s, p, start) {
        Some(start)
    } else {
        find_from(s, p, start + 1)
    }
}

/// The first position where `p` occurs in `s`.
pub open spec fn find_first(s: Seq<char>, p: Seq<char>) -> Option<int> {
    find_from(s, p, 0)
}

/// What `find_from` returns is the first occurrence at or after `start`.
pub proof fn lemma_find_from(s: Seq<char>, p: Seq<char>, start: int)
    requires
        0 <= start,
    ensures
        find_from(s, p, start) matches Some(i) ==> start <= i && occurs_at(s, p, i) && forall|j: int|
            start <= j < i ==> !occurs_at(s, p, j),
        find_from(s, p, start) is None ==> forall|j: int| start <= j ==> !occurs_at(s, p, j),
    decreases s.len() + 1 - start,
{
    if start + p.len() > s.len() {
    } else if occurs_at(s, p, start) {
    } else {
        lemma_find_from(s, p, start + 1);
    }
}

/// `find_first` finds an occurrence exactly when `p` occurs in `s`.
pub proof fn lemma_find_first_contains(s: Seq<char>, p: Seq<char>)
    ensures
        find_first(s, p) is Some <==> contains_seq(s, p),
{
    lemma_find_from(s, p, 0);
    if let Some(i) = find_first(s, p) {
        assert(occurs_at(s, p, i));
    }
}

/// Tests whether `p` occurs in `s` at position `i`.
pub fn matches_at(s: &[char], p: &[char], i: usize) -> (b: bool)
    ensures
        b == occurs_at(s@, p@, i as int),
{
    if i > s.len() || p.len() > s.len() - i {
        return false;
    }
    let mut k: usize = 0;
    while k < p.len()
        invariant
            i + p@.len() <= s@.len(),
            s@.len() == s.len(),
            k <= p@.len(),
            forall|j: int| 0 <= j < k ==> s@[i + j] == p@[j],
        decreases p@.len() - k,
    {
        if s[i + k] != p[k] {
            assert(s@.subrange(i as int, i + p@.len())[k as int] != p@[k as int]);
            return false;
        }
        k = k + 1;
    }
    assert(s@.subrange(i as int, i + p@.len()) =~= p@);
    true
}

/// The first position at or after `start` where `p` occurs in `s`.
pub fn find_chars_from(s: &[char], p: &[char], start: usize) -> (r: Option<usize>)
    ensures
        r matches Some(i) ==> find_from(s@, p@, start as int) == Some(i as int),
        r is None ==> find_from(s@, p@, start as int) is None,
{
    if start > s.len() || p.len() > s.len() - start {
        return None;
    }
    if p.len() == 0 {
        assert(s@.subrange(start as int, start as int) =~= p@);
        return Some(start);
    }
    let mut i: usize = start;
    while i <= s.len() - p.len()
        invariant
            start <= i,
            1 <= p@.len() <= s@.len(),
            s@.len() == s.len(),
            i <= s@.len() - p@.len() + 1,
            find_from(s@, p@, start as int) == find_from(s@, p@, i as int),
        decreases s@.len() - i,
    {
        if matches_at(s, p, i) {
            return Some(i);
        }
        i = i + 1;
    }
    None
}

/// Tests whether `p` is a prefix of `s`.
pub fn starts_with_chars(s: &[char], p: &[char]) -> (b: bool)
    ensures
        b == has_prefix(s@, p@),
{
    matches_at(s, p, 0)
}

/// Tests whether `p` is a suffix of `s`.
pub fn ends_with_chars(s: &[char], p: &[char]) -> (b: bool)
    ensures
        b == has_suffix(s@, p@),
{
    if p.len() > s.len() {
        false
    } else {
        matches_at(s, p, s.len() - p.len())
    }
}

/// Tests whether `p` occurs in `s`.
pub fn contains_chars(s: &[char], p: &[char]) -> (b: bool)
    ensures
        b == contains_seq(s@, p@),
{
    proof {
        lemma_find_first_contains(s@, p@);
    }
    find_chars_from(s, p, 0).is_some()
}

/// Tests whether the string `s` starts with `p`.
pub fn str_starts_with(s: &str, p: &str) -> (b: bool)
    ensures
        b == has_prefix(s@, p@),
{
    let sv = chars_of(s);
    let pv = chars_of(p);
    starts_with_chars(sv.as_slice(), pv.as_slice())
}

/// Tests whether the string `s` ends with `p`.
pub fn str_ends_with(s: &str, p: &str) -> (b: bool)
    ensures
        b == has_suffix(s@, p@),
{
    let sv = chars_of(s);
    let pv = chars_of(p);
    ends_with_chars(sv.as_slice(), pv.as_slice())
}

/// Tests whether `p` occurs in the string `s`.
pub fn str_contains(s: &str, p: &str) -> (b: bool)
    ensures
        b == contains_seq(s@, p@),
{
    let sv = chars_of(s);
    let pv = chars_of(p);
    contains_chars(sv.as_slice(), pv.as_slice())
}

/// Tests two strings for equality.
pub fn str_eq(a: &str, b: &str) -> (r: bool)
    ensures
        r == (a@ == b@),
{
    let av = chars_of(a);
    let bv = chars_of(b);
    if av.len() != bv.len() {
        return false;
    }
    let r = matches_at(av.as_slice(), bv.as_slice(), 0);
    proof {
        if r {
            assert(av@.subrange(0, bv@.len() as int) =~= av@);
        }
        if av@ == bv@ {
            assert(av@.subrange(0, bv@.len() as int) =~= bv@);
        }
    }
    r
}

/// The unicode lower-case mapping of a character sequence.
pub uninterp spec fn lowercase(s: Seq<char>) -> Seq<char>;

/// Calls `str::to_lowercase`; its result is named `lowercase`, a function of
/// the input alone.
#[verifier::external_body]
pub(crate) fn to_lowercase(s: &str) -> (r: String)
    ensures
        r@ == lowercase(s@),
{
    s.to_lowercase()
}

/// The characters that `char::is_whitespace` accepts (the unicode White_Space property).
pub open spec fn is_space(c: char) -> bool {
    ||| '\t' <= c <= '\r'
    ||| c == ' '
    ||| c == '\u{85}'
    ||| c == '\u{a0}'
    ||| c == '\u{1680}'
    ||| '\u{2000}' <= c <= '\u{200a}'
    ||| c == '\u{2028}'
    ||| c == '\u{2029}'
    ||| c == '\u{202f}'
    ||| c == '\u{205f}'
    ||| c == '\u{3000}'
}

/// Tests whether a character is white space.
pub fn is_whitespace(c: char) -> (b: bool)
    ensures
        b == is_space(c),
{
    ('\t' <= c && c <= '\r') || c == ' ' || c == '\u{85}' || c == '\u{a0}' || c == '\u{1680}' || (
    '\u{2000}' <= c && c <= '\u{200a}') || c == '\u{2028}' || c == '\u{2029}' || c == '\u{202f}'
        || c == '\u{205f}' || c == '\u{3000}'
}

/// The number of leading white-space characters of `s`.
pub open spec fn leading_space(s: Seq<char>) -> nat
    decreases s.len(),
{
    if s.len() > 0 && is_space(s[0]) {
        1 + leading_space(s.drop_first())
    } else {
        0
    }
}

/// The number of trailing white-space characters of `s`.
pub open spec fn trailing_space(s: Seq<char>) -> nat
    decreases s.len(),
{
    if s.len() > 0 && is_space(s.last()) {
        1 + trailing_space(s.drop_last())
    } else {
        0
    }
}

/// `s` without its leading white space (`str::trim_start`).
pub open spec fn trim_start_seq(s: Seq<char>) -> Seq<char> {
    s.skip(leading_space(s) as int)
}

/// `s` without leading and trailing white space (`str::trim`).
pub open spec fn trim_seq(s: Seq<char>) -> Seq<char> {
    let t = trim_start_seq(s);
    t.take(t.len() - trailing_space(t))
}

pub proof fn lemma_leading_space(s: Seq<char>)
    ensures
        leading_space(s) <= s.len(),
        forall|i: int| 0 <= i < leading_space(s) ==> is_space(#[trigger] s[i]),
        leading_space(s) < s.len() ==> !is_space(s[leading_space(s) as int]),
    decreases s.len(),
{
    if s.len() > 0 && is_space(s[0]) {
        lemma_leading_space(s.drop_first());
        assert forall|i: int| 0 <= i < leading_space(s) implies is_space(#[trigger] s[i]) by {
            if i > 0 {
                assert(s[i] == s.drop_first()[i - 1]);
            }
        }
    }
}

pub proof fn lemma_trailing_space(s: Seq<char>)
    ensures
        trailing_space(s) <= s.len(),
        forall|i: int| s.len() - trailing_space(s) <= i < s.len() ==> is_space(#[trigger] s[i]),
        trailing_space(s) < s.len() ==> !is_space(s[s.len() - trailing_space(s) - 1]),
    decreases s.len(),
{
    if s.len() > 0 && is_space(s.last()) {
        lemma_trailing_space(s.drop_last());
        assert forall|i: int| s.len() - trailing_space(s) <= i < s.len() implies is_space(#[trigger] s[i]) by {
            if i < s.len() - 1 {
                assert(s[i] == s.drop_last()[i]);
            }
        }
    }
}

/// Counts the leading white space of `s`.
pub fn count_leading_space(s: &[char]) -> (n: usize)
    ensures
        n == leading_space(s@),
{
    proof {
        lemma_leading_space(s@);
    }
    let mut i: usize = 0;
    while i < s.len() && is_whitespace(s[i])
        invariant
            i <= s@.len(),
            forall|j: int| 0 <= j < i ==> is_space(#[trigger] s@[j]),
            leading_space(s@) <= s@.len(),
            forall|j: int| 0 <= j < leading_space(s@) ==> is_space(#[trigger] s@[j]),
            leading_space(s@) < s@.len() ==> !is_space(s@[leading_space(s@) as int]),
        decreases s@.len() - i,
    {
        i = i + 1;
    }
    proof {
        if i < leading_space(s@) {
            assert(is_space(s@[i as int]));
        }
        if leading_space(s@) < i {
            assert(is_space(s@[leading_space(s@) as int]));
        }
    }
    i
}

/// Counts the trailing white space of `s`.
pub fn count_trailing_space(s: &[char]) -> (n: usize)
    ensures
        n == trailing_space(s@),
{
    proof {
        lemma_trailing_space(s@);
    }
    let mut n: usize = 0;
    while n < s.len() && is_whitespace(s[s.len() - 1 - n])
        invariant
            n <= s@.len(),
            forall|j: int| s@.len() - n <= j < s@.len() ==> is_space(#[trigger] s@[j]),
            trailing_space(s@) <= s@.len(),
            forall|j: int| s@.len() - trailing_space(s@) <= j < s@.len() ==> is_space(#[trigger] s@[j]),
            trailing_space(s@) < s@.len() ==> !is_space(s@[s@.len() - trailing_space(s@) - 1]),
        decreases s@.len() - n,
    {
        n = n + 1;
    }
    proof {
        if n < trailing_space(s@) {
            assert(is_space(s@[s@.len() - n - 1]));
        }
        if trailing_space(s@) < n {
            assert(is_space(s@[s@.len() - trailing_space(s@) - 1]));
        }
    }
    n
}

/// `s` without leading and trailing white space.
pub fn trim_chars(s: &[char]) -> (t: Vec<char>)
    ensures
        t@ == trim_seq(s@),
{
    proof {
        lemma_leading_space(s@);
    }
    let lead = count_leading_space(s);
    let rest = slice_subrange(s, lead, s.len());
    let trail = count_trailing_space(rest.as_slice());
    proof {
        lemma_trailing_space(rest@);
    }
    slice_subrange(rest.as_slice(), 0, rest.len() - trail)
}

/// The characters of `s` from `from` up to `to`.
pub fn slice_subrange(s: &[char], from: usize, to: usize) -> (r: Vec<char>)
    requires
        from <= to <= s@.len(),
    ensures
        r@ == s@.subrange(from as int, to as int),
{
    let mut r: Vec<char> = Vec::new();
    let mut i: usize = from;
    while i < to
        invariant
            from <= i <= to,
            to <= s@.len(),
            r@ == s@.subrange(from as int, i as int),
        decreases to - i,
    {
        r.push(s[i]);
        i = i + 1;
        assert(r@ =~= s@.subrange(from as int, i as int));
    }
    r
}

/// Drops a carriage return that ends a line.
pub open spec fn strip_cr(l: Seq<char>) -> Seq<char> {
    if l.len() > 0 && l.last() == '\r' {
        l.drop_last()
    } else {
        l
    }
}

/// The lines of `s` as `str::lines` yields them: split at `\n`, with a `\r`
/// before the `\n` removed, and no empty line after a final `\n`.
pub open spec fn split_lines(s: Seq<char>) -> Seq<Seq<char>>
    decreases s.len(),
{
    if s.len() == 0 {
        seq![]
    } else {
        match find_first(s, seq!['\n']) {
            None => seq![s],
            Some(i) => if 0 <= i < s.len() {
                seq![strip_cr(s.take(i))] + split_lines(s.skip(i + 1))
            } else {
                seq![]
            },
        }
    }
}

/// The lines of `s`, as `str::lines` yields them.
pub fn lines_of(s: &[char]) -> (ls: Vec<Vec<char>>)
    ensures
        ls@.len() == split_lines(s@).len(),
        forall|k: int| 0 <= k < ls@.len() ==> (#[trigger] ls@[k])@ == split_lines(s@)[k],
    decreases s@.len(),
{
    if s.len() == 0 {
        return Vec::new();
    }
    let nl = ['\n'];
    proof {
        lemma_find_from(s@, nl@, 0);
    }
    match find_chars_from(s, &nl, 0) {
        None => {
            let mut ls: Vec<Vec<char>> = Vec::new();
            ls.push(slice_subrange(s, 0, s.len()));
            assert(s@.subrange(0, s@.len() as int) =~= s@);
            proof {
                assert(nl@ =~= seq!['\n']);
            }
            ls
        },
        Some(i) => {
            let mut line = slice_subrange(s, 0, i);
            if line.len() > 0 && line[line.len() - 1] == '\r' {
                line.pop();
            }
            let rest = slice_subrange(s, i + 1, s.len());
            let tail = lines_of(rest.as_slice());
            let mut ls: Vec<Vec<char>> = Vec::new();
            ls.push(line);
            let mut k: usize = 0;
            proof {
                assert(nl@ =~= seq!['\n']);
                assert(s@.take(i as int) =~= s@.subrange(0, i as int));
                assert(rest@ =~= s@.skip(i + 1));
                assert(line@ == strip_cr(s@.take(i as int)));
            }
            while k < tail.len()
                invariant
                    k <= tail@.len(),
                    ls@.len() == k + 1,
                    ls@[0]@ == strip_cr(s@.take(i as int)),
                    tail@.len() == split_lines(rest@).len(),
                    forall|j: int| 0 <= j < tail@.len() ==> (#[trigger] tail@[j])@ == split_lines(rest@)[j],
                    forall|j: int| 1 <= j < ls@.len() ==> (#[trigger] ls@[j])@ == split_lines(rest@)[j - 1],
                decreases tail@.len() - k,
            {
                ls.push(clone_chars(&tail[k]));
                k = k + 1;
            }
            ls
        },
    }
}

/// A copy of a character vector.
pub fn clone_chars(v: &Vec<char>) -> (r: Vec<char>)
    ensures
        r@ == v@,
{
    slice_subrange(v.as_slice(), 0, v.len())
}

} // verus!

verus! {

/// The view of an optional string.
pub open spec fn opt_str(o: Option<String>) -> Option<Seq<char>> {
    match o {
        Some(s) => Some(s@),
        None => None,
    }
}

/// The views of a sequence of strings.
pub open spec fn strs(v: Seq<String>) -> Seq<Seq<char>> {
    v.map_values(|s: String| s@)
}

/// Whether one of the strings equals `s`.
pub fn strings_contain(v: &Vec<String>, s: &str) -> (b: bool)
    ensures
        b == strs(v@).contains(s@),
{
    let mut i: usize = 0;
    while i < v.len()
        invariant
            i <= v@.len(),
            forall|j: int| 0 <= j < i ==> v@[j]@ != s@,
        decreases v@.len() - i,
    {
        if str_eq(v[i].as_str(), s) {
            assert(strs(v@)[i as int] == s@);
            return true;
        }
        i = i + 1;
    }
    proof {
        if strs(v@).contains(s@) {
            let j = choose|j: int| 0 <= j < strs(v@).len() && strs(v@)[j] == s@;
            assert(v@[j]@ == s@);
        }
    }
    false
}

/// A string holding the given text.
pub fn owned(s: &str) -> (r: String)
    ensures
        r@ == s@,
{
    String::from_str(s)
}

} // verus!

verus! {

/// Searching `s` from `start` finds what searching `s` without its first
/// `pos` characters finds from `start - pos`, shifted by `pos`.
pub proof fn lemma_find_from_skip(s: Seq<char>, p: Seq<char>, pos: int, start: int)
    requires
        0 <= pos <= start,
        pos <= s.len(),
    ensures
        find_from(s, p, start) == match find_from(s.skip(pos), p, start - pos) {
            Some(i) => Some(i + pos),
            None => None,
        },
    decreases s.len() + 1 - start,
{
    let t = s.skip(pos);
    if start + p.len() > s.len() {
    } else {
        assert(occurs_at(s, p, start) == occurs_at(t, p, start - pos)) by {
            assert(s.subrange(start, start + p.len()) =~= t.subrange(start - pos, start - pos + p.len()));
        }
        if !occurs_at(s, p, start) {
            lemma_find_from_skip(s, p, pos, start + 1);
        }
    }
}

/// The number of lines of `s`, as `str::lines` counts them.
pub fn count_lines(s: &[char]) -> (n: usize)
    ensures
        n == split_lines(s@).len(),
{
    let nl = ['\n'];
    assert(nl@ =~= seq!['\n']);
    let mut pos: usize = 0;
    let mut count: usize = 0;
    assert(s@.skip(0) =~= s@);
    while pos < s.len()
        invariant
            pos <= s@.len(),
            s@.len() == s.len(),
            nl@ == seq!['\n'],
            count <= pos,
            count + split_lines(s@.skip(pos as int)).len() == split_lines(s@).len(),
        decreases s@.len() - pos,
    {
        let ghost t = s@.skip(pos as int);
        proof {
            lemma_find_from_skip(s@, nl@, pos as int, pos as int);
            lemma_find_from(s@, nl@, pos as int);
        }
        match find_chars_from(s, &nl, pos) {
            Some(j) => {
                assert(find_first(t, seq!['\n']) == Some(j - pos));
                assert(t.skip(j - pos + 1) =~= s@.skip(j + 1));
                assert(split_lines(t).len() == 1 + split_lines(s@.skip(j + 1)).len());
                count = count + 1;
                pos = j + 1;
            },
            None => {
                assert(find_first(t, seq!['\n']) is None);
                assert(split_lines(t).len() == 1);
                count = count + 1;
                pos = s.len();
                assert(s@.skip(pos as int) =~= seq![]);
            },
        }
    }
    count
}

/// The parts joined, with `sep` between consecutive ones.
pub open spec fn joined_with(parts: Seq<Seq<char>>, sep: Seq<char>) -> Seq<char>
    decreases parts.len(),
{
    if parts.len() == 0 {
        seq![]
    } else if parts.len() == 1 {
        parts[0]
    } else {
        parts[0] + sep + joined_with(parts.drop_first(), sep)
    }
}

/// Joining one more part adds the separator and the part.
pub proof fn lemma_joined_with_push(parts: Seq<Seq<char>>, sep: Seq<char>, last: Seq<char>)
    ensures
        joined_with(parts.push(last), sep) == if parts.len() == 0 {
            last
        } else {
            joined_with(parts, sep) + sep + last
        },
    decreases parts.len(),
{
    let pushed = parts.push(last);
    if parts.len() == 0 {
        assert(pushed.len() == 1);
    } else if parts.len() == 1 {
        assert(pushed.drop_first() =~= seq![last]);
        assert(joined_with(seq![last], sep) == last);
        assert(joined_with(pushed, sep) == pushed[0] + sep + joined_with(pushed.drop_first(), sep));
    } else {
        assert(pushed.drop_first() =~= parts.drop_first().push(last));
        lemma_joined_with_push(parts.drop_first(), sep, last);
        assert(joined_with(pushed, sep) == pushed[0] + sep + joined_with(pushed.drop_first(), sep));
        assert(joined_with(parts, sep) == parts[0] + sep + joined_with(parts.drop_first(), sep));
        assert(parts[0] + sep + (joined_with(parts.drop_first(), sep) + sep + last) =~= parts[0] + sep
            + joined_with(parts.drop_first(), sep) + sep + last);
    }
}

/// The strings joined, with `sep` between consecutive ones.
pub fn join_with(parts: &Vec<String>, sep: &str) -> (r: String)
    ensures
        r@ == joined_with(strs(parts@), sep@),
{
    let mut r = String::new();
    let ghost ps = strs(parts@);
    let mut k: usize = 0;
    while k < parts.len()
        invariant
            ps == strs(parts@),
            k <= ps.len(),
            r@ == joined_with(ps.take(k as int), sep@),
        decreases ps.len() - k,
    {
        proof {
            lemma_joined_with_push(ps.take(k as int), sep@, ps[k as int]);
            assert(ps.take(k as int).push(ps[k as int]) =~= ps.take(k + 1));
        }
        if k > 0 {
            r.append(sep);
        }
        r.append(parts[k].as_str());
        k = k + 1;
    }
    assert(ps.take(ps.len() as int) =~= ps);
    r
}

} // verus!
