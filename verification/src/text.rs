//! Text helpers shared by every module: conversions between strings and
//! character vectors, trimming, prefixes, replacement, joining, and decimal
//! numbers. Contracts are stated over `Seq<char>`, the view of a string.

use vstd::prelude::*;

verus! {

broadcast use vstd::string::group_string_axioms;

/// The Unicode `White_Space` property of a character, as `char::is_whitespace`
/// reports it. The library never looks inside this predicate.
pub uninterp spec fn white_space(c: char) -> bool;

/// `char::is_whitespace`: the result is the `White_Space` property of `c`,
/// which depends on the character alone.
pub assume_specification[ char::is_whitespace ](c: char) -> (r: bool)
    ensures
        r == white_space(c),
;

/// `String::push`: appends exactly one character to the end of the string.
pub assume_specification[ String::push ](s: &mut String, c: char)
    ensures
        final(s)@ == old(s)@.push(c),
;

/// The characters of `s`, in order.
pub fn to_chars(s: &str) -> (v: Vec<char>)
    ensures
        v@ == s@,
{
    let mut v: Vec<char> = Vec::new();
    for c in it: s.chars()
        invariant
            it.seq() == s@,
            v@ == s@.take(it.index()),
    {
        v.push(c);
    }
    assert(s@.take(s@.len() as int) == s@);
    v
}

/// The string made of the characters `v[from..to]`.
pub fn from_chars(v: &Vec<char>, from: usize, to: usize) -> (s: String)
    requires
        from <= to <= v.len(),
    ensures
        s@ == v@.subrange(from as int, to as int),
{
    let mut s = String::new();
    let mut i: usize = from;
    while i < to
        invariant
            from <= i <= to <= v.len(),
            s@ == v@.subrange(from as int, i as int),
        decreases to - i,
    {
        s.push(v[i]);
        i += 1;
        assert(v@.subrange(from as int, i as int) == v@.subrange(from as int, i - 1).push(
            v@[i - 1],
        ));
    }
    s
}

/// Whether two strings hold the same characters.
pub fn str_eq(a: &str, b: &str) -> (r: bool)
    ensures
        r == (a@ == b@),
{
    let x = a.to_owned();
    let y = b.to_owned();
    x == y
}

/// The number of whitespace characters at the front of `s`.
pub open spec fn leading_space(s: Seq<char>) -> nat
    decreases s.len(),
{
    if s.len() > 0 && white_space(s[0]) {
        1 + leading_space(s.drop_first())
    } else {
        0
    }
}

/// The number of whitespace characters at the back of `s`.
pub open spec fn trailing_space(s: Seq<char>) -> nat
    decreases s.len(),
{
    if s.len() > 0 && white_space(s.last()) {
        1 + trailing_space(s.drop_last())
    } else {
        0
    }
}

/// `s` without its leading whitespace.
pub open spec fn trim_start_of(s: Seq<char>) -> Seq<char> {
    s.skip(leading_space(s) as int)
}

/// `s` without its trailing whitespace.
pub open spec fn trim_end_of(s: Seq<char>) -> Seq<char> {
    s.take(s.len() - trailing_space(s))
}

/// `s` without leading and trailing whitespace.
pub open spec fn trimmed(s: Seq<char>) -> Seq<char> {
    trim_end_of(trim_start_of(s))
}

/// A string is blank when trimming leaves nothing.
pub open spec fn is_blank(s: Seq<char>) -> bool {
    trimmed(s).len() == 0
}

/// The leading whitespace of `s` ends at `i` when everything before `i` is
/// whitespace and the character at `i`, if there is one, is not.
pub proof fn lemma_leading_space(s: Seq<char>, i: int)
    requires
        0 <= i <= s.len(),
        forall|k: int| 0 <= k < i ==> white_space(#[trigger] s[k]),
        i == s.len() || !white_space(s[i]),
    ensures
        leading_space(s) == i,
    decreases i,
{
    if i > 0 {
        let t = s.drop_first();
        assert forall|k: int| 0 <= k < i - 1 implies white_space(#[trigger] t[k]) by {
            assert(t[k] == s[k + 1]);
        }
        lemma_leading_space(t, i - 1);
    }
}

/// The trailing whitespace of `s` starts at `j` when everything from `j` on
/// is whitespace and the character before `j`, if there is one, is not.
pub proof fn lemma_trailing_space(s: Seq<char>, j: int)
    requires
        0 <= j <= s.len(),
        forall|k: int| j <= k < s.len() ==> white_space(#[trigger] s[k]),
        j == 0 || !white_space(s[j - 1]),
    ensures
        trailing_space(s) == s.len() - j,
    decreases s.len() - j,
{
    if j < s.len() {
        let t = s.drop_last();
        assert forall|k: int| j <= k < t.len() implies white_space(#[trigger] t[k]) by {
            assert(t[k] == s[k]);
        }
        lemma_trailing_space(t, j);
    }
}

/// Leading and trailing whitespace are no longer than the text.
pub proof fn lemma_space_bounds(s: Seq<char>)
    ensures
        leading_space(s) <= s.len(),
        trailing_space(s) <= s.len(),
    decreases s.len(),
{
    if s.len() > 0 {
        lemma_space_bounds(s.drop_first());
        lemma_space_bounds(s.drop_last());
    }
}

/// The index of the first character of `v[from..to]` that is not whitespace,
/// or `to` when there is none.
fn skip_space(v: &Vec<char>, from: usize, to: usize) -> (i: usize)
    requires
        from <= to <= v.len(),
    ensures
        from <= i <= to,
        i == from + leading_space(v@.subrange(from as int, to as int)),
        i < to ==> !white_space(v@[i as int]),
{
    let mut i: usize = from;
    while i < to && v[i].is_whitespace()
        invariant
            from <= i <= to <= v.len(),
            forall|k: int| from <= k < i ==> white_space(#[trigger] v@[k]),
        decreases to - i,
    {
        i += 1;
    }
    proof {
        let s = v@.subrange(from as int, to as int);
        assert forall|k: int| 0 <= k < i - from implies white_space(#[trigger] s[k]) by {
            assert(s[k] == v@[from + k]);
        }
        lemma_leading_space(s, i - from);
    }
    i
}

/// The index after the last character of `v[from..to]` that is not
/// whitespace, or `from` when there is none.
fn skip_space_back(v: &Vec<char>, from: usize, to: usize) -> (j: usize)
    requires
        from <= to <= v.len(),
    ensures
        from <= j <= to,
        j == to - trailing_space(v@.subrange(from as int, to as int)),
        from < j ==> !white_space(v@[j - 1]),
{
    let mut j: usize = to;
    while j > from && v[j - 1].is_whitespace()
        invariant
            from <= j <= to <= v.len(),
            forall|k: int| j <= k < to ==> white_space(#[trigger] v@[k]),
        decreases j,
    {
        j -= 1;
    }
    proof {
        let s = v@.subrange(from as int, to as int);
        assert forall|k: int| j - from <= k < s.len() implies white_space(#[trigger] s[k]) by {
            assert(s[k] == v@[from + k]);
        }
        lemma_trailing_space(s, j - from);
    }
    j
}

/// `s` without leading and trailing whitespace.
pub fn trim(s: &str) -> (r: String)
    ensures
        r@ == trimmed(s@),
{
    let v = to_chars(s);
    let i = skip_space(&v, 0, v.len());
    let j = skip_space_back(&v, i, v.len());
    proof {
        assert(v@.subrange(0, v@.len() as int) == v@);
        assert(v@.subrange(i as int, v@.len() as int) == trim_start_of(s@));
        assert(v@.subrange(i as int, j as int) == trimmed(s@));
    }
    from_chars(&v, i, j)
}

/// `s` without leading whitespace.
pub fn trim_start(s: &str) -> (r: String)
    ensures
        r@ == trim_start_of(s@),
{
    let v = to_chars(s);
    let i = skip_space(&v, 0, v.len());
    proof {
        assert(v@.subrange(0, v@.len() as int) == v@);
        assert(v@.subrange(i as int, v@.len() as int) == trim_start_of(s@));
    }
    from_chars(&v, i, v.len())
}

/// Whether `s` holds nothing but whitespace.
pub fn blank(s: &str) -> (r: bool)
    ensures
        r == is_blank(s@),
{
    let v = to_chars(s);
    let i = skip_space(&v, 0, v.len());
    proof {
        assert(v@.subrange(0, v@.len() as int) == v@);
        let t = trim_start_of(s@);
        lemma_space_bounds(t);
        if i < v.len() {
            assert(t[0] == v@[i as int]);
            lemma_trailing_bound(t);
        } else {
            assert(t.len() == 0);
        }
    }
    i == v.len()
}

/// Trailing whitespace never reaches a first character that is not whitespace.
pub proof fn lemma_trailing_bound(s: Seq<char>)
    requires
        s.len() > 0,
        !white_space(s[0]),
    ensures
        trailing_space(s) < s.len(),
    decreases s.len(),
{
    if s.len() > 1 && white_space(s.last()) {
        lemma_trailing_bound(s.drop_last());
    }
}

/// The lower-case form of an ASCII capital letter; any other character is
/// left as it is.
pub open spec fn ascii_lower(c: char) -> char {
    if 'A' <= c && c <= 'Z' {
        ((c as u8) + 32) as char
    } else {
        c
    }
}

/// `s` with every ASCII capital letter in lower case.
pub open spec fn ascii_lowercase_of(s: Seq<char>) -> Seq<char> {
    Seq::new(s.len(), |i: int| ascii_lower(s[i]))
}

/// The lower-case form of an ASCII capital letter; any other character is
/// left as it is.
pub fn lower_char(c: char) -> (r: char)
    ensures
        r == ascii_lower(c),
{
    if c >= 'A' && c <= 'Z' {
        ((c as u8) + 32) as char
    } else {
        c
    }
}

/// `s` with every ASCII capital letter in lower case.
pub fn ascii_lowercase(s: &str) -> (r: String)
    ensures
        r@ == ascii_lowercase_of(s@),
{
    let v = to_chars(s);
    let mut r = String::new();
    let mut i: usize = 0;
    while i < v.len()
        invariant
            i <= v.len(),
            v@ == s@,
            r@ == ascii_lowercase_of(s@).take(i as int),
        decreases v.len() - i,
    {
        r.push(lower_char(v[i]));
        i += 1;
        assert(ascii_lowercase_of(s@).take(i as int) == ascii_lowercase_of(s@).take(i - 1).push(
            ascii_lower(s@[i - 1]),
        ));
    }
    assert(ascii_lowercase_of(s@).take(v@.len() as int) == ascii_lowercase_of(s@));
    r
}

/// Whether `c` is one of the ten decimal digits.
pub open spec fn is_digit(c: char) -> bool {
    '0' <= c && c <= '9'
}

/// The value of a decimal digit; 0 for any other character.
pub open spec fn digit_value(c: char) -> nat {
    if is_digit(c) {
        (c as int - 48) as nat
    } else {
        0
    }
}

/// Whether every character of `s` is a decimal digit.
pub open spec fn all_digits(s: Seq<char>) -> bool {
    forall|i: int| 0 <= i < s.len() ==> is_digit(#[trigger] s[i])
}

/// The number that a string of decimal digits denotes.
pub open spec fn decimal_value(s: Seq<char>) -> nat
    decreases s.len(),
{
    if s.len() == 0 {
        0
    } else {
        10 * decimal_value(s.drop_last()) + digit_value(s.last())
    }
}

/// The digits of an unsigned number: the text without one leading `+`,
/// unless the `+` is all there is.
pub open spec fn unsigned_digits(s: Seq<char>) -> Seq<char> {
    if s.len() > 1 && s[0] == '+' {
        s.skip(1)
    } else {
        s
    }
}

/// The `usize` that `s` denotes: an optional `+`, then one or more decimal
/// digits and nothing else, with a value that fits.
pub open spec fn parsed_usize(s: Seq<char>) -> Option<usize> {
    let d = unsigned_digits(s);
    if d.len() > 0 && all_digits(d) && decimal_value(d) <= usize::MAX {
        Some(decimal_value(d) as usize)
    } else {
        None
    }
}

/// The value of a prefix of a digit string never exceeds the value of the whole.
pub proof fn lemma_decimal_prefix(s: Seq<char>, k: int)
    requires
        0 <= k <= s.len(),
    ensures
        decimal_value(s.take(k)) <= decimal_value(s),
    decreases s.len(),
{
    if k == s.len() {
        assert(s.take(k) == s);
    } else {
        assert(s.drop_last().take(k) == s.take(k));
        lemma_decimal_prefix(s.drop_last(), k);
    }
}

/// Reads an unsigned decimal number: an optional `+`, then digits only.
/// Anything else, and a value beyond `usize::MAX`, gives `None`.
pub fn parse_usize(s: &str) -> (r: Option<usize>)
    ensures
        r == parsed_usize(s@),
{
    let v = to_chars(s);
    let start: usize = if v.len() > 1 && v[0] == '+' {
        1
    } else {
        0
    };
    if start == v.len() {
        return None;
    }
    let ghost d = unsigned_digits(s@);
    assert(d == v@.subrange(start as int, v@.len() as int));
    let mut acc: usize = 0;
    let mut i: usize = start;
    while i < v.len()
        invariant
            start <= i <= v.len(),
            d == v@.subrange(start as int, v@.len() as int),
            d == unsigned_digits(s@),
            forall|k: int| 0 <= k < i - start ==> is_digit(#[trigger] d[k]),
            acc == decimal_value(d.take(i - start)),
        decreases v.len() - i,
    {
        let c = v[i];
        assert(c == d[i - start]);
        if !(c >= '0' && c <= '9') {
            assert(!is_digit(d[i - start]));
            return None;
        }
        let digit: usize = ((c as u8) - 48) as usize;
        proof {
            assert(d.take(i - start + 1).drop_last() == d.take(i - start));
            assert(d.take(i - start + 1).last() == c);
            lemma_decimal_prefix(d, i - start + 1);
        }
        if acc > (usize::MAX - digit) / 10 {
            assert(decimal_value(d.take(i - start + 1)) == 10 * acc + digit);
            return None;
        }
        acc = acc * 10 + digit;
        i += 1;
    }
    assert(d.take(d.len() as int) == d);
    Some(acc)
}

/// The character of a decimal digit.
pub open spec fn digit_char(d: nat) -> char {
    (d + 48) as char
}

/// The decimal digits of `n`, most significant first, without leading zeros.
pub open spec fn decimal(n: nat) -> Seq<char>
    decreases n,
{
    if n < 10 {
        seq![digit_char(n)]
    } else {
        decimal(n / 10).push(digit_char(n % 10))
    }
}

/// Appends the decimal digits of `n` to `s`.
pub fn push_decimal(s: &mut String, n: u64)
    ensures
        final(s)@ == old(s)@ + decimal(n as nat),
    decreases n,
{
    if n >= 10 {
        push_decimal(s, n / 10);
    }
    let d: u8 = (n % 10) as u8;
    s.push((d + 48) as char);
    proof {
        if n >= 10 {
            assert(old(s)@ + decimal(n as nat) == (old(s)@ + decimal((n / 10) as nat)).push(
                digit_char((n % 10) as nat),
            ));
        } else {
            assert(old(s)@ + decimal(n as nat) == old(s)@.push(digit_char(n as nat)));
        }
    }
}

/// The decimal digits of `n` as a string.
pub fn decimal_string(n: u64) -> (r: String)
    ensures
        r@ == decimal(n as nat),
{
    let mut r = String::new();
    push_decimal(&mut r, n);
    assert(Seq::<char>::empty() + decimal(n as nat) == decimal(n as nat));
    r
}

/// Whether two strings are equal once ASCII letter case is set aside.
pub open spec fn same_ignoring_ascii_case(a: Seq<char>, b: Seq<char>) -> bool {
    ascii_lowercase_of(a) == ascii_lowercase_of(b)
}

/// Whether two strings are equal once ASCII letter case is set aside.
pub fn eq_ignore_ascii_case(a: &str, b: &str) -> (r: bool)
    ensures
        r == same_ignoring_ascii_case(a@, b@),
{
    let x = ascii_lowercase(a);
    let y = ascii_lowercase(b);
    x == y
}

/// The position of the last `c` in `s`.
pub open spec fn last_index_of(s: Seq<char>, c: char) -> Option<int>
    decreases s.len(),
{
    if s.len() == 0 {
        None
    } else if s.last() == c {
        Some(s.len() - 1)
    } else {
        last_index_of(s.drop_last(), c)
    }
}

/// The position of the last `c` in `v[..to]`.
pub fn find_last(v: &Vec<char>, to: usize, c: char) -> (r: Option<usize>)
    requires
        to <= v.len(),
    ensures
        match r {
            Some(i) => i < to && last_index_of(v@.take(to as int), c) == Some(i as int),
            None => last_index_of(v@.take(to as int), c) is None,
        },
{
    let mut j: usize = to;
    while j > 0
        invariant
            j <= to <= v.len(),
            last_index_of(v@.take(to as int), c) == last_index_of(v@.take(j as int), c),
        decreases j,
    {
        assert(v@.take(j as int).drop_last() == v@.take(j - 1));
        if v[j - 1] == c {
            return Some(j - 1);
        }
        j -= 1;
    }
    None
}

/// Whether `list` holds a string equal to `s`.
pub fn list_contains(list: &Vec<String>, s: &str) -> (r: bool)
    ensures
        r == list.deep_view().contains(s@),
{
    let mut i: usize = 0;
    while i < list.len()
        invariant
            i <= list.len(),
            forall|k: int| 0 <= k < i ==> list.deep_view()[k] != s@,
        decreases list.len() - i,
    {
        if str_eq(list[i].as_str(), s) {
            assert(list.deep_view()[i as int] == s@);
            return true;
        }
        i += 1;
    }
    false
}

/// A copy of a list of strings.
pub fn copy_strings(list: &[String]) -> (r: Vec<String>)
    ensures
        r.deep_view() == list.deep_view(),
{
    let mut r: Vec<String> = Vec::new();
    let mut i: usize = 0;
    while i < list.len()
        invariant
            i <= list.len(),
            r.len() == i,
            forall|k: int| 0 <= k < i ==> r.deep_view()[k] == list.deep_view()[k],
        decreases list.len() - i,
    {
        r.push(list[i].clone());
        i += 1;
    }
    assert(r.deep_view() =~= list.deep_view());
    r
}

/// `s` without the run of `c` at its end.
pub open spec fn without_trailing(s: Seq<char>, c: char) -> Seq<char>
    decreases s.len(),
{
    if s.len() > 0 && s.last() == c {
        without_trailing(s.drop_last(), c)
    } else {
        s
    }
}

/// `s` without the run of `c` at its end.
pub fn strip_trailing(s: &str, c: char) -> (r: String)
    ensures
        r@ == without_trailing(s@, c),
{
    let v = to_chars(s);
    let mut j: usize = v.len();
    assert(v@.take(j as int) == v@);
    while j > 0 && v[j - 1] == c
        invariant
            j <= v.len(),
            v@ == s@,
            without_trailing(s@, c) == without_trailing(v@.take(j as int), c),
        decreases j,
    {
        assert(v@.take(j as int).drop_last() == v@.take(j - 1));
        j -= 1;
    }
    assert(v@.take(j as int) == v@.subrange(0, j as int));
    from_chars(&v, 0, j)
}

/// The upper-case form of a text, as `str::to_uppercase` computes it from
/// the Unicode case tables. The library never looks inside this mapping.
pub uninterp spec fn uppercase_of(s: Seq<char>) -> Seq<char>;

/// The lower-case form of a text, as `str::to_lowercase` computes it from
/// the Unicode case tables. The library never looks inside this mapping.
pub uninterp spec fn lowercase_of(s: Seq<char>) -> Seq<char>;

/// `str::to_uppercase`: the result is the upper-case form of the text, which
/// depends on the text alone.
pub assume_specification[ str::to_uppercase ](s: &str) -> (r: String)
    ensures
        r@ == uppercase_of(s@),
;

/// `str::to_lowercase`: the result is the lower-case form of the text, which
/// depends on the text alone.
pub assume_specification[ str::to_lowercase ](s: &str) -> (r: String)
    ensures
        r@ == lowercase_of(s@),
;

/// Whether `s` begins with `prefix`.
pub fn has_prefix(s: &str, prefix: &str) -> (r: bool)
    ensures
        r == prefix@.is_prefix_of(s@),
{
    let v = to_chars(s);
    let p = to_chars(prefix);
    if p.len() > v.len() {
        return false;
    }
    let mut i: usize = 0;
    while i < p.len()
        invariant
            i <= p.len() <= v.len(),
            v@ == s@,
            p@ == prefix@,
            forall|k: int| 0 <= k < i ==> p@[k] == v@[k],
        decreases p.len() - i,
    {
        if p[i] != v[i] {
            assert(v@.subrange(0, p@.len() as int)[i as int] == v@[i as int]);
            return false;
        }
        i += 1;
    }
    assert(p@ =~= v@.subrange(0, p@.len() as int));
    true
}

/// Whether `s` holds the character `c`.
pub fn contains_char(s: &str, c: char) -> (r: bool)
    ensures
        r == s@.contains(c),
{
    let v = to_chars(s);
    let mut i: usize = 0;
    while i < v.len()
        invariant
            i <= v.len(),
            v@ == s@,
            forall|k: int| 0 <= k < i ==> v@[k] != c,
        decreases v.len() - i,
    {
        if v[i] == c {
            assert(s@[i as int] == c);
            return true;
        }
        i += 1;
    }
    false
}

/// Whether some character of `s` is whitespace.
pub open spec fn holds_space(s: Seq<char>) -> bool {
    exists|i: int| 0 <= i < s.len() && white_space(#[trigger] s[i])
}

/// Whether some character of `s` is whitespace.
pub fn has_whitespace(s: &str) -> (r: bool)
    ensures
        r == holds_space(s@),
{
    let v = to_chars(s);
    let mut i: usize = 0;
    while i < v.len()
        invariant
            i <= v.len(),
            v@ == s@,
            forall|k: int| 0 <= k < i ==> !white_space(#[trigger] v@[k]),
        decreases v.len() - i,
    {
        if v[i].is_whitespace() {
            assert(white_space(s@[i as int]));
            return true;
        }
        i += 1;
    }
    false
}

/// `s` with every `from` replaced by the text `to`.
pub open spec fn replaced(s: Seq<char>, from: char, to: Seq<char>) -> Seq<char>
    decreases s.len(),
{
    if s.len() == 0 {
        Seq::empty()
    } else if s.last() == from {
        replaced(s.drop_last(), from, to) + to
    } else {
        replaced(s.drop_last(), from, to).push(s.last())
    }
}

/// `s` with every `from` replaced by the text `to`.
pub fn replace_char(s: &str, from: char, to: &str) -> (r: String)
    ensures
        r@ == replaced(s@, from, to@),
{
    let v = to_chars(s);
    let mut r = String::new();
    let mut i: usize = 0;
    assert(v@.take(0) == Seq::<char>::empty());
    while i < v.len()
        invariant
            i <= v.len(),
            v@ == s@,
            r@ == replaced(v@.take(i as int), from, to@),
        decreases v.len() - i,
    {
        assert(v@.take(i + 1).drop_last() == v@.take(i as int));
        if v[i] == from {
            r.append(to);
        } else {
            r.push(v[i]);
        }
        i += 1;
    }
    assert(v@.take(v@.len() as int) == v@);
    r
}

/// The parts joined into one text, with `sep` between neighbours.
pub open spec fn joined_with(parts: Seq<Seq<char>>, sep: Seq<char>) -> Seq<char>
    decreases parts.len(),
{
    if parts.len() == 0 {
        Seq::empty()
    } else if parts.len() == 1 {
        parts[0]
    } else {
        joined_with(parts.drop_last(), sep) + sep + parts.last()
    }
}

/// The parts joined into one text, with `sep` between neighbours.
pub fn join(parts: &[String], sep: &str) -> (r: String)
    ensures
        r@ == joined_with(parts.deep_view(), sep@),
{
    let mut r = String::new();
    let mut i: usize = 0;
    assert(parts.deep_view().take(0) == Seq::<Seq<char>>::empty());
    while i < parts.len()
        invariant
            i <= parts.len(),
            r@ == joined_with(parts.deep_view().take(i as int), sep@),
        decreases parts.len() - i,
    {
        let ghost next = parts.deep_view().take(i + 1);
        assert(next.drop_last() == parts.deep_view().take(i as int));
        assert(next.last() == parts[i as int]@);
        if i > 0 {
            r.append(sep);
        }
        r.append(parts[i].as_str());
        proof {
            if i == 0 {
                assert(next[0] == parts[0]@);
                assert(r@ =~= next[0]);
            }
        }
        i += 1;
    }
    assert(parts.deep_view().take(parts.len() as int) == parts.deep_view());
    r
}

/// The position of the first `c` in `s`.
pub open spec fn first_index_of(s: Seq<char>, c: char) -> Option<int>
    decreases s.len(),
{
    if s.len() == 0 {
        None
    } else if s[0] == c {
        Some(0)
    } else {
        match first_index_of(s.drop_first(), c) {
            Some(i) => Some(i + 1),
            None => None,
        }
    }
}

/// What the position of the first `c` in `s` is.
pub proof fn lemma_first_index_of(s: Seq<char>, c: char, j: int)
    requires
        0 <= j <= s.len(),
        forall|k: int| 0 <= k < j ==> s[k] != c,
        j < s.len() ==> s[j] == c,
    ensures
        first_index_of(s, c) == (if j < s.len() {
            Some(j)
        } else {
            None
        }),
    decreases s.len(),
{
    if s.len() > 0 && j > 0 {
        assert forall|k: int| 0 <= k < j - 1 implies s.drop_first()[k] != c by {
            assert(s.drop_first()[k] == s[k + 1]);
        }
        if j < s.len() {
            assert(s.drop_first()[j - 1] == s[j]);
        }
        lemma_first_index_of(s.drop_first(), c, j - 1);
    }
}

/// A line without the carriage return that may end it.
pub open spec fn without_carriage_return(line: Seq<char>) -> Seq<char> {
    if line.len() > 0 && line.last() == '\r' {
        line.drop_last()
    } else {
        line
    }
}

/// The lines of a text. A line ends at a line feed, which is left out
/// together with a carriage return just before it. What follows the last
/// line feed is a line of its own unless it is empty.
pub open spec fn lines_of(s: Seq<char>) -> Seq<Seq<char>>
    decreases s.len(),
{
    match first_index_of(s, '\n') {
        Some(i) => if 0 <= i < s.len() {
            seq![without_carriage_return(s.take(i))] + lines_of(s.skip(i + 1))
        } else {
            Seq::empty()
        },
        None => if s.len() == 0 {
            Seq::empty()
        } else {
            seq![s]
        },
    }
}

/// The lines of a text.
pub fn split_lines(s: &str) -> (r: Vec<String>)
    ensures
        r.deep_view() == lines_of(s@),
{
    let v = to_chars(s);
    let mut r: Vec<String> = Vec::new();
    let mut start: usize = 0;
    let mut i: usize = 0;
    assert(v@.skip(0) == v@);
    assert(r.deep_view() + lines_of(v@) =~= lines_of(v@));
    while i < v.len()
        invariant
            start <= i <= v.len(),
            v@ == s@,
            forall|k: int| start <= k < i ==> v@[k] != '\n',
            lines_of(s@) == r.deep_view() + lines_of(v@.skip(start as int)),
        decreases v.len() - i,
    {
        if v[i] == '\n' {
            let ghost rest = v@.skip(start as int);
            let ghost before = r.deep_view();
            proof {
                assert forall|k: int| 0 <= k < i - start implies rest[k] != '\n' by {
                    assert(rest[k] == v@[start + k]);
                }
                lemma_first_index_of(rest, '\n', i - start);
                assert(rest.take(i - start) == v@.subrange(start as int, i as int));
                assert(rest.skip(i - start + 1) == v@.skip(i + 1));
            }
            let end: usize = if i > start && v[i - 1] == '\r' {
                i - 1
            } else {
                i
            };
            let line = from_chars(&v, start, end);
            proof {
                let whole = v@.subrange(start as int, i as int);
                if i > start && v@[i - 1] == '\r' {
                    assert(whole.last() == '\r');
                    assert(whole.drop_last() == v@.subrange(start as int, end as int));
                } else {
                    assert(without_carriage_return(whole) == whole);
                }
                assert(line@ == without_carriage_return(whole));
            }
            r.push(line);
            start = i + 1;
            proof {
                assert(r.deep_view() == before.push(line@));
                assert(lines_of(s@) =~= r.deep_view() + lines_of(v@.skip(start as int)));
            }
        }
        i += 1;
    }
    let ghost rest = v@.skip(start as int);
    proof {
        assert forall|k: int| 0 <= k < rest.len() implies rest[k] != '\n' by {
            assert(rest[k] == v@[start + k]);
        }
        lemma_first_index_of(rest, '\n', rest.len() as int);
    }
    if start < v.len() {
        let ghost before = r.deep_view();
        let line = from_chars(&v, start, v.len());
        assert(line@ == rest);
        r.push(line);
        assert(r.deep_view() == before.push(line@));
        assert(lines_of(s@) =~= r.deep_view());
    } else {
        assert(lines_of(s@) =~= r.deep_view());
    }
    r
}

/// The words read so far and the word being read.
pub struct WordScan {
    pub words: Seq<Seq<char>>,
    pub current: Seq<char>,
}

impl WordScan {
    /// The scan after one more character: whitespace ends the word being
    /// read, if there is one; any other character goes on with it.
    pub open spec fn step(self, c: char) -> WordScan {
        if white_space(c) {
            if self.current.len() > 0 {
                WordScan { words: self.words.push(self.current), current: Seq::empty() }
            } else {
                self
            }
        } else {
            WordScan { current: self.current.push(c), ..self }
        }
    }

    /// The scan after all of `s`.
    pub open spec fn over(s: Seq<char>) -> WordScan
        decreases s.len(),
    {
        if s.len() == 0 {
            WordScan { words: Seq::empty(), current: Seq::empty() }
        } else {
            WordScan::over(s.drop_last()).step(s.last())
        }
    }
}

/// The words of a text: its maximal runs of characters that are not
/// whitespace, in order.
pub open spec fn words_of(s: Seq<char>) -> Seq<Seq<char>> {
    let scan = WordScan::over(s);
    if scan.current.len() > 0 {
        scan.words.push(scan.current)
    } else {
        scan.words
    }
}

/// The words of a text.
pub fn split_words(s: &str) -> (r: Vec<String>)
    ensures
        r.deep_view() == words_of(s@),
{
    let v = to_chars(s);
    let mut r: Vec<String> = Vec::new();
    let mut current = String::new();
    let mut i: usize = 0;
    assert(v@.take(0) == Seq::<char>::empty());
    assert(r.deep_view() =~= Seq::<Seq<char>>::empty());
    while i < v.len()
        invariant
            i <= v.len(),
            v@ == s@,
            r.deep_view() == WordScan::over(v@.take(i as int)).words,
            current@ == WordScan::over(v@.take(i as int)).current,
        decreases v.len() - i,
    {
        assert(v@.take(i + 1).drop_last() == v@.take(i as int));
        let ghost before = r.deep_view();
        let c = v[i];
        if c.is_whitespace() {
            if !current.as_str().is_empty() {
                let word = current;
                current = String::new();
                r.push(word);
                assert(r.deep_view() == before.push(word@));
            }
        } else {
            current.push(c);
        }
        i += 1;
    }
    assert(v@.take(v@.len() as int) == v@);
    if !current.as_str().is_empty() {
        let ghost before = r.deep_view();
        r.push(current);
        assert(r.deep_view() == before.push(current@));
    }
    r
}

/// The parts of `s` between the occurrences of `c`; a text without `c` is
/// one part, and two neighbouring `c` have an empty part between them.
pub open spec fn split_by(s: Seq<char>, c: char) -> Seq<Seq<char>>
    decreases s.len(),
{
    match last_index_of(s, c) {
        Some(i) => if 0 <= i < s.len() {
            split_by(s.take(i), c).push(s.skip(i + 1))
        } else {
            seq![s]
        },
        None => seq![s],
    }
}

/// What the position of the last `c` in `s` is.
pub proof fn lemma_last_index_of(s: Seq<char>, c: char, j: int)
    requires
        -1 <= j < s.len(),
        forall|k: int| j < k < s.len() ==> s[k] != c,
        j >= 0 ==> s[j] == c,
    ensures
        last_index_of(s, c) == (if j >= 0 {
            Some(j)
        } else {
            None
        }),
    decreases s.len(),
{
    if s.len() > 0 && j < s.len() - 1 {
        assert forall|k: int| j < k < s.len() - 1 implies s.drop_last()[k] != c by {
            assert(s.drop_last()[k] == s[k]);
        }
        if j >= 0 {
            assert(s.drop_last()[j] == s[j]);
        }
        lemma_last_index_of(s.drop_last(), c, j);
    }
}

/// The parts of `s` between the occurrences of `c`.
pub fn split_on(s: &str, c: char) -> (r: Vec<String>)
    ensures
        r.deep_view() == split_by(s@, c),
        r.len() >= 1,
{
    let v = to_chars(s);
    let mut r: Vec<String> = Vec::new();
    let mut start: usize = 0;
    let mut i: usize = 0;
    assert(v@.take(0) == Seq::<char>::empty());
    while i < v.len()
        invariant
            start <= i <= v.len(),
            v@ == s@,
            forall|k: int| start <= k < i ==> v@[k] != c,
            start > 0 ==> v@[start - 1] == c && r.deep_view() == split_by(v@.take(start - 1), c),
            start == 0 ==> r.len() == 0,
        decreases v.len() - i,
    {
        if v[i] == c {
            let ghost before = r.deep_view();
            let part = from_chars(&v, start, i);
            r.push(part);
            proof {
                assert(r.deep_view() == before.push(part@));
                let head = v@.take(i as int);
                if start > 0 {
                    assert forall|k: int| start - 1 < k < head.len() implies head[k] != c by {
                        assert(head[k] == v@[k]);
                    }
                    assert(head[start - 1] == c);
                    lemma_last_index_of(head, c, start - 1);
                    assert(head.take(start - 1) == v@.take(start - 1));
                    assert(head.skip(start as int) == v@.subrange(start as int, i as int));
                } else {
                    assert forall|k: int| -1 < k < head.len() implies head[k] != c by {
                        assert(head[k] == v@[k]);
                    }
                    lemma_last_index_of(head, c, -1);
                    assert(head == v@.subrange(0, i as int));
                    assert(r.deep_view() =~= seq![head]);
                }
            }
            start = i + 1;
        }
        i += 1;
    }
    let ghost before = r.deep_view();
    let part = from_chars(&v, start, v.len());
    r.push(part);
    proof {
        assert(r.deep_view() == before.push(part@));
        if start > 0 {
            lemma_last_index_of(v@, c, start - 1);
            assert(v@.skip(start as int) == v@.subrange(start as int, v@.len() as int));
        } else {
            lemma_last_index_of(v@, c, -1);
            assert(v@ == v@.subrange(0, v@.len() as int));
            assert(r.deep_view() =~= seq![v@]);
        }
    }
    r
}

/// A text as `{:?}` writes it: between double quotes, with the characters
/// that need it escaped. The library never looks inside this mapping.
pub uninterp spec fn debug_text(s: Seq<char>) -> Seq<char>;

/// `format!` with `{:?}` on a text: the `Debug` form of the text, which
/// depends on the text alone.
#[verifier::external_body]
pub(crate) fn debug_form(s: &str) -> (r: String)
    ensures
        r@ == debug_text(s@),
{
    format!("{:?}", s)
}

/// The integer that a text denotes: an optional `+` or `-`, then one or
/// more decimal digits and nothing else. There is no limit to its size.
pub open spec fn integer_of(s: Seq<char>) -> Option<int> {
    if s.len() > 0 && (s[0] == '+' || s[0] == '-') {
        let digits = s.skip(1);
        if digits.len() > 0 && all_digits(digits) {
            if s[0] == '-' {
                Some(-(decimal_value(digits) as int))
            } else {
                Some(decimal_value(digits) as int)
            }
        } else {
            None
        }
    } else if s.len() > 0 && all_digits(s) {
        Some(decimal_value(s) as int)
    } else {
        None
    }
}

/// `n` brought into the range from `low` to `high`.
pub open spec fn clamped(n: int, low: int, high: int) -> int {
    if n < low {
        low
    } else if n > high {
        high
    } else {
        n
    }
}

/// Reads an integer of any size and brings it into the range from `low` to
/// `high`. A text that denotes no integer gives `None`.
pub fn parse_clamped(s: &str, low: usize, high: usize) -> (r: Option<usize>)
    requires
        low <= high,
    ensures
        match integer_of(s@) {
            Some(n) => r == Some(clamped(n, low as int, high as int) as usize),
            None => r is None,
        },
{
    let v = to_chars(s);
    if v.len() == 0 {
        return None;
    }
    let signed: bool = v[0] == '+' || v[0] == '-';
    let negative: bool = v[0] == '-';
    let start: usize = if signed {
        1
    } else {
        0
    };
    if start == v.len() {
        return None;
    }
    let ghost d = v@.subrange(start as int, v@.len() as int);
    proof {
        if signed {
            assert(d == s@.skip(1));
        } else {
            assert(d == s@);
        }
    }
    // `acc` is the value of the digits read while that value is at most
    // `high`; `over` says that it has gone beyond.
    let mut acc: usize = 0;
    let mut over: bool = false;
    let mut i: usize = start;
    while i < v.len()
        invariant
            start <= i <= v.len(),
            d == v@.subrange(start as int, v@.len() as int),
            s@.len() > 0,
            d.len() > 0,
            signed == (s@[0] == '+' || s@[0] == '-'),
            negative == (s@[0] == '-'),
            d == (if signed {
                s@.skip(1)
            } else {
                s@
            }),
            forall|k: int| 0 <= k < i - start ==> is_digit(#[trigger] d[k]),
            over ==> decimal_value(d.take(i - start)) > high,
            !over ==> acc == decimal_value(d.take(i - start)) && acc <= high,
        decreases v.len() - i,
    {
        let c = v[i];
        assert(c == d[i - start]);
        if !(c >= '0' && c <= '9') {
            assert(!is_digit(d[i - start]));
            assert(!all_digits(d));
            return None;
        }
        let digit: usize = ((c as u8) - 48) as usize;
        proof {
            assert(d.take(i - start + 1).drop_last() == d.take(i - start));
            assert(d.take(i - start + 1).last() == c);
        }
        if !over {
            if digit > high || acc > (high - digit) / 10 {
                over = true;
            } else {
                acc = acc * 10 + digit;
            }
        }
        i += 1;
    }
    assert(d.take(d.len() as int) == d);
    if negative {
        Some(low)
    } else if over {
        Some(high)
    } else if acc < low {
        Some(low)
    } else {
        Some(acc)
    }
}

/// Whether `part` stands somewhere in `text`, as it is and in one piece.
pub open spec fn holds_text(text: Seq<char>, part: Seq<char>) -> bool {
    exists|i: int|
        0 <= i && i + part.len() <= text.len() && #[trigger] text.subrange(i, i + part.len())
            == part
}

/// What ends a text stands in it.
pub proof fn lemma_holds_at_end(text: Seq<char>, part: Seq<char>)
    ensures
        holds_text(text + part, part),
{
    let whole = text + part;
    assert(whole.subrange(text.len() as int, (text.len() + part.len()) as int) =~= part);
}

/// What stands in a text stands in every text that goes on from it.
pub proof fn lemma_holds_on(text: Seq<char>, part: Seq<char>, more: Seq<char>)
    requires
        holds_text(text, part),
    ensures
        holds_text(text + more, part),
{
    let i = choose|i: int|
        0 <= i && i + part.len() <= text.len() && #[trigger] text.subrange(i, i + part.len())
            == part;
    assert((text + more).subrange(i, i + part.len()) =~= text.subrange(i, i + part.len()));
}

/// What stands in a text stands in every text that ends with that text.
pub proof fn lemma_holds_behind(before: Seq<char>, text: Seq<char>, part: Seq<char>)
    requires
        holds_text(text, part),
    ensures
        holds_text(before + text, part),
{
    let i = choose|i: int|
        0 <= i && i + part.len() <= text.len() && #[trigger] text.subrange(i, i + part.len())
            == part;
    let at = before.len() + i;
    assert((before + text).subrange(at, at + part.len()) =~= text.subrange(i, i + part.len()));
}

/// What stands in a part of a text stands in the text.
pub proof fn lemma_holds_within(text: Seq<char>, middle: Seq<char>, part: Seq<char>)
    requires
        holds_text(text, middle),
        holds_text(middle, part),
    ensures
        holds_text(text, part),
{
    let i = choose|i: int|
        0 <= i && i + middle.len() <= text.len() && #[trigger] text.subrange(i, i + middle.len())
            == middle;
    let j = choose|j: int|
        0 <= j && j + part.len() <= middle.len() && #[trigger] middle.subrange(j, j + part.len())
            == part;
    assert(text.subrange(i + j, i + j + part.len()) =~= middle.subrange(j, j + part.len()));
}

/// Each of the parts that are joined stands in what they are joined to.
pub proof fn lemma_joined_holds(parts: Seq<Seq<char>>, sep: Seq<char>, k: int)
    requires
        0 <= k < parts.len(),
    ensures
        holds_text(joined_with(parts, sep), parts[k]),
    decreases parts.len(),
{
    if parts.len() == 1 {
        lemma_holds_at_end(Seq::empty(), parts[0]);
        assert(Seq::<char>::empty() + parts[0] =~= parts[0]);
    } else if k == parts.len() - 1 {
        lemma_holds_at_end(joined_with(parts.drop_last(), sep) + sep, parts.last());
    } else {
        lemma_joined_holds(parts.drop_last(), sep, k);
        assert(parts.drop_last()[k] == parts[k]);
        lemma_holds_on(joined_with(parts.drop_last(), sep), parts[k], sep);
        lemma_holds_on(joined_with(parts.drop_last(), sep) + sep, parts[k], parts.last());
    }
}

} // verus!
