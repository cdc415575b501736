//! Character-level helpers shared by the parsers.
//!
//! Strings are modelled by their sequence of characters. Every helper
//! states its result over that sequence.
use vstd::prelude::*;

verus! {

/// Whether `c` has the Unicode `White_Space` property.
pub open spec fn is_space(c: char) -> bool {
    let u = c as u32;
    ||| 0x09 <= u <= 0x0D
    ||| u == 0x20
    ||| u == 0x85
    ||| u == 0xA0
    ||| u == 0x1680
    ||| 0x2000 <= u <= 0x200A
    ||| u == 0x2028
    ||| u == 0x2029
    ||| u == 0x202F
    ||| u == 0x205F
    ||| u == 0x3000
}

/// Whether `c` is one of the ASCII digits `0` to `9`.
pub open spec fn is_digit(c: char) -> bool {
    '0' <= c <= '9'
}

/// Whether every character of `s` is an ASCII digit.
pub open spec fn all_digits(s: Seq<char>) -> bool {
    forall|i: int| 0 <= i < s.len() ==> is_digit(#[trigger] s[i])
}

/// Whether `c` occurs in `s`.
pub open spec fn has_char(s: Seq<char>, c: char) -> bool {
    exists|i: int| 0 <= i < s.len() && #[trigger] s[i] == c
}

/// Whether some character of `s` is white space.
pub open spec fn has_space(s: Seq<char>) -> bool {
    exists|i: int| 0 <= i < s.len() && is_space(#[trigger] s[i])
}

/// The number of white-space characters at the start of `s`.
pub open spec fn leading_spaces(s: Seq<char>) -> nat
    decreases s.len(),
{
    if s.len() > 0 && is_space(s[0]) {
        1 + leading_spaces(s.drop_first())
    } else {
        0
    }
}

/// The number of white-space characters at the end of `s`.
pub open spec fn trailing_spaces(s: Seq<char>) -> nat
    decreases s.len(),
{
    if s.len() > 0 && is_space(s.last()) {
        1 + trailing_spaces(s.drop_last())
    } else {
        0
    }
}

/// `s` without the white space at its end.
pub open spec fn trimmed_end(s: Seq<char>) -> Seq<char> {
    s.take(s.len() - trailing_spaces(s))
}

/// `s` without the white space at either end.
pub open spec fn trimmed(s: Seq<char>) -> Seq<char> {
    trimmed_end(s.skip(leading_spaces(s) as int))
}

/// The pieces of `s` between occurrences of `sep`. Reading from the left,
/// a separator opens a new piece and any other character extends the last
/// one, so there is always at least one piece.
pub open spec fn split_on(s: Seq<char>, sep: char) -> Seq<Seq<char>>
    decreases s.len(),
{
    if s.len() == 0 {
        seq![Seq::<char>::empty()]
    } else {
        let before = split_on(s.drop_last(), sep);
        if s.last() == sep {
            before.push(Seq::<char>::empty())
        } else {
            before.drop_last().push(before.last().push(s.last()))
        }
    }
}

/// The pieces of `parts` written one after the other with `sep` between
/// neighbours.
pub open spec fn joined(parts: Seq<Seq<char>>, sep: Seq<char>) -> Seq<char>
    decreases parts.len(),
{
    if parts.len() == 0 {
        Seq::<char>::empty()
    } else if parts.len() == 1 {
        parts[0]
    } else {
        joined(parts.drop_last(), sep) + sep + parts.last()
    }
}

/// The number that the ASCII digits `s` write in base ten.
pub open spec fn decimal_value(s: Seq<char>) -> nat
    decreases s.len(),
{
    if s.len() == 0 {
        0
    } else {
        decimal_value(s.drop_last()) * 10 + ((s.last() as u32 - '0' as u32) as nat)
    }
}

/// The ASCII digit that writes `d`, for `d` below ten.
pub open spec fn digit_char(d: nat) -> char {
    if d == 0 {
        '0'
    } else if d == 1 {
        '1'
    } else if d == 2 {
        '2'
    } else if d == 3 {
        '3'
    } else if d == 4 {
        '4'
    } else if d == 5 {
        '5'
    } else if d == 6 {
        '6'
    } else if d == 7 {
        '7'
    } else if d == 8 {
        '8'
    } else {
        '9'
    }
}

/// `n` written in base ten without leading zeros.
pub open spec fn decimal_text(n: nat) -> Seq<char>
    decreases n,
{
    if n < 10 {
        seq![digit_char(n)]
    } else {
        decimal_text(n / 10).push(digit_char(n % 10))
    }
}

/// Executable form of [`is_space`].
pub fn char_is_space(c: char) -> (r: bool)
    ensures
        r == is_space(c),
{
    let u: u32 = c as u32;
    (0x09 <= u && u <= 0x0D) || u == 0x20 || u == 0x85 || u == 0xA0 || u == 0x1680 || (0x2000 <= u
        && u <= 0x200A) || u == 0x2028 || u == 0x2029 || u == 0x202F || u == 0x205F || u == 0x3000
}

/// Executable form of [`is_digit`].
pub fn char_is_digit(c: char) -> (r: bool)
    ensures
        r == is_digit(c),
{
    '0' <= c && c <= '9'
}

/// The characters of `s`, in order.
pub fn chars_of(s: &str) -> (r: Vec<char>)
    ensures
        r@ == s@,
{
    let mut out: Vec<char> = Vec::new();
    for c in it: s.chars()
        invariant
            out@ == it.seq().take(it.index() as int),
            it.seq() == s@,
    {
        out.push(c);
    }
    out
}

/// Whether two strings hold the same characters.
pub fn str_eq(a: &str, b: &str) -> (r: bool)
    ensures
        r == (a@ == b@),
{
    let x = chars_of(a);
    let y = chars_of(b);
    if x.len() != y.len() {
        return false;
    }
    let mut i: usize = 0;
    while i < x.len()
        invariant
            i <= x.len(),
            x.len() == y.len(),
            x@ == a@,
            y@ == b@,
            forall|j: int| 0 <= j < i ==> x@[j] == y@[j],
        decreases x.len() - i,
    {
        if x[i] != y[i] {
            return false;
        }
        i += 1;
    }
    assert(x@ =~= y@);
    true
}

/// A run of white space that ends at a character that is none, or at the
/// end, is all the white space at the start.
pub proof fn lemma_leading_spaces(s: Seq<char>, n: int)
    requires
        0 <= n <= s.len(),
        forall|j: int| 0 <= j < n ==> is_space(#[trigger] s[j]),
        n < s.len() ==> !is_space(s[n]),
    ensures
        leading_spaces(s) == n,
    decreases n,
{
    if n > 0 {
        let t = s.drop_first();
        assert forall|j: int| 0 <= j < n - 1 implies is_space(#[trigger] t[j]) by {
            assert(t[j] == s[j + 1]);
        }
        lemma_leading_spaces(t, n - 1);
    }
}

/// A run of white space that starts after a character that is none, or at
/// the start, is all the white space at the end.
pub proof fn lemma_trailing_spaces(s: Seq<char>, n: int)
    requires
        0 <= n <= s.len(),
        forall|j: int| s.len() - n <= j < s.len() ==> is_space(#[trigger] s[j]),
        n < s.len() ==> !is_space(s[s.len() - n - 1]),
    ensures
        trailing_spaces(s) == n,
    decreases n,
{
    if n > 0 {
        let t = s.drop_last();
        assert forall|j: int| t.len() - (n - 1) <= j < t.len() implies is_space(
            #[trigger] t[j],
        ) by {
            assert(t[j] == s[j]);
        }
        lemma_trailing_spaces(t, n - 1);
    }
}

/// The number of white-space characters at the start of `v`.
pub fn count_leading_spaces(v: &Vec<char>) -> (n: usize)
    ensures
        n == leading_spaces(v@),
        n <= v.len(),
{
    let mut i: usize = 0;
    while i < v.len() && char_is_space(v[i])
        invariant
            i <= v.len(),
            forall|j: int| 0 <= j < i ==> is_space(#[trigger] v@[j]),
        decreases v.len() - i,
    {
        i += 1;
    }
    proof {
        lemma_leading_spaces(v@, i as int);
    }
    i
}

/// The number of white-space characters at the end of the first `end`
/// characters of `v`.
pub fn count_trailing_spaces(v: &Vec<char>, end: usize) -> (n: usize)
    requires
        end <= v.len(),
    ensures
        n == trailing_spaces(v@.take(end as int)),
        n <= end,
{
    let mut i: usize = end;
    while i > 0 && char_is_space(v[i - 1])
        invariant
            i <= end <= v.len(),
            forall|j: int| i <= j < end ==> is_space(#[trigger] v@[j]),
        decreases i,
    {
        i -= 1;
    }
    proof {
        let t = v@.take(end as int);
        assert forall|j: int| t.len() - (end - i) <= j < t.len() implies is_space(
            #[trigger] t[j],
        ) by {
            assert(t[j] == v@[j]);
        }
        lemma_trailing_spaces(t, (end - i) as int);
    }
    end - i
}

/// `s` without the white space at either end.
pub fn trim(s: &str) -> (r: String)
    ensures
        r@ == trimmed(s@),
{
    let v = chars_of(s);
    let a = count_leading_spaces(&v);
    let mut i: usize = v.len();
    while i > a && char_is_space(v[i - 1])
        invariant
            a <= i <= v.len(),
            forall|j: int| i <= j < v.len() ==> is_space(#[trigger] v@[j]),
        decreases i,
    {
        i -= 1;
    }
    proof {
        let rest = v@.skip(a as int);
        assert(rest.len() == v.len() - a);
        assert forall|j: int| rest.len() - (v.len() - i) <= j < rest.len() implies is_space(
            #[trigger] rest[j],
        ) by {
            assert(rest[j] == v@[j + a]);
        }
        if i > a {
            assert(rest[i - a - 1] == v@[i - 1]);
        }
        lemma_trailing_spaces(rest, (v.len() - i) as int);
        assert(trimmed(v@) =~= v@.subrange(a as int, i as int));
    }
    String::from_str(s.substring_char(a, i))
}

/// The pieces of `s` between occurrences of `sep`.
pub fn split(s: &str, sep: char) -> (r: Vec<String>)
    ensures
        r.deep_view() == split_on(s@, sep),
        r.len() >= 1,
{
    let v = chars_of(s);
    let mut out: Vec<String> = Vec::new();
    let mut start: usize = 0;
    let mut i: usize = 0;
    assert(v@.take(0) =~= Seq::<char>::empty());
    assert(out.deep_view().push(v@.subrange(0, 0)) =~= split_on(v@.take(0), sep));
    while i < v.len()
        invariant
            start <= i <= v.len(),
            v@ == s@,
            out.deep_view().push(v@.subrange(start as int, i as int)) == split_on(
                v@.take(i as int),
                sep,
            ),
        decreases v.len() - i,
    {
        let ghost before = split_on(v@.take(i as int), sep);
        let ghost done = out.deep_view();
        assert(v@.take(i + 1).drop_last() =~= v@.take(i as int));
        assert(before.drop_last() =~= done);
        if v[i] == sep {
            let piece = String::from_str(s.substring_char(start, i));
            out.push(piece);
            start = i + 1;
            assert(out.deep_view() =~= done.push(piece@));
            assert(v@.subrange(start as int, i + 1) =~= Seq::<char>::empty());
            assert(out.deep_view().push(v@.subrange(start as int, i + 1)) =~= before.push(
                Seq::<char>::empty(),
            ));
        } else {
            assert(v@.subrange(start as int, i + 1) =~= v@.subrange(start as int, i as int).push(
                v@[i as int],
            ));
        }
        i += 1;
    }
    assert(v@.take(v.len() as int) =~= v@);
    let last = String::from_str(s.substring_char(start, i));
    let ghost done = out.deep_view();
    out.push(last);
    assert(out.deep_view() =~= done.push(last@));
    out
}

/// The pieces of `parts` from the place `from` on, written one after the
/// other with `sep` between neighbours.
pub fn join_from(parts: &Vec<String>, from: usize, sep: &str) -> (r: String)
    requires
        from <= parts.len(),
    ensures
        r@ == joined(parts.deep_view().skip(from as int), sep@),
{
    let mut out = String::new();
    let ghost all = parts.deep_view().skip(from as int);
    let mut i: usize = from;
    assert(all.take(0) =~= Seq::<Seq<char>>::empty());
    while i < parts.len()
        invariant
            from <= i <= parts.len(),
            all == parts.deep_view().skip(from as int),
            out@ == joined(all.take(i - from), sep@),
        decreases parts.len() - i,
    {
        let ghost prefix = all.take(i + 1 - from);
        assert(prefix.drop_last() =~= all.take(i - from));
        assert(prefix.last() == parts@[i as int]@);
        if i > from {
            out.append(sep);
        } else {
            assert(out@ + parts@[i as int]@ =~= parts@[i as int]@);
        }
        out.append(parts[i].as_str());
        i += 1;
    }
    assert(all.take(all.len() as int) =~= all);
    out
}

/// A copy of a list of strings.
pub fn clone_strings(v: &Vec<String>) -> (r: Vec<String>)
    ensures
        r.deep_view() == v.deep_view(),
{
    let mut out: Vec<String> = Vec::new();
    let mut i: usize = 0;
    while i < v.len()
        invariant
            i <= v.len(),
            out.len() == i,
            forall|j: int| 0 <= j < i ==> out@[j]@ == v@[j]@,
        decreases v.len() - i,
    {
        out.push(v[i].clone());
        i += 1;
    }
    assert(out.deep_view() =~= v.deep_view());
    out
}

/// A copy of an optional string.
pub fn clone_opt(v: &Option<String>) -> (r: Option<String>)
    ensures
        r.deep_view() == v.deep_view(),
{
    match v {
        Some(s) => Some(s.clone()),
        None => None,
    }
}

/// The number that `digits` write in base ten, where they are ASCII digits
/// and the number is at most `i32::MAX`.
pub fn parse_decimal(digits: &Vec<char>) -> (r: Option<i32>)
    ensures
        match r {
            Some(n) => all_digits(digits@) && n == decimal_value(digits@),
            None => !all_digits(digits@) || decimal_value(digits@) > i32::MAX,
        },
{
    let mut acc: i32 = 0;
    let mut i: usize = 0;
    assert(digits@.take(0) =~= Seq::<char>::empty());
    while i < digits.len()
        invariant
            i <= digits.len(),
            all_digits(digits@.take(i as int)),
            0 <= acc,
            acc == decimal_value(digits@.take(i as int)),
        decreases digits.len() - i,
    {
        let c = digits[i];
        if !char_is_digit(c) {
            return None;
        }
        let d: i32 = (c as u32 - '0' as u32) as i32;
        let ghost before = digits@.take(i as int);
        let ghost now = digits@.take(i + 1);
        assert(now.drop_last() =~= before);
        assert(now.last() == c);
        assert forall|j: int| 0 <= j < now.len() implies is_digit(#[trigger] now[j]) by {
            if j < i {
                assert(now[j] == before[j]);
            }
        }
        if acc > (i32::MAX - d) / 10 {
            proof {
                lemma_decimal_grows(digits@, i + 1);
            }
            return None;
        }
        acc = acc * 10 + d;
        i += 1;
    }
    assert(digits@.take(digits.len() as int) =~= digits@);
    Some(acc)
}

proof fn lemma_decimal_grows(s: Seq<char>, n: int)
    requires
        0 <= n <= s.len(),
    ensures
        decimal_value(s.take(n)) <= decimal_value(s),
    decreases s.len() - n,
{
    if n < s.len() {
        lemma_decimal_grows(s, n + 1);
        assert(s.take(n + 1).drop_last() =~= s.take(n));
    } else {
        assert(s.take(n) =~= s);
    }
}

fn digit_str(d: u32) -> (r: &'static str)
    requires
        d < 10,
    ensures
        r@ == seq![digit_char(d as nat)],
{
    proof {
        reveal_strlit("0");
        reveal_strlit("1");
        reveal_strlit("2");
        reveal_strlit("3");
        reveal_strlit("4");
        reveal_strlit("5");
        reveal_strlit("6");
        reveal_strlit("7");
        reveal_strlit("8");
        reveal_strlit("9");
    }
    let r = if d == 0 {
        "0"
    } else if d == 1 {
        "1"
    } else if d == 2 {
        "2"
    } else if d == 3 {
        "3"
    } else if d == 4 {
        "4"
    } else if d == 5 {
        "5"
    } else if d == 6 {
        "6"
    } else if d == 7 {
        "7"
    } else if d == 8 {
        "8"
    } else {
        "9"
    };
    assert(r@ =~= seq![digit_char(d as nat)]);
    r
}

/// `n` written in base ten without leading zeros.
pub fn decimal_string(n: u32) -> (r: String)
    ensures
        r@ == decimal_text(n as nat),
    decreases n,
{
    if n < 10 {
        String::from_str(digit_str(n))
    } else {
        let mut s = decimal_string(n / 10);
        s.append(digit_str(n % 10));
        assert(s@ =~= decimal_text((n / 10) as nat).push(digit_char((n % 10) as nat)));
        s
    }
}

/// Whether `s` is one of the strings of `v`.
pub fn contains_str(v: &Vec<String>, s: &str) -> (r: bool)
    ensures
        r == v.deep_view().contains(s@),
{
    let mut i: usize = 0;
    while i < v.len()
        invariant
            i <= v.len(),
            forall|j: int| 0 <= j < i ==> (#[trigger] v.deep_view()[j]) != s@,
        decreases v.len() - i,
    {
        if str_eq(v[i].as_str(), s) {
            assert(v.deep_view()[i as int] == s@);
            return true;
        }
        i += 1;
    }
    false
}

/// Whether one of the first `end` characters of `v` is white space.
pub fn any_space(v: &Vec<char>, end: usize) -> (r: bool)
    requires
        end <= v.len(),
    ensures
        r == has_space(v@.take(end as int)),
{
    let mut k: usize = 0;
    while k < end
        invariant
            k <= end <= v.len(),
            forall|j: int| 0 <= j < k ==> !is_space(#[trigger] v@.take(end as int)[j]),
        decreases end - k,
    {
        if char_is_space(v[k]) {
            assert(is_space(v@.take(end as int)[k as int]));
            return true;
        }
        k += 1;
    }
    false
}

} // verus!
