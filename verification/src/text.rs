//! Text helpers over the character view of strings.
//!
//! Every contract here is stated over `Seq<char>`, the view that `str` and
//! `String` share, so that callers can reason about text without caring how
//! it is stored.

use vstd::prelude::*;

verus! {

/// Views of an optional string.
pub open spec fn opt_text(o: Option<String>) -> Option<Seq<char>> {
    match o {
        Some(s) => Some(s@),
        None => None,
    }
}

/// Views of a list of strings, item by item.
pub open spec fn list_text(v: Seq<String>) -> Seq<Seq<char>> {
    Seq::new(v.len(), |i: int| v[i]@)
}

/// The characters of `s`, in order.
pub fn chars_of(s: &str) -> (v: Vec<char>)
    ensures
        v@ == s@,
{
    let mut v: Vec<char> = Vec::new();
    for c in it: s.chars()
        invariant
            v@ == it.seq().take(it.index() as int),
            it.seq() == s@,
    {
        v.push(c);
    }
    v
}

/// Whether two string slices hold the same characters.
pub fn str_eq(a: &str, b: &str) -> (same: bool)
    ensures
        same == (a@ == b@),
{
    let x = chars_of(a);
    let y = chars_of(b);
    if x.len() != y.len() {
        return false;
    }
    let mut i: usize = 0;
    while i < x.len()
        invariant
            i <= x.len(),
            x.len() == y.len(),
            x@ == a@,
            y@ == b@,
            forall|k: int| 0 <= k < i ==> x@[k] == y@[k],
        decreases x.len() - i,
    {
        if x[i] != y[i] {
            return false;
        }
        i += 1;
    }
    assert(a@ =~= b@);
    true
}

/// Whether two optional strings hold the same text, or are both absent.
pub fn opt_string_eq(a: &Option<String>, b: &Option<String>) -> (same: bool)
    ensures
        same == (opt_text(*a) == opt_text(*b)),
{
    match (a, b) {
        (Some(x), Some(y)) => *x == *y,
        (None, None) => true,
        _ => false,
    }
}

/// Whether two lists hold the same strings in the same order.
pub fn string_list_eq(a: &Vec<String>, b: &Vec<String>) -> (same: bool)
    ensures
        same == (list_text(a@) == list_text(b@)),
{
    if a.len() != b.len() {
        assert(list_text(a@).len() != list_text(b@).len());
        return false;
    }
    let mut i: usize = 0;
    while i < a.len()
        invariant
            i <= a.len(),
            a.len() == b.len(),
            forall|k: int| 0 <= k < i ==> a@[k]@ == b@[k]@,
        decreases a.len() - i,
    {
        if a[i] != b[i] {
            assert(list_text(a@)[i as int] != list_text(b@)[i as int]);
            return false;
        }
        i += 1;
    }
    assert(list_text(a@) =~= list_text(b@));
    true
}

/// A copy of a list of strings.
pub fn clone_string_list(v: &Vec<String>) -> (copy: Vec<String>)
    ensures
        list_text(copy@) == list_text(v@),
{
    let mut copy: Vec<String> = Vec::new();
    let mut i: usize = 0;
    while i < v.len()
        invariant
            i <= v.len(),
            copy.len() == i,
            forall|k: int| 0 <= k < i ==> copy@[k]@ == v@[k]@,
        decreases v.len() - i,
    {
        copy.push(v[i].clone());
        i += 1;
    }
    assert(list_text(copy@) =~= list_text(v@));
    copy
}

/// Whether `c` has the Unicode `White_Space` property, as
/// `char::is_whitespace` reports it.
pub uninterp spec fn is_whitespace(c: char) -> bool;

/// The lowercase form of a text, as `str::to_lowercase` computes it.
pub uninterp spec fn lowercase_of(s: Seq<char>) -> Seq<char>;

/// `char::is_whitespace` of the standard library. The contract only names
/// its answer: which characters count as white space is left to the
/// library's Unicode tables.
#[verifier::external_body]
fn char_is_whitespace(c: char) -> (r: bool)
    ensures
        r == is_whitespace(c),
{
    c.is_whitespace()
}

/// `str::to_lowercase` of the standard library. The contract only names its
/// result: the mapping follows the library's Unicode tables and depends on
/// nothing but the text handed in.
#[verifier::external_body]
pub(crate) fn lowercase(s: &str) -> (r: String)
    ensures
        r@ == lowercase_of(s@),
{
    s.to_lowercase()
}

/// For each character of a text, whether it is white space.
pub open spec fn white_flags(s: Seq<char>) -> Seq<bool> {
    Seq::new(s.len(), |i: int| is_whitespace(s[i]))
}

/// Number of flags in a row that equal `value`, from index `from` on.
pub open spec fn run_forward(flags: Seq<bool>, from: int, value: bool) -> int
    decreases flags.len() - from,
{
    if 0 <= from < flags.len() && flags[from] == value {
        1 + run_forward(flags, from + 1, value)
    } else {
        0
    }
}

/// Number of flags in a row that equal `value`, backwards from the one
/// before index `to`.
pub open spec fn run_backward(flags: Seq<bool>, to: int, value: bool) -> int
    decreases to,
{
    if 0 < to <= flags.len() && flags[to - 1] == value {
        1 + run_backward(flags, to - 1, value)
    } else {
        0
    }
}

/// Where a text begins and ends once the white space at both ends is left
/// out, given for each character whether it is white space. A text of
/// nothing but white space is left empty.
pub open spec fn trim_bounds_of(flags: Seq<bool>) -> (int, int) {
    let start = run_forward(flags, 0, true);
    if start >= flags.len() {
        (start, start)
    } else {
        (start, flags.len() - run_backward(flags, flags.len() as int, true))
    }
}

/// `s` without leading and trailing white space.
pub open spec fn trimmed(s: Seq<char>) -> Seq<char> {
    let bounds = trim_bounds_of(white_flags(s));
    s.subrange(bounds.0, bounds.1)
}

/// A run that goes backwards stops at the latest behind a flag that
/// differs.
pub proof fn lemma_run_backward_stops(flags: Seq<bool>, to: int, value: bool, k: int)
    requires
        0 <= k < to <= flags.len(),
        flags[k] != value,
    ensures
        0 <= run_backward(flags, to, value) <= to - k - 1,
    decreases to,
{
    if flags[to - 1] == value {
        lemma_run_backward_stops(flags, to - 1, value, k);
    }
}

/// Say of each character of `s` whether it is white space.
pub fn white_flags_of(s: &str) -> (flags: Vec<bool>)
    ensures
        flags@ == white_flags(s@),
{
    let cs = chars_of(s);
    let mut flags: Vec<bool> = Vec::new();
    let mut i: usize = 0;
    while i < cs.len()
        invariant
            i <= cs.len(),
            cs@ == s@,
            flags.len() == i,
            forall|k: int| 0 <= k < i ==> flags@[k] == is_whitespace(s@[k]),
        decreases cs.len() - i,
    {
        flags.push(char_is_whitespace(cs[i]));
        i += 1;
    }
    assert(flags@ =~= white_flags(s@));
    flags
}

/// Count the flags in a row that equal `value`, from index `from` on.
pub fn run_forward_len(flags: &Vec<bool>, from: usize, value: bool) -> (n: usize)
    ensures
        n == run_forward(flags@, from as int, value),
        from <= flags.len() ==> from + n <= flags.len(),
        from + n < flags.len() ==> flags@[from + n] != value,
{
    if from >= flags.len() {
        return 0;
    }
    let mut i: usize = from;
    while i < flags.len() && flags[i] == value
        invariant
            from <= i <= flags.len(),
            run_forward(flags@, from as int, value) == (i - from) + run_forward(
                flags@,
                i as int,
                value,
            ),
        decreases flags.len() - i,
    {
        i += 1;
    }
    i - from
}

/// Count the flags in a row that equal `value`, backwards from the one
/// before index `to`.
pub fn run_backward_len(flags: &Vec<bool>, to: usize, value: bool) -> (n: usize)
    ensures
        n == run_backward(flags@, to as int, value),
        n <= to,
{
    if to > flags.len() {
        return 0;
    }
    let mut i: usize = to;
    while i > 0 && flags[i - 1] == value
        invariant
            i <= to <= flags.len(),
            run_backward(flags@, to as int, value) == (to - i) + run_backward(
                flags@,
                i as int,
                value,
            ),
        decreases i,
    {
        i -= 1;
    }
    to - i
}

/// Find where a text begins and ends once the white space at both ends is
/// left out, given for each character whether it is white space.
pub fn trim_bounds(flags: &Vec<bool>) -> (bounds: (usize, usize))
    ensures
        (bounds.0 as int, bounds.1 as int) == trim_bounds_of(flags@),
        bounds.0 <= bounds.1 <= flags.len(),
{
    let start = run_forward_len(flags, 0, true);
    if start >= flags.len() {
        return (start, start);
    }
    let trailing = run_backward_len(flags, flags.len(), true);
    proof {
        lemma_run_backward_stops(flags@, flags.len() as int, true, start as int);
    }
    (start, flags.len() - trailing)
}

/// The slice of `s` that is left when white space is removed from both ends.
pub fn trim(s: &str) -> (t: &str)
    ensures
        t@ == trimmed(s@),
{
    let flags = white_flags_of(s);
    let bounds = trim_bounds(&flags);
    s.substring_char(bounds.0, bounds.1)
}

/// The pieces of `s` between occurrences of `sep`. A text without `sep` is
/// one piece; an empty text is one empty piece.
pub open spec fn split_on(s: Seq<char>, sep: char) -> Seq<Seq<char>>
    decreases s.len(),
{
    if s.len() == 0 {
        seq![Seq::empty()]
    } else {
        let init = split_on(s.drop_last(), sep);
        if s.last() == sep {
            init.push(Seq::empty())
        } else {
            init.drop_last().push(init.last().push(s.last()))
        }
    }
}

/// There is always at least one piece.
pub proof fn lemma_split_on_nonempty(s: Seq<char>, sep: char)
    ensures
        split_on(s, sep).len() >= 1,
    decreases s.len(),
{
    if s.len() > 0 {
        lemma_split_on_nonempty(s.drop_last(), sep);
    }
}

/// Split `s` at every `sep`.
pub fn split(s: &str, sep: char) -> (parts: Vec<String>)
    ensures
        list_text(parts@) == split_on(s@, sep),
{
    let cs = chars_of(s);
    let n = cs.len();
    let mut parts: Vec<String> = Vec::new();
    let mut start: usize = 0;
    let mut i: usize = 0;
    assert(s@.take(0) =~= Seq::<char>::empty());
    assert(list_text(parts@).push(s@.subrange(0, 0)) =~= seq![Seq::<char>::empty()]);
    while i < n
        invariant
            start <= i <= n,
            n == cs.len(),
            cs@ == s@,
            split_on(s@.take(i as int), sep) == list_text(parts@).push(
                s@.subrange(start as int, i as int),
            ),
        decreases n - i,
    {
        let ghost before = list_text(parts@);
        proof {
            let t = s@.take(i as int + 1);
            assert(t.drop_last() =~= s@.take(i as int));
            assert(t.last() == s@[i as int]);
        }
        if cs[i] == sep {
            parts.push(String::from_str(s.substring_char(start, i)));
            assert(list_text(parts@) =~= before.push(s@.subrange(start as int, i as int)));
            start = i + 1;
            assert(s@.subrange(start as int, i as int + 1) =~= Seq::<char>::empty());
        } else {
            let ghost cur = s@.subrange(start as int, i as int);
            assert(before.push(cur).drop_last() =~= before);
            assert(cur.push(s@[i as int]) =~= s@.subrange(start as int, i as int + 1));
        }
        i += 1;
    }
    assert(s@.take(n as int) =~= s@);
    let ghost before = list_text(parts@);
    parts.push(String::from_str(s.substring_char(start, n)));
    assert(list_text(parts@) =~= before.push(s@.subrange(start as int, n as int)));
    parts
}

/// Position of the first `c` in `s`, or the length of `s` if there is none.
pub open spec fn find_char(s: Seq<char>, c: char) -> int
    decreases s.len(),
{
    if s.len() == 0 || s[0] == c {
        0
    } else {
        1 + find_char(s.drop_first(), c)
    }
}

/// The texts before and after the first `c` in `s`, if `s` holds one.
pub open spec fn split_once_at(s: Seq<char>, c: char) -> Option<(Seq<char>, Seq<char>)> {
    let k = find_char(s, c);
    if k < s.len() {
        Some((s.take(k), s.skip(k + 1)))
    } else {
        None
    }
}

/// `find_char` gives a position within the text or just behind it; where
/// it lies within, a `c` stands there, and none stands before it.
pub proof fn lemma_find_char_bounds(s: Seq<char>, c: char)
    ensures
        0 <= find_char(s, c) <= s.len(),
        find_char(s, c) < s.len() ==> s[find_char(s, c)] == c,
        forall|i: int| 0 <= i < find_char(s, c) ==> s[i] != c,
    decreases s.len(),
{
    if s.len() == 0 || s[0] == c {
    } else {
        lemma_find_char_bounds(s.drop_first(), c);
        assert forall|i: int| 0 <= i < find_char(s, c) implies s[i] != c by {
            if i > 0 {
                assert(s[i] == s.drop_first()[i - 1]);
            }
        }
    }
}

/// Split `s` at its first `c`.
pub fn split_once(s: &str, c: char) -> (r: Option<(&str, &str)>)
    ensures
        match r {
            Some((a, b)) => split_once_at(s@, c) == Some((a@, b@)),
            None => split_once_at(s@, c) is None,
        },
{
    let cs = chars_of(s);
    let n = cs.len();
    let mut i: usize = 0;
    assert(s@.skip(0) =~= s@);
    while i < n
        invariant
            i <= n,
            n == cs.len(),
            cs@ == s@,
            find_char(s@, c) == i + find_char(s@.skip(i as int), c),
        decreases n - i,
    {
        assert(s@.skip(i as int)[0] == s@[i as int]);
        if cs[i] == c {
            let a = s.substring_char(0, i);
            let b = s.substring_char(i + 1, n);
            assert(a@ =~= s@.take(i as int));
            assert(b@ =~= s@.skip(i as int + 1));
            return Some((a, b));
        }
        assert(s@.skip(i as int).drop_first() =~= s@.skip(i as int + 1));
        i += 1;
    }
    assert(s@.skip(n as int).len() == 0);
    None
}

/// Whether `p` occurs in `s` as a run of consecutive characters.
pub open spec fn occurs_in(s: Seq<char>, p: Seq<char>) -> bool {
    exists|i: int| 0 <= i && i + p.len() <= s.len() && #[trigger] s.subrange(i, i + p.len()) == p
}

/// Whether `pattern` occurs somewhere in `s`.
pub fn contains_text(s: &str, pattern: &str) -> (found: bool)
    ensures
        found == occurs_in(s@, pattern@),
{
    let cs = chars_of(s);
    let ps = chars_of(pattern);
    let n = cs.len();
    let m = ps.len();
    if m > n {
        return false;
    }
    let mut i: usize = 0;
    while i <= n - m
        invariant
            m <= n,
            i <= n - m + 1,
            n == cs.len(),
            m == ps.len(),
            cs@ == s@,
            ps@ == pattern@,
            forall|k: int| 0 <= k < i ==> #[trigger] s@.subrange(k, k + m) != pattern@,
        decreases n - m + 1 - i,
    {
        let mut j: usize = 0;
        while j < m && cs[i + j] == ps[j]
            invariant
                j <= m,
                i + m <= n,
                n == cs.len(),
                m == ps.len(),
                forall|k: int| 0 <= k < j ==> cs@[i + k] == ps@[k],
            decreases m - j,
        {
            j += 1;
        }
        if j == m {
            assert(s@.subrange(i as int, i + m) =~= pattern@);
            return true;
        }
        assert(s@.subrange(i as int, i + m)[j as int] != pattern@[j as int]);
        i += 1;
    }
    false
}

/// Whether `c` is one of the ten ASCII digits.
pub open spec fn is_digit(c: char) -> bool {
    '0' <= c && c <= '9'
}

/// The number a digit stands for.
pub open spec fn digit_value(c: char) -> nat {
    (c as u32 - '0' as u32) as nat
}

/// The number that a run of digits denotes in base ten.
pub open spec fn decimal_value(s: Seq<char>) -> nat
    decreases s.len(),
{
    if s.len() == 0 {
        0
    } else {
        decimal_value(s.drop_last()) * 10 + digit_value(s.last())
    }
}

/// Whether every character of `s` is a digit.
pub open spec fn all_digits(s: Seq<char>) -> bool {
    forall|i: int| 0 <= i < s.len() ==> is_digit(#[trigger] s[i])
}

/// The unsigned number that `s` spells: an optional `+`, then one or more
/// digits and nothing else, denoting a value of at most `max`.
pub open spec fn parse_unsigned(s: Seq<char>, max: nat) -> Option<nat> {
    let digits = if s.len() > 0 && s[0] == '+' {
        s.skip(1)
    } else {
        s
    };
    if digits.len() > 0 && all_digits(digits) && decimal_value(digits) <= max {
        Some(decimal_value(digits))
    } else {
        None
    }
}

/// A run of digits denotes at least what any of its prefixes denotes.
pub proof fn lemma_decimal_value_monotonic(s: Seq<char>, k: int)
    requires
        0 <= k <= s.len(),
    ensures
        decimal_value(s.take(k)) <= decimal_value(s),
    decreases s.len() - k,
{
    if k == s.len() {
        assert(s.take(k) =~= s);
    } else {
        lemma_decimal_value_monotonic(s.drop_last(), k);
        assert(s.drop_last().take(k) =~= s.take(k));
    }
}

fn parse_bounded(s: &str, max: u64) -> (r: Option<u64>)
    requires
        max <= u32::MAX,
    ensures
        match r {
            Some(v) => parse_unsigned(s@, max as nat) == Some(v as nat),
            None => parse_unsigned(s@, max as nat) is None,
        },
{
    let cs = chars_of(s);
    let n = cs.len();
    let first: usize = if n > 0 && cs[0] == '+' {
        1
    } else {
        0
    };
    let ghost digits = s@.skip(first as int);
    proof {
        assert(s@.skip(0) =~= s@);
        if n > 0 {
            assert(cs@[0] == s@[0]);
        }
        assert(digits == if s@.len() > 0 && s@[0] == '+' {
            s@.skip(1)
        } else {
            s@
        });
    }
    if first == n {
        assert(digits.len() == 0);
        return None;
    }
    let mut value: u64 = 0;
    let mut i: usize = first;
    assert(digits.take(0) =~= Seq::<char>::empty());
    while i < n
        invariant
            first <= i <= n,
            n == cs.len(),
            cs@ == s@,
            digits == s@.skip(first as int),
            digits == if s@.len() > 0 && s@[0] == '+' {
                s@.skip(1)
            } else {
                s@
            },
            max <= u32::MAX,
            value <= max,
            value == decimal_value(digits.take(i - first)),
            all_digits(digits.take(i - first)),
        decreases n - i,
    {
        let c = cs[i];
        let ghost next = digits.take(i - first + 1);
        proof {
            assert(next.drop_last() =~= digits.take(i - first));
            assert(next.last() == c);
            assert(digits[i - first] == c);
        }
        if c < '0' || c > '9' {
            assert(!is_digit(digits[i - first]));
            return None;
        }
        let d: u64 = (c as u32 - '0' as u32) as u64;
        let grown: u64 = value * 10 + d;
        assert(d == digit_value(c));
        assert(decimal_value(next) == grown);
        if grown > max {
            proof {
                lemma_decimal_value_monotonic(digits, i - first + 1);
            }
            return None;
        }
        assert forall|k: int| 0 <= k < next.len() implies is_digit(#[trigger] next[k]) by {
            if k < next.len() - 1 {
                assert(next[k] == digits.take(i - first)[k]);
            }
        }
        value = grown;
        i += 1;
    }
    assert(digits.take(n - first) =~= digits);
    Some(value)
}

/// Read `s` as a `u32`: an optional `+` followed by digits only.
pub fn parse_u32(s: &str) -> (r: Option<u32>)
    ensures
        match r {
            Some(v) => parse_unsigned(s@, u32::MAX as nat) == Some(v as nat),
            None => parse_unsigned(s@, u32::MAX as nat) is None,
        },
{
    match parse_bounded(s, 0xffff_ffff) {
        Some(v) => Some(v as u32),
        None => None,
    }
}

/// Read `s` as a `u16`: an optional `+` followed by digits only.
pub fn parse_u16(s: &str) -> (r: Option<u16>)
    ensures
        match r {
            Some(v) => parse_unsigned(s@, u16::MAX as nat) == Some(v as nat),
            None => parse_unsigned(s@, u16::MAX as nat) is None,
        },
{
    match parse_bounded(s, 0xffff) {
        Some(v) => Some(v as u16),
        None => None,
    }
}

/// Read `s` as a `u8`: an optional `+` followed by digits only.
pub fn parse_u8(s: &str) -> (r: Option<u8>)
    ensures
        match r {
            Some(v) => parse_unsigned(s@, u8::MAX as nat) == Some(v as nat),
            None => parse_unsigned(s@, u8::MAX as nat) is None,
        },
{
    match parse_bounded(s, 0xff) {
        Some(v) => Some(v as u8),
        None => None,
    }
}

/// The character that writes the digit `d`.
pub open spec fn digit_char(d: nat) -> char {
    if d == 0 {
        '0'
    } else if d == 1 {
        '1'
    } else if d == 2 {
        '2'
    } else if d == 3 {
        '3'
    } else if d == 4 {
        '4'
    } else if d == 5 {
        '5'
    } else if d == 6 {
        '6'
    } else if d == 7 {
        '7'
    } else if d == 8 {
        '8'
    } else {
        '9'
    }
}

/// `n` written in base ten, without sign or leading zeros.
pub open spec fn decimal(n: nat) -> Seq<char>
    decreases n,
{
    if n < 10 {
        seq![digit_char(n)]
    } else {
        decimal(n / 10).push(digit_char(n % 10))
    }
}

fn digit_str(d: u64) -> (r: &'static str)
    requires
        d < 10,
    ensures
        r@ == seq![digit_char(d as nat)],
{
    proof {
        reveal_strlit("0");
        reveal_strlit("1");
        reveal_strlit("2");
        reveal_strlit("3");
        reveal_strlit("4");
        reveal_strlit("5");
        reveal_strlit("6");
        reveal_strlit("7");
        reveal_strlit("8");
        reveal_strlit("9");
    }
    let r = if d == 0 {
        "0"
    } else if d == 1 {
        "1"
    } else if d == 2 {
        "2"
    } else if d == 3 {
        "3"
    } else if d == 4 {
        "4"
    } else if d == 5 {
        "5"
    } else if d == 6 {
        "6"
    } else if d == 7 {
        "7"
    } else if d == 8 {
        "8"
    } else {
        "9"
    };
    assert(r@ =~= seq![digit_char(d as nat)]);
    r
}

/// `n` written in base ten.
pub fn decimal_string(n: u64) -> (r: String)
    ensures
        r@ == decimal(n as nat),
    decreases n,
{
    if n < 10 {
        String::from_str(digit_str(n))
    } else {
        let mut r = decimal_string(n / 10);
        r.append(digit_str(n % 10));
        assert(r@ =~= decimal((n / 10) as nat).push(digit_char((n % 10) as nat)));
        r
    }
}

/// `s` with spaces put in front until it is at least `width` long.
pub open spec fn pad_left(s: Seq<char>, width: nat) -> Seq<char>
    decreases width - s.len(),
{
    if s.len() >= width {
        s
    } else {
        pad_left(seq![' '] + s, width)
    }
}

/// `count` spaces.
pub open spec fn spaces(count: nat) -> Seq<char> {
    Seq::new(count, |i: int| ' ')
}

/// A string of `count` spaces.
pub fn spaces_string(count: usize) -> (r: String)
    ensures
        r@ == spaces(count as nat),
{
    let mut r = String::new();
    let mut i: usize = 0;
    proof {
        reveal_strlit(" ");
    }
    while i < count
        invariant
            i <= count,
            r@ =~= spaces(i as nat),
            " "@ =~= seq![' '],
        decreases count - i,
    {
        r.append(" ");
        i += 1;
    }
    r
}

/// `n` in base ten, right-aligned in a field of `width` columns.
pub fn padded_decimal_string(n: u64, width: usize) -> (r: String)
    ensures
        r@ == pad_left(decimal(n as nat), width as nat),
{
    let digits = decimal_string(n);
    let len = digits.as_str().unicode_len();
    if len >= width {
        return digits;
    }
    let mut r = spaces_string(width - len);
    r.append(digits.as_str());
    proof {
        lemma_pad_left_is_spaces(digits@, width as nat);
    }
    r
}

/// Padding puts exactly the missing number of spaces in front.
pub proof fn lemma_pad_left_is_spaces(s: Seq<char>, width: nat)
    requires
        s.len() <= width,
    ensures
        pad_left(s, width) == spaces((width - s.len()) as nat) + s,
    decreases width - s.len(),
{
    if s.len() >= width {
        assert(spaces(0) + s =~= s);
    } else {
        let t = seq![' '] + s;
        lemma_pad_left_is_spaces(t, width);
        assert(spaces((width - t.len()) as nat) + t =~= spaces((width - s.len()) as nat) + s);
    }
}

/// The items of `parts` written one after another with `sep` between them.
pub open spec fn joined(parts: Seq<Seq<char>>, sep: Seq<char>) -> Seq<char>
    decreases parts.len(),
{
    if parts.len() == 0 {
        Seq::empty()
    } else if parts.len() == 1 {
        parts[0]
    } else {
        joined(parts.drop_last(), sep) + sep + parts.last()
    }
}

/// Join the strings of `parts`, putting `sep` between neighbours.
pub fn join(parts: &Vec<String>, sep: &str) -> (r: String)
    ensures
        r@ == joined(list_text(parts@), sep@),
{
    let mut r = String::new();
    let mut i: usize = 0;
    assert(list_text(parts@).take(0) =~= Seq::<Seq<char>>::empty());
    while i < parts.len()
        invariant
            i <= parts.len(),
            r@ == joined(list_text(parts@).take(i as int), sep@),
        decreases parts.len() - i,
    {
        let ghost next = list_text(parts@).take(i as int + 1);
        proof {
            assert(next.drop_last() =~= list_text(parts@).take(i as int));
            assert(next.last() == parts@[i as int]@);
        }
        if i > 0 {
            r.append(sep);
        }
        r.append(parts[i].as_str());
        proof {
            if i == 0 {
                assert(r@ =~= next[0]);
            } else {
                assert(r@ =~= joined(next.drop_last(), sep@) + sep@ + next.last());
            }
        }
        i += 1;
    }
    assert(list_text(parts@).take(parts.len() as int) =~= list_text(parts@));
    r
}

} // verus!
