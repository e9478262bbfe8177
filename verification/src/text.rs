//! Small text operations on identifiers and paths.

use vstd::prelude::*;

verus! {

/// `true` if `p` holds the path separator `::` at position `i`.
pub open spec fn path_sep_at(p: Seq<char>, i: int) -> bool {
    0 <= i && i + 1 < p.len() && p[i] == ':' && p[i + 1] == ':'
}

/// Start of the last path separator `::` that ends at or before position `n` of `p`
/// (`-1` if there is none).
pub open spec fn last_path_sep(p: Seq<char>, n: int) -> int
    decreases n,
{
    if n < 2 {
        -1
    } else if path_sep_at(p, n - 2) {
        n - 2
    } else {
        last_path_sep(p, n - 1)
    }
}

/// The name of the type at the path `p`: the part after the last `::`, or `p` itself if it
/// holds no `::`.
pub open spec fn type_name_of_path(p: Seq<char>) -> Seq<char> {
    let i = last_path_sep(p, p.len() as int);
    if i < 0 {
        p
    } else {
        p.skip(i + 2)
    }
}

/// Properties of [`last_path_sep`]: it is a separator, and no separator lies after it.
pub proof fn lemma_last_path_sep(p: Seq<char>, n: int)
    requires
        n <= p.len(),
    ensures
        -1 <= last_path_sep(p, n),
        last_path_sep(p, n) >= 0 ==> last_path_sep(p, n) <= n - 2 && path_sep_at(
            p,
            last_path_sep(p, n),
        ),
        forall|j: int| last_path_sep(p, n) < j && j + 1 < n ==> !path_sep_at(p, j),
    decreases n,
{
    if n >= 2 && !path_sep_at(p, n - 2) {
        lemma_last_path_sep(p, n - 1);
    }
}

/// Returns the name of the type at the passed path: the part after the last `::`.
pub fn type_name_from_path(path: &str) -> (r: &str)
    ensures
        r@ == type_name_of_path(path@),
{
    let n = path.unicode_len();
    let mut i = n;
    while i >= 2
        invariant
            i <= n,
            n == path@.len(),
            last_path_sep(path@, n as int) == last_path_sep(path@, i as int),
        decreases i,
    {
        if path.get_char(i - 2) == ':' && path.get_char(i - 1) == ':' {
            return path.substring_char(i, n);
        }
        i = i - 1;
    }
    path
}

/// Position of the first `c` in `s` from `start` on (the length if there is none).
pub open spec fn find_char(s: Seq<char>, c: char, start: int) -> int
    decreases s.len() - start,
{
    if start < 0 || start >= s.len() {
        s.len() as int
    } else if s[start] == c {
        start
    } else {
        find_char(s, c, start + 1)
    }
}

/// Properties of [`find_char`]: it finds the first occurrence.
pub proof fn lemma_find_char(s: Seq<char>, c: char, start: int)
    requires
        0 <= start <= s.len(),
    ensures
        start <= find_char(s, c, start) <= s.len(),
        find_char(s, c, start) < s.len() ==> s[find_char(s, c, start)] == c,
        forall|j: int| start <= j < find_char(s, c, start) ==> s[j] != c,
    decreases s.len() - start,
{
    if start < s.len() && s[start] != c {
        lemma_find_char(s, c, start + 1);
    }
}

/// Splits `s` at the first occurrence of `c` into the part before and the part after it.
pub fn split_once_char(s: &str, c: char) -> (r: Option<(&str, &str)>)
    ensures
        find_char(s@, c, 0) < s@.len() <==> r is Some,
        r matches Some((a, b)) ==> a@ == s@.take(find_char(s@, c, 0)) && b@ == s@.skip(
            find_char(s@, c, 0) + 1,
        ),
{
    let n = s.unicode_len();
    let mut i: usize = 0;
    while i < n
        invariant
            i <= n,
            n == s@.len(),
            find_char(s@, c, 0) == find_char(s@, c, i as int),
        decreases n - i,
    {
        if s.get_char(i) == c {
            return Some((s.substring_char(0, i), s.substring_char(i + 1, n)));
        }
        i = i + 1;
    }
    None
}

/// Seq of the strings of `v` that are not empty, in their order.
pub open spec fn non_empty_strings(v: Seq<String>) -> Seq<String>
    decreases v.len(),
{
    if v.len() == 0 {
        seq![]
    } else if v[0]@.len() == 0 {
        non_empty_strings(v.drop_first())
    } else {
        seq![v[0]] + non_empty_strings(v.drop_first())
    }
}

/// Removes the empty strings of `v`, keeping the order of the others.
pub fn filter_non_empty(v: Vec<String>) -> (r: Vec<String>)
    ensures
        r@ == non_empty_strings(v@),
{
    let ghost orig = v@;
    let mut rest = v;
    let mut out: Vec<String> = Vec::new();
    assert(orig.skip(0) =~= orig);
    assert(out@ + non_empty_strings(orig) =~= non_empty_strings(orig));
    while rest.len() > 0
        invariant
            rest@.len() <= orig.len(),
            rest@ == orig.skip(orig.len() - rest@.len()),
            non_empty_strings(orig) == out@ + non_empty_strings(rest@),
        decreases rest@.len(),
    {
        let ghost before = rest@;
        let x = rest.remove(0);
        assert(rest@ =~= before.drop_first());
        assert(rest@ =~= orig.skip(orig.len() - rest@.len()));
        if !x.as_str().is_empty() {
            let ghost prev = out@;
            out.push(x);
            assert(prev + (seq![before[0]] + non_empty_strings(rest@)) =~= out@ + non_empty_strings(
                rest@,
            ));
        }
    }
    assert(out@ =~= out@ + non_empty_strings(rest@));
    out
}

/// Returns `true` if both texts are equal.
pub fn str_eq(a: &str, b: &str) -> (r: bool)
    ensures
        r == (a@ == b@),
{
    let x = a.to_string();
    let y = b.to_string();
    x == y
}

/// `true` if `c` is an ASCII decimal digit.
pub open spec fn is_digit(c: char) -> bool {
    '0' <= c <= '9'
}

/// The value of the decimal digits `s`.
pub open spec fn digits_value(s: Seq<char>) -> nat
    decreases s.len(),
{
    if s.len() == 0 {
        0
    } else {
        digits_value(s.drop_last()) * 10 + ((s.last() as u32) - 48) as nat
    }
}

/// The digits of an unsigned number: the text without an optional leading `+`.
pub open spec fn unsigned_digits(s: Seq<char>) -> Seq<char> {
    if s.len() > 0 && s[0] == '+' {
        s.skip(1)
    } else {
        s
    }
}

/// The `usize` value of the text `s` as `usize::from_str` parses it: an optional `+`
/// followed by at least one decimal digit, with a value that fits into `usize`.
pub open spec fn parse_usize_spec(s: Seq<char>) -> Option<usize> {
    let d = unsigned_digits(s);
    if d.len() > 0 && (forall|i: int| 0 <= i < d.len() ==> is_digit(#[trigger] d[i]))
        && digits_value(d) <= usize::MAX {
        Some(digits_value(d) as usize)
    } else {
        None
    }
}

/// The value of a prefix of digits is at most the value of all digits.
pub proof fn lemma_digits_value_prefix(s: Seq<char>, i: int)
    requires
        0 <= i <= s.len(),
        forall|j: int| 0 <= j < s.len() ==> is_digit(#[trigger] s[j]),
    ensures
        digits_value(s.take(i)) <= digits_value(s),
    decreases s.len() - i,
{
    if i < s.len() {
        lemma_digits_value_prefix(s, i + 1);
        assert(s.take(i + 1).drop_last() =~= s.take(i));
        assert(is_digit(s[i]));
    } else {
        assert(s.take(i) =~= s);
    }
}

/// Parses the text `s` as `usize` (see [`parse_usize_spec`]).
pub fn parse_usize(s: &str) -> (r: Option<usize>)
    ensures
        r == parse_usize_spec(s@),
{
    let n = s.unicode_len();
    let mut start: usize = 0;
    if n > 0 && s.get_char(0) == '+' {
        start = 1;
    }
    let ghost d = unsigned_digits(s@);
    assert(d =~= s@.skip(start as int));
    if start >= n {
        return None;
    }
    let mut i = start;
    let mut acc: usize = 0;
    assert(d.take(0) =~= Seq::<char>::empty());
    while i < n
        invariant
            start <= i <= n,
            n == s@.len(),
            d == s@.skip(start as int),
            d == unsigned_digits(s@),
            forall|j: int| 0 <= j < i - start ==> is_digit(#[trigger] d[j]),
            acc == digits_value(d.take(i - start)),
        decreases n - i,
    {
        let c = s.get_char(i);
        assert(d[i - start] == c);
        if c < '0' || c > '9' {
            assert(!is_digit(d[i - start]));
            assert(!(forall|j: int| 0 <= j < d.len() ==> is_digit(#[trigger] d[j])));
            return None;
        }
        let v = (c as u32 - 48) as usize;
        assert(d.take(i - start + 1).drop_last() =~= d.take(i - start));
        assert(d.take(i - start + 1).last() == c);
        if acc > (usize::MAX - v) / 10 {
            proof {
                assert(acc * 10 + v > usize::MAX) by (nonlinear_arith)
                    requires
                        acc > (usize::MAX - v) / 10,
                        v <= 9,
                ;
                assert(digits_value(d.take(i - start + 1)) == acc * 10 + v);
                if forall|j: int| 0 <= j < d.len() ==> is_digit(#[trigger] d[j]) {
                    lemma_digits_value_prefix(d, i - start + 1);
                    assert(digits_value(d) > usize::MAX);
                }
            }
            return None;
        }
        assert(acc * 10 + v <= usize::MAX) by (nonlinear_arith)
            requires
                acc <= (usize::MAX - v) / 10,
                v <= 9,
        ;
        acc = acc * 10 + v;
        i = i + 1;
    }
    assert(d.take(n - start) =~= d);
    Some(acc)
}

/// `c` in lower case if it is an ASCII upper case letter.
pub open spec fn ascii_lower(c: char) -> char {
    if 'A' <= c <= 'Z' {
        (((c as u32) + 32) as u8) as char
    } else {
        c
    }
}

/// `s` with all ASCII upper case letters in lower case.
pub open spec fn ascii_lowercase(s: Seq<char>) -> Seq<char> {
    s.map_values(|c: char| ascii_lower(c))
}

/// Returns `true` if `s` in ASCII lower case equals `target`.
pub fn ascii_lowercase_eq(s: &str, target: &str) -> (r: bool)
    ensures
        r == (ascii_lowercase(s@) == target@),
{
    let n = s.unicode_len();
    let m = target.unicode_len();
    if n != m {
        assert(ascii_lowercase(s@).len() != target@.len());
        return false;
    }
    let mut i: usize = 0;
    while i < n
        invariant
            i <= n,
            n == s@.len(),
            m == n,
            m == target@.len(),
            forall|j: int| 0 <= j < i ==> ascii_lower(#[trigger] s@[j]) == target@[j],
        decreases n - i,
    {
        let c = s.get_char(i);
        let lc = if c >= 'A' && c <= 'Z' {
            (((c as u32) + 32) as u8) as char
        } else {
            c
        };
        if lc != target.get_char(i) {
            assert(ascii_lowercase(s@)[i as int] != target@[i as int]);
            return false;
        }
        i = i + 1;
    }
    assert(ascii_lowercase(s@) =~= target@);
    true
}

/// `true` if `c` has the Unicode property `White_Space` (as `char::is_whitespace`).
pub open spec fn is_white_space(c: char) -> bool {
    let v = c as u32;
    (0x9 <= v <= 0xD) || v == 0x20 || v == 0x85 || v == 0xA0 || v == 0x1680 || (0x2000 <= v
        <= 0x200A) || v == 0x2028 || v == 0x2029 || v == 0x202F || v == 0x205F || v == 0x3000
}

/// Returns `true` if `c` has the Unicode property `White_Space`.
pub fn char_is_white_space(c: char) -> (r: bool)
    ensures
        r == is_white_space(c),
{
    let v = c as u32;
    (0x9 <= v && v <= 0xD) || v == 0x20 || v == 0x85 || v == 0xA0 || v == 0x1680 || (0x2000 <= v
        && v <= 0x200A) || v == 0x2028 || v == 0x2029 || v == 0x202F || v == 0x205F || v == 0x3000
}

/// Number of leading white space characters of `s` from `i` on.
pub open spec fn leading_ws_end(s: Seq<char>, i: int) -> int
    decreases s.len() - i,
{
    if i < 0 || i >= s.len() {
        s.len() as int
    } else if is_white_space(s[i]) {
        leading_ws_end(s, i + 1)
    } else {
        i
    }
}

/// Start of the trailing white space of `s` before position `j` (down to `lo`).
pub open spec fn trailing_ws_start(s: Seq<char>, lo: int, j: int) -> int
    decreases j - lo,
{
    if j <= lo {
        lo
    } else if is_white_space(s[j - 1]) {
        trailing_ws_start(s, lo, j - 1)
    } else {
        j
    }
}

/// `s` without leading and trailing white space (as `str::trim`).
pub open spec fn trim_spec(s: Seq<char>) -> Seq<char> {
    let a = leading_ws_end(s, 0);
    let b = trailing_ws_start(s, a, s.len() as int);
    s.subrange(a, b)
}

/// Properties of [`leading_ws_end`].
pub proof fn lemma_leading_ws_end(s: Seq<char>, i: int)
    requires
        0 <= i <= s.len(),
    ensures
        i <= leading_ws_end(s, i) <= s.len(),
    decreases s.len() - i,
{
    if i < s.len() && is_white_space(s[i]) {
        lemma_leading_ws_end(s, i + 1);
    }
}

/// Properties of [`trailing_ws_start`].
pub proof fn lemma_trailing_ws_start(s: Seq<char>, lo: int, j: int)
    requires
        0 <= lo <= j <= s.len(),
    ensures
        lo <= trailing_ws_start(s, lo, j) <= j,
    decreases j - lo,
{
    if j > lo && is_white_space(s[j - 1]) {
        lemma_trailing_ws_start(s, lo, j - 1);
    }
}

/// Returns `s` without leading and trailing white space.
pub fn trim(s: &str) -> (r: &str)
    ensures
        r@ == trim_spec(s@),
{
    let n = s.unicode_len();
    let mut a: usize = 0;
    while a < n && char_is_white_space(s.get_char(a))
        invariant
            a <= n,
            n == s@.len(),
            leading_ws_end(s@, 0) == leading_ws_end(s@, a as int),
        decreases n - a,
    {
        a = a + 1;
    }
    proof {
        lemma_leading_ws_end(s@, a as int);
    }
    let mut b: usize = n;
    while b > a && char_is_white_space(s.get_char(b - 1))
        invariant
            a <= b <= n,
            n == s@.len(),
            a == leading_ws_end(s@, 0),
            trailing_ws_start(s@, a as int, n as int) == trailing_ws_start(s@, a as int, b as int),
        decreases b - a,
    {
        b = b - 1;
    }
    s.substring_char(a, b)
}

/// The decimal digit of `d` (`0 <= d < 10`).
pub open spec fn digit_char(d: nat) -> char {
    (d + 48) as char
}

/// The decimal representation of `n`, without leading zeros.
pub open spec fn decimal_digits(n: nat) -> Seq<char>
    decreases n,
{
    if n < 10 {
        seq![digit_char(n)]
    } else {
        decimal_digits(n / 10).push(digit_char(n % 10))
    }
}

/// Returns the decimal digit of `d` as text.
fn digit_str(d: u64) -> (r: &'static str)
    requires
        d < 10,
    ensures
        r@ == seq![digit_char(d as nat)],
{
    let r = match d {
        0 => "0",
        1 => "1",
        2 => "2",
        3 => "3",
        4 => "4",
        5 => "5",
        6 => "6",
        7 => "7",
        8 => "8",
        _ => "9",
    };
    proof {
        reveal_strlit("0");
        reveal_strlit("1");
        reveal_strlit("2");
        reveal_strlit("3");
        reveal_strlit("4");
        reveal_strlit("5");
        reveal_strlit("6");
        reveal_strlit("7");
        reveal_strlit("8");
        reveal_strlit("9");
        assert(r@ =~= seq![digit_char(d as nat)]);
    }
    r
}

/// The decimal representation of a number has at least one digit.
pub proof fn lemma_decimal_digits_len(n: nat)
    ensures
        decimal_digits(n).len() >= 1,
        n >= 10 ==> decimal_digits(n).len() >= 2,
    decreases n,
{
    if n >= 10 {
        lemma_decimal_digits_len(n / 10);
    }
}

/// Different numbers have different decimal representations.
pub proof fn lemma_decimal_digits_injective(a: nat, b: nat)
    requires
        decimal_digits(a) == decimal_digits(b),
    ensures
        a == b,
    decreases a,
{
    lemma_decimal_digits_len(a);
    lemma_decimal_digits_len(b);
    if a < 10 && b < 10 {
        assert(decimal_digits(a)[0] == digit_char(a));
        assert(decimal_digits(b)[0] == digit_char(b));
        assert((digit_char(a) as int) == a + 48);
        assert((digit_char(b) as int) == b + 48);
    } else if a >= 10 && b >= 10 {
        let (da, db) = (decimal_digits(a), decimal_digits(b));
        assert(da.last() == digit_char(a % 10));
        assert(db.last() == digit_char(b % 10));
        assert((digit_char(a % 10) as int) == a % 10 + 48);
        assert((digit_char(b % 10) as int) == b % 10 + 48);
        assert(da.drop_last() == decimal_digits(a / 10));
        assert(db.drop_last() == decimal_digits(b / 10));
        lemma_decimal_digits_injective(a / 10, b / 10);
    }
}

/// Appends the decimal representation of `n` to `s`.
pub fn push_decimal(s: &mut String, n: u64)
    ensures
        final(s)@ == old(s)@ + decimal_digits(n as nat),
    decreases n,
{
    if n >= 10 {
        push_decimal(s, n / 10);
    }
    s.append(digit_str(n % 10));
    assert(old(s)@ + decimal_digits(n as nat) =~= final(s)@);
}

} // verus!
