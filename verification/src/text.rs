//! Text helpers over the character view of strings: white space, trimming,
//! prefixes and decimal rendering.

use vstd::prelude::*;
use vstd::string::*;

verus! {

/// The view of an optional string.
pub open spec fn text_of(text: Option<String>) -> Option<Seq<char>> {
    match text {
        Some(t) => Some(t@),
        None => None,
    }
}

/// White space as Unicode defines it (the `White_Space` property).
pub open spec fn is_white_space(c: char) -> bool {
    let n = c as u32;
    ||| 0x09 <= n <= 0x0D
    ||| n == 0x20
    ||| n == 0x85
    ||| n == 0xA0
    ||| n == 0x1680
    ||| 0x2000 <= n <= 0x200A
    ||| n == 0x2028
    ||| n == 0x2029
    ||| n == 0x202F
    ||| n == 0x205F
    ||| n == 0x3000
}

pub fn char_is_white_space(c: char) -> (b: bool)
    ensures
        b == is_white_space(c),
{
    let n = c as u32;
    (0x09 <= n && n <= 0x0D) || n == 0x20 || n == 0x85 || n == 0xA0 || n == 0x1680 || (0x2000 <= n
        && n <= 0x200A) || n == 0x2028 || n == 0x2029 || n == 0x202F || n == 0x205F || n == 0x3000
}

/// `s` without its leading white space.
pub open spec fn trimmed_start(s: Seq<char>) -> Seq<char>
    decreases s.len(),
{
    if s.len() > 0 && is_white_space(s[0]) {
        trimmed_start(s.drop_first())
    } else {
        s
    }
}

/// `s` without its trailing white space.
pub open spec fn trimmed_end(s: Seq<char>) -> Seq<char>
    decreases s.len(),
{
    if s.len() > 0 && is_white_space(s.last()) {
        trimmed_end(s.drop_last())
    } else {
        s
    }
}

/// `s` without white space at either end.
pub open spec fn trimmed(s: Seq<char>) -> Seq<char> {
    trimmed_end(trimmed_start(s))
}

/// Skipping a run of leading white space that ends at `i` is `trimmed_start`.
pub proof fn lemma_trimmed_start_skip(s: Seq<char>, i: int)
    requires
        0 <= i <= s.len(),
        forall|j: int| 0 <= j < i ==> is_white_space(#[trigger] s[j]),
        i < s.len() ==> !is_white_space(s[i]),
    ensures
        trimmed_start(s) == s.skip(i),
    decreases i,
{
    if i == 0 {
        assert(s.skip(0) =~= s);
    } else {
        let t = s.drop_first();
        assert forall|j: int| 0 <= j < i - 1 implies is_white_space(#[trigger] t[j]) by {
            assert(t[j] == s[j + 1]);
        }
        lemma_trimmed_start_skip(t, i - 1);
        assert(t.skip(i - 1) =~= s.skip(i));
    }
}

/// Cutting a run of trailing white space that starts at `k` is `trimmed_end`.
pub proof fn lemma_trimmed_end_take(s: Seq<char>, k: int)
    requires
        0 <= k <= s.len(),
        forall|j: int| k <= j < s.len() ==> is_white_space(#[trigger] s[j]),
        k > 0 ==> !is_white_space(s[k - 1]),
    ensures
        trimmed_end(s) == s.take(k),
    decreases s.len() - k,
{
    if k == s.len() {
        assert(s.take(k) =~= s);
    } else {
        let t = s.drop_last();
        lemma_trimmed_end_take(t, k);
        assert(t.take(k) =~= s.take(k));
    }
}

/// Trimming leaves no white space at either end, and trimming twice changes
/// nothing more.
pub proof fn lemma_trimmed_is_tight(s: Seq<char>)
    ensures
        trimmed(s).len() > 0 ==> !is_white_space(trimmed(s).first()) && !is_white_space(
            trimmed(s).last(),
        ),
        trimmed(trimmed(s)) == trimmed(s),
        trimmed(s).len() <= s.len(),
{
    lemma_trimmed_start_shape(s);
    let a = trimmed_start(s);
    lemma_trimmed_end_shape(a);
    let b = trimmed_end(a);
    if b.len() > 0 {
        assert(b.first() == a[0]);
        lemma_trimmed_start_skip(b, 0);
        lemma_trimmed_end_take(b, b.len() as int);
    } else {
        assert(trimmed_start(b) == b);
        assert(trimmed_end(b) == b);
    }
}

/// `trimmed_start` cuts a prefix of white space and stops at the first other
/// character.
pub proof fn lemma_trimmed_start_shape(s: Seq<char>)
    ensures
        trimmed_start(s).len() <= s.len(),
        trimmed_start(s) == s.skip(s.len() - trimmed_start(s).len()),
        trimmed_start(s).len() > 0 ==> !is_white_space(trimmed_start(s)[0]),
    decreases s.len(),
{
    if s.len() > 0 && is_white_space(s[0]) {
        let t = s.drop_first();
        lemma_trimmed_start_shape(t);
        assert(t.skip(t.len() - trimmed_start(t).len()) =~= s.skip(
            s.len() - trimmed_start(t).len(),
        ));
    } else {
        assert(s.skip(0) =~= s);
    }
}

/// `trimmed_end` cuts a suffix of white space and stops at the last other
/// character.
pub proof fn lemma_trimmed_end_shape(s: Seq<char>)
    ensures
        trimmed_end(s).len() <= s.len(),
        trimmed_end(s) == s.take(trimmed_end(s).len() as int),
        trimmed_end(s).len() > 0 ==> !is_white_space(trimmed_end(s).last()),
    decreases s.len(),
{
    if s.len() > 0 && is_white_space(s.last()) {
        let t = s.drop_last();
        lemma_trimmed_end_shape(t);
        assert(t.take(trimmed_end(t).len() as int) =~= s.take(trimmed_end(t).len() as int));
    } else {
        assert(s.take(s.len() as int) =~= s);
    }
}

/// The index of the first character of `s` that is not white space, or its
/// length.
fn leading_white_space(s: &str, len: usize) -> (i: usize)
    requires
        len == s@.len(),
    ensures
        i <= len,
        trimmed_start(s@) == s@.skip(i as int),
{
    let mut i: usize = 0;
    while i < len && char_is_white_space(s.get_char(i))
        invariant
            i <= len,
            len == s@.len(),
            forall|j: int| 0 <= j < i ==> is_white_space(#[trigger] s@[j]),
        decreases len - i,
    {
        i = i + 1;
    }
    proof {
        lemma_trimmed_start_skip(s@, i as int);
    }
    i
}

/// One past the index of the last character of `s` that is not white space,
/// or zero.
fn trailing_white_space(s: &str, len: usize) -> (k: usize)
    requires
        len == s@.len(),
    ensures
        k <= len,
        trimmed_end(s@) == s@.take(k as int),
{
    let mut k: usize = len;
    while k > 0 && char_is_white_space(s.get_char(k - 1))
        invariant
            k <= len,
            len == s@.len(),
            forall|j: int| k <= j < len ==> is_white_space(#[trigger] s@[j]),
        decreases k,
    {
        k = k - 1;
    }
    proof {
        lemma_trimmed_end_take(s@, k as int);
    }
    k
}

/// `s` without white space at either end.
pub fn trim(s: &str) -> (r: String)
    ensures
        r@ == trimmed(s@),
{
    let len = s.unicode_len();
    let i = leading_white_space(s, len);
    let rest = s.substring_char(i, len);
    assert(rest@ =~= s@.skip(i as int));
    let k = trailing_white_space(rest, len - i);
    let kept = rest.substring_char(0, k);
    assert(kept@ =~= rest@.take(k as int));
    kept.to_owned()
}

/// `s` without its trailing white space.
pub fn trim_end(s: &str) -> (r: String)
    ensures
        r@ == trimmed_end(s@),
{
    let len = s.unicode_len();
    let k = trailing_white_space(s, len);
    let kept = s.substring_char(0, k);
    assert(kept@ =~= s@.take(k as int));
    kept.to_owned()
}

/// Whether `s` begins with `prefix`.
pub fn starts_with(s: &str, prefix: &str) -> (b: bool)
    ensures
        b == prefix@.is_prefix_of(s@),
{
    let n = prefix.unicode_len();
    let len = s.unicode_len();
    if n > len {
        return false;
    }
    let mut i: usize = 0;
    while i < n
        invariant
            i <= n <= len,
            n == prefix@.len(),
            len == s@.len(),
            forall|j: int| 0 <= j < i ==> s@[j] == prefix@[j],
        decreases n - i,
    {
        if s.get_char(i) != prefix.get_char(i) {
            assert(s@.subrange(0, n as int)[i as int] != prefix@[i as int]);
            return false;
        }
        i = i + 1;
    }
    assert(prefix@ =~= s@.subrange(0, n as int));
    true
}

/// The character of a decimal digit.
pub open spec fn digit_char(d: nat) -> char
    recommends
        d < 10,
{
    seq!['0', '1', '2', '3', '4', '5', '6', '7', '8', '9'][d as int]
}

/// `n` in decimal, without sign or padding.
pub open spec fn decimal(n: nat) -> Seq<char>
    decreases n,
{
    if n < 10 {
        seq![digit_char(n)]
    } else {
        decimal(n / 10).push(digit_char(n % 10))
    }
}

/// `n` in decimal, with a minus sign if it is negative.
pub open spec fn signed_decimal(n: int) -> Seq<char> {
    if n < 0 {
        seq!['-'] + decimal((-n) as nat)
    } else {
        decimal(n as nat)
    }
}

fn digit_text(d: u64) -> (r: &'static str)
    requires
        d < 10,
    ensures
        r@ == seq![digit_char(d as nat)],
{
    proof {
        reveal_strlit("0");
        reveal_strlit("1");
        reveal_strlit("2");
        reveal_strlit("3");
        reveal_strlit("4");
        reveal_strlit("5");
        reveal_strlit("6");
        reveal_strlit("7");
        reveal_strlit("8");
        reveal_strlit("9");
    }
    let r = if d == 0 {
        "0"
    } else if d == 1 {
        "1"
    } else if d == 2 {
        "2"
    } else if d == 3 {
        "3"
    } else if d == 4 {
        "4"
    } else if d == 5 {
        "5"
    } else if d == 6 {
        "6"
    } else if d == 7 {
        "7"
    } else if d == 8 {
        "8"
    } else {
        "9"
    };
    assert(r@ =~= seq![digit_char(d as nat)]);
    r
}

/// `n` in decimal.
pub fn decimal_u64(n: u64) -> (r: String)
    ensures
        r@ == decimal(n as nat),
    decreases n,
{
    if n < 10 {
        digit_text(n).to_owned()
    } else {
        let mut r = decimal_u64(n / 10);
        r.append(digit_text(n % 10));
        assert(r@ =~= decimal((n / 10) as nat).push(digit_char((n % 10) as nat)));
        r
    }
}

/// `n` in decimal, with a minus sign if it is negative.
pub fn decimal_i64(n: i64) -> (r: String)
    ensures
        r@ == signed_decimal(n as int),
{
    if n >= 0 {
        decimal_u64(n as u64)
    } else {
        let magnitude: u64 = (-(n + 1)) as u64 + 1;
        let mut r = "-".to_owned();
        proof {
            reveal_strlit("-");
        }
        let digits = decimal_u64(magnitude);
        r.append(digits.as_str());
        assert(r@ =~= seq!['-'] + decimal((-n) as nat));
        r
    }
}

/// The index of the first comma of `s`, or its length if it has none.
pub open spec fn first_comma(s: Seq<char>) -> int
    decreases s.len(),
{
    if s.len() == 0 || s[0] == ',' {
        0
    } else {
        1 + first_comma(s.drop_first())
    }
}

/// The items of a comma-separated list: each piece between commas, trimmed,
/// and left out if nothing remains of it.
pub open spec fn comma_list(s: Seq<char>) -> Seq<Seq<char>>
    decreases s.len(),
{
    let k = first_comma(s);
    let item = trimmed(s.take(k));
    let head = if item.len() > 0 {
        seq![item]
    } else {
        seq![]
    };
    if 0 <= k < s.len() {
        head + comma_list(s.skip(k + 1))
    } else {
        head
    }
}

/// A run without commas that ends at `k` ends at the first comma.
pub proof fn lemma_first_comma_at(s: Seq<char>, k: int)
    requires
        0 <= k <= s.len(),
        forall|j: int| 0 <= j < k ==> #[trigger] s[j] != ',',
        k < s.len() ==> s[k] == ',',
    ensures
        first_comma(s) == k,
    decreases k,
{
    if k > 0 {
        let t = s.drop_first();
        assert forall|j: int| 0 <= j < k - 1 implies #[trigger] t[j] != ',' by {
            assert(t[j] == s[j + 1]);
        }
        lemma_first_comma_at(t, k - 1);
    }
}

/// No item of a comma list is empty, holds a comma, or has white space at
/// either end.
pub proof fn lemma_comma_list_items(s: Seq<char>)
    ensures
        forall|i: int|
            0 <= i < comma_list(s).len() ==> (#[trigger] comma_list(s)[i]).len() > 0
                && !is_white_space(comma_list(s)[i].first()) && !is_white_space(
                comma_list(s)[i].last(),
            ),
    decreases s.len(),
{
    let k = first_comma(s);
    let item = trimmed(s.take(k));
    lemma_trimmed_is_tight(s.take(k));
    if 0 <= k < s.len() {
        let rest = comma_list(s.skip(k + 1));
        lemma_comma_list_items(s.skip(k + 1));
        assert forall|i: int| 0 <= i < comma_list(s).len() implies (#[trigger] comma_list(
            s,
        )[i]).len() > 0 && !is_white_space(comma_list(s)[i].first()) && !is_white_space(
            comma_list(s)[i].last(),
        ) by {
            if item.len() > 0 {
                if i > 0 {
                    assert(comma_list(s)[i] == rest[i - 1]);
                }
            } else {
                assert(comma_list(s)[i] == rest[i]);
            }
        }
    }
}

/// Splits a comma-separated list into its trimmed, non-empty items.
pub fn split_comma_list(s: &str) -> (items: Vec<String>)
    ensures
        items.deep_view() == comma_list(s@),
{
    let len = s.unicode_len();
    let mut items: Vec<String> = Vec::new();
    let mut start: usize = 0;
    let mut i: usize = 0;
    assert(s@.skip(0) =~= s@);
    assert(items.deep_view() =~= Seq::<Seq<char>>::empty());
    while i < len
        invariant
            start <= i <= len,
            len == s@.len(),
            forall|j: int| start <= j < i ==> #[trigger] s@[j] != ',',
            comma_list(s@) == items.deep_view() + comma_list(s@.skip(start as int)),
        decreases len - i,
    {
        if s.get_char(i) == ',' {
            let ghost rest = s@.skip(start as int);
            proof {
                assert forall|j: int| 0 <= j < i - start implies #[trigger] rest[j] != ',' by {
                    assert(rest[j] == s@[start + j]);
                }
                lemma_first_comma_at(rest, i - start);
                assert(rest.take(i - start) =~= s@.subrange(start as int, i as int));
                assert(rest.skip(i - start + 1) =~= s@.skip(i + 1));
            }
            let item = trim(s.substring_char(start, i));
            let ghost before = items.deep_view();
            if item.as_str().unicode_len() > 0 {
                items.push(item);
                assert(items.deep_view() =~= before + seq![item@]);
            }
            start = i + 1;
        }
        i = i + 1;
    }
    let ghost rest = s@.skip(start as int);
    proof {
        assert forall|j: int| 0 <= j < len - start implies #[trigger] rest[j] != ',' by {
            assert(rest[j] == s@[start + j]);
        }
        lemma_first_comma_at(rest, len - start);
        assert(rest.take(len - start) =~= s@.subrange(start as int, len as int));
    }
    let item = trim(s.substring_char(start, len));
    let ghost before = items.deep_view();
    if item.as_str().unicode_len() > 0 {
        items.push(item);
        assert(items.deep_view() =~= before + seq![item@]);
    }
    items
}

/// Whether `c` is a decimal digit.
pub open spec fn is_digit(c: char) -> bool {
    '0' <= c <= '9'
}

/// The number a decimal digit stands for.
pub open spec fn digit_value(c: char) -> nat
    recommends
        is_digit(c),
{
    (c as u32 - '0' as u32) as nat
}

pub open spec fn all_digits(s: Seq<char>) -> bool {
    forall|i: int| 0 <= i < s.len() ==> is_digit(#[trigger] s[i])
}

/// Whether `s` holds decimal digits only.
pub fn is_all_digits(s: &str) -> (b: bool)
    ensures
        b == all_digits(s@),
{
    let len = s.unicode_len();
    let mut i: usize = 0;
    while i < len
        invariant
            i <= len,
            len == s@.len(),
            forall|j: int| 0 <= j < i ==> is_digit(#[trigger] s@[j]),
        decreases len - i,
    {
        let c = s.get_char(i);
        if c < '0' || c > '9' {
            return false;
        }
        i = i + 1;
    }
    true
}

/// The number that a run of decimal digits stands for.
pub open spec fn digits_value(s: Seq<char>) -> nat
    decreases s.len(),
{
    if s.len() == 0 {
        0
    } else {
        digits_value(s.drop_last()) * 10 + digit_value(s.last())
    }
}

/// A run of digits means a number up to `limit` if it is not empty, holds
/// digits only, and stands for no more than `limit`.
pub open spec fn magnitude(digits: Seq<char>, limit: nat) -> Option<nat> {
    if digits.len() > 0 && all_digits(digits) && digits_value(digits) <= limit {
        Some(digits_value(digits))
    } else {
        None
    }
}

/// An unsigned number in decimal: digits, with an optional plus sign before
/// them, in the range of 64 bits. No white space, no other characters.
pub open spec fn parsed_u64(s: Seq<char>) -> Option<u64> {
    let digits = if s.len() > 0 && s[0] == '+' {
        s.drop_first()
    } else {
        s
    };
    match magnitude(digits, u64::MAX as nat) {
        Some(n) => Some(n as u64),
        None => None,
    }
}

/// A signed number in decimal: digits, with an optional plus or minus sign
/// before them, in the range of 64 bits.
pub open spec fn parsed_i64(s: Seq<char>) -> Option<i64> {
    if s.len() > 0 && s[0] == '-' {
        match magnitude(s.drop_first(), 0x8000_0000_0000_0000) {
            Some(n) => Some((-n) as i64),
            None => None,
        }
    } else {
        let digits = if s.len() > 0 && s[0] == '+' {
            s.drop_first()
        } else {
            s
        };
        match magnitude(digits, i64::MAX as nat) {
            Some(n) => Some(n as i64),
            None => None,
        }
    }
}

/// A run of digits stands for at least what any of its prefixes stands for.
pub proof fn lemma_digits_value_grows(s: Seq<char>, k: int)
    requires
        0 <= k <= s.len(),
    ensures
        digits_value(s.take(k)) <= digits_value(s),
    decreases s.len() - k,
{
    if k == s.len() {
        assert(s.take(k) =~= s);
    } else {
        lemma_digits_value_grows(s.drop_last(), k);
        assert(s.drop_last().take(k) =~= s.take(k));
    }
}

/// Reads the digits of `s` from `start` on as a number up to `limit`.
fn parse_magnitude(s: &str, start: usize, len: usize, limit: u64) -> (r: Option<u64>)
    requires
        start <= len,
        len == s@.len(),
    ensures
        r matches Some(n) ==> magnitude(s@.skip(start as int), limit as nat) == Some(n as nat),
        r is None ==> magnitude(s@.skip(start as int), limit as nat) is None,
{
    let ghost digits = s@.skip(start as int);
    if start == len {
        return None;
    }
    let mut value: u64 = 0;
    let mut i: usize = start;
    assert(digits.take(0) =~= Seq::<char>::empty());
    while i < len
        invariant
            start <= i <= len,
            len == s@.len(),
            digits == s@.skip(start as int),
            all_digits(digits.take(i - start)),
            value == digits_value(digits.take(i - start)),
            value <= limit,
        decreases len - i,
    {
        let c = s.get_char(i);
        let ghost next = digits.take(i - start + 1);
        proof {
            assert(next.drop_last() =~= digits.take(i - start));
            assert(next.last() == c);
            assert(digits[i - start] == c);
        }
        if c < '0' || c > '9' {
            return None;
        }
        let d: u64 = (c as u32 - '0' as u32) as u64;
        if d > limit || value > (limit - d) / 10 {
            proof {
                assert(digits_value(next) == value * 10 + d);
                lemma_digits_value_grows(digits, i - start + 1);
            }
            return None;
        }
        value = value * 10 + d;
        assert(all_digits(next)) by {
            assert forall|j: int| 0 <= j < next.len() implies is_digit(#[trigger] next[j]) by {
                if j < i - start {
                    assert(next[j] == digits.take(i - start)[j]);
                }
            }
        }
        i = i + 1;
    }
    assert(digits.take(len - start) =~= digits);
    Some(value)
}

/// Reads an unsigned decimal number.
pub fn parse_u64(s: &str) -> (r: Option<u64>)
    ensures
        r == parsed_u64(s@),
{
    let len = s.unicode_len();
    let start: usize = if len > 0 && s.get_char(0) == '+' {
        1
    } else {
        0
    };
    proof {
        if start == 1 {
            assert(s@.skip(1) =~= s@.drop_first());
        } else {
            assert(s@.skip(0) =~= s@);
        }
    }
    parse_magnitude(s, start, len, u64::MAX)
}

/// Reads a signed decimal number.
pub fn parse_i64(s: &str) -> (r: Option<i64>)
    ensures
        r == parsed_i64(s@),
{
    let len = s.unicode_len();
    if len > 0 && s.get_char(0) == '-' {
        assert(s@.skip(1) =~= s@.drop_first());
        match parse_magnitude(s, 1, len, 0x8000_0000_0000_0000) {
            None => None,
            Some(n) => if n == 0x8000_0000_0000_0000 {
                Some(i64::MIN)
            } else {
                Some(-(n as i64))
            },
        }
    } else {
        let start: usize = if len > 0 && s.get_char(0) == '+' {
            1
        } else {
            0
        };
        proof {
            if start == 1 {
                assert(s@.skip(1) =~= s@.drop_first());
            } else {
                assert(s@.skip(0) =~= s@);
            }
        }
        match parse_magnitude(s, start, len, 0x7fff_ffff_ffff_ffff) {
            None => None,
            Some(n) => Some(n as i64),
        }
    }
}

/// Each digit's character stands for that digit.
pub proof fn lemma_digit_char(d: nat)
    requires
        d < 10,
    ensures
        is_digit(digit_char(d)),
        digit_value(digit_char(d)) == d,
{
    assert(digit_char(0) == '0' && digit_char(1) == '1' && digit_char(2) == '2' && digit_char(3)
        == '3' && digit_char(4) == '4');
    assert(digit_char(5) == '5' && digit_char(6) == '6' && digit_char(7) == '7' && digit_char(8)
        == '8' && digit_char(9) == '9');
}

/// The decimal rendering of a number is a run of digits that stands for it.
pub proof fn lemma_decimal_value(n: nat)
    ensures
        all_digits(decimal(n)),
        decimal(n).len() > 0,
        digits_value(decimal(n)) == n,
    decreases n,
{
    let s = decimal(n);
    if n >= 10 {
        lemma_decimal_value(n / 10);
        lemma_digit_char(n % 10);
        assert(s.drop_last() =~= decimal(n / 10));
        assert(s.last() == digit_char(n % 10));
    } else {
        lemma_digit_char(n);
        assert(s.drop_last() =~= Seq::<char>::empty());
        assert(digits_value(s.drop_last()) == 0);
        assert(s.last() == digit_char(n));
    }
}

/// Reading what was rendered gives the number back.
pub proof fn lemma_parse_rendered(n: u64, m: i64)
    ensures
        parsed_u64(decimal(n as nat)) == Some(n),
        parsed_i64(signed_decimal(m as int)) == Some(m),
{
    lemma_decimal_value(n as nat);
    assert(decimal(n as nat)[0] != '+');
    if m < 0 {
        let d = decimal((-m) as nat);
        lemma_decimal_value((-m) as nat);
        let s = signed_decimal(m as int);
        assert(s[0] == '-');
        assert(s.drop_first() =~= d);
    } else {
        lemma_decimal_value(m as nat);
        let s = decimal(m as nat);
        assert(s[0] != '+' && s[0] != '-');
    }
}

} // verus!
