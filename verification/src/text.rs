//! Decimal text of integers, and small helpers on strings.
use itertools::Itertools;
use vstd::prelude::*;
use vstd::string::*;

verus! {

/// The character of a decimal digit.
pub open spec fn digit_char(d: int) -> char {
    if d == 0 {
        '0'
    } else if d == 1 {
        '1'
    } else if d == 2 {
        '2'
    } else if d == 3 {
        '3'
    } else if d == 4 {
        '4'
    } else if d == 5 {
        '5'
    } else if d == 6 {
        '6'
    } else if d == 7 {
        '7'
    } else if d == 8 {
        '8'
    } else {
        '9'
    }
}

/// Whether `c` is one of `'0'` to `'9'`.
pub open spec fn is_digit(c: char) -> bool {
    '0' <= c <= '9'
}

/// The value of a decimal digit character.
pub open spec fn digit_value(c: char) -> int {
    c as int - '0' as int
}

/// Whether every character of `s` is a decimal digit.
pub open spec fn is_digits(s: Seq<char>) -> bool {
    forall|i: int| 0 <= i < s.len() ==> is_digit(#[trigger] s[i])
}

/// The number that a string of decimal digits writes, most significant digit first.
pub open spec fn digits_value(s: Seq<char>) -> int
    decreases s.len(),
{
    if s.len() == 0 {
        0
    } else {
        digits_value(s.drop_last()) * 10 + digit_value(s.last())
    }
}

/// The shortest string of decimal digits that writes `n`.
pub open spec fn digits(n: nat) -> Seq<char>
    decreases n,
{
    if n < 10 {
        seq![digit_char(n as int)]
    } else {
        digits(n / 10).push(digit_char((n % 10) as int))
    }
}

/// The decimal text of an integer: a minus sign for a negative one, then its digits.
pub open spec fn decimal(n: int) -> Seq<char> {
    if n < 0 {
        seq!['-'] + digits((-n) as nat)
    } else {
        digits(n as nat)
    }
}

/// The integer that `s` writes: an optional `+` or `-`, then at least one decimal digit
/// and nothing else. Any number of leading zeros is accepted.
pub open spec fn parse_int(s: Seq<char>) -> Option<int> {
    if s.len() == 0 {
        None
    } else {
        let signed = s[0] == '+' || s[0] == '-';
        let body = if signed {
            s.drop_first()
        } else {
            s
        };
        if body.len() == 0 || !is_digits(body) {
            None
        } else if s[0] == '-' {
            Some(-digits_value(body))
        } else {
            Some(digits_value(body))
        }
    }
}

/// The `i32` that `s` writes, if it writes an integer and that integer fits.
pub open spec fn parse_i32_spec(s: Seq<char>) -> Option<i32> {
    match parse_int(s) {
        Some(v) => if i32::MIN <= v <= i32::MAX {
            Some(v as i32)
        } else {
            None
        },
        None => None,
    }
}

/// The digits of a number are digits, and write that number.
pub proof fn lemma_digits(n: nat)
    ensures
        digits(n).len() >= 1,
        is_digits(digits(n)),
        digits_value(digits(n)) == n,
    decreases n,
{
    if n < 10 {
        let s = digits(n);
        assert(s.drop_last() =~= Seq::<char>::empty());
        assert(digits_value(s.drop_last()) == 0);
        assert(s.last() == digit_char(n as int));
    } else {
        lemma_digits(n / 10);
        let p = digits(n / 10);
        let s = digits(n);
        assert(s.drop_last() =~= p);
        assert(s.last() == digit_char((n % 10) as int));
        assert forall|i: int| 0 <= i < s.len() implies is_digit(#[trigger] s[i]) by {
            if i < p.len() {
                assert(s[i] == p[i]);
            }
        }
    }
}

/// Reading the decimal text of an integer gives the integer back.
pub proof fn lemma_parse_decimal(n: int)
    ensures
        parse_int(decimal(n)) == Some(n),
{
    if n < 0 {
        let d = digits((-n) as nat);
        lemma_digits((-n) as nat);
        let s = decimal(n);
        assert(s[0] == '-');
        assert(s.drop_first() =~= d);
    } else {
        lemma_digits(n as nat);
        let s = decimal(n);
        assert(is_digit(s[0]));
    }
}

/// A longer string of digits writes no smaller a number than its prefix.
pub proof fn lemma_digits_value_prefix(s: Seq<char>, k: int)
    requires
        is_digits(s),
        0 <= k <= s.len(),
    ensures
        0 <= digits_value(s.subrange(0, k)) <= digits_value(s),
    decreases s.len() - k,
{
    lemma_digits_value_nonneg(s.subrange(0, k));
    if k < s.len() {
        lemma_digits_value_prefix(s, k + 1);
        let longer = s.subrange(0, k + 1);
        assert(longer.drop_last() =~= s.subrange(0, k));
        assert(is_digit(longer.last()));
    } else {
        assert(s.subrange(0, k) =~= s);
    }
}

/// A string of digits writes a number that is not negative.
pub proof fn lemma_digits_value_nonneg(s: Seq<char>)
    requires
        is_digits(s),
    ensures
        0 <= digits_value(s),
    decreases s.len(),
{
    if s.len() > 0 {
        lemma_digits_value_nonneg(s.drop_last());
        assert(is_digit(s.last()));
    }
}

/// One decimal digit as text.
fn digit_str(d: u8) -> (r: &'static str)
    requires
        d < 10,
    ensures
        r@ == seq![digit_char(d as int)],
{
    proof {
        reveal_strlit("0");
        reveal_strlit("1");
        reveal_strlit("2");
        reveal_strlit("3");
        reveal_strlit("4");
        reveal_strlit("5");
        reveal_strlit("6");
        reveal_strlit("7");
        reveal_strlit("8");
        reveal_strlit("9");
    }
    let r = if d == 0 {
        "0"
    } else if d == 1 {
        "1"
    } else if d == 2 {
        "2"
    } else if d == 3 {
        "3"
    } else if d == 4 {
        "4"
    } else if d == 5 {
        "5"
    } else if d == 6 {
        "6"
    } else if d == 7 {
        "7"
    } else if d == 8 {
        "8"
    } else {
        "9"
    };
    assert(r@ =~= seq![digit_char(d as int)]);
    r
}

/// The digits of an unsigned number.
pub fn format_u128(n: u128) -> (r: String)
    ensures
        r@ == digits(n as nat),
    decreases n,
{
    if n < 10 {
        digit_str(n as u8).to_owned()
    } else {
        let mut s = format_u128(n / 10);
        s.append(digit_str((n % 10) as u8));
        s
    }
}

/// The decimal text of a signed number.
pub fn format_i64(n: i64) -> (r: String)
    ensures
        r@ == decimal(n as int),
{
    if n < 0 {
        let magnitude: u128 = (-(n as i128)) as u128;
        let mut s = "-".to_owned();
        proof {
            reveal_strlit("-");
        }
        let d = format_u128(magnitude);
        s.append(d.as_str());
        assert(s@ =~= decimal(n as int));
        s
    } else {
        format_u128(n as u128)
    }
}

/// What a text writes once its sign is taken off: `body` is the rest of it.
pub open spec fn parse_body(body: Seq<char>, negative: bool) -> Option<int> {
    if body.len() == 0 || !is_digits(body) {
        None
    } else if negative {
        Some(-digits_value(body))
    } else {
        Some(digits_value(body))
    }
}

/// Text that writes an integer holds only signs and digits, which are ASCII.
pub proof fn lemma_parse_int_ascii(s: Seq<char>)
    requires
        parse_int(s) is Some,
    ensures
        vstd::utf8::is_ascii_chars(s),
{
    let signed = s[0] == '+' || s[0] == '-';
    let body = if signed {
        s.drop_first()
    } else {
        s
    };
    assert forall|i: int| 0 <= i < s.len() implies '\0' <= #[trigger] s[i] <= '\u{7f}' by {
        if signed {
            if i > 0 {
                assert(is_digit(body[i - 1]));
            }
        } else {
            assert(is_digit(body[i]));
        }
    }
}

/// Reads an `i32` from its decimal text, as `str::parse::<i32>` accepts it.
pub fn parse_i32(s: &str) -> (r: Option<i32>)
    ensures
        r == parse_i32_spec(s@),
{
    if !s.is_ascii() {
        proof {
            if parse_int(s@) is Some {
                lemma_parse_int_ascii(s@);
            }
        }
        return None;
    }
    let bytes = s.as_bytes();
    let n: usize = bytes.len();
    proof {
        is_ascii_spec_bytes(s);
        assert(bytes@.len() == s@.len());
        assert forall|k: int| 0 <= k < s@.len() implies #[trigger] s@[k] as int == bytes@[k] as int by {
            assert('\0' <= s@[k] <= '\u{7f}');
            assert(bytes@[k] == s@[k] as u8);
        }
    }
    if n == 0 {
        return None;
    }
    let first: u8 = bytes[0];
    let negative: bool = first == 45;
    let start: usize = if first == 43 || first == 45 {
        1
    } else {
        0
    };
    let ghost body: Seq<char> = s@.subrange(start as int, n as int);
    proof {
        assert(s@[0] as int == bytes@[0] as int);
        if start == 1 {
            assert(body =~= s@.drop_first());
        } else {
            assert(body =~= s@);
        }
    }
    if start == n {
        return None;
    }
    let mut value: i64 = 0;
    let mut i: usize = start;
    assert(body.subrange(0, 0) =~= Seq::<char>::empty());
    assert(parse_int(s@) == parse_body(body, negative));
    while i < n
        invariant
            start <= i <= n,
            parse_int(s@) == parse_body(body, negative),
            n == s@.len(),
            n == bytes@.len(),
            body == s@.subrange(start as int, n as int),
            forall|k: int| 0 <= k < s@.len() ==> #[trigger] s@[k] as int == bytes@[k] as int,
            is_digits(body.subrange(0, i - start)),
            value == digits_value(body.subrange(0, i - start)),
            0 <= value <= 2147483648,
        decreases n - i,
    {
        let b: u8 = bytes[i];
        proof {
            assert(s@[i as int] as int == bytes@[i as int] as int);
            assert(body[i - start] == s@[i as int]);
        }
        if b < 48 || b > 57 {
            proof {
                assert(!is_digit(body[i - start]));
            }
            return None;
        }
        let ghost before = body.subrange(0, i - start);
        let ghost after = body.subrange(0, i - start + 1);
        proof {
            assert(after.drop_last() =~= before);
            assert(after.last() == body[i - start]);
            assert forall|k: int| 0 <= k < after.len() implies is_digit(#[trigger] after[k]) by {
                if k < before.len() {
                    assert(after[k] == before[k]);
                }
            }
        }
        value = value * 10 + (b - 48) as i64;
        if value > 2147483648 {
            proof {
                if is_digits(body) {
                    lemma_digits_value_prefix(body, i - start + 1);
                }
            }
            return None;
        }
        i += 1;
    }
    proof {
        assert(body.subrange(0, i - start) =~= body);
    }
    if negative {
        Some((-value) as i32)
    } else if value > 2147483647 {
        None
    } else {
        Some(value as i32)
    }
}

/// Whether two strings hold the same characters.
pub fn str_eq(a: &str, b: &str) -> (r: bool)
    ensures
        r == (a@ == b@),
{
    a.to_owned() == b.to_owned()
}

/// `String::push`: appends one character.
#[verifier::external_body]
pub(crate) fn push_char(text: &mut String, c: char)
    ensures
        final(text)@ == old(text)@.push(c),
{
    text.push(c)
}

/// The strings of a list, with `sep` between each two of them.
pub open spec fn joined_with(items: Seq<Seq<char>>, sep: Seq<char>) -> Seq<char>
    decreases items.len(),
{
    if items.len() == 0 {
        Seq::empty()
    } else if items.len() == 1 {
        items[0]
    } else {
        joined_with(items.drop_last(), sep) + sep + items.last()
    }
}

/// The characters of each string of a list.
pub open spec fn texts(values: Seq<String>) -> Seq<Seq<char>> {
    Seq::new(values.len(), |i: int| values[i]@)
}

/// `Itertools::join` on the strings of a list: all of them in one string, with `sep`
/// between each two.
#[verifier::external_body]
pub(crate) fn join(items: &Vec<String>, sep: &str) -> (text: String)
    ensures
        text@ == joined_with(texts(items@), sep@),
{
    items.iter().join(sep)
}

} // verus!
