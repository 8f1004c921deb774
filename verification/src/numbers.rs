//! Numbers written as text.
use vstd::prelude::*;
use vstd::string::*;
use vstd::utf8::is_ascii_chars;

verus! {

/// The character of decimal digit `d` (0 to 9).
pub open spec fn digit_char(d: int) -> char {
    if d == 0 {
        '0'
    } else if d == 1 {
        '1'
    } else if d == 2 {
        '2'
    } else if d == 3 {
        '3'
    } else if d == 4 {
        '4'
    } else if d == 5 {
        '5'
    } else if d == 6 {
        '6'
    } else if d == 7 {
        '7'
    } else if d == 8 {
        '8'
    } else {
        '9'
    }
}

/// The one character text of decimal digit `d`.
fn digit_str(d: u8) -> (r: &'static str)
    requires
        d < 10,
    ensures
        r@ == seq![digit_char(d as int)],
        is_ascii(r),
{
    match d {
        0 => {
            proof {
                reveal_strlit("0");
            }
            "0"
        },
        1 => {
            proof {
                reveal_strlit("1");
            }
            "1"
        },
        2 => {
            proof {
                reveal_strlit("2");
            }
            "2"
        },
        3 => {
            proof {
                reveal_strlit("3");
            }
            "3"
        },
        4 => {
            proof {
                reveal_strlit("4");
            }
            "4"
        },
        5 => {
            proof {
                reveal_strlit("5");
            }
            "5"
        },
        6 => {
            proof {
                reveal_strlit("6");
            }
            "6"
        },
        7 => {
            proof {
                reveal_strlit("7");
            }
            "7"
        },
        8 => {
            proof {
                reveal_strlit("8");
            }
            "8"
        },
        _ => {
            proof {
                reveal_strlit("9");
            }
            "9"
        },
    }
}

/// The last `width` decimal digits of `n`, with leading zeros.
pub open spec fn decimal_digits(n: nat, width: nat) -> Seq<char>
    decreases width,
{
    if width == 0 {
        Seq::empty()
    } else {
        decimal_digits(n / 10, (width - 1) as nat).push(digit_char((n % 10) as int))
    }
}

/// `n` as `format!("{:03}", n)` writes it for `-99 <= n <= 999`: three digits with leading
/// zeros, or a minus sign and two digits.
pub open spec fn padded3(n: int) -> Seq<char> {
    if n >= 0 {
        decimal_digits(n as nat, 3)
    } else {
        seq!['-'] + decimal_digits((-n) as nat, 2)
    }
}

/// The last `width` decimal digits of `n`, with leading zeros; for an `n` below
/// `10^width` this is what `format!("{:0width$}", n)` writes.
pub fn zero_padded(n: u32, width: usize) -> (r: String)
    ensures
        r@ == decimal_digits(n as nat, width as nat),
        r@.len() == width,
        is_ascii_chars(r@),
    decreases width,
{
    if width == 0 {
        String::new()
    } else {
        let mut s = zero_padded(n / 10, width - 1);
        s.append(digit_str((n % 10) as u8));
        proof {
            assert(s@ =~= decimal_digits(n as nat, width as nat));
        }
        s
    }
}

/// `format!("{:03}", n)` for `-99 <= n <= 999`.
pub fn padded_three(n: i16) -> (r: String)
    requires
        -99 <= n <= 999,
    ensures
        r@ == padded3(n as int),
        r@.len() == 3,
        is_ascii_chars(r@),
{
    if n >= 0 {
        zero_padded(n as u32, 3)
    } else {
        let digits = zero_padded((-n) as u32, 2);
        let mut s = String::new();
        proof {
            reveal_strlit("-");
        }
        s.append("-");
        s.append(digits.as_str());
        proof {
            assert(s@ =~= padded3(n as int));
        }
        s
    }
}

/// `n` in decimal without leading zeros, as `format!("{}", n)` writes it.
pub open spec fn decimal(n: nat) -> Seq<char>
    decreases n,
{
    if n < 10 {
        seq![digit_char(n as int)]
    } else {
        decimal(n / 10).push(digit_char((n % 10) as int))
    }
}

/// Whether `c` is one of the ten ASCII digits.
pub open spec fn is_digit(c: char) -> bool {
    '0' <= c <= '9'
}

/// Every character of `decimal(n)` is a digit, and below `100_000` it has at most five.
pub proof fn lemma_decimal(n: nat)
    ensures
        forall|i: int| 0 <= i < decimal(n).len() ==> is_digit(#[trigger] decimal(n)[i]),
        decimal(n).len() >= 1,
        n < 10 ==> decimal(n).len() == 1,
        n < 100 ==> decimal(n).len() <= 2,
        n < 1_000 ==> decimal(n).len() <= 3,
        n < 10_000 ==> decimal(n).len() <= 4,
        n < 100_000 ==> decimal(n).len() <= 5,
    decreases n,
{
    if n >= 10 {
        lemma_decimal(n / 10);
    }
}

/// The character of decimal digit `d`.
fn digit(d: u32) -> (c: char)
    requires
        d < 10,
    ensures
        c == digit_char(d as int),
{
    match d {
        0 => '0',
        1 => '1',
        2 => '2',
        3 => '3',
        4 => '4',
        5 => '5',
        6 => '6',
        7 => '7',
        8 => '8',
        _ => '9',
    }
}

/// Appends `n` in decimal to `line`.
pub fn push_decimal(line: &mut Vec<char>, n: u32)
    ensures
        final(line)@ == old(line)@ + decimal(n as nat),
    decreases n,
{
    if n >= 10 {
        push_decimal(line, n / 10);
    }
    line.push(digit(n % 10));
    proof {
        assert(final(line)@ =~= old(line)@ + decimal(n as nat)) by {
            if n >= 10 {
                assert(decimal(n as nat) == decimal((n / 10) as nat).push(digit_char((n % 10) as int)));
            }
        }
    }
}

/// Appends the characters of `text` to `line`.
pub fn push_str(line: &mut Vec<char>, text: &str)
    ensures
        final(line)@ == old(line)@ + text@,
{
    let len = text.unicode_len();
    let mut i: usize = 0;
    while i < len
        invariant
            len == text@.len(),
            i <= len,
            line@ == old(line)@ + text@.take(i as int),
        decreases len - i,
    {
        line.push(text.get_char(i));
        i += 1;
        proof {
            assert(line@ =~= old(line)@ + text@.take(i as int));
        }
    }
    proof {
        assert(text@.take(len as int) =~= text@);
    }
}

/// The value of the decimal digits `s`, the last one the least significant.
pub open spec fn digits_value(s: Seq<char>) -> int
    decreases s.len(),
{
    if s.len() == 0 {
        0
    } else {
        digits_value(s.drop_last()) * 10 + (s.last() as int - '0' as int)
    }
}

/// The digits of a number: what follows a leading `+` or `-`.
pub open spec fn number_body(s: Seq<char>) -> Seq<char> {
    if s.len() > 0 && (s[0] == '-' || s[0] == '+') {
        s.skip(1)
    } else {
        s
    }
}

/// What `str::parse::<i16>` accepts: an optional `+` or `-`, then at least one ASCII
/// digit and nothing else, whose value fits into an `i16`.
pub open spec fn parsed_i16(s: Seq<char>) -> Option<int> {
    let negative = s.len() > 0 && s[0] == '-';
    let body = number_body(s);
    if body.len() > 0 && all_digits(body) {
        let v = if negative { -digits_value(body) } else { digits_value(body) };
        if i16::MIN <= v <= i16::MAX {
            Some(v)
        } else {
            None
        }
    } else {
        None
    }
}

/// Whether every character of `s` is an ASCII digit.
pub open spec fn all_digits(s: Seq<char>) -> bool {
    forall|i: int| 0 <= i < s.len() ==> '0' <= #[trigger] s[i] <= '9'
}

/// Decimal digits have a value of at least 0, and at least that of each of their prefixes.
pub proof fn lemma_digits_value_prefix(s: Seq<char>, n: int)
    requires
        all_digits(s),
        0 <= n <= s.len(),
    ensures
        0 <= digits_value(s.take(n)) <= digits_value(s),
    decreases s.len(),
{
    if n == s.len() {
        assert(s.take(n) =~= s);
        if s.len() > 0 {
            lemma_digits_value_prefix(s.drop_last(), n - 1);
            assert(s.drop_last().take(n - 1) =~= s.drop_last());
        }
    } else {
        lemma_digits_value_prefix(s.drop_last(), n);
        assert(s.drop_last().take(n) =~= s.take(n));
        lemma_digits_value_prefix(s.drop_last(), s.len() - 1);
        assert(s.drop_last().take(s.len() - 1) =~= s.drop_last());
    }
}

/// The number `s` writes in decimal, if it writes one that fits into an `i16`: an optional
/// `+` or `-`, then at least one ASCII digit and nothing else.
pub fn parse_i16(s: &str) -> (r: Option<i16>)
    ensures
        r matches Some(v) ==> parsed_i16(s@) == Some(v as int),
        r is None ==> parsed_i16(s@) is None,
{
    let len = s.unicode_len();
    if len == 0 {
        return None;
    }
    let first = s.get_char(0);
    let negative = first == '-';
    let start: usize = if first == '-' || first == '+' {
        1
    } else {
        0
    };
    let ghost body = number_body(s@);
    assert(body =~= s@.subrange(start as int, len as int));
    if start >= len {
        return None;
    }
    let mut value: i32 = 0;
    let mut i: usize = start;
    while i < len
        invariant
            len == s@.len(),
            len > 0,
            negative == (s@[0] == '-'),
            start == (if s@[0] == '-' || s@[0] == '+' { 1int } else { 0int }),
            body == number_body(s@),
            start <= i <= len,
            body == s@.subrange(start as int, len as int),
            all_digits(body.take(i - start)),
            value == digits_value(body.take(i - start)),
            0 <= value <= 32768,
        decreases len - i,
    {
        let c = s.get_char(i);
        if !('0' <= c && c <= '9') {
            proof {
                assert(body[i - start] == c);
                assert(!all_digits(body));
                assert(parsed_i16(s@) is None);
            }
            return None;
        }
        let next = value * 10 + (c as u32 - 48) as i32;
        proof {
            let taken = body.take(i - start + 1);
            assert(taken.drop_last() =~= body.take(i - start));
            assert(taken.last() == c);
            assert(all_digits(taken));
        }
        if next > 32768 {
            proof {
                if all_digits(body) {
                    lemma_digits_value_prefix(body, i - start + 1);
                    assert(digits_value(body) > 32768);
                }
                assert(parsed_i16(s@) is None);
            }
            return None;
        }
        value = next;
        i += 1;
    }
    proof {
        assert(body.take(len - start) =~= body);
    }
    if negative {
        Some((0 - value) as i16)
    } else if value <= 32767 {
        Some(value as i16)
    } else {
        None
    }
}

} // verus!
