//! Decimal text: rendering unsigned and signed integers as digit strings,
//! parsing digit runs back into numbers, and character-exact comparison and
//! matching of strings. Everything the record codec and the user-facing
//! message builders need to speak about text lives here.

use vstd::prelude::*;
use vstd::string::StrSliceExecFns;
use vstd::string::StringExecFns;

verus! {

/// A decimal digit character, `'0'` through `'9'`.
pub open spec fn is_digit_char(c: char) -> bool {
    48 <= c as int && c as int <= 57
}

/// The numeric value of one decimal digit character.
pub open spec fn digit_char_val(c: char) -> nat {
    (c as int - 48) as nat
}

/// The digit character standing for `d`; meaningful for `d < 10`.
pub open spec fn digit_char(d: nat) -> char {
    if d == 0 {
        '0'
    } else if d == 1 {
        '1'
    } else if d == 2 {
        '2'
    } else if d == 3 {
        '3'
    } else if d == 4 {
        '4'
    } else if d == 5 {
        '5'
    } else if d == 6 {
        '6'
    } else if d == 7 {
        '7'
    } else if d == 8 {
        '8'
    } else {
        '9'
    }
}

/// The decimal digit string of `n`: most significant digit first, with no
/// leading zero except for `n == 0` itself.
pub open spec fn spec_digits(n: nat) -> Seq<char>
    decreases n,
{
    if n < 10 {
        seq![digit_char(n)]
    } else {
        spec_digits(n / 10).push(digit_char(n % 10))
    }
}

/// The numeric value of a digit string, most significant digit first.
pub open spec fn digits_val(s: Seq<char>) -> nat
    decreases s.len(),
{
    if s.len() == 0 {
        0
    } else {
        digits_val(s.drop_last()) * 10 + digit_char_val(s.last())
    }
}

/// Every character of `s` is a decimal digit.
pub open spec fn all_digits(s: Seq<char>) -> bool {
    forall|i: int| 0 <= i < s.len() ==> is_digit_char(#[trigger] s[i])
}

/// For `d < 10`, `digit_char(d)` is a digit character of value `d`.
pub proof fn lemma_digit_char(d: nat)
    requires
        d < 10,
    ensures
        is_digit_char(digit_char(d)),
        digit_char_val(digit_char(d)) == d,
{
}

/// The digit string of `n` is nonempty, made of digits, and reads back as `n`.
pub proof fn lemma_spec_digits(n: nat)
    ensures
        spec_digits(n).len() >= 1,
        all_digits(spec_digits(n)),
        digits_val(spec_digits(n)) == n,
    decreases n,
{
    if n < 10 {
        lemma_digit_char(n);
        assert(seq![digit_char(n)].drop_last() =~= Seq::<char>::empty());
        assert(digits_val(Seq::<char>::empty()) == 0);
        assert(seq![digit_char(n)].last() == digit_char(n));
        assert(digits_val(seq![digit_char(n)]) == 0 * 10 + digit_char_val(digit_char(n)));
    } else {
        lemma_spec_digits(n / 10);
        lemma_digit_char(n % 10);
        vstd::arithmetic::div_mod::lemma_fundamental_div_mod(n as int, 10);
        let s = spec_digits(n / 10);
        let c = digit_char(n % 10);
        assert(s.push(c).drop_last() =~= s);
        assert(s.push(c).last() == c);
        assert forall|i: int| 0 <= i < s.push(c).len() implies is_digit_char(
            #[trigger] s.push(c)[i],
        ) by {
            if i < s.len() {
                assert(s.push(c)[i] == s[i]);
            } else {
                assert(s.push(c)[i] == c);
            }
        }
    }
}

/// Reading one more digit multiplies the prefix value by ten and adds it.
pub proof fn lemma_digits_val_step(s: Seq<char>, i: int)
    requires
        0 <= i < s.len(),
    ensures
        digits_val(s.subrange(0, i + 1)) == digits_val(s.subrange(0, i)) * 10 + digit_char_val(
            s[i],
        ),
{
    assert(s.subrange(0, i + 1).drop_last() =~= s.subrange(0, i));
    assert(s.subrange(0, i + 1).last() == s[i]);
}

/// The value of a digit-string prefix never shrinks as the prefix grows.
pub proof fn lemma_digits_val_mono(s: Seq<char>, i: int, j: int)
    requires
        0 <= i <= j <= s.len(),
    ensures
        digits_val(s.subrange(0, i)) <= digits_val(s.subrange(0, j)),
    decreases j - i,
{
    if i < j {
        lemma_digits_val_mono(s, i, j - 1);
        lemma_digits_val_step(s, j - 1);
    }
}

/// Whether `c` is a decimal digit.
pub fn is_digit(c: char) -> (r: bool)
    ensures
        r == is_digit_char(c),
{
    let u = c as u32;
    48 <= u && u <= 57
}

/// The one-character text of the digit `d`.
fn digit_str(d: u32) -> (r: &'static str)
    requires
        d < 10,
    ensures
        r@ == seq![digit_char(d as nat)],
{
    match d {
        0 => {
            proof {
                reveal_strlit("0");
                assert("0"@ =~= seq![digit_char(0)]);
            }
            "0"
        },
        1 => {
            proof {
                reveal_strlit("1");
                assert("1"@ =~= seq![digit_char(1)]);
            }
            "1"
        },
        2 => {
            proof {
                reveal_strlit("2");
                assert("2"@ =~= seq![digit_char(2)]);
            }
            "2"
        },
        3 => {
            proof {
                reveal_strlit("3");
                assert("3"@ =~= seq![digit_char(3)]);
            }
            "3"
        },
        4 => {
            proof {
                reveal_strlit("4");
                assert("4"@ =~= seq![digit_char(4)]);
            }
            "4"
        },
        5 => {
            proof {
                reveal_strlit("5");
                assert("5"@ =~= seq![digit_char(5)]);
            }
            "5"
        },
        6 => {
            proof {
                reveal_strlit("6");
                assert("6"@ =~= seq![digit_char(6)]);
            }
            "6"
        },
        7 => {
            proof {
                reveal_strlit("7");
                assert("7"@ =~= seq![digit_char(7)]);
            }
            "7"
        },
        8 => {
            proof {
                reveal_strlit("8");
                assert("8"@ =~= seq![digit_char(8)]);
            }
            "8"
        },
        _ => {
            proof {
                reveal_strlit("9");
                assert("9"@ =~= seq![digit_char(9)]);
            }
            "9"
        },
    }
}

/// The decimal text of `n`.
pub fn u32_to_string(n: u32) -> (r: String)
    ensures
        r@ == spec_digits(n as nat),
    decreases n,
{
    if n < 10 {
        digit_str(n).to_owned()
    } else {
        let mut s = u32_to_string(n / 10);
        s.append(digit_str(n % 10));
        proof {
            assert(spec_digits(n as nat) == spec_digits(n as nat / 10).push(
                digit_char(n as nat % 10),
            ));
            assert(spec_digits(n as nat / 10).push(digit_char(n as nat % 10)) =~= spec_digits(
                n as nat / 10,
            ) + seq![digit_char(n as nat % 10)]);
        }
        s
    }
}

/// The decimal text of `v`, with a leading minus sign when `v` is negative.
pub open spec fn spec_i32_text(v: int) -> Seq<char> {
    if v < 0 {
        seq!['-'] + spec_digits((-v) as nat)
    } else {
        spec_digits(v as nat)
    }
}

/// The decimal text of `v`.
pub fn i32_to_string(v: i32) -> (r: String)
    ensures
        r@ == spec_i32_text(v as int),
{
    if v >= 0 {
        u32_to_string(v as u32)
    } else {
        let mag: u32 = if v == i32::MIN {
            0x8000_0000
        } else {
            (-v) as u32
        };
        let mut s = "-".to_owned();
        s.append(u32_to_string(mag).as_str());
        proof {
            reveal_strlit("-");
            assert("-"@ =~= seq!['-']);
        }
        s
    }
}

/// Character-exact equality of two strings.
pub fn str_eq(a: &str, b: &str) -> (r: bool)
    ensures
        r == (a@ == b@),
{
    let la = a.unicode_len();
    let lb = b.unicode_len();
    if la != lb {
        return false;
    }
    let mut i: usize = 0;
    while i < la
        invariant
            0 <= i <= la,
            la == a@.len(),
            la == b@.len(),
            forall|j: int| 0 <= j < i ==> a@[j] == b@[j],
        decreases la - i,
    {
        if a.get_char(i) != b.get_char(i) {
            return false;
        }
        i += 1;
    }
    proof {
        assert(a@ =~= b@);
    }
    true
}

/// `p` occurs in `s` starting at position `i`.
pub open spec fn matches_at(s: Seq<char>, i: int, p: Seq<char>) -> bool {
    &&& 0 <= i
    &&& i + p.len() <= s.len()
    &&& s.subrange(i, i + p.len()) == p
}

/// Whether the text `p` occurs in `s` starting at position `i`.
pub fn check_at(s: &str, i: usize, p: &str) -> (r: bool)
    requires
        i <= s@.len(),
    ensures
        r == matches_at(s@, i as int, p@),
{
    let sl = s.unicode_len();
    let pl = p.unicode_len();
    if pl > sl - i {
        return false;
    }
    let sub = s.substring_char(i, i + pl);
    str_eq(sub, p)
}

/// The first position at or after `i` where the digit run ends.
pub open spec fn digit_run_end(s: Seq<char>, i: int) -> int
    decreases s.len() - i,
{
    if 0 <= i < s.len() && is_digit_char(s[i]) {
        digit_run_end(s, i + 1)
    } else {
        i
    }
}

/// The digit run starting at `i` is made of digits and ends at a non-digit
/// or at the end of the string.
pub proof fn lemma_digit_run_end(s: Seq<char>, i: int)
    requires
        0 <= i <= s.len(),
    ensures
        i <= digit_run_end(s, i) <= s.len(),
        forall|k: int| i <= k < digit_run_end(s, i) ==> is_digit_char(#[trigger] s[k]),
        digit_run_end(s, i) == s.len() || !is_digit_char(s[digit_run_end(s, i)]),
    decreases s.len() - i,
{
    if i < s.len() && is_digit_char(s[i]) {
        lemma_digit_run_end(s, i + 1);
    }
}

/// Where a string continues with `k` digits and then stops being a digit,
/// the digit run starting there is exactly those `k` characters.
pub proof fn lemma_digit_run_end_concat(s: Seq<char>, i: int, k: int)
    requires
        0 <= i,
        0 <= k,
        i + k <= s.len(),
        forall|j: int| i <= j < i + k ==> is_digit_char(#[trigger] s[j]),
        i + k == s.len() || !is_digit_char(s[i + k]),
    ensures
        digit_run_end(s, i) == i + k,
    decreases k,
{
    if k == 0 {
    } else {
        lemma_digit_run_end_concat(s, i + 1, k - 1);
    }
}

/// The end of the digit run starting at `from`.
pub fn digit_run_scan(s: &str, from: usize) -> (e: usize)
    requires
        from <= s@.len(),
    ensures
        e == digit_run_end(s@, from as int),
        from <= e <= s@.len(),
{
    let n = s.unicode_len();
    let mut i = from;
    loop
        invariant
            from <= i <= n,
            n == s@.len(),
            digit_run_end(s@, from as int) == digit_run_end(s@, i as int),
        decreases n - i,
    {
        if i == n {
            return i;
        }
        if !is_digit(s.get_char(i)) {
            return i;
        }
        i += 1;
    }
}

/// The value of the digit run `s[from..to)`, unless it exceeds `limit`.
pub fn digit_run_val(s: &str, from: usize, to: usize, limit: u32) -> (r: Option<u32>)
    requires
        from <= to <= s@.len(),
        forall|k: int| from <= k < to ==> is_digit_char(#[trigger] s@[k]),
    ensures
        r == (if digits_val(s@.subrange(from as int, to as int)) <= limit {
            Some(digits_val(s@.subrange(from as int, to as int)) as u32)
        } else {
            None::<u32>
        }),
{
    let ghost run = s@.subrange(from as int, to as int);
    let mut i = from;
    let mut acc: u32 = 0;
    while i < to
        invariant
            from <= i <= to <= s@.len(),
            forall|k: int| from <= k < to ==> is_digit_char(#[trigger] s@[k]),
            run == s@.subrange(from as int, to as int),
            acc == digits_val(run.subrange(0, i - from)),
            acc <= limit,
        decreases to - i,
    {
        let c = s.get_char(i);
        assert(c == run[i - from]);
        let d = (c as u32) - 48;
        proof {
            lemma_digits_val_step(run, i - from);
            vstd::arithmetic::div_mod::lemma_fundamental_div_mod(limit as int, 10);
        }
        if acc > limit / 10 || (acc == limit / 10 && d > limit % 10) {
            proof {
                assert(digits_val(run.subrange(0, i + 1 - from)) > limit);
                lemma_digits_val_mono(run, i + 1 - from, run.len() as int);
                assert(run.subrange(0, run.len() as int) =~= run);
            }
            return None;
        }
        acc = acc * 10 + d;
        i += 1;
    }
    proof {
        assert(run.subrange(0, to - from) =~= run);
    }
    Some(acc)
}

/// The value of a nonempty all-digit string, where it fits the type.
pub open spec fn spec_parse_u32_digits(s: Seq<char>) -> Option<nat> {
    if s.len() >= 1 && all_digits(s) {
        Some(digits_val(s))
    } else {
        None
    }
}

/// What parsing `s` as an `i32` yields: an optional single `+` or `-` sign,
/// then at least one digit, and a value within the type's range.
pub open spec fn spec_parse_i32(s: Seq<char>) -> Option<i32> {
    if s.len() > 0 && s[0] == '-' {
        match spec_parse_u32_digits(s.subrange(1, s.len() as int)) {
            Some(v) => if v <= 0x8000_0000 {
                Some((-(v as int)) as i32)
            } else {
                None
            },
            None => None,
        }
    } else {
        let digs = if s.len() > 0 && s[0] == '+' {
            s.subrange(1, s.len() as int)
        } else {
            s
        };
        match spec_parse_u32_digits(digs) {
            Some(v) => if v <= 0x7fff_ffff {
                Some(v as i32)
            } else {
                None
            },
            None => None,
        }
    }
}

/// Parses `s` as an `i32`, exactly as `spec_parse_i32` describes.
pub fn parse_i32(s: &str) -> (r: Option<i32>)
    ensures
        r == spec_parse_i32(s@),
{
    let n = s.unicode_len();
    if n == 0 {
        return None;
    }
    let c0 = s.get_char(0);
    let neg = c0 == '-';
    let start: usize = if c0 == '-' || c0 == '+' {
        1
    } else {
        0
    };
    let ghost digs = if start == 1 {
        s@.subrange(1, s@.len() as int)
    } else {
        s@
    };
    let e = digit_run_scan(s, start);
    proof {
        lemma_digit_run_end(s@, start as int);
    }
    if e < n {
        proof {
            assert(!is_digit_char(s@[e as int]));
            assert(digs[e - start] == s@[e as int]);
        }
        return None;
    }
    if e == start {
        return None;
    }
    proof {
        assert forall|j: int| 0 <= j < digs.len() implies is_digit_char(#[trigger] digs[j]) by {
            assert(digs[j] == s@[j + start]);
        }
        assert(digs =~= s@.subrange(start as int, n as int));
    }
    let limit: u32 = if neg {
        0x8000_0000
    } else {
        0x7fff_ffff
    };
    match digit_run_val(s, start, n, limit) {
        None => None,
        Some(v) => {
            if neg {
                if v == 0x8000_0000 {
                    Some(i32::MIN)
                } else {
                    Some(-(v as i32))
                }
            } else {
                Some(v as i32)
            }
        },
    }
}

} // verus!
