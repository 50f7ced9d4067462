//! Decimal digit strings.
//!
//! Numeric attributes are carried as decimal digit strings, the store's
//! own representation of numbers.  This module gives those strings their
//! meaning: `digits_val` reads a digit sequence as a number, `spec_digits`
//! writes a number as its canonical digit sequence, and the executable
//! `parse_u64` / `format_u64` are proved against them.  Parsing and
//! formatting invert each other (`lemma_parse_format_round_trip`), which
//! carries the round-trip law of every numeric field.

use vstd::prelude::*;
use vstd::string::StringExecFns;

verus! {

/// Is `c` one of the ten decimal digit characters?
pub open spec fn is_digit_char(c: char) -> bool {
    '0' <= c && c <= '9'
}

/// The numeric value of a digit character; 0 for anything else.
pub open spec fn digit_char_val(c: char) -> nat {
    if is_digit_char(c) {
        (c as u32 - 48) as nat
    } else {
        0
    }
}

/// Does the sequence consist of digit characters only?
pub open spec fn all_digits(s: Seq<char>) -> bool {
    forall|i: int| 0 <= i < s.len() ==> is_digit_char(s[i])
}

/// The number a digit sequence denotes, most significant digit first.
pub open spec fn digits_val(s: Seq<char>) -> nat
    decreases s.len(),
{
    if s.len() == 0 {
        0
    } else {
        digits_val(s.drop_last()) * 10 + digit_char_val(s.last())
    }
}

/// What parsing a numeric attribute yields: the denoted value, provided
/// the text is nonempty, all digits, and within range of `u64`.
pub open spec fn spec_parse_u64(s: Seq<char>) -> Option<u64> {
    if s.len() > 0 && all_digits(s) && digits_val(s) <= u64::MAX {
        Some(digits_val(s) as u64)
    } else {
        None
    }
}

/// The digit character for a value below ten.
pub open spec fn digit_char(d: nat) -> char {
    if d == 0 {
        '0'
    } else if d == 1 {
        '1'
    } else if d == 2 {
        '2'
    } else if d == 3 {
        '3'
    } else if d == 4 {
        '4'
    } else if d == 5 {
        '5'
    } else if d == 6 {
        '6'
    } else if d == 7 {
        '7'
    } else if d == 8 {
        '8'
    } else {
        '9'
    }
}

/// The canonical decimal rendering of a number: no sign, no leading zero
/// except for zero itself.
pub open spec fn spec_digits(n: nat) -> Seq<char>
    decreases n,
{
    if n < 10 {
        seq![digit_char(n)]
    } else {
        spec_digits(n / 10).push(digit_char(n % 10))
    }
}

/// A digit value prefix never denotes more than the whole sequence.
proof fn lemma_digits_val_prefix(s: Seq<char>, k: int)
    requires
        0 <= k <= s.len(),
    ensures
        digits_val(s.take(k)) <= digits_val(s),
    decreases s.len(),
{
    if k == s.len() {
        assert(s.take(k) =~= s);
    } else {
        lemma_digits_val_prefix(s.drop_last(), k);
        assert(s.drop_last().take(k) =~= s.take(k));
    }
}

/// Parses a decimal digit string as an unsigned 64-bit number.
///
/// Succeeds exactly on nonempty, all-digit text whose value fits.
pub fn parse_u64(s: &str) -> (r: Option<u64>)
    ensures
        r == spec_parse_u64(s@),
{
    if !s.is_ascii() {
        proof {
            let i = choose|i: int| 0 <= i < s@.len() && !('\0' <= #[trigger] s@[i] <= '\u{7f}');
            assert(!is_digit_char(s@[i]));
        }
        return None;
    }
    proof {
        vstd::utf8::is_ascii_chars_encode_utf8(s@);
    }
    let b = s.as_bytes();
    let n = b.len();
    if n == 0 {
        return None;
    }
    let mut i: usize = 0;
    let mut acc: u64 = 0;
    proof {
        assert(s@.take(0) =~= Seq::<char>::empty());
    }
    while i < n
        invariant
            0 <= i <= n,
            n == b@.len(),
            n == s@.len(),
            b@ == vstd::utf8::encode_utf8(s@),
            forall|j: int| 0 <= j < n ==> b@[j] == #[trigger] s@[j] as u8,
            forall|j: int| 0 <= j < n ==> '\0' <= #[trigger] s@[j] <= '\u{7f}',
            all_digits(s@.take(i as int)),
            acc as nat == digits_val(s@.take(i as int)),
        decreases n - i,
    {
        let ghost c = s@[i as int];
        let d = b[i];
        proof {
            assert((c as u32) < 128);
            assert(d == c as u8);
            assert(d == c as u32 as u8);
            assert(is_digit_char(c) <==> 48 <= d <= 57);
            assert(s@.take(i as int + 1).drop_last() =~= s@.take(i as int));
            assert(s@.take(i as int + 1).last() == c);
        }
        if d < 48 || d > 57 {
            proof {
                assert(!is_digit_char(s@[i as int]));
                assert(!all_digits(s@));
            }
            return None;
        }
        let dv = (d - 48) as u64;
        proof {
            assert(digit_char_val(c) == dv as nat);
            assert(digits_val(s@.take(i as int + 1)) == (acc as nat) * 10 + dv as nat);
        }
        match acc.checked_mul(10) {
            Some(m) => {
                match m.checked_add(dv) {
                    Some(next) => {
                        acc = next;
                    },
                    None => {
                        proof {
                            lemma_digits_val_prefix(s@, i as int + 1);
                            assert(digits_val(s@) > u64::MAX);
                        }
                        return None;
                    },
                }
            },
            None => {
                proof {
                    lemma_digits_val_prefix(s@, i as int + 1);
                    assert(digits_val(s@) > u64::MAX);
                }
                return None;
            },
        }
        i = i + 1;
    }
    proof {
        assert(s@.take(n as int) =~= s@);
    }
    Some(acc)
}

/// The characters of a digit-value vector read back to front.
spec fn rev_chars(ds: Seq<u8>) -> Seq<char> {
    Seq::new(ds.len(), |k: int| digit_char(ds[ds.len() - 1 - k] as nat))
}

/// Renders a number as its canonical decimal digit string.
pub fn format_u64(n: u64) -> (r: String)
    ensures
        r@ == spec_digits(n as nat),
{
    let mut ds: Vec<u8> = Vec::new();
    if n == 0 {
        ds.push(0);
        proof {
            assert(rev_chars(ds@) =~= seq![digit_char(0)]);
        }
    } else {
        let mut m: u64 = n;
        while m > 0
            invariant
                forall|j: int| 0 <= j < ds@.len() ==> ds@[j] < 10,
                (m > 0 && ds@.len() == 0 && m == n) || (m > 0 && spec_digits(n as nat)
                    == spec_digits(m as nat) + rev_chars(ds@)) || (m == 0 && spec_digits(n as nat)
                    == rev_chars(ds@)),
            decreases m,
        {
            let ghost old_m = m as nat;
            let ghost old_ds = ds@;
            let d = (m % 10) as u8;
            ds.push(d);
            m = m / 10;
            proof {
                assert(rev_chars(ds@) =~= seq![digit_char(d as nat)] + rev_chars(old_ds));
                if old_m < 10 {
                    assert(m == 0);
                    assert(spec_digits(old_m) =~= seq![digit_char(d as nat)]);
                    if old_ds.len() == 0 {
                        assert(spec_digits(n as nat) =~= rev_chars(ds@));
                    } else {
                        assert(spec_digits(n as nat) =~= spec_digits(old_m) + rev_chars(old_ds));
                        assert(spec_digits(n as nat) =~= rev_chars(ds@));
                    }
                } else {
                    assert(spec_digits(old_m) =~= spec_digits(old_m / 10).push(
                        digit_char(old_m % 10),
                    ));
                    assert(spec_digits(old_m) =~= spec_digits(m as nat) + seq![
                        digit_char(d as nat),
                    ]);
                    if old_ds.len() == 0 {
                        assert(spec_digits(n as nat) =~= spec_digits(m as nat) + rev_chars(ds@));
                    } else {
                        assert(spec_digits(n as nat) =~= spec_digits(old_m) + rev_chars(old_ds));
                        assert(spec_digits(n as nat) =~= spec_digits(m as nat) + rev_chars(ds@));
                    }
                }
            }
        }
    }
    let len = ds.len();
    let mut out = String::new();
    let mut i: usize = len;
    proof {
        assert(out@ =~= rev_chars(ds@).take(0));
    }
    while i > 0
        invariant
            0 <= i <= len,
            len == ds@.len(),
            forall|j: int| 0 <= j < ds@.len() ==> ds@[j] < 10,
            spec_digits(n as nat) == rev_chars(ds@),
            out@ == rev_chars(ds@).take(len - i),
        decreases i,
    {
        i = i - 1;
        let d = ds[i];
        let ghost before = out@;
        match d {
            0 => out.append("0"),
            1 => out.append("1"),
            2 => out.append("2"),
            3 => out.append("3"),
            4 => out.append("4"),
            5 => out.append("5"),
            6 => out.append("6"),
            7 => out.append("7"),
            8 => out.append("8"),
            _ => out.append("9"),
        }
        proof {
            reveal_strlit("0");
            reveal_strlit("1");
            reveal_strlit("2");
            reveal_strlit("3");
            reveal_strlit("4");
            reveal_strlit("5");
            reveal_strlit("6");
            reveal_strlit("7");
            reveal_strlit("8");
            reveal_strlit("9");
            assert(out@ =~= before.push(digit_char(d as nat)));
            assert(rev_chars(ds@)[len - 1 - i as int] == digit_char(d as nat));
            assert(out@ =~= rev_chars(ds@).take(len - i as int));
        }
    }
    proof {
        assert(rev_chars(ds@).take(len as int) =~= rev_chars(ds@));
    }
    out
}

/// Every canonical rendering is a nonempty digit string.
pub proof fn lemma_digits_shape(n: nat)
    ensures
        spec_digits(n).len() >= 1,
        all_digits(spec_digits(n)),
    decreases n,
{
    if n < 10 {
    } else {
        lemma_digits_shape(n / 10);
    }
}

/// A digit character reads back as the value it was chosen for.
proof fn lemma_digit_char_val(d: nat)
    requires
        d < 10,
    ensures
        digit_char_val(digit_char(d)) == d,
{
}

/// Reading back a canonical rendering yields the number it renders.
proof fn lemma_digits_val_of_spec_digits(n: nat)
    ensures
        digits_val(spec_digits(n)) == n,
    decreases n,
{
    if n < 10 {
        lemma_digit_char_val(n);
        assert(digits_val(Seq::<char>::empty()) == 0);
        assert(spec_digits(n).drop_last() =~= Seq::<char>::empty());
        assert(spec_digits(n).last() == digit_char(n));
    } else {
        lemma_digits_val_of_spec_digits(n / 10);
        lemma_digit_char_val(n % 10);
        assert(spec_digits(n).drop_last() =~= spec_digits(n / 10));
        assert(spec_digits(n).last() == digit_char(n % 10));
        assert(digits_val(spec_digits(n)) == (n / 10) * 10 + n % 10);
        vstd::arithmetic::div_mod::lemma_fundamental_div_mod(n as int, 10);
    }
}

/// Parsing inverts formatting: the rendered digits of `v` parse back to `v`.
pub proof fn lemma_parse_format_round_trip(v: u64)
    ensures
        spec_parse_u64(spec_digits(v as nat)) == Some(v),
{
    lemma_digits_shape(v as nat);
    lemma_digits_val_of_spec_digits(v as nat);
}

} // verus!
