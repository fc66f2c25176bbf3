//! Decimal argument parsing: a single 8-bit value (`"2"`, `"+7"`) or a
//! comma-separated list of 8-bit channel values (`"255,0,0"`), exactly
//! the grammar of an unsigned 8-bit integer: an optional leading plus
//! sign followed by one or more decimal digits, with the value at most
//! 255.

use vstd::prelude::*;

use crate::command::Error;
use vstd::string::StringSliceAdditionalSpecFns;

verus! {

/// ASCII comma, the separator of a channel list.
pub const COMMA: u8 = 44;

/// ASCII plus sign, the one sign a decimal 8-bit value may carry.
pub const PLUS: u8 = 43;

/// ASCII decimal digit.
pub open spec fn is_ascii_digit(b: u8) -> bool {
    48 <= b <= 57
}

/// Numeric value of an ASCII digit.
pub open spec fn digit_value(b: u8) -> int {
    b - 48
}

/// Every byte of the sequence is an ASCII decimal digit.
pub open spec fn all_digits(s: Seq<u8>) -> bool {
    forall|i: int| 0 <= i < s.len() ==> is_ascii_digit(#[trigger] s[i])
}

/// The value of a digit string read as a decimal number.
pub open spec fn dec_value(s: Seq<u8>) -> int
    decreases s.len(),
{
    if s.len() == 0 {
        0
    } else {
        dec_value(s.drop_last()) * 10 + digit_value(s.last())
    }
}

/// The digits of a segment: everything after an optional leading plus.
pub open spec fn segment_digits(s: Seq<u8>) -> Seq<u8> {
    if s.len() > 0 && s[0] == PLUS {
        s.subrange(1, s.len() as int)
    } else {
        s
    }
}

/// A segment parses as an 8-bit value: at least one digit after the
/// optional sign, digits only, and a value of at most 255.
pub open spec fn is_valid_u8_segment(s: Seq<u8>) -> bool {
    &&& segment_digits(s).len() > 0
    &&& all_digits(segment_digits(s))
    &&& dec_value(segment_digits(s)) <= 255
}

/// The value a valid segment parses to.
pub open spec fn segment_value(s: Seq<u8>) -> int {
    dec_value(segment_digits(s))
}

/// The comma-separated segments of a byte string. Splitting never
/// yields an empty list: a string without commas is one segment, and
/// each comma adds one.
pub open spec fn split_commas(s: Seq<u8>) -> Seq<Seq<u8>>
    decreases s.len(),
{
    if s.len() == 0 {
        seq![Seq::<u8>::empty()]
    } else if s[0] == COMMA {
        seq![Seq::<u8>::empty()] + split_commas(s.subrange(1, s.len() as int))
    } else {
        let rest = split_commas(s.subrange(1, s.len() as int));
        seq![seq![s[0]] + rest[0]] + rest.subrange(1, rest.len() as int)
    }
}

/// Every comma-separated segment is a valid 8-bit value.
pub open spec fn all_segments_valid(s: Seq<u8>) -> bool {
    forall|i: int| 0 <= i < split_commas(s).len() ==> is_valid_u8_segment(
        #[trigger] split_commas(s)[i],
    )
}

/// The list of values a fully valid comma-separated string parses to.
pub open spec fn parsed_values(s: Seq<u8>) -> Seq<u8> {
    split_commas(s).map(|i: int, seg: Seq<u8>| segment_value(seg) as u8)
}

/// A digit string's value is never negative.
pub proof fn lemma_dec_value_nonneg(s: Seq<u8>)
    requires
        all_digits(s),
    ensures
        dec_value(s) >= 0,
    decreases s.len(),
{
    if s.len() > 0 {
        assert(all_digits(s.drop_last())) by {
            assert(forall|i: int| 0 <= i < s.len() - 1 ==> s.drop_last()[i] == s[i]);
        }
        lemma_dec_value_nonneg(s.drop_last());
    }
}

/// Reading more digits never shrinks the value: the value of a prefix
/// bounds the value of the whole digit string from below.
pub proof fn lemma_dec_value_take_bound(s: Seq<u8>, m: int)
    requires
        0 <= m <= s.len(),
        all_digits(s),
    ensures
        dec_value(s.take(m)) <= dec_value(s),
    decreases s.len() - m,
{
    if m == s.len() {
        assert(s.take(m) =~= s);
    } else {
        assert(s.take(m + 1).drop_last() =~= s.take(m));
        assert(all_digits(s.take(m))) by {
            assert(forall|i: int| 0 <= i < m ==> s.take(m)[i] == s[i]);
        }
        lemma_dec_value_nonneg(s.take(m));
        assert(dec_value(s.take(m + 1)) == dec_value(s.take(m)) * 10 + digit_value(s[m]));
        lemma_dec_value_take_bound(s, m + 1);
    }
}

/// Splitting yields at least one segment.
pub proof fn lemma_split_commas_nonempty(s: Seq<u8>)
    ensures
        split_commas(s).len() >= 1,
    decreases s.len(),
{
    if s.len() == 0 {
    } else if s[0] == COMMA {
        lemma_split_commas_nonempty(s.subrange(1, s.len() as int));
    } else {
        lemma_split_commas_nonempty(s.subrange(1, s.len() as int));
    }
}

/// A string without commas is a single segment: itself.
pub proof fn lemma_split_no_comma(s: Seq<u8>)
    requires
        forall|i: int| 0 <= i < s.len() ==> s[i] != COMMA,
    ensures
        split_commas(s) =~~= seq![s],
    decreases s.len(),
{
    if s.len() > 0 {
        let t = s.subrange(1, s.len() as int);
        assert(forall|i: int| 0 <= i < t.len() ==> t[i] == s[i + 1]);
        lemma_split_no_comma(t);
        assert(seq![s[0]] + t =~= s);
    }
}

/// Splitting at the first comma: the part before it is the first
/// segment, and the rest of the string splits independently.
pub proof fn lemma_split_at_comma(s: Seq<u8>, k: int)
    requires
        0 <= k < s.len(),
        s[k] == COMMA,
        forall|i: int| 0 <= i < k ==> s[i] != COMMA,
    ensures
        split_commas(s) =~~= seq![s.subrange(0, k)] + split_commas(
            s.subrange(k + 1, s.len() as int),
        ),
    decreases k,
{
    if k == 0 {
        assert(s.subrange(0, 0) =~= Seq::<u8>::empty());
    } else {
        let t = s.subrange(1, s.len() as int);
        assert(forall|i: int| 0 <= i < t.len() ==> t[i] == s[i + 1]);
        lemma_split_at_comma(t, k - 1);
        let tfront = t.subrange(0, k - 1);
        let ttail = t.subrange(k, t.len() as int);
        assert(split_commas(t) == seq![tfront] + split_commas(ttail));
        let rest = split_commas(t);
        lemma_split_commas_nonempty(ttail);
        assert(rest[0] == tfront);
        assert(rest.subrange(1, rest.len() as int) =~~= split_commas(ttail));
        assert(seq![s[0]] + tfront =~= s.subrange(0, k));
        assert(ttail =~= s.subrange(k + 1, s.len() as int));
    }
}

/// Parses one decimal 8-bit segment.
fn parse_u8_bytes(bytes: &[u8]) -> (r: Result<u8, Error>)
    ensures
        match r {
            Ok(v) => is_valid_u8_segment(bytes@) && v as int == segment_value(bytes@),
            Err(e) => !is_valid_u8_segment(bytes@) && e == Error::MalformedNumber,
        },
{
    let n = bytes.len();
    let start: usize = if n > 0 && bytes[0] == PLUS {
        1
    } else {
        0
    };
    let ghost digits = segment_digits(bytes@);
    proof {
        assert(digits =~= bytes@.subrange(start as int, n as int));
    }
    if n == start {
        return Err(Error::MalformedNumber);
    }
    let mut acc: u32 = 0;
    let mut i: usize = start;
    while i < n
        invariant
            start <= i <= n,
            n == bytes@.len(),
            digits == bytes@.subrange(start as int, n as int),
            digits == segment_digits(bytes@),
            all_digits(digits.take(i - start)),
            acc as int == dec_value(digits.take(i - start)),
            acc <= 255,
        decreases n - i,
    {
        let b = bytes[i];
        proof {
            assert(digits[i - start] == b);
        }
        if b < 48 || b > 57 {
            proof {
                assert(!is_ascii_digit(digits[i - start]));
            }
            return Err(Error::MalformedNumber);
        }
        proof {
            assert(digits.take(i - start + 1).drop_last() =~= digits.take(i - start));
            assert(digits.take(i - start + 1).last() == digits[i - start]);
            assert(all_digits(digits.take(i - start + 1))) by {
                assert(forall|k: int|
                    0 <= k < i - start + 1 ==> digits.take(i - start + 1)[k] == digits[k]);
            }
        }
        acc = acc * 10 + (b - 48) as u32;
        if acc > 255 {
            proof {
                if all_digits(digits) {
                    lemma_dec_value_take_bound(digits, i - start + 1);
                }
            }
            return Err(Error::MalformedNumber);
        }
        i += 1;
    }
    proof {
        assert(digits.take(n - start) =~= digits);
    }
    Ok(acc as u8)
}

/// Parses a comma-separated list of decimal 8-bit segments, first
/// segment first.
fn parse_segments(bytes: &[u8]) -> (r: Result<Vec<u8>, Error>)
    ensures
        match r {
            Ok(v) => all_segments_valid(bytes@) && v@ == parsed_values(bytes@),
            Err(e) => !all_segments_valid(bytes@) && e == Error::MalformedNumber,
        },
    decreases bytes@.len(),
{
    let n = bytes.len();
    let mut j: usize = 0;
    while j < n && bytes[j] != COMMA
        invariant
            0 <= j <= n,
            n == bytes@.len(),
            forall|i: int| 0 <= i < j ==> bytes@[i] != COMMA,
        decreases n - j,
    {
        j += 1;
    }
    proof {
        if j == n {
            lemma_split_no_comma(bytes@);
            assert(bytes@.subrange(0, n as int) =~= bytes@);
        } else {
            lemma_split_at_comma(bytes@, j as int);
        }
        lemma_split_commas_nonempty(bytes@);
    }
    let seg = vstd::slice::slice_subrange(bytes, 0, j);
    let first = match parse_u8_bytes(seg) {
        Ok(v) => v,
        Err(_) => {
            proof {
                assert(split_commas(bytes@)[0] == seg@);
            }
            return Err(Error::MalformedNumber);
        },
    };
    proof {
        assert(split_commas(bytes@)[0] == seg@);
        lemma_dec_value_nonneg(segment_digits(seg@));
    }
    if j == n {
        let mut out: Vec<u8> = Vec::new();
        out.push(first);
        proof {
            assert(out@ =~= parsed_values(bytes@));
        }
        Ok(out)
    } else {
        let rest = vstd::slice::slice_subrange(bytes, j + 1, n);
        let ghost split_rest = split_commas(rest@);
        proof {
            assert(split_commas(bytes@) == seq![seg@] + split_rest);
            assert(forall|i: int|
                0 <= i < split_rest.len() ==> split_commas(bytes@)[i + 1]
                    == #[trigger] split_rest[i]);
        }
        let mut tail = match parse_segments(rest) {
            Ok(v) => v,
            Err(_) => {
                proof {
                    let bad = choose|i: int|
                        0 <= i < split_rest.len() && !is_valid_u8_segment(
                            #[trigger] split_rest[i],
                        );
                    assert(!is_valid_u8_segment(split_commas(bytes@)[bad + 1]));
                }
                return Err(Error::MalformedNumber);
            },
        };
        tail.insert(0, first);
        proof {
            assert(all_segments_valid(bytes@)) by {
                assert(forall|i: int|
                    0 < i < split_commas(bytes@).len() ==> is_valid_u8_segment(
                        #[trigger] split_commas(bytes@)[i],
                    ));
            }
            assert(tail@ =~= parsed_values(bytes@));
        }
        Ok(tail)
    }
}

/// Parses a comma-separated list of 8-bit channel values, as supplied
/// to the color-bearing subcommands.
pub fn parse_bytes_arg(arg: &str) -> (r: Result<Vec<u8>, Error>)
    ensures
        match r {
            Ok(v) => all_segments_valid(arg.spec_bytes()) && v@ == parsed_values(arg.spec_bytes()),
            Err(e) => !all_segments_valid(arg.spec_bytes()) && e == Error::MalformedNumber,
        },
{
    parse_segments(arg.as_bytes())
}

/// Parses one decimal 8-bit value, as supplied to the speed and
/// brightness options.
pub fn parse_u8_arg(arg: &str) -> (r: Result<u8, Error>)
    ensures
        match r {
            Ok(v) => is_valid_u8_segment(arg.spec_bytes()) && v as int == segment_value(
                arg.spec_bytes(),
            ),
            Err(e) => !is_valid_u8_segment(arg.spec_bytes()) && e == Error::MalformedNumber,
        },
{
    parse_u8_bytes(arg.as_bytes())
}

/// What an optional numeric argument parses to: the default when it is
/// absent, its decimal value when well formed, an error otherwise.
pub open spec fn spec_u8_arg_or(arg: Option<&str>, default: u8) -> Result<u8, Error> {
    match arg {
        None => Ok(default),
        Some(s) => if is_valid_u8_segment(s.spec_bytes()) {
            Ok(segment_value(s.spec_bytes()) as u8)
        } else {
            Err(Error::MalformedNumber)
        },
    }
}

/// Parses an optional decimal 8-bit argument, falling back to the
/// given default when the option was not supplied.
pub fn parse_u8_arg_or(arg: Option<&str>, default: u8) -> (r: Result<u8, Error>)
    ensures
        r == spec_u8_arg_or(arg, default),
{
    match arg {
        None => Ok(default),
        Some(s) => {
            let r = parse_u8_arg(s);
            proof {
                if is_valid_u8_segment(s.spec_bytes()) {
                    lemma_dec_value_nonneg(segment_digits(s.spec_bytes()));
                }
            }
            r
        },
    }
}

} // verus!
