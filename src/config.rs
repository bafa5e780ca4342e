use vstd::prelude::*;
use vstd::string::StringSliceAdditionalSpecFns;

verus! {

/// Why a text is not a whole number of seconds.
#[derive(Clone, Copy, Debug, PartialEq, Eq, Structural)]
pub enum ParseDurationError {
    Empty,
    InvalidDigit,
    Overflow,
}

/// Whether the byte is an ASCII decimal digit.
pub open spec fn is_digit(b: u8) -> bool {
    48 <= b <= 57
}

/// The length of the run of digits that starts the text.
pub open spec fn digit_run(s: Seq<u8>) -> nat
    decreases s.len(),
{
    if s.len() == 0 || !is_digit(s[0]) {
        0
    } else {
        1 + digit_run(s.drop_first())
    }
}

/// The value of a text of decimal digits.
pub open spec fn value_of(s: Seq<u8>) -> nat
    decreases s.len(),
{
    if s.len() == 0 {
        0
    } else {
        value_of(s.drop_last()) * 10 + (s.last() - 48) as nat
    }
}

/// The text without a leading `+` sign.
pub open spec fn unsigned_body(s: Seq<u8>) -> Seq<u8> {
    if s.len() > 0 && s[0] == 43 {
        s.drop_first()
    } else {
        s
    }
}

/// A whole number of seconds read from a text, as unsigned integers are read:
/// an optional `+` sign, then one or more decimal digits whose value fits in
/// 64 bits. Reading stops at the first fault from the left: a value that no
/// longer fits, or a byte that is no digit.
pub open spec fn parse_seconds(s: Seq<u8>) -> Result<u64, ParseDurationError> {
    let body = unsigned_body(s);
    let run = digit_run(body);
    if s.len() == 0 {
        Err(ParseDurationError::Empty)
    } else if body.len() == 0 {
        Err(ParseDurationError::InvalidDigit)
    } else if value_of(body.take(run as int)) > u64::MAX {
        Err(ParseDurationError::Overflow)
    } else if run < body.len() {
        Err(ParseDurationError::InvalidDigit)
    } else {
        Ok(value_of(body) as u64)
    }
}

proof fn lemma_digit_run(s: Seq<u8>, i: int)
    requires
        0 <= i <= s.len(),
        forall|j: int| 0 <= j < i ==> is_digit(#[trigger] s[j]),
        i == s.len() || !is_digit(s[i]),
    ensures
        digit_run(s) == i,
    decreases i,
{
    if i > 0 {
        let t = s.drop_first();
        assert forall|j: int| 0 <= j < i - 1 implies is_digit(#[trigger] t[j]) by {
            assert(t[j] == s[j + 1]);
        }
        if i < s.len() {
            assert(t[i - 1] == s[i]);
        }
        lemma_digit_run(t, i - 1);
    }
}

proof fn lemma_digit_run_facts(s: Seq<u8>)
    ensures
        digit_run(s) <= s.len(),
        forall|j: int| 0 <= j < digit_run(s) ==> is_digit(#[trigger] s[j]),
        digit_run(s) < s.len() ==> !is_digit(s[digit_run(s) as int]),
    decreases s.len(),
{
    if s.len() > 0 && is_digit(s[0]) {
        let t = s.drop_first();
        lemma_digit_run_facts(t);
        assert forall|j: int| 0 <= j < digit_run(s) implies is_digit(#[trigger] s[j]) by {
            if j > 0 {
                assert(s[j] == t[j - 1]);
            }
        }
        if digit_run(s) < s.len() {
            assert(s[digit_run(s) as int] == t[digit_run(t) as int]);
        }
    }
}

proof fn lemma_value_step(s: Seq<u8>, i: int)
    requires
        0 <= i < s.len(),
    ensures
        value_of(s.take(i + 1)) == value_of(s.take(i)) * 10 + (s[i] - 48) as nat,
{
    assert(s.take(i + 1).drop_last() =~= s.take(i));
}

proof fn lemma_value_grows(s: Seq<u8>, j: int, k: int)
    requires
        0 <= j <= k <= s.len(),
        forall|m: int| 0 <= m < k ==> is_digit(#[trigger] s[m]),
    ensures
        value_of(s.take(j)) <= value_of(s.take(k)),
    decreases k - j,
{
    if j < k {
        lemma_value_grows(s, j, k - 1);
        lemma_value_step(s, k - 1);
    }
}

/// Reads a whole number of seconds, as the command line gives durations.
pub fn parse_duration(arg: &str) -> (r: Result<u64, ParseDurationError>)
    ensures
        r == parse_seconds(arg.spec_bytes()),
{
    let bytes = arg.as_bytes();
    let n = bytes.len();
    if n == 0 {
        return Err(ParseDurationError::Empty);
    }
    let ghost s = bytes@;
    let start: usize = if bytes[0] == 43u8 {
        1
    } else {
        0
    };
    let ghost body = unsigned_body(s);
    assert(body =~= s.subrange(start as int, n as int));
    if start == n {
        return Err(ParseDurationError::InvalidDigit);
    }
    let mut value: u64 = 0;
    let mut i: usize = start;
    while i < n
        invariant
            s == bytes@,
            s == arg.spec_bytes(),
            n == s.len(),
            start <= i <= n,
            start < n,
            body == s.subrange(start as int, n as int),
            body == unsigned_body(s),
            forall|j: int| 0 <= j < i - start ==> is_digit(#[trigger] body[j]),
            value == value_of(body.take(i - start)),
        decreases n - i,
    {
        let b = bytes[i];
        assert(body[i - start] == b);
        if b < 48u8 || b > 57u8 {
            proof {
                lemma_digit_run(body, i - start);
            }
            return Err(ParseDurationError::InvalidDigit);
        }
        proof {
            lemma_value_step(body, i - start);
        }
        let next = match value.checked_mul(10) {
            Some(v) => v.checked_add((b - 48u8) as u64),
            None => None,
        };
        match next {
            Some(v) => {
                value = v;
            },
            None => {
                proof {
                    let k = (i - start + 1) as int;
                    lemma_digit_run_facts(body);
                    lemma_value_grows(body, k, digit_run(body) as int);
                }
                return Err(ParseDurationError::Overflow);
            },
        }
        i = i + 1;
    }
    proof {
        lemma_digit_run(body, body.len() as int);
        assert(body.take(body.len() as int) =~= body);
    }
    Ok(value)
}

} // verus!
