//! What the transport reported for one request, and what that means for
//! the delivery of the batch.

use vstd::prelude::*;

verus! {

/// What came back for one request.
#[derive(Debug)]
pub enum Outcome {
    /// A response arrived. `retry_after` holds the raw value of the
    /// `retry-after` header where the response carried one.
    Status { code: u16, retry_after: Option<Vec<u8>> },
    /// No response arrived: the connection failed, timed out, or the request
    /// never left.
    TransportError,
}

/// The failure class of an outcome, which alone decides how delivery
/// proceeds.
#[derive(Clone, Copy, Debug)]
pub enum ResponseClass {
    /// The batch was taken.
    Accepted,
    /// The batch is refused for good; sending the same bytes again cannot
    /// succeed.
    PermanentlyRejected,
    /// The payload was too large.
    Oversized,
    /// The server asks the client to slow down, and may say for how many
    /// seconds.
    RateLimited { retry_after: Option<u64> },
    /// Anything else: worth another try after a while.
    Transient,
}

/// Whether `b` is an ASCII decimal digit.
pub open spec fn is_digit(b: u8) -> bool {
    0x30 <= b <= 0x39
}

/// The number that the digit `b` stands for.
pub open spec fn digit_value(b: u8) -> nat {
    if is_digit(b) {
        (b - 0x30) as nat
    } else {
        0
    }
}

/// Whether every byte of `s` is an ASCII decimal digit.
pub open spec fn all_digits(s: Seq<u8>) -> bool {
    forall|i: int| 0 <= i < s.len() ==> is_digit(#[trigger] s[i])
}

/// The number written by the decimal digits `s`, most significant first.
pub open spec fn decimal_value(s: Seq<u8>) -> nat
    decreases s.len(),
{
    if s.len() == 0 {
        0
    } else {
        decimal_value(s.drop_last()) * 10 + digit_value(s.last())
    }
}

/// The seconds that a `retry-after` header value asks for: the value must be
/// one or more ASCII decimal digits and nothing else, and the number must fit
/// in 64 bits. Any other value counts as no value at all.
pub open spec fn spec_parse_retry_after(value: Seq<u8>) -> Option<u64> {
    if value.len() > 0 && all_digits(value) && decimal_value(value) <= u64::MAX {
        Some(decimal_value(value) as u64)
    } else {
        None
    }
}

/// Whether `code` is one of the client errors that no retry can mend.
pub open spec fn is_permanent_rejection(code: u16) -> bool {
    code == 400 || code == 401 || code == 403 || code == 404 || code == 405 || code == 409 || code
        == 410 || code == 411
}

/// The failure class of a response with status `code` and the given raw
/// `retry-after` header value.
pub open spec fn spec_classify_status(code: u16, retry_after: Option<Seq<u8>>) -> ResponseClass {
    if 200 <= code <= 299 {
        ResponseClass::Accepted
    } else if is_permanent_rejection(code) {
        ResponseClass::PermanentlyRejected
    } else if code == 413 {
        ResponseClass::Oversized
    } else if code == 429 {
        ResponseClass::RateLimited {
            retry_after: match retry_after {
                Some(value) => spec_parse_retry_after(value),
                None => None,
            },
        }
    } else {
        ResponseClass::Transient
    }
}

impl Outcome {
    /// The failure class of this outcome. A missing response is transient.
    pub open spec fn spec_classify(&self) -> ResponseClass {
        match self {
            Outcome::Status { code, retry_after } => spec_classify_status(
                *code,
                match retry_after {
                    Some(value) => Some(value@),
                    None => None,
                },
            ),
            Outcome::TransportError => ResponseClass::Transient,
        }
    }

    /// The failure class of this outcome.
    pub fn classify(&self) -> (class: ResponseClass)
        ensures
            class == self.spec_classify(),
    {
        match self {
            Outcome::Status { code, retry_after } => {
                let code: u16 = *code;
                if 200 <= code && code <= 299 {
                    ResponseClass::Accepted
                } else if code == 400 || code == 401 || code == 403 || code == 404 || code == 405
                    || code == 409 || code == 410 || code == 411 {
                    ResponseClass::PermanentlyRejected
                } else if code == 413 {
                    ResponseClass::Oversized
                } else if code == 429 {
                    match retry_after {
                        Some(value) => ResponseClass::RateLimited {
                            retry_after: parse_retry_after(value.as_slice()),
                        },
                        None => ResponseClass::RateLimited { retry_after: None },
                    }
                } else {
                    ResponseClass::Transient
                }
            },
            Outcome::TransportError => ResponseClass::Transient,
        }
    }
}

/// A prefix of a digit string never writes a larger number than the whole.
proof fn lemma_decimal_value_prefix(s: Seq<u8>, k: int)
    requires
        0 <= k <= s.len(),
    ensures
        decimal_value(s.take(k)) <= decimal_value(s),
    decreases s.len(),
{
    if k == s.len() {
        assert(s.take(k) =~= s);
    } else {
        lemma_decimal_value_prefix(s.drop_last(), k);
        assert(s.drop_last().take(k) =~= s.take(k));
    }
}

/// Reads the seconds out of a `retry-after` header value.
pub fn parse_retry_after(value: &[u8]) -> (secs: Option<u64>)
    ensures
        secs == spec_parse_retry_after(value@),
{
    if value.len() == 0 {
        return None;
    }
    let mut acc: u64 = 0;
    let mut i: usize = 0;
    while i < value.len()
        invariant
            i <= value.len(),
            all_digits(value@.take(i as int)),
            acc == decimal_value(value@.take(i as int)),
        decreases value.len() - i,
    {
        let b: u8 = value[i];
        if b < 0x30 || b > 0x39 {
            assert(!is_digit(value@[i as int]));
            return None;
        }
        let d: u64 = (b - 0x30) as u64;
        proof {
            assert(value@.take(i + 1).drop_last() =~= value@.take(i as int));
            assert(value@.take(i + 1).last() == b);
            assert(decimal_value(value@.take(i + 1)) == acc * 10 + d);
        }
        if acc > (u64::MAX - d) / 10 {
            proof {
                lemma_decimal_value_prefix(value@, i + 1);
            }
            return None;
        }
        acc = acc * 10 + d;
        i = i + 1;
    }
    proof {
        assert(value@.take(i as int) =~= value@);
    }
    Some(acc)
}

} // verus!
