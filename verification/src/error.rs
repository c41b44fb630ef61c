//! Structured errors for registry operations: a descriptive message
//! together with a kind, so that callers can tell failure classes apart
//! without parsing text.

use vstd::prelude::*;
use vstd::string::StrSliceExecFns;
use vstd::string::StringExecFns;
use crate::value::PropTypeTag;

verus! {

/// The class of a registry operation failure. Kinds are what callers
/// dispatch on; the message is descriptive only.
#[derive(Clone, Copy, Debug, PartialEq, Eq, Structural)]
pub enum SMFErrorKind {
    /// The registry reported a failure; the message copies the
    /// registry's failure-state slot at the moment of failure.
    Registry,
    /// The calling process is not associated with a managed service
    /// instance.
    NotAssociated,
    /// A caller-supplied string cannot be passed to the native layer.
    InvalidArgument,
    /// A property resolved to a number of values other than one;
    /// carries the observed count.
    Cardinality { count: u64 },
    /// The single resolved value has a declared type with no decode
    /// arm; carries the declared tag.
    UnsupportedType { tag: PropTypeTag },
}

/// An error from a registry operation: a kind plus one descriptive
/// message, with no structured cause chain.
#[derive(Clone, Debug)]
pub struct SMFError {
    pub kind: SMFErrorKind,
    pub smf_error: String,
}

impl SMFError {
    /// Translates the registry's failure state: wraps the message read
    /// from the registry's failure slot at the moment of failure.
    pub fn new(message: String) -> (e: SMFError)
        ensures
            e.kind == SMFErrorKind::Registry,
            e.smf_error@ == message@,
    {
        SMFError { kind: SMFErrorKind::Registry, smf_error: message }
    }

    /// The error for a calling process that no managed service
    /// instance owns.
    pub fn not_associated() -> (e: SMFError)
        ensures
            e.kind == SMFErrorKind::NotAssociated,
            e.smf_error@ == "process not associated with a service"@,
    {
        SMFError {
            kind: SMFErrorKind::NotAssociated,
            smf_error: "process not associated with a service".to_owned(),
        }
    }

    /// The error for a caller-supplied string that cannot cross the
    /// native boundary because it holds an embedded nul byte.
    pub fn invalid_argument() -> (e: SMFError)
        ensures
            e.kind == SMFErrorKind::InvalidArgument,
            e.smf_error@ == "invalid string: nul byte found in provided data"@,
    {
        SMFError {
            kind: SMFErrorKind::InvalidArgument,
            smf_error: "invalid string: nul byte found in provided data".to_owned(),
        }
    }

    /// The error for a property that resolved to `count` values when
    /// exactly one was required.
    pub fn cardinality(count: u64) -> (e: SMFError)
        ensures
            e.kind == (SMFErrorKind::Cardinality { count }),
            e.smf_error@ == "expected 1 propval, got "@ + decimal_digits(count as nat),
    {
        let mut message: String = "expected 1 propval, got ".to_owned();
        push_decimal(&mut message, count);
        SMFError { kind: SMFErrorKind::Cardinality { count }, smf_error: message }
    }

    /// The error for a resolved value whose declared type has no
    /// decode arm.
    pub fn unsupported_type(tag: PropTypeTag) -> (e: SMFError)
        ensures
            e.kind == (SMFErrorKind::UnsupportedType { tag }),
            e.smf_error@ == "not implemented"@,
    {
        SMFError {
            kind: SMFErrorKind::UnsupportedType { tag },
            smf_error: "not implemented".to_owned(),
        }
    }

    /// The error's descriptive message.
    pub fn message(&self) -> (s: &String)
        ensures
            s@ == self.smf_error@,
    {
        &self.smf_error
    }
}

/// The character that writes the decimal digit `d`.
pub open spec fn digit_char(d: nat) -> char {
    if d == 0 {
        '0'
    } else if d == 1 {
        '1'
    } else if d == 2 {
        '2'
    } else if d == 3 {
        '3'
    } else if d == 4 {
        '4'
    } else if d == 5 {
        '5'
    } else if d == 6 {
        '6'
    } else if d == 7 {
        '7'
    } else if d == 8 {
        '8'
    } else {
        '9'
    }
}

/// The decimal digits of `n`, most significant first.
pub open spec fn decimal_digits(n: nat) -> Seq<char>
    decreases n,
{
    if n < 10 {
        seq![digit_char(n)]
    } else {
        decimal_digits(n / 10).push(digit_char(n % 10))
    }
}

/// The numeric value a decimal digit character denotes; ten for any
/// character that is no digit.
pub open spec fn digit_value(c: char) -> nat {
    if c == '0' {
        0
    } else if c == '1' {
        1
    } else if c == '2' {
        2
    } else if c == '3' {
        3
    } else if c == '4' {
        4
    } else if c == '5' {
        5
    } else if c == '6' {
        6
    } else if c == '7' {
        7
    } else if c == '8' {
        8
    } else if c == '9' {
        9
    } else {
        10
    }
}

/// The number a sequence of decimal digit characters denotes, most
/// significant first.
pub open spec fn digits_value(s: Seq<char>) -> nat
    decreases s.len(),
{
    if s.len() == 0 {
        0
    } else {
        digits_value(s.drop_last()) * 10 + digit_value(s.last())
    }
}

/// The decimal rendering denotes exactly the number it was made from:
/// reading the digits of `decimal_digits(n)` back gives `n`.
pub proof fn lemma_decimal_round_trip(n: nat)
    ensures
        digits_value(decimal_digits(n)) == n,
    decreases n,
{
    if n < 10 {
        let s = decimal_digits(n);
        assert(s =~= seq![digit_char(n)]);
        assert(s.drop_last() =~= Seq::<char>::empty());
        assert(s.last() == digit_char(n));
        assert(digits_value(Seq::<char>::empty()) == 0);
        assert(digits_value(s) == digit_value(digit_char(n)));
    } else {
        lemma_decimal_round_trip(n / 10);
        let s = decimal_digits(n);
        assert(s.drop_last() =~= decimal_digits(n / 10));
        assert(s.last() == digit_char(n % 10));
        assert(digit_value(digit_char(n % 10)) == n % 10);
        vstd::arithmetic::div_mod::lemma_fundamental_div_mod(n as int, 10);
    }
}

/// Appends the decimal rendering of `n` to `s`.
pub fn push_decimal(s: &mut String, n: u64)
    ensures
        final(s)@ == old(s)@ + decimal_digits(n as nat),
    decreases n,
{
    proof {
        reveal_strlit("0123456789");
    }
    if n >= 10 {
        push_decimal(s, n / 10);
    }
    let d = (n % 10) as usize;
    let digits: &str = "0123456789";
    let piece = digits.substring_ascii(d, d + 1);
    assert(piece@ =~= seq![digit_char((n % 10) as nat)]);
    s.append(piece);
    proof {
        assert(s@ =~= old(s)@ + decimal_digits(n as nat));
    }
}

} // verus!
