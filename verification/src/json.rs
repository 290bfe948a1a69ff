//! The JSON document model that the envelope parser reads, and the field readers
//! over it.
//!
//! A document reaches the library already decoded: the library reads objects, arrays,
//! strings, numbers and `null`; it does not decode JSON text itself. Numbers and
//! strings carry the readings the parser needs: the unsigned-integer reading of a
//! number, and the binary64 reading of a number or of a string (as a bit pattern).

use vstd::prelude::*;
use vstd::string::*;

use crate::error::{outcome, Failure, TreasuryError, TreasuryErrorKind, TreasuryResult};
use crate::text::{blank, is_blank, str_eq};
use crate::value::record::{is_finite_bits, TreasuryAmount, TreasuryMissingReason};

verus! {

broadcast use vstd::string::group_string_axioms;

/// A JSON number with its two readings.
#[derive(Debug, Clone, Copy, PartialEq, Eq, Structural)]
pub struct JsonNumber {
    /// The number as an unsigned 64-bit integer, when it is one.
    pub unsigned: Option<u64>,
    /// The number as a binary64 value, by its bit pattern.
    pub float_bits: u64,
}

/// A JSON string with its numeric reading.
#[derive(Debug, Clone, PartialEq)]
pub struct JsonText {
    /// The characters of the string.
    pub text: String,
    /// The string read as a decimal binary64 number (Rust's `f64` syntax), by its bit
    /// pattern; `None` when it does not read as one.
    pub float_bits: Option<u64>,
}

/// A decoded JSON value. An object is the list of its members in the order the decoder
/// hands them over (which need not be document order); a member name may occur more
/// than once, and the readers take the first member of a name.
#[derive(Debug)]
pub enum JsonValue {
    /// `null`.
    Null,
    /// `true` / `false`.
    Bool(bool),
    /// A number.
    Number(JsonNumber),
    /// A string.
    Text(JsonText),
    /// An array.
    Array(Vec<JsonValue>),
    /// An object, as its members.
    Object(Vec<(String, JsonValue)>),
}

/// The value of the first member named `key`.
pub open spec fn field(members: Seq<(String, JsonValue)>, key: Seq<char>) -> Option<JsonValue>
    decreases members.len(),
{
    if members.len() == 0 {
        None
    } else if members[0].0@ == key {
        Some(members[0].1)
    } else {
        field(members.drop_first(), key)
    }
}

/// The first member name that is not among `allowed`.
pub open spec fn first_unknown_key(members: Seq<(String, JsonValue)>, allowed: Seq<Seq<char>>) -> Option<
    Seq<char>,
>
    decreases members.len(),
{
    if members.len() == 0 {
        None
    } else if !allowed.contains(members[0].0@) {
        Some(members[0].0@)
    } else {
        first_unknown_key(members.drop_first(), allowed)
    }
}

/// The texts of a list of key names.
pub open spec fn key_texts(keys: Seq<&str>) -> Seq<Seq<char>> {
    keys.map_values(|k: &str| k@)
}

/// What the key whitelist check gives: the first unknown member is refused atomically.
pub open spec fn spec_check_keys(
    members: Seq<(String, JsonValue)>,
    allowed: Seq<Seq<char>>,
    scope: Seq<char>,
) -> Result<(), Failure> {
    match first_unknown_key(members, allowed) {
        None => Ok(()),
        Some(key) => Err((TreasuryErrorKind::SemanticallyRejected, scope + " 未知字段："@ + key)),
    }
}

/// The reason given for an absent required member.
pub open spec fn absent_reason(scope: Seq<char>, key: Seq<char>) -> Seq<char> {
    scope + " 缺少字段 "@ + key
}

/// What reading a required, non-blank string member gives.
pub open spec fn spec_required_str(members: Seq<(String, JsonValue)>, scope: Seq<char>, key: Seq<char>) -> Result<
    Seq<char>,
    Failure,
> {
    match field(members, key) {
        None => Err((TreasuryErrorKind::Missing, absent_reason(scope, key))),
        Some(JsonValue::Text(s)) => if is_blank(s.text@) {
            Err((TreasuryErrorKind::Invalid, scope + " 的 "@ + key + " 不得为空白"@))
        } else {
            Ok(s.text@)
        },
        Some(_) => Err((TreasuryErrorKind::Invalid, scope + " 的 "@ + key + " 必须是字符串"@)),
    }
}

/// Value of a run of ASCII decimal digits; `None` as soon as a character is not one.
pub open spec fn digit_chars_value(s: Seq<char>) -> Option<nat>
    decreases s.len(),
{
    if s.len() == 0 {
        Some(0)
    } else {
        match digit_chars_value(s.drop_last()) {
            None => None,
            Some(v) => if '0' <= s.last() <= '9' {
                Some(v * 10 + (s.last() as int - 48) as nat)
            } else {
                None
            },
        }
    }
}

/// `u64::from_str`: an optional `+`, then at least one decimal digit, and a value that
/// fits in 64 bits.
pub open spec fn spec_parse_u64(t: Seq<char>) -> Option<u64> {
    let digits = if t.len() > 0 && t[0] == '+' {
        t.drop_first()
    } else {
        t
    };
    if digits.len() == 0 {
        None
    } else {
        match digit_chars_value(digits) {
            Some(v) => if v <= u64::MAX {
                Some(v as u64)
            } else {
                None
            },
            None => None,
        }
    }
}

/// What reading a required non-negative integer member gives: a JSON integer, or a
/// string of digits.
pub open spec fn spec_required_u64(members: Seq<(String, JsonValue)>, scope: Seq<char>, key: Seq<char>) -> Result<
    u64,
    Failure,
> {
    match field(members, key) {
        None => Err((TreasuryErrorKind::Missing, absent_reason(scope, key))),
        Some(v) => match v {
            JsonValue::Number(n) if n.unsigned is Some => Ok(n.unsigned->0),
            JsonValue::Text(s) if spec_parse_u64(s.text@) is Some => Ok(spec_parse_u64(s.text@)->0),
            _ => Err((TreasuryErrorKind::Invalid, scope + " 的 "@ + key + " 必须是非负整数"@)),
        },
    }
}

/// A present amount when the reading is finite.
pub open spec fn finite_amount(bits: u64, scope: Seq<char>, key: Seq<char>) -> Result<TreasuryAmount, Failure> {
    if is_finite_bits(bits) {
        Ok(TreasuryAmount::Present(bits))
    } else {
        Err((TreasuryErrorKind::Invalid, scope + " 的 "@ + key + " 必须是有限数值"@))
    }
}

/// What reading an amount member gives: absent is `SourceOmitted`, `null` is
/// `ExplicitNull`, a number or numeric string is present when finite.
pub open spec fn spec_amount(members: Seq<(String, JsonValue)>, scope: Seq<char>, key: Seq<char>) -> Result<
    TreasuryAmount,
    Failure,
> {
    match field(members, key) {
        None => Ok(TreasuryAmount::Missing(TreasuryMissingReason::SourceOmitted)),
        Some(v) => match v {
            JsonValue::Null => Ok(TreasuryAmount::Missing(TreasuryMissingReason::ExplicitNull)),
            JsonValue::Number(n) => finite_amount(n.float_bits, scope, key),
            JsonValue::Text(s) => match s.float_bits {
                Some(bits) => finite_amount(bits, scope, key),
                None => Err((TreasuryErrorKind::Invalid, scope + " 的 "@ + key + " 必须可解析为数值"@)),
            },
            _ => Err(
                (TreasuryErrorKind::Invalid, scope + " 的 "@ + key + " 必须是数值、数值字符串或 null"@),
            ),
        },
    }
}

/// The value of the first member named `key`.
pub fn find_field<'a>(members: &'a Vec<(String, JsonValue)>, key: &str) -> (r: Option<&'a JsonValue>)
    ensures
        r matches Some(v) ==> field(members@, key@) == Some(*v),
        r is None ==> field(members@, key@) is None,
{
    let mut i: usize = 0;
    assert(members@.subrange(0, members@.len() as int) =~= members@);
    while i < members.len()
        invariant
            i <= members@.len(),
            field(members@, key@) == field(members@.subrange(i as int, members@.len() as int), key@),
        decreases members@.len() - i,
    {
        let ghost rest = members@.subrange(i as int, members@.len() as int);
        assert(rest.drop_first() =~= members@.subrange(i + 1, members@.len() as int));
        if str_eq(members[i].0.as_str(), key) {
            return Some(&members[i].1);
        }
        i = i + 1;
    }
    None
}

/// Whether `key` is one of `allowed`.
fn key_allowed(key: &str, allowed: &[&str]) -> (r: bool)
    ensures
        r == key_texts(allowed@).contains(key@),
{
    let mut i: usize = 0;
    while i < allowed.len()
        invariant
            i <= allowed@.len(),
            forall|j: int| 0 <= j < i ==> allowed@[j]@ != key@,
        decreases allowed@.len() - i,
    {
        if str_eq(allowed[i], key) {
            assert(key_texts(allowed@)[i as int] == key@);
            return true;
        }
        i = i + 1;
    }
    assert forall|j: int| 0 <= j < key_texts(allowed@).len() implies key_texts(allowed@)[j] != key@ by {
        assert(key_texts(allowed@)[j] == allowed@[j]@);
    }
    false
}

/// Key whitelist check: any member outside `allowed` fails the whole document.
pub fn check_keys(members: &Vec<(String, JsonValue)>, allowed: &[&str], scope: &str) -> (r: TreasuryResult<()>)
    ensures
        outcome(r) == spec_check_keys(members@, key_texts(allowed@), scope@),
{
    let ghost allowed_texts = key_texts(allowed@);
    let mut i: usize = 0;
    assert(members@.subrange(0, members@.len() as int) =~= members@);
    while i < members.len()
        invariant
            i <= members@.len(),
            allowed_texts == key_texts(allowed@),
            first_unknown_key(members@, allowed_texts) == first_unknown_key(
                members@.subrange(i as int, members@.len() as int),
                allowed_texts,
            ),
        decreases members@.len() - i,
    {
        let ghost rest = members@.subrange(i as int, members@.len() as int);
        assert(rest.drop_first() =~= members@.subrange(i + 1, members@.len() as int));
        let key = members[i].0.as_str();
        if !key_allowed(key, allowed) {
            let mut reason = String::from_str(scope);
            reason.append(" 未知字段：");
            reason.append(key);
            return Err(TreasuryError::SemanticallyRejected(reason));
        }
        i = i + 1;
    }
    Ok(())
}

/// Reads a required, non-blank string member.
///
/// Errors: absent gives `Missing`; not a string, or blank, gives `Invalid`.
pub fn required_str(members: &Vec<(String, JsonValue)>, scope: &str, key: &str) -> (r: TreasuryResult<String>)
    ensures
        match r {
            Ok(s) => spec_required_str(members@, scope@, key@) == Ok::<Seq<char>, Failure>(s@),
            Err(e) => spec_required_str(members@, scope@, key@) == Err::<Seq<char>, Failure>(e@),
        },
{
    let raw = match find_field(members, key) {
        Some(v) => v,
        None => {
            let mut reason = String::from_str(scope);
            reason.append(" 缺少字段 ");
            reason.append(key);
            return Err(TreasuryError::Missing(reason));
        },
    };
    let text = match raw {
        JsonValue::Text(s) => &s.text,
        _ => {
            let mut reason = String::from_str(scope);
            reason.append(" 的 ");
            reason.append(key);
            reason.append(" 必须是字符串");
            return Err(TreasuryError::Invalid(reason));
        },
    };
    if blank(text.as_str()) {
        let mut reason = String::from_str(scope);
        reason.append(" 的 ");
        reason.append(key);
        reason.append(" 不得为空白");
        return Err(TreasuryError::Invalid(reason));
    }
    Ok(text.clone())
}

/// A prefix of a run of digits reads as no more than the whole run.
proof fn lemma_digit_prefix(s: Seq<char>, i: int)
    requires
        0 <= i <= s.len(),
        digit_chars_value(s) is Some,
    ensures
        digit_chars_value(s.subrange(0, i)) is Some,
        digit_chars_value(s.subrange(0, i))->0 <= digit_chars_value(s)->0,
    decreases s.len(),
{
    if i < s.len() {
        assert(s.drop_last() =~= s.subrange(0, s.len() - 1));
        lemma_digit_prefix(s.drop_last(), i);
        assert(s.drop_last().subrange(0, i) =~= s.subrange(0, i));
    } else {
        assert(s.subrange(0, i) =~= s);
    }
}

/// `u64::from_str` on a string.
pub fn parse_u64_text(t: &str) -> (r: Option<u64>)
    ensures
        r == spec_parse_u64(t@),
{
    let n = t.unicode_len();
    let mut start: usize = 0;
    if n > 0 && t.get_char(0) == '+' {
        start = 1;
    }
    let ghost digits = if t@.len() > 0 && t@[0] == '+' {
        t@.drop_first()
    } else {
        t@
    };
    assert(digits =~= t@.subrange(start as int, n as int));
    if start == n {
        return None;
    }
    let mut value: u64 = 0;
    let mut i: usize = start;
    while i < n
        invariant
            n == t@.len(),
            start <= i <= n,
            start < n,
            digits =~= t@.subrange(start as int, n as int),
            digits == (if t@.len() > 0 && t@[0] == '+' {
                t@.drop_first()
            } else {
                t@
            }),
            digit_chars_value(t@.subrange(start as int, i as int)) == Some(value as nat),
        decreases n - i,
    {
        let c = t.get_char(i);
        let ghost prefix = t@.subrange(start as int, i as int);
        assert(t@.subrange(start as int, i + 1).drop_last() =~= prefix);
        assert(t@.subrange(start as int, i + 1).last() == c);
        if !('0' <= c && c <= '9') {
            assert(digit_chars_value(t@.subrange(start as int, i + 1)) is None);
            proof {
                if digit_chars_value(digits) is Some {
                    lemma_digit_prefix(digits, i + 1 - start);
                    assert(digits.subrange(0, i + 1 - start) =~= t@.subrange(start as int, i + 1));
                }
            }
            return None;
        }
        let d = (c as u32 - 48) as u64;
        let next = match value.checked_mul(10) {
            Some(m) => m.checked_add(d),
            None => None,
        };
        match next {
            Some(v) => {
                value = v;
            },
            None => {
                assert(digit_chars_value(t@.subrange(start as int, i + 1)) == Some(
                    (value as nat) * 10 + d as nat,
                ));
                assert((value as nat) * 10 + d as nat > u64::MAX);
                proof {
                    if digit_chars_value(digits) is Some {
                        lemma_digit_prefix(digits, i + 1 - start);
                        assert(digits.subrange(0, i + 1 - start) =~= t@.subrange(start as int, i + 1));
                    }
                }
                return None;
            },
        }
        i = i + 1;
    }
    Some(value)
}

/// Reads a required non-negative integer member: a JSON integer, or a string of digits.
///
/// Errors: absent gives `Missing`; anything else that is not such an integer gives `Invalid`.
pub fn required_u64(members: &Vec<(String, JsonValue)>, scope: &str, key: &str) -> (r: TreasuryResult<u64>)
    ensures
        outcome(r) == spec_required_u64(members@, scope@, key@),
{
    let raw = match find_field(members, key) {
        Some(v) => v,
        None => {
            let mut reason = String::from_str(scope);
            reason.append(" 缺少字段 ");
            reason.append(key);
            return Err(TreasuryError::Missing(reason));
        },
    };
    match raw {
        JsonValue::Number(n) => {
            if let Some(v) = n.unsigned {
                return Ok(v);
            }
        },
        JsonValue::Text(s) => {
            if let Some(v) = parse_u64_text(s.text.as_str()) {
                return Ok(v);
            }
        },
        _ => {},
    }
    let mut reason = String::from_str(scope);
    reason.append(" 的 ");
    reason.append(key);
    reason.append(" 必须是非负整数");
    Err(TreasuryError::Invalid(reason))
}

/// A present amount when the reading is finite.
fn finite_or_invalid(bits: u64, scope: &str, key: &str) -> (r: TreasuryResult<TreasuryAmount>)
    ensures
        outcome(r) == finite_amount(bits, scope@, key@),
{
    if (bits >> 52u64) & 0x7ffu64 == 0x7ffu64 {
        let mut reason = String::from_str(scope);
        reason.append(" 的 ");
        reason.append(key);
        reason.append(" 必须是有限数值");
        return Err(TreasuryError::Invalid(reason));
    }
    Ok(TreasuryAmount::Present(bits))
}

/// Reads an amount member: absent is `SourceOmitted`, `null` is `ExplicitNull`, a number
/// or numeric string is a present value.
///
/// Error: a string that does not read as a number, another kind of value, or a
/// non-finite value gives `Invalid`.
pub fn amount(members: &Vec<(String, JsonValue)>, scope: &str, key: &str) -> (r: TreasuryResult<TreasuryAmount>)
    ensures
        outcome(r) == spec_amount(members@, scope@, key@),
{
    let raw = match find_field(members, key) {
        Some(v) => v,
        None => {
            return Ok(TreasuryAmount::Missing(TreasuryMissingReason::SourceOmitted));
        },
    };
    match raw {
        JsonValue::Null => Ok(TreasuryAmount::Missing(TreasuryMissingReason::ExplicitNull)),
        JsonValue::Number(n) => finite_or_invalid(n.float_bits, scope, key),
        JsonValue::Text(s) => match s.float_bits {
            Some(bits) => finite_or_invalid(bits, scope, key),
            None => {
                let mut reason = String::from_str(scope);
                reason.append(" 的 ");
                reason.append(key);
                reason.append(" 必须可解析为数值");
                Err(TreasuryError::Invalid(reason))
            },
        },
        _ => {
            let mut reason = String::from_str(scope);
            reason.append(" 的 ");
            reason.append(key);
            reason.append(" 必须是数值、数值字符串或 null");
            Err(TreasuryError::Invalid(reason))
        },
    }
}

} // verus!
