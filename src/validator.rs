use vstd::prelude::*;

use crate::string_body::StringBody;

verus! {

/// Whether `c` may appear in a key: an ASCII letter, an ASCII digit, `:`, `-` or `_`.
pub open spec fn is_key_char(c: char) -> bool {
    ||| ('a' <= c && c <= 'z')
    ||| ('A' <= c && c <= 'Z')
    ||| ('0' <= c && c <= '9')
    ||| c == ':'
    ||| c == '-'
    ||| c == '_'
}

/// The key rule: at least three characters, each of them a key character.
pub open spec fn valid_key(key: Seq<char>) -> bool {
    &&& key.len() >= 3
    &&& forall|i: int| 0 <= i < key.len() ==> is_key_char(#[trigger] key[i])
}

/// The value rule: any content at all, as long as there is some.
pub open spec fn valid_value(value: Seq<char>) -> bool {
    value.len() > 0
}

/// Whether a candidate pair may be accepted.
pub open spec fn valid_pair(key: Seq<char>, value: Seq<char>) -> bool {
    valid_key(key) && valid_value(value)
}

/// The fixed reason given for every rejected pair.
pub open spec fn invalid_format_reason() -> Seq<char> {
    "Key or value is in invalid format"@
}

/// Result of validating a candidate pair.
pub enum ValidationOutcome {
    /// The pair satisfies the rules and is handed back unchanged.
    Accepted(StringBody),
    /// The pair breaks a rule; the reason is always the same fixed text.
    Rejected(String),
}

/// Mathematical model of a [`ValidationOutcome`].
pub enum ValidationView {
    Accepted { key: Seq<char>, value: Seq<char> },
    Rejected { reason: Seq<char> },
}

impl View for ValidationOutcome {
    type V = ValidationView;

    open spec fn view(&self) -> ValidationView {
        match self {
            ValidationOutcome::Accepted(pair) => ValidationView::Accepted {
                key: pair.key@,
                value: pair.value@,
            },
            ValidationOutcome::Rejected(reason) => ValidationView::Rejected { reason: reason@ },
        }
    }
}

/// What validating the pair `(key, value)` yields.
pub open spec fn validation(key: Seq<char>, value: Seq<char>) -> ValidationView {
    if valid_pair(key, value) {
        ValidationView::Accepted { key, value }
    } else {
        ValidationView::Rejected { reason: invalid_format_reason() }
    }
}

/// Whether the byte `b` is the code of a key character (`a`..`z` are 97..122, `A`..`Z` are
/// 65..90, `0`..`9` are 48..57; `:`, `-` and `_` are 58, 45 and 95).
fn is_key_byte(b: u8) -> (r: bool)
    ensures
        r == is_key_char(b as char),
{
    (97 <= b && b <= 122) || (65 <= b && b <= 90) || (48 <= b && b <= 57) || b == 58 || b == 45
        || b == 95
}

/// Checks a key against the key rule.
pub fn is_valid_key(key: &str) -> (r: bool)
    ensures
        r == valid_key(key@),
{
    if !key.is_ascii() {
        proof {
            let i = choose|i: int| 0 <= i < key@.len() && !('\0' <= key@[i] && key@[i] <= '\u{7f}');
            assert(!is_key_char(key@[i]));
        }
        return false;
    }
    let bytes = key.as_bytes();
    proof {
        vstd::utf8::is_ascii_chars_encode_utf8(key@);
    }
    if bytes.len() < 3 {
        return false;
    }
    let mut i: usize = 0;
    while i < bytes.len()
        invariant
            bytes@.len() == key@.len(),
            vstd::utf8::is_ascii_chars(key@),
            forall|j: int| 0 <= j < key@.len() ==> key@[j] as u8 == #[trigger] bytes@[j],
            forall|j: int| 0 <= j < i ==> is_key_char(#[trigger] key@[j]),
        decreases bytes.len() - i,
    {
        if !is_key_byte(bytes[i]) {
            return false;
        }
        i = i + 1;
    }
    true
}

/// Checks a value against the value rule.
pub fn is_valid_value(value: &str) -> (r: bool)
    ensures
        r == valid_value(value@),
{
    !value.is_empty()
}

/// Decides whether a candidate pair may be accepted.
pub fn validate(candidate: StringBody) -> (r: ValidationOutcome)
    ensures
        r@ == validation(candidate.key@, candidate.value@),
{
    if is_valid_key(candidate.key.as_str()) && is_valid_value(candidate.value.as_str()) {
        ValidationOutcome::Accepted(candidate)
    } else {
        ValidationOutcome::Rejected("Key or value is in invalid format".to_owned())
    }
}

/// Every pair whose key follows the key rule and whose value is non-empty is accepted,
/// and handed back exactly as it came.
pub proof fn lemma_valid_pair_accepted(key: Seq<char>, value: Seq<char>)
    requires
        valid_key(key),
        valid_value(value),
    ensures
        validation(key, value) == (ValidationView::Accepted { key, value }),
{
}

/// A key shorter than three characters, or holding a character other than an ASCII letter,
/// an ASCII digit, `:`, `-` or `_`, is rejected, whatever the value.
pub proof fn lemma_bad_key_rejected(key: Seq<char>, value: Seq<char>)
    requires
        key.len() < 3 || exists|i: int| 0 <= i < key.len() && !is_key_char(#[trigger] key[i]),
    ensures
        validation(key, value) == (ValidationView::Rejected { reason: invalid_format_reason() }),
{
}

/// Validating the same pair twice gives the same outcome both times.
pub proof fn lemma_validation_deterministic(
    key1: Seq<char>,
    value1: Seq<char>,
    key2: Seq<char>,
    value2: Seq<char>,
)
    requires
        key1 == key2,
        value1 == value2,
    ensures
        validation(key1, value1) == validation(key2, value2),
{
}

/// Validating an accepted pair once more accepts it again, unchanged.
pub proof fn lemma_validation_idempotent(key: Seq<char>, value: Seq<char>)
    ensures
        validation(key, value) is Accepted ==> validation(key, value) == validation(
            validation(key, value)->Accepted_key,
            validation(key, value)->Accepted_value,
        ),
{
}

} // verus!
