//! A subscriber's display name, accepted only when it is non-blank, at most
//! `MAX_LENGTH` grapheme clusters long, and free of characters that could
//! break out of the surrounding HTML or SQL context.

use vstd::prelude::*;

use crate::domain::errors::MalformedInput;

verus! {

/// Upper bound on the name length, counted in extended grapheme clusters.
pub const MAX_LENGTH: usize = 256;

/// The number of extended grapheme clusters of a string; it depends on the
/// characters alone.
pub uninterp spec fn grapheme_count_of(s: Seq<char>) -> nat;

/// Relies on `unicode_segmentation::UnicodeSegmentation::graphemes`: the
/// extended grapheme clusters of a string are a pure function of its
/// characters, so counting them is too.
#[verifier::external_body]
fn grapheme_count(s: &str) -> (n: usize)
    ensures
        n as nat == grapheme_count_of(s@),
{
    unicode_segmentation::UnicodeSegmentation::graphemes(s, true).count()
}

/// Characters refused anywhere in a subscriber name.
pub open spec fn is_forbidden_char(c: char) -> bool {
    c == '/' || c == '(' || c == ')' || c == '"' || c == '<' || c == '>' || c == '\\'
        || c == '{' || c == '}'
}

fn forbidden_char(c: char) -> (r: bool)
    ensures
        r == is_forbidden_char(c),
{
    c == '/' || c == '(' || c == ')' || c == '"' || c == '<' || c == '>' || c == '\\'
        || c == '{' || c == '}'
}

/// The characters with the Unicode `White_Space` property.
pub open spec fn is_unicode_whitespace(c: char) -> bool {
    (0x9 <= c as u32 && c as u32 <= 0xD) || c as u32 == 0x20 || c as u32 == 0x85
        || c as u32 == 0xA0 || c as u32 == 0x1680 || (0x2000 <= c as u32 && c as u32 <= 0x200A)
        || c as u32 == 0x2028 || c as u32 == 0x2029 || c as u32 == 0x202F || c as u32 == 0x205F
        || c as u32 == 0x3000
}

fn unicode_whitespace(c: char) -> (r: bool)
    ensures
        r == is_unicode_whitespace(c),
{
    let u = c as u32;
    (0x9 <= u && u <= 0xD) || u == 0x20 || u == 0x85 || u == 0xA0 || u == 0x1680
        || (0x2000 <= u && u <= 0x200A) || u == 0x2028 || u == 0x2029 || u == 0x202F
        || u == 0x205F || u == 0x3000
}

/// A string that is empty or consists of whitespace alone.
pub open spec fn all_whitespace(s: Seq<char>) -> bool {
    forall|i: int| 0 <= i < s.len() ==> is_unicode_whitespace(#[trigger] s[i])
}

/// A validated subscriber name. The wrapped string is exactly the accepted
/// input, untouched.
#[derive(Clone, Debug)]
pub struct SubscriberName(String);

impl View for SubscriberName {
    type V = Seq<char>;

    closed spec fn view(&self) -> Seq<char> {
        self.0@
    }
}

impl SubscriberName {
    /// What `parse` accepts: not blank, at most `MAX_LENGTH` grapheme
    /// clusters, and no forbidden character.
    pub open spec fn spec_valid(s: Seq<char>) -> bool {
        &&& !all_whitespace(s)
        &&& grapheme_count_of(s) <= MAX_LENGTH
        &&& forall|i: int| 0 <= i < s.len() ==> !is_forbidden_char(#[trigger] s[i])
    }

    /// Accepts exactly the strings of `spec_valid` and wraps them unchanged;
    /// everything else comes back as `InvalidName` carrying the input.
    pub fn parse(name: String) -> (r: Result<SubscriberName, MalformedInput>)
        ensures
            match r {
                Ok(n) => Self::spec_valid(name@) && n@ == name@,
                Err(e) => !Self::spec_valid(name@) && (e matches MalformedInput::InvalidName {
                    name: rejected,
                } && rejected@ == name@),
            },
    {
        let n = name.as_str().unicode_len();
        let mut i: usize = 0;
        let mut saw_non_whitespace = false;
        let mut saw_forbidden = false;
        while i < n
            invariant
                i <= n,
                n == name@.len(),
                saw_non_whitespace == exists|j: int|
                    0 <= j < i && !is_unicode_whitespace(#[trigger] name@[j]),
                saw_forbidden == exists|j: int|
                    0 <= j < i && is_forbidden_char(#[trigger] name@[j]),
            decreases n - i,
        {
            let c = name.as_str().get_char(i);
            if !unicode_whitespace(c) {
                saw_non_whitespace = true;
            }
            if forbidden_char(c) {
                saw_forbidden = true;
            }
            i = i + 1;
        }
        let too_long = grapheme_count(name.as_str()) > MAX_LENGTH;
        if !saw_non_whitespace || too_long || saw_forbidden {
            Err(MalformedInput::InvalidName { name })
        } else {
            Ok(SubscriberName(name))
        }
    }

    /// Read-only access to the wrapped string.
    pub fn as_str(&self) -> (r: &str)
        ensures
            r@ == self@,
    {
        self.0.as_str()
    }
}

} // verus!
