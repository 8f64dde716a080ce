//! The display name of a subscriber.

use crate::domain::rejection::Field;
use crate::domain::rejection::Rejection;
use crate::domain::rejection::ValidationError;
use crate::text::contains_forbidden_character;
use crate::text::has_forbidden;
use crate::text::is_blank;
use crate::text::is_blank_text;
use crate::text::is_forbidden;
use unicode_segmentation::UnicodeSegmentation;
use vstd::prelude::*;

verus! {

/// The most user-perceived characters that a name may have.
pub const MAX_NAME_GRAPHEMES: usize = 256;

/// The number of extended grapheme clusters of `s`: its user-perceived
/// characters, where a letter and the accents combined with it count once.
pub uninterp spec fn grapheme_count(s: Seq<char>) -> nat;

/// `UnicodeSegmentation::graphemes` with extended clusters, counted. The
/// segmentation depends on the text alone.
#[verifier::external_body]
fn count_graphemes(s: &str) -> (count: usize)
    ensures
        count == grapheme_count(s@),
{
    s.graphemes(true).count()
}

/// The rule that a name of `graphemes` user-perceived characters breaks, if
/// any. Where it breaks several, the first of blank, too long and forbidden
/// character is named.
pub open spec fn name_rejection(s: Seq<char>, graphemes: nat) -> Option<ValidationError> {
    if is_blank(s) {
        Some(ValidationError::Empty)
    } else if graphemes > MAX_NAME_GRAPHEMES {
        Some(ValidationError::TooLong)
    } else if has_forbidden(s) {
        Some(ValidationError::ForbiddenCharacter)
    } else {
        None
    }
}

/// `s` may be a subscriber's name: it is not blank, has at most 256
/// user-perceived characters, and holds no forbidden character.
pub open spec fn is_valid_name(s: Seq<char>) -> bool {
    &&& !is_blank(s)
    &&& grapheme_count(s) <= MAX_NAME_GRAPHEMES
    &&& !has_forbidden(s)
}

/// A subscriber's name. Every value of this type is valid: `parse` is the
/// only way to make one.
#[derive(Debug)]
pub struct SubscriberName(String);

impl Clone for SubscriberName {
    fn clone(&self) -> (copy: SubscriberName)
        ensures
            copy@ == self@,
    {
        proof {
            use_type_invariant(self);
        }
        SubscriberName(self.0.clone())
    }
}

impl View for SubscriberName {
    type V = Seq<char>;

    closed spec fn view(&self) -> Seq<char> {
        self.0@
    }
}

impl SubscriberName {
    #[verifier::type_invariant]
    spec fn valid(&self) -> bool {
        is_valid_name(self.0@)
    }

    /// The rule that `s` breaks as a name, given the number of its
    /// user-perceived characters.
    pub fn rejection_for(s: &str, graphemes: usize) -> (verdict: Option<ValidationError>)
        ensures
            verdict == name_rejection(s@, graphemes as nat),
    {
        if is_blank_text(s) {
            Some(ValidationError::Empty)
        } else if graphemes > MAX_NAME_GRAPHEMES {
            Some(ValidationError::TooLong)
        } else if contains_forbidden_character(s) {
            Some(ValidationError::ForbiddenCharacter)
        } else {
            None
        }
    }

    /// Turns raw text into a name, or says which rule it breaks. The text is
    /// kept as it is given.
    pub fn parse(s: String) -> (parsed: Result<SubscriberName, Rejection>)
        ensures
            parsed is Ok <==> is_valid_name(s@),
            match parsed {
                Ok(name) => name@ == s@,
                Err(rejection) => {
                    &&& rejection.field == Field::Name
                    &&& Some(rejection.reason) == name_rejection(s@, grapheme_count(s@))
                    &&& rejection.input@ == s@
                },
            },
    {
        let graphemes: usize = count_graphemes(s.as_str());
        match SubscriberName::rejection_for(s.as_str(), graphemes) {
            Some(reason) => Err(Rejection { field: Field::Name, reason, input: s }),
            None => Ok(SubscriberName(s)),
        }
    }

    /// The name's text.
    pub fn as_ref(&self) -> (text: &str)
        ensures
            text@ == self@,
            is_valid_name(text@),
    {
        proof {
            use_type_invariant(self);
        }
        self.0.as_str()
    }
}

/// The length limit: a name of exactly 256 user-perceived characters is
/// valid, unless it is blank or holds a forbidden character.
pub proof fn lemma_name_at_limit_is_valid(s: Seq<char>)
    requires
        grapheme_count(s) == 256,
        !is_blank(s),
        !has_forbidden(s),
    ensures
        is_valid_name(s),
        name_rejection(s, grapheme_count(s)) is None,
{
}

/// The length limit: a name of 257 user-perceived characters, or of more, is
/// invalid.
pub proof fn lemma_name_over_limit_is_invalid(s: Seq<char>)
    requires
        grapheme_count(s) > 256,
    ensures
        !is_valid_name(s),
        name_rejection(s, grapheme_count(s)) is Some,
{
}

/// The empty name and the names that are whitespace throughout are invalid,
/// however many user-perceived characters they have.
pub proof fn lemma_blank_name_is_invalid(s: Seq<char>, graphemes: nat)
    requires
        s.len() == 0 || is_blank(s),
    ensures
        !is_valid_name(s),
        name_rejection(s, graphemes) == Some(ValidationError::Empty),
{
}

/// A forbidden character alone is an invalid name, and so is every name
/// that holds one.
pub proof fn lemma_forbidden_name_is_invalid(s: Seq<char>, c: char)
    requires
        is_forbidden(c),
        s.contains(c),
    ensures
        !is_valid_name(s),
        !is_valid_name(seq![c]),
        name_rejection(s, grapheme_count(s)) is Some,
{
    let i = choose|i: int| 0 <= i < s.len() && s[i] == c;
    assert(is_forbidden(s[i]));
    assert(is_forbidden(seq![c][0]));
}

/// The forbidden characters are these nine.
pub proof fn lemma_forbidden_characters(c: char)
    ensures
        is_forbidden(c) <==> seq!['/', '(', ')', '"', '<', '>', '\\', '{', '}'].contains(c),
{
    let all = seq!['/', '(', ')', '"', '<', '>', '\\', '{', '}'];
    if is_forbidden(c) {
        assert(all[0] == '/' && all[1] == '(' && all[2] == ')' && all[3] == '"' && all[4] == '<'
            && all[5] == '>' && all[6] == '\\' && all[7] == '{' && all[8] == '}');
    }
}

} // verus!
