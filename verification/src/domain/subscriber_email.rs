//! The email address of a subscriber.

use crate::domain::rejection::Field;
use crate::domain::rejection::Rejection;
use crate::domain::rejection::ValidationError;
use crate::text::is_blank;
use crate::text::is_blank_text;
use vstd::prelude::*;

verus! {

/// `d` may stand after the `@`: it holds a `.`, and the labels that its dots
/// part are all non-empty.
pub open spec fn is_valid_domain(d: Seq<char>) -> bool {
    &&& d.len() > 0
    &&& d.contains('.')
    &&& d.first() != '.'
    &&& d.last() != '.'
    &&& forall|i: int| 0 <= i < d.len() - 1 ==> !(#[trigger] d[i] == '.' && d[i + 1] == '.')
}

/// `s` has its only `@` at `at`, something before it, and a valid domain
/// after it.
pub open spec fn splits_at(s: Seq<char>, at: int) -> bool {
    &&& 0 < at < s.len()
    &&& s[at] == '@'
    &&& forall|j: int| 0 <= j < s.len() && j != at ==> #[trigger] s[j] != '@'
    &&& is_valid_domain(s.subrange(at + 1, s.len() as int))
}

/// `s` has the shape of an email address: a non-empty local part, exactly
/// one `@`, and a domain of at least two non-empty labels. Nothing else is
/// asked of it.
pub open spec fn is_valid_email(s: Seq<char>) -> bool {
    exists|at: int| splits_at(s, at)
}

/// The rule that an address breaks, if any.
pub open spec fn email_rejection(s: Seq<char>) -> Option<ValidationError> {
    if is_blank(s) {
        Some(ValidationError::Empty)
    } else if !is_valid_email(s) {
        Some(ValidationError::MalformedAddress)
    } else {
        None
    }
}

/// What a scan has learnt of the first `n` characters of `s`.
struct Scan {
    /// An `@` has been met.
    seen_at: bool,
    /// A second `@` has been met.
    many: bool,
    /// The text begins with `@`.
    first_is_at: bool,
    /// The last character met, if any.
    prev: Option<char>,
    /// A `.` stands somewhere after the first `@`.
    dot: bool,
    /// A label after the first `@` is empty: a dot follows the `@` or another dot.
    empty_label: bool,
    /// Where the first `@` stands, once it has been met.
    at: Ghost<int>,
}

impl Scan {
    spec fn describes(&self, s: Seq<char>, n: int) -> bool {
        let at = self.at@;
        &&& 0 <= n <= s.len()
        &&& self.seen_at <==> exists|j: int| 0 <= j < n && #[trigger] s[j] == '@'
        &&& self.seen_at ==> 0 <= at < n && s[at] == '@' && forall|j: int|
            0 <= j < at ==> #[trigger] s[j] != '@'
        &&& self.many <==> self.seen_at && exists|j: int| at < j < n && #[trigger] s[j] == '@'
        &&& self.first_is_at <==> n > 0 && s[0] == '@'
        &&& self.prev == if n > 0 {
            Some(s[n - 1])
        } else {
            None
        }
        &&& self.dot <==> self.seen_at && exists|j: int| at < j < n && #[trigger] s[j] == '.'
        &&& self.empty_label <==> self.seen_at && exists|j: int|
            at < j < n && #[trigger] s[j] == '.' && (s[j - 1] == '.' || s[j - 1] == '@')
    }

    spec fn accepts(&self) -> bool {
        &&& self.seen_at
        &&& !self.many
        &&& !self.first_is_at
        &&& self.prev != Some('@')
        &&& self.prev != Some('.')
        &&& self.dot
        &&& !self.empty_label
    }

    /// A scan of the whole text accepts exactly the valid addresses.
    proof fn lemma_accepts_valid(&self, s: Seq<char>)
        requires
            self.describes(s, s.len() as int),
        ensures
            self.accepts() <==> is_valid_email(s),
    {
        let at = self.at@;
        let len = s.len() as int;
        if self.accepts() {
            let d = s.subrange(at + 1, len);
            assert(at != 0);
            assert(at != len - 1);
            let j = choose|j: int| at < j < len && #[trigger] s[j] == '.';
            assert(d[j - at - 1] == '.');
            assert(d.contains('.'));
            assert(d.first() != '.') by {
                if d.first() == '.' {
                    assert(s[at + 1] == '.');
                }
            }
            assert forall|i: int| 0 <= i < d.len() - 1 implies !(#[trigger] d[i] == '.' && d[i + 1]
                == '.') by {
                if d[i] == '.' && d[i + 1] == '.' {
                    assert(s[at + 2 + i] == '.');
                }
            }
            assert forall|k: int| 0 <= k < len && k != at implies #[trigger] s[k] != '@' by {
                if k > at && s[k] == '@' {
                    assert(self.many);
                }
            }
            assert(splits_at(s, at));
        }
        if is_valid_email(s) {
            let w = choose|w: int| splits_at(s, w);
            let d = s.subrange(w + 1, len);
            assert(s[w] == '@');
            assert(self.seen_at);
            assert(at == w);
            assert(!self.many) by {
                if self.many {
                    let j = choose|j: int| at < j < len && #[trigger] s[j] == '@';
                    assert(s[j] != '@');
                }
            }
            assert(!self.first_is_at);
            assert(d.last() == s[len - 1]);
            assert(self.prev != Some('@'));
            assert(self.prev != Some('.'));
            let i = choose|i: int| 0 <= i < d.len() && d[i] == '.';
            assert(s[w + 1 + i] == '.');
            assert(self.dot);
            assert(!self.empty_label) by {
                if self.empty_label {
                    let j = choose|j: int|
                        at < j < len && #[trigger] s[j] == '.' && (s[j - 1] == '.' || s[j - 1]
                            == '@');
                    if j - 1 == at {
                        assert(d.first() == s[j]);
                    } else {
                        assert(d[j - 2 - at] == s[j - 1]);
                        assert(d[j - 2 - at + 1] == s[j]);
                    }
                }
            }
        }
    }
}

/// Whether `s` has the shape of an email address.
pub fn has_email_shape(s: &str) -> (valid: bool)
    ensures
        valid == is_valid_email(s@),
{
    let mut scan = Scan {
        seen_at: false,
        many: false,
        first_is_at: false,
        prev: None,
        dot: false,
        empty_label: false,
        at: Ghost(0),
    };
    for c in it: s.chars()
        invariant
            it.seq() == s@,
            scan.describes(s@, it.index() as int),
    {
        let ghost n = it.index() as int;
        let ghost before = scan;
        assert(c == s@[n]);
        if c == '@' {
            if scan.seen_at {
                scan.many = true;
            } else {
                scan.seen_at = true;
                scan.at = Ghost(n);
                if scan.prev.is_none() {
                    scan.first_is_at = true;
                }
            }
        } else if c == '.' && scan.seen_at {
            scan.dot = true;
            if scan.prev == Some('.') || scan.prev == Some('@') {
                scan.empty_label = true;
            }
        }
        scan.prev = Some(c);
        proof {
            lemma_scan_step(before, scan, s@, n);
        }
    }
    proof {
        scan.lemma_accepts_valid(s@);
    }
    scan.seen_at && !scan.many && !scan.first_is_at && scan.prev != Some('@') && scan.prev != Some(
        '.',
    ) && scan.dot && !scan.empty_label
}

/// The state after character `n` describes one character more.
proof fn lemma_scan_step(before: Scan, after: Scan, s: Seq<char>, n: int)
    requires
        0 <= n < s.len(),
        before.describes(s, n),
        after.prev == Some(s[n]),
        s[n] == '@' && before.seen_at ==> after == (Scan {
            many: true,
            prev: after.prev,
            ..before
        }),
        s[n] == '@' && !before.seen_at ==> after == (Scan {
            seen_at: true,
            at: Ghost(n),
            first_is_at: before.prev is None,
            prev: after.prev,
            ..before
        }),
        s[n] == '.' && before.seen_at ==> after == (Scan {
            dot: true,
            empty_label: before.empty_label || before.prev == Some('.') || before.prev == Some(
                '@',
            ),
            prev: after.prev,
            ..before
        }),
        !(s[n] == '@') && !(s[n] == '.' && before.seen_at) ==> after == (Scan {
            prev: after.prev,
            ..before
        }),
    ensures
        after.describes(s, n + 1),
{
    let at = after.at@;
    if s[n] == '@' && !before.seen_at {
        assert(forall|j: int| 0 <= j < n ==> #[trigger] s[j] != '@');
    }
    if after.seen_at {
        assert(0 <= at < n + 1 && s[at] == '@');
    }
    if after.many {
        if before.many {
            let j = choose|j: int| before.at@ < j < n && #[trigger] s[j] == '@';
            assert(at < j < n + 1 && s[j] == '@');
        } else {
            assert(at < n < n + 1 && s[n] == '@');
        }
    }
    if after.dot {
        if before.dot {
            let j = choose|j: int| before.at@ < j < n && #[trigger] s[j] == '.';
            assert(at < j < n + 1 && s[j] == '.');
        } else {
            assert(at < n < n + 1 && s[n] == '.');
        }
    }
    if after.empty_label {
        if before.empty_label {
            let j = choose|j: int|
                before.at@ < j < n && #[trigger] s[j] == '.' && (s[j - 1] == '.' || s[j - 1]
                    == '@');
            assert(at < j < n + 1 && s[j] == '.' && (s[j - 1] == '.' || s[j - 1] == '@'));
        } else {
            assert(at < n < n + 1 && s[n] == '.' && (s[n - 1] == '.' || s[n - 1] == '@'));
        }
    }
}

/// A subscriber's email address. Every value of this type has the shape of
/// an address: `parse` is the only way to make one.
#[derive(Debug)]
pub struct SubscriberEmail(String);

impl View for SubscriberEmail {
    type V = Seq<char>;

    closed spec fn view(&self) -> Seq<char> {
        self.0@
    }
}

impl Clone for SubscriberEmail {
    fn clone(&self) -> (copy: SubscriberEmail)
        ensures
            copy@ == self@,
    {
        proof {
            use_type_invariant(self);
        }
        SubscriberEmail(self.0.clone())
    }
}

impl SubscriberEmail {
    #[verifier::type_invariant]
    spec fn valid(&self) -> bool {
        is_valid_email(self.0@)
    }

    /// Turns raw text into an address, or says which rule it breaks. The
    /// text is kept as it is given.
    pub fn parse(s: String) -> (parsed: Result<SubscriberEmail, Rejection>)
        ensures
            parsed is Ok <==> is_valid_email(s@),
            match parsed {
                Ok(email) => email@ == s@,
                Err(rejection) => {
                    &&& rejection.field == Field::Email
                    &&& Some(rejection.reason) == email_rejection(s@)
                    &&& rejection.input@ == s@
                },
            },
    {
        if is_blank_text(s.as_str()) {
            proof {
                lemma_blank_is_no_email(s@);
            }
            Err(Rejection { field: Field::Email, reason: ValidationError::Empty, input: s })
        } else if !has_email_shape(s.as_str()) {
            Err(
                Rejection {
                    field: Field::Email,
                    reason: ValidationError::MalformedAddress,
                    input: s,
                },
            )
        } else {
            Ok(SubscriberEmail(s))
        }
    }

    /// The address's text.
    pub fn as_ref(&self) -> (text: &str)
        ensures
            text@ == self@,
            is_valid_email(text@),
    {
        proof {
            use_type_invariant(self);
        }
        self.0.as_str()
    }
}

/// Blank text is no address: it holds no `@`.
pub proof fn lemma_blank_is_no_email(s: Seq<char>)
    requires
        is_blank(s),
    ensures
        !is_valid_email(s),
{
    if is_valid_email(s) {
        let at = choose|at: int| splits_at(s, at);
        assert(crate::text::is_whitespace(s[at]));
    }
}

/// Text without an `@` is no address.
pub proof fn lemma_email_needs_at(s: Seq<char>)
    requires
        !s.contains('@'),
    ensures
        !is_valid_email(s),
        email_rejection(s) is Some,
{
    if is_valid_email(s) {
        let at = choose|at: int| splits_at(s, at);
        assert(s[at] == '@');
    }
}

/// Text that begins with its `@` has no local part, and is no address.
pub proof fn lemma_email_needs_local_part(s: Seq<char>)
    requires
        s.len() > 0,
        s.first() == '@',
    ensures
        !is_valid_email(s),
        email_rejection(s) is Some,
{
    if is_valid_email(s) {
        let at = choose|at: int| splits_at(s, at);
        assert(s[0] != '@');
    }
}

/// Text that ends with its `@` has no domain, and is no address.
pub proof fn lemma_email_needs_domain(s: Seq<char>)
    requires
        s.len() > 0,
        s.last() == '@',
    ensures
        !is_valid_email(s),
        email_rejection(s) is Some,
{
    if is_valid_email(s) {
        let at = choose|at: int| splits_at(s, at);
        assert(s[s.len() - 1] != '@');
    }
}

/// A domain without a dot makes no address.
pub proof fn lemma_email_needs_dotted_domain(s: Seq<char>, at: int)
    requires
        0 <= at < s.len(),
        s[at] == '@',
        forall|j: int| at < j < s.len() ==> s[j] != '.',
    ensures
        !is_valid_email(s),
{
    if is_valid_email(s) {
        let w = choose|w: int| splits_at(s, w);
        assert(w == at) by {
            if w != at {
                assert(s[at] != '@');
            }
        }
        let d = s.subrange(w + 1, s.len() as int);
        let i = choose|i: int| 0 <= i < d.len() && d[i] == '.';
        assert(s[w + 1 + i] == '.');
    }
}

} // verus!
