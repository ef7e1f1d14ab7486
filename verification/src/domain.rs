//! Validated subscriber details.
//!
//! A [`SubscriberName`] and a [`SubscriberEmail`] can only be made by `parse`,
//! so whoever holds one holds a valid value.

use vstd::prelude::*;
use crate::charset::{
    char_is_alphanumeric, char_is_control, char_is_whitespace, is_alphanumeric, is_control,
    is_whitespace,
};
use crate::text::chars_of;

verus! {

/// Why a raw name or a raw email address was turned down.
#[derive(Clone, Copy, Debug, PartialEq, Eq, Structural)]
pub enum ValidationError {
    /// The name is empty or holds white space only.
    EmptyName,
    /// The name has more than [`MAX_NAME_LENGTH`] characters.
    NameTooLong,
    /// The name holds a control character.
    ControlCharacterInName,
    /// The email address does not have the form `local@domain`.
    MalformedEmail,
}

/// The largest number of characters a name may have.
pub const MAX_NAME_LENGTH: usize = 256;

/// Every character of `s` is white space; so is the empty sequence.
pub open spec fn is_blank(s: Seq<char>) -> bool {
    forall|i: int| 0 <= i < s.len() ==> is_whitespace(#[trigger] s[i])
}

/// Some character of `s` is a control character.
pub open spec fn has_control(s: Seq<char>) -> bool {
    exists|i: int| 0 <= i < s.len() && is_control(#[trigger] s[i])
}

/// What is wrong with `s` as a name, if anything. Where several rules are
/// broken, the first of them in the order blank, too long, control character
/// is named.
pub open spec fn name_defect(s: Seq<char>) -> Option<ValidationError> {
    if is_blank(s) {
        Some(ValidationError::EmptyName)
    } else if s.len() > MAX_NAME_LENGTH {
        Some(ValidationError::NameTooLong)
    } else if has_control(s) {
        Some(ValidationError::ControlCharacterInName)
    } else {
        None
    }
}

/// A name is valid when something is left of it after trimming, it has at
/// most [`MAX_NAME_LENGTH`] characters and none of them is a control
/// character.
pub open spec fn valid_name(s: Seq<char>) -> bool {
    &&& !is_blank(s)
    &&& s.len() <= MAX_NAME_LENGTH
    &&& !has_control(s)
}

/// Tells whether every character of `v` is white space.
fn all_whitespace(v: &Vec<char>) -> (b: bool)
    ensures
        b == is_blank(v@),
{
    let mut i: usize = 0;
    while i < v.len()
        invariant
            i <= v.len(),
            forall|k: int| 0 <= k < i ==> is_whitespace(#[trigger] v@[k]),
        decreases v.len() - i,
    {
        if !char_is_whitespace(v[i]) {
            return false;
        }
        i += 1;
    }
    true
}

/// Tells whether some character of `v` is a control character.
fn any_control(v: &Vec<char>) -> (b: bool)
    ensures
        b == has_control(v@),
{
    let mut i: usize = 0;
    while i < v.len()
        invariant
            i <= v.len(),
            forall|k: int| 0 <= k < i ==> !is_control(#[trigger] v@[k]),
        decreases v.len() - i,
    {
        if char_is_control(v[i]) {
            return true;
        }
        i += 1;
    }
    false
}

/// The display name of a subscriber.
#[derive(Debug)]
pub struct SubscriberName {
    value: String,
}

impl View for SubscriberName {
    type V = Seq<char>;

    closed spec fn view(&self) -> Seq<char> {
        self.value@
    }
}

impl SubscriberName {
    /// Every name is valid.
    #[verifier::type_invariant]
    pub open spec fn well_formed(self) -> bool {
        valid_name(self@)
    }

    /// Accepts `s` as a name if it is valid, and says what is wrong with it
    /// otherwise.
    pub fn parse(s: String) -> (r: Result<SubscriberName, ValidationError>)
        ensures
            r is Ok <==> valid_name(s@),
            match r {
                Ok(name) => name@ == s@,
                Err(e) => name_defect(s@) == Some(e),
            },
    {
        let chars = chars_of(s.as_str());
        if all_whitespace(&chars) {
            Err(ValidationError::EmptyName)
        } else if chars.len() > MAX_NAME_LENGTH {
            Err(ValidationError::NameTooLong)
        } else if any_control(&chars) {
            Err(ValidationError::ControlCharacterInName)
        } else {
            Ok(SubscriberName { value: s })
        }
    }

    /// The name as text.
    pub fn as_str(&self) -> (s: &str)
        ensures
            s@ == self@,
            valid_name(s@),
    {
        proof {
            use_type_invariant(self);
        }
        self.value.as_str()
    }
}

impl AsRef<str> for SubscriberName {
    fn as_ref(&self) -> (s: &str)
        ensures
            s@ == self@,
    {
        self.value.as_str()
    }
}

impl Clone for SubscriberName {
    fn clone(&self) -> (r: Self)
        ensures
            r@ == self@,
            valid_name(r@),
    {
        proof {
            use_type_invariant(self);
        }
        SubscriberName { value: self.value.clone() }
    }
}

/// The most characters the part of an address before the `@` may have.
pub const MAX_LOCAL_LENGTH: usize = 64;

/// The most characters the part of an address after the `@` may have.
pub const MAX_DOMAIN_LENGTH: usize = 255;

/// The most characters one label of a domain may have.
pub const MAX_LABEL_LENGTH: usize = 63;

/// The punctuation that may stand in the part of an address before the `@`.
pub open spec fn is_local_punctuation(c: char) -> bool {
    ||| c == '.'
    ||| c == '!'
    ||| c == '#'
    ||| c == '$'
    ||| c == '%'
    ||| c == '&'
    ||| c == '\''
    ||| c == '*'
    ||| c == '+'
    ||| c == '/'
    ||| c == '='
    ||| c == '?'
    ||| c == '^'
    ||| c == '_'
    ||| c == '`'
    ||| c == '{'
    ||| c == '|'
    ||| c == '}'
    ||| c == '~'
    ||| c == '-'
}

/// The characters that may stand before the `@`.
pub open spec fn is_local_char(c: char) -> bool {
    is_alphanumeric(c) || is_local_punctuation(c)
}

/// The characters that may stand after the `@`.
pub open spec fn is_domain_char(c: char) -> bool {
    is_alphanumeric(c) || c == '-' || c == '.'
}

/// The part before the `@`: one to [`MAX_LOCAL_LENGTH`] characters, letters,
/// digits and the punctuation of [`is_local_punctuation`].
pub open spec fn valid_local_part(s: Seq<char>) -> bool {
    &&& 1 <= s.len() <= MAX_LOCAL_LENGTH
    &&& forall|i: int| 0 <= i < s.len() ==> is_local_char(#[trigger] s[i])
}

/// Position `i` of `s` is the first or the last character of a label: it
/// stands at an end of `s` or beside a dot.
pub open spec fn at_label_edge(s: Seq<char>, i: int) -> bool {
    ||| i == 0
    ||| i == s.len() - 1
    ||| s[i - 1] == '.'
    ||| s[i + 1] == '.'
}

/// Some position from `lo` up to, not including, `hi` of `s` holds a dot.
pub open spec fn dot_within(s: Seq<char>, lo: int, hi: int) -> bool {
    exists|k: int| lo <= k < hi && #[trigger] s[k] == '.'
}

/// The part after the `@`: one to [`MAX_DOMAIN_LENGTH`] characters that form
/// labels separated by single dots. A label has one to [`MAX_LABEL_LENGTH`]
/// letters, digits and hyphens, and neither begins nor ends with a hyphen.
pub open spec fn valid_domain(s: Seq<char>) -> bool {
    &&& 1 <= s.len() <= MAX_DOMAIN_LENGTH
    &&& forall|i: int| 0 <= i < s.len() ==> is_domain_char(#[trigger] s[i])
    &&& forall|i: int| 0 <= i < s.len() && at_label_edge(s, i) ==> is_alphanumeric(#[trigger] s[i])
    &&& forall|i: int|
        0 <= i && i + MAX_LABEL_LENGTH < s.len() ==> #[trigger] dot_within(
            s,
            i,
            i + MAX_LABEL_LENGTH + 1,
        )
}

/// `s` splits at position `at` into a valid local part, an `@` and a valid
/// domain.
pub open spec fn splits_at(s: Seq<char>, at: int) -> bool {
    &&& 0 <= at < s.len()
    &&& s[at] == '@'
    &&& valid_local_part(s.subrange(0, at))
    &&& valid_domain(s.subrange(at + 1, s.len() as int))
}

/// An email address is valid when it has the form `local@domain`.
pub open spec fn valid_email(s: Seq<char>) -> bool {
    exists|at: int| splits_at(s, at)
}

/// Tells whether `c` may stand before the `@`.
fn char_is_local(c: char) -> (b: bool)
    ensures
        b == is_local_char(c),
{
    char_is_alphanumeric(c) || c == '.' || c == '!' || c == '#' || c == '$' || c == '%' || c == '&'
        || c == '\'' || c == '*' || c == '+' || c == '/' || c == '=' || c == '?' || c == '^' || c
        == '_' || c == '`' || c == '{' || c == '|' || c == '}' || c == '~' || c == '-'
}

/// The position of the first `@` of `v`, if it has one.
fn first_at_sign(v: &Vec<char>) -> (r: Option<usize>)
    ensures
        match r {
            Some(at) => at < v.len() && v@[at as int] == '@' && forall|k: int|
                0 <= k < at ==> #[trigger] v@[k] != '@',
            None => forall|k: int| 0 <= k < v.len() ==> #[trigger] v@[k] != '@',
        },
{
    let mut i: usize = 0;
    while i < v.len()
        invariant
            i <= v.len(),
            forall|k: int| 0 <= k < i ==> #[trigger] v@[k] != '@',
        decreases v.len() - i,
    {
        if v[i] == '@' {
            return Some(i);
        }
        i += 1;
    }
    None
}

/// Tells whether the first `at` characters of `v` form a valid local part.
fn local_part_ok(v: &Vec<char>, at: usize) -> (b: bool)
    requires
        at <= v.len(),
    ensures
        b == valid_local_part(v@.subrange(0, at as int)),
{
    let ghost local = v@.subrange(0, at as int);
    if at < 1 || at > MAX_LOCAL_LENGTH {
        return false;
    }
    let mut i: usize = 0;
    while i < at
        invariant
            i <= at <= v.len(),
            local == v@.subrange(0, at as int),
            forall|k: int| 0 <= k < i ==> is_local_char(#[trigger] local[k]),
        decreases at - i,
    {
        if !char_is_local(v[i]) {
            assert(!is_local_char(local[i as int]));
            return false;
        }
        i += 1;
    }
    true
}

/// Tells whether the characters of `v` from position `from` on form a valid
/// domain.
fn domain_ok(v: &Vec<char>, from: usize) -> (b: bool)
    requires
        from <= v.len(),
    ensures
        b == valid_domain(v@.subrange(from as int, v.len() as int)),
{
    let ghost d = v@.subrange(from as int, v.len() as int);
    let n: usize = v.len() - from;
    if n < 1 || n > MAX_DOMAIN_LENGTH {
        return false;
    }
    // `run` counts the characters of the label that position `j` continues.
    let mut run: usize = 0;
    let mut j: usize = 0;
    while j < n
        invariant
            j <= n,
            n == v.len() - from,
            1 <= n <= MAX_DOMAIN_LENGTH,
            d == v@.subrange(from as int, v.len() as int),
            d.len() == n,
            run <= MAX_LABEL_LENGTH,
            run <= j,
            forall|k: int| j - run <= k < j ==> #[trigger] d[k] != '.',
            j - run == 0 || d[j - run - 1] == '.',
            forall|k: int| 0 <= k < j ==> is_domain_char(#[trigger] d[k]),
            forall|k: int|
                0 <= k < j && (k == 0 || d[k - 1] == '.') ==> is_alphanumeric(#[trigger] d[k]),
            forall|k: int| 0 <= k && k + 1 < j && d[k + 1] == '.' ==> is_alphanumeric(#[trigger] d[k]),
            forall|i: int|
                0 <= i && i + MAX_LABEL_LENGTH < j ==> #[trigger] dot_within(
                    d,
                    i,
                    i + MAX_LABEL_LENGTH + 1,
                ),
        decreases n - j,
    {
        let c = v[from + j];
        if c == '.' {
            if run == 0 {
                // An empty label: the dot stands first or follows a dot.
                assert(!is_alphanumeric(d[j as int]));
                return false;
            }
            let before = v[from + j - 1];
            if !char_is_alphanumeric(before) {
                assert(at_label_edge(d, j - 1));
                return false;
            }
            assert forall|i: int| 0 <= i && i + MAX_LABEL_LENGTH < j + 1 implies #[trigger] dot_within(
                d,
                i,
                i + MAX_LABEL_LENGTH + 1,
            ) by {
                if i + MAX_LABEL_LENGTH == j {
                    assert(d[j as int] == '.');
                }
            }
            run = 0;
        } else {
            if !char_is_alphanumeric(c) && c != '-' {
                assert(!is_domain_char(d[j as int]));
                return false;
            }
            if run == 0 && c == '-' {
                assert(!is_alphanumeric(d[j as int]));
                return false;
            }
            if run == MAX_LABEL_LENGTH {
                // Sixty-four characters in a row without a dot.
                let ghost start = j - MAX_LABEL_LENGTH;
                assert(!dot_within(d, start, start + MAX_LABEL_LENGTH + 1));
                return false;
            }
            assert forall|i: int| 0 <= i && i + MAX_LABEL_LENGTH < j + 1 implies #[trigger] dot_within(
                d,
                i,
                i + MAX_LABEL_LENGTH + 1,
            ) by {
                if i + MAX_LABEL_LENGTH == j {
                    assert(d[j - run - 1] == '.');
                }
            }
            run += 1;
        }
        j += 1;
    }
    let last = v[from + n - 1];
    assert(last == d[n - 1]);
    if !char_is_alphanumeric(last) {
        return false;
    }
    assert forall|i: int| 0 <= i < d.len() && at_label_edge(d, i) implies is_alphanumeric(
        #[trigger] d[i],
    ) by {
        if 0 < i < d.len() - 1 && d[i - 1] != '.' {
            assert(d[i + 1] == '.');
        }
    }
    true
}

/// The email address of a subscriber.
#[derive(Debug)]
pub struct SubscriberEmail {
    value: String,
}

impl View for SubscriberEmail {
    type V = Seq<char>;

    closed spec fn view(&self) -> Seq<char> {
        self.value@
    }
}

impl SubscriberEmail {
    /// Every address is valid.
    #[verifier::type_invariant]
    pub open spec fn well_formed(self) -> bool {
        valid_email(self@)
    }

    /// Accepts `s` as an email address if it has the form `local@domain`.
    pub fn parse(s: String) -> (r: Result<SubscriberEmail, ValidationError>)
        ensures
            r is Ok <==> valid_email(s@),
            match r {
                Ok(email) => email@ == s@,
                Err(e) => e == ValidationError::MalformedEmail,
            },
    {
        let chars = chars_of(s.as_str());
        match first_at_sign(&chars) {
            None => Err(ValidationError::MalformedEmail),
            Some(at) => {
                let good = local_part_ok(&chars, at) && domain_ok(&chars, at + 1);
                proof {
                    if good {
                        assert(splits_at(s@, at as int));
                    } else if valid_email(s@) {
                        let w = choose|w: int| splits_at(s@, w);
                        if w > at {
                            assert(s@.subrange(0, w)[at as int] == '@');
                        }
                    }
                }
                if good {
                    Ok(SubscriberEmail { value: s })
                } else {
                    Err(ValidationError::MalformedEmail)
                }
            },
        }
    }

    /// The address as text.
    pub fn as_str(&self) -> (s: &str)
        ensures
            s@ == self@,
            valid_email(s@),
    {
        proof {
            use_type_invariant(self);
        }
        self.value.as_str()
    }

    /// Tells whether `self` and `other` are the same address, character for
    /// character.
    pub fn same_as(&self, other: &SubscriberEmail) -> (b: bool)
        ensures
            b == (self@ == other@),
    {
        self.value == other.value
    }
}

impl AsRef<str> for SubscriberEmail {
    fn as_ref(&self) -> (s: &str)
        ensures
            s@ == self@,
    {
        self.value.as_str()
    }
}

impl Clone for SubscriberEmail {
    fn clone(&self) -> (r: Self)
        ensures
            r@ == self@,
            valid_email(r@),
    {
        proof {
            use_type_invariant(self);
        }
        SubscriberEmail { value: self.value.clone() }
    }
}

/// The validated details of someone who asks to subscribe.
#[derive(Debug)]
pub struct NewSubscriber {
    pub email: SubscriberEmail,
    pub name: SubscriberName,
}

impl Clone for NewSubscriber {
    fn clone(&self) -> (r: Self)
        ensures
            r.email@ == self.email@,
            r.name@ == self.name@,
            valid_email(r.email@),
            valid_name(r.name@),
    {
        NewSubscriber { email: self.email.clone(), name: self.name.clone() }
    }
}

} // verus!
