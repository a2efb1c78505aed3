//! Validated identity values: a subscriber's email address and display name.
//!
//! Parsing is pure: malformed input is rejected with a `ValidationError`
//! before any side effect can occur.

use vstd::prelude::*;

verus! {

/// Why a subscription request was rejected before reaching persistence.
#[derive(Clone, Copy, Debug, PartialEq, Eq, Structural)]
pub enum ValidationError {
    MalformedBody,
    MissingName,
    MissingEmail,
    InvalidEmail,
    InvalidName,
}

/// ASCII whitespace.
pub open spec fn is_whitespace_char(c: char) -> bool {
    c == ' ' || c == '\t' || c == '\n' || c == '\r'
}

/// Control characters (the two Unicode control ranges).
pub open spec fn is_control_char(c: char) -> bool {
    (c as u32) < 32 || (127 <= (c as u32) && (c as u32) <= 159)
}

/// Structural characters that are unsafe in downstream contexts.
pub open spec fn is_forbidden_name_char(c: char) -> bool {
    c == '/' || c == '(' || c == ')' || c == '"' || c == '<' || c == '>' || c == '\\' || c == '{'
        || c == '}'
}

/// The longest display name that is accepted, in characters.
pub const NAME_MAX_CHARS: usize = 256;

/// A display name is valid when it is no longer than `NAME_MAX_CHARS`,
/// is not empty or whitespace-only, and holds no control or structural
/// characters.
pub open spec fn spec_name_is_valid(s: Seq<char>) -> bool {
    &&& s.len() <= NAME_MAX_CHARS
    &&& exists|i: int| 0 <= i < s.len() && !is_whitespace_char(s[i])
    &&& forall|i: int|
        0 <= i < s.len() ==> !is_control_char(s[i]) && !is_forbidden_name_char(s[i])
}

/// How many times `c` occurs in `s`.
pub open spec fn count_char(s: Seq<char>, c: char) -> nat
    decreases s.len(),
{
    if s.len() == 0 {
        0
    } else {
        count_char(s.drop_last(), c) + if s.last() == c {
            1nat
        } else {
            0nat
        }
    }
}

/// An email address is valid when it is free of whitespace and control
/// characters and has an `@`-separated local-part/domain structure:
/// exactly one `@`, with a nonempty local part before it and a nonempty
/// domain after it.
pub open spec fn spec_email_is_valid(s: Seq<char>) -> bool {
    &&& s.len() > 0
    &&& forall|i: int|
        0 <= i < s.len() ==> !is_whitespace_char(s[i]) && !is_control_char(s[i])
    &&& count_char(s, '@') == 1
    &&& s[0] != '@'
    &&& s[s.len() - 1] != '@'
}

pub fn char_is_whitespace(c: char) -> (r: bool)
    ensures
        r == is_whitespace_char(c),
{
    c == ' ' || c == '\t' || c == '\n' || c == '\r'
}

pub fn char_is_control(c: char) -> (r: bool)
    ensures
        r == is_control_char(c),
{
    let u = c as u32;
    u < 32 || (127 <= u && u <= 159)
}

pub fn char_is_forbidden_in_name(c: char) -> (r: bool)
    ensures
        r == is_forbidden_name_char(c),
{
    c == '/' || c == '(' || c == ')' || c == '"' || c == '<' || c == '>' || c == '\\' || c == '{'
        || c == '}'
}

/// A validated display name.
pub struct SubscriberName {
    inner: String,
}

impl View for SubscriberName {
    type V = Seq<char>;

    closed spec fn view(&self) -> Seq<char> {
        self.inner@
    }
}

impl SubscriberName {
    /// A parsed name is always valid.
    pub open spec fn wf(&self) -> bool {
        spec_name_is_valid(self@)
    }

    /// Accepts `s` exactly when it is a valid display name, and keeps it
    /// unchanged.
    pub fn parse(s: String) -> (r: Result<SubscriberName, ValidationError>)
        ensures
            match r {
                Ok(n) => spec_name_is_valid(s@) && n@ == s@ && n.wf(),
                Err(e) => !spec_name_is_valid(s@) && e == ValidationError::InvalidName,
            },
    {
        let len = s.as_str().unicode_len();
        if len > NAME_MAX_CHARS {
            return Err(ValidationError::InvalidName);
        }
        let mut has_visible = false;
        let mut i: usize = 0;
        while i < len
            invariant
                len == s@.len(),
                len <= NAME_MAX_CHARS,
                i <= len,
                has_visible == exists|j: int| 0 <= j < i && !is_whitespace_char(s@[j]),
                forall|j: int|
                    0 <= j < i ==> !is_control_char(s@[j]) && !is_forbidden_name_char(s@[j]),
            decreases len - i,
        {
            let c = s.as_str().get_char(i);
            if char_is_control(c) || char_is_forbidden_in_name(c) {
                return Err(ValidationError::InvalidName);
            }
            if !char_is_whitespace(c) {
                has_visible = true;
            }
            i += 1;
        }
        if has_visible {
            Ok(SubscriberName { inner: s })
        } else {
            Err(ValidationError::InvalidName)
        }
    }

    pub fn as_str(&self) -> (r: &str)
        ensures
            r@ == self@,
    {
        self.inner.as_str()
    }

    /// An owned copy of the name.
    pub fn to_string(&self) -> (r: String)
        ensures
            r@ == self@,
    {
        self.inner.clone()
    }
}

/// A validated email address.
pub struct SubscriberEmail {
    inner: String,
}

impl View for SubscriberEmail {
    type V = Seq<char>;

    closed spec fn view(&self) -> Seq<char> {
        self.inner@
    }
}

impl SubscriberEmail {
    /// A parsed email address is always valid.
    pub open spec fn wf(&self) -> bool {
        spec_email_is_valid(self@)
    }

    /// Accepts `s` exactly when it has a valid local-part/domain structure,
    /// and keeps it unchanged.
    pub fn parse(s: String) -> (r: Result<SubscriberEmail, ValidationError>)
        ensures
            match r {
                Ok(n) => spec_email_is_valid(s@) && n@ == s@ && n.wf(),
                Err(e) => !spec_email_is_valid(s@) && e == ValidationError::InvalidEmail,
            },
    {
        let len = s.as_str().unicode_len();
        if len == 0 {
            return Err(ValidationError::InvalidEmail);
        }
        let mut ats: usize = 0;
        let mut i: usize = 0;
        while i < len
            invariant
                len == s@.len(),
                0 < len,
                i <= len,
                ats == count_char(s@.take(i as int), '@'),
                ats <= i,
                forall|j: int|
                    0 <= j < i ==> !is_whitespace_char(s@[j]) && !is_control_char(s@[j]),
            decreases len - i,
        {
            let c = s.as_str().get_char(i);
            if char_is_whitespace(c) || char_is_control(c) {
                return Err(ValidationError::InvalidEmail);
            }
            if c == '@' {
                ats += 1;
            }
            proof {
                assert(s@.take(i + 1 as int).drop_last() =~= s@.take(i as int));
                assert(s@.take(i + 1 as int).last() == s@[i as int]);
            }
            i += 1;
        }
        proof {
            assert(s@.take(len as int) =~= s@);
        }
        if ats != 1 {
            return Err(ValidationError::InvalidEmail);
        }
        let first = s.as_str().get_char(0);
        let last = s.as_str().get_char(len - 1);
        if first == '@' || last == '@' {
            return Err(ValidationError::InvalidEmail);
        }
        Ok(SubscriberEmail { inner: s })
    }

    pub fn as_str(&self) -> (r: &str)
        ensures
            r@ == self@,
    {
        self.inner.as_str()
    }

    /// An owned copy of the address.
    pub fn to_string(&self) -> (r: String)
        ensures
            r@ == self@,
    {
        self.inner.clone()
    }

    pub fn as_string(&self) -> (r: &String)
        ensures
            r@ == self@,
    {
        &self.inner
    }
}

/// The validated identity data of one subscription request.
pub struct NewSubscriber {
    pub email: SubscriberEmail,
    pub name: SubscriberName,
}

/// What a `NewSubscriber` holds, as plain sequences.
pub struct NewSubscriberModel {
    pub email: Seq<char>,
    pub name: Seq<char>,
}

impl View for NewSubscriber {
    type V = NewSubscriberModel;

    open spec fn view(&self) -> NewSubscriberModel {
        NewSubscriberModel { email: self.email@, name: self.name@ }
    }
}

impl NewSubscriber {
    pub open spec fn wf(&self) -> bool {
        self.email.wf() && self.name.wf()
    }
}

} // verus!
