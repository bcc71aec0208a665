//! A validated subscriber email address.

use vstd::prelude::*;

verus! {

/// A character sequence is accepted as an email address when some `'@'`
/// stands strictly inside it: a non-empty local part before it and a
/// non-empty domain part after it.
pub open spec fn is_valid_email(s: Seq<char>) -> bool {
    exists|i: int| 0 < i && i + 1 < s.len() && s[i] == '@'
}

/// An email address that satisfied [`is_valid_email`] when it was parsed.
#[derive(Debug, PartialEq, Eq)]
pub struct SubscriberEmail {
    inner: String,
}

impl View for SubscriberEmail {
    type V = Seq<char>;

    closed spec fn view(&self) -> Seq<char> {
        self.inner@
    }
}

impl SubscriberEmail {
    /// The invariant every constructed value satisfies.
    pub open spec fn wf(&self) -> bool {
        is_valid_email(self@)
    }

    /// Accepts `s` exactly when it is a valid email address; on rejection
    /// the input is handed back unchanged.
    pub fn parse(s: String) -> (r: Result<SubscriberEmail, String>)
        ensures
            match r {
                Ok(email) => is_valid_email(s@) && email@ == s@ && email.wf(),
                Err(original) => !is_valid_email(s@) && original@ == s@,
            },
    {
        let len = s.as_str().unicode_len();
        let mut i: usize = 0;
        while i < len
            invariant
                len == s@.len(),
                i <= len,
                forall|j: int| 0 <= j < i ==> !(0 < j && j + 1 < s@.len() && s@[j] == '@'),
            decreases len - i,
        {
            if i > 0 && i + 1 < len && s.as_str().get_char(i) == '@' {
                return Ok(SubscriberEmail { inner: s });
            }
            i += 1;
        }
        Err(s)
    }

    /// The address as a borrowed string.
    pub fn as_str(&self) -> (r: &str)
        ensures
            r@ == self@,
    {
        self.inner.as_str()
    }
}

impl Clone for SubscriberEmail {
    fn clone(&self) -> (r: Self)
        ensures
            r == *self,
    {
        SubscriberEmail { inner: self.inner.clone() }
    }
}

} // verus!
