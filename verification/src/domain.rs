//! The sender/recipient identity: an email address that has passed the
//! syntactic validation below.

use vstd::prelude::*;
use crate::text::{count_char_in, push_str, spec_count_char};

verus! {

/// Syntactic validity of an email address: exactly one `'@'`, neither at the
/// start nor at the end (so both the local part and the domain are
/// non-empty), and no space characters anywhere.
pub open spec fn valid_email(s: Seq<char>) -> bool {
    &&& spec_count_char(s, '@') == 1
    &&& s[0] != '@'
    &&& s[s.len() - 1] != '@'
    &&& spec_count_char(s, ' ') == 0
}

/// An email address that is known to satisfy [`valid_email`].
#[derive(Clone, Debug)]
pub struct SubscriberEmail {
    email: String,
}

impl View for SubscriberEmail {
    type V = Seq<char>;

    closed spec fn view(&self) -> Seq<char> {
        self.email@
    }
}

impl SubscriberEmail {
    /// Every value of this type holds a syntactically valid address.
    pub open spec fn wf(&self) -> bool {
        valid_email(self@)
    }

    /// Accepts exactly the strings that [`valid_email`] admits; everything
    /// else is turned into a message naming the rejected value.
    pub fn parse(email: String) -> (r: Result<SubscriberEmail, String>)
        ensures
            valid_email(email@) ==> (r matches Ok(e) && e@ == email@ && e.wf()),
            !valid_email(email@) ==> (r matches Err(m) && m@ == email@
                + " is not a valid subscriber email."@),
    {
        let n = email.as_str().unicode_len();
        let ok: bool = if n == 0 {
            false
        } else {
            let ats = count_char_in(email.as_str(), '@');
            let spaces = count_char_in(email.as_str(), ' ');
            ats == 1 && spaces == 0 && email.as_str().get_char(0) != '@' && email.as_str().get_char(
                n - 1,
            ) != '@'
        };
        proof {
            if n == 0 {
                assert(spec_count_char(email@, '@') == 0);
            }
        }
        if ok {
            Ok(SubscriberEmail { email })
        } else {
            let mut m = email;
            push_str(&mut m, " is not a valid subscriber email.");
            Err(m)
        }
    }

    /// The address itself, for use as a `from` or `to` field.
    pub fn as_str(&self) -> (r: &str)
        ensures
            r@ == self@,
    {
        self.email.as_str()
    }
}

} // verus!
