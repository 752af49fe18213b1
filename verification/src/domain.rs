//! Validated subscriber data: an email that can be delivered to and a
//! display name that is safe to store. Each type's constructor is the only
//! way in, so holding a value means the validity predicate holds of it.

use vstd::prelude::*;
use vstd::string::StrSliceExecFns;

verus! {

/// The whitespace characters the validators reject.
pub open spec fn is_whitespace_char(c: char) -> bool {
    c == ' ' || c == '\t' || c == '\n' || c == '\r'
}

/// How many times `c` occurs in `s`.
pub open spec fn count_char(s: Seq<char>, c: char) -> nat
    decreases s.len(),
{
    if s.len() == 0 {
        0
    } else {
        (if s[0] == c {
            1nat
        } else {
            0nat
        }) + count_char(s.skip(1), c)
    }
}

/// A deliverable email address: no whitespace, exactly one `@`, and a
/// non-empty local part and domain around it.
pub open spec fn valid_email(s: Seq<char>) -> bool {
    &&& s.len() >= 3
    &&& (forall|i: int| 0 <= i < s.len() ==> !is_whitespace_char(s[i]))
    &&& count_char(s, '@') == 1
    &&& s[0] != '@'
    &&& s[s.len() - 1] != '@'
}

/// The characters a subscriber name may not contain, since the name is
/// echoed into pages and queries.
pub open spec fn name_forbidden_char(c: char) -> bool {
    c == '/' || c == '(' || c == ')' || c == '"' || c == '<' || c == '>' || c == '\\' || c == '{'
        || c == '}'
}

/// A storable display name: not empty or all whitespace, at most 256
/// characters, none of them forbidden.
pub open spec fn valid_name(s: Seq<char>) -> bool {
    &&& s.len() <= 256
    &&& (exists|i: int| 0 <= i < s.len() && !is_whitespace_char(s[i]))
    &&& (forall|i: int| 0 <= i < s.len() ==> !name_forbidden_char(s[i]))
}

/// Whether `s` is a deliverable email address.
pub fn check_email(s: &str) -> (r: bool)
    ensures
        r == valid_email(s@),
{
    let len = s.unicode_len();
    if len < 3 {
        return false;
    }
    let mut at_count: usize = 0;
    let mut i: usize = 0;
    proof {
        assert(s@.skip(0) =~= s@);
    }
    #[verifier::loop_isolation(false)]
    while i < len
        invariant
            i <= len,
            at_count <= i,
            forall|k: int| 0 <= k < i ==> !is_whitespace_char(s@[k]),
            at_count + count_char(s@.skip(i as int), '@') == count_char(s@, '@'),
        decreases len - i,
    {
        proof {
            assert(s@.skip(i as int)[0] == s@[i as int]);
            assert(s@.skip(i as int).skip(1) =~= s@.skip(i + 1));
        }
        let c = s.get_char(i);
        if c == ' ' || c == '\t' || c == '\n' || c == '\r' {
            return false;
        }
        if c == '@' {
            at_count = at_count + 1;
        }
        i = i + 1;
    }
    proof {
        assert(s@.skip(i as int).len() == 0);
    }
    at_count == 1 && s.get_char(0) != '@' && s.get_char(len - 1) != '@'
}

/// Whether `s` is a storable display name.
pub fn check_name(s: &str) -> (r: bool)
    ensures
        r == valid_name(s@),
{
    let len = s.unicode_len();
    if len > 256 {
        return false;
    }
    let mut has_visible: bool = false;
    let mut i: usize = 0;
    #[verifier::loop_isolation(false)]
    while i < len
        invariant
            i <= len,
            has_visible == exists|k: int| 0 <= k < i && !is_whitespace_char(s@[k]),
            forall|k: int| 0 <= k < i ==> !name_forbidden_char(s@[k]),
        decreases len - i,
    {
        let c = s.get_char(i);
        if c == '/' || c == '(' || c == ')' || c == '"' || c == '<' || c == '>' || c == '\\' || c
            == '{' || c == '}' {
            return false;
        }
        if !(c == ' ' || c == '\t' || c == '\n' || c == '\r') {
            has_visible = true;
        }
        i = i + 1;
    }
    has_visible
}

/// A subscriber's email address, known deliverable.
pub struct SubscriberEmail {
    email: String,
}

impl View for SubscriberEmail {
    type V = Seq<char>;

    closed spec fn view(&self) -> Seq<char> {
        self.email@
    }
}

impl DeepView for SubscriberEmail {
    type V = Seq<char>;

    open spec fn deep_view(&self) -> Seq<char> {
        self.view()
    }
}

impl SubscriberEmail {
    /// Accepts exactly the deliverable addresses; anything else comes back
    /// as an error naming the rejected string.
    pub fn parse(email: String) -> (r: Result<SubscriberEmail, String>)
        ensures
            valid_email(email@) ==> (r matches Ok(e) && e@ == email@),
            !valid_email(email@) ==> (r matches Err(msg) && msg@ == email@
                + " is not a valid subscriber email."@),
    {
        if check_email(email.as_str()) {
            Ok(SubscriberEmail { email })
        } else {
            Err(email.concat(" is not a valid subscriber email."))
        }
    }

    /// The address as a string slice.
    pub fn as_ref(&self) -> (r: &str)
        ensures
            r@ == self@,
    {
        self.email.as_str()
    }

    /// An exact copy of the address.
    pub fn duplicate(&self) -> (r: SubscriberEmail)
        ensures
            r@ == self@,
    {
        SubscriberEmail { email: self.email.clone() }
    }
}

/// A subscriber's display name, known storable.
pub struct SubscriberName {
    name: String,
}

impl View for SubscriberName {
    type V = Seq<char>;

    closed spec fn view(&self) -> Seq<char> {
        self.name@
    }
}

impl SubscriberName {
    /// Accepts exactly the storable names; anything else comes back as an
    /// error naming the rejected string.
    pub fn parse(name: String) -> (r: Result<SubscriberName, String>)
        ensures
            valid_name(name@) ==> (r matches Ok(n) && n@ == name@),
            !valid_name(name@) ==> (r matches Err(msg) && msg@ == name@
                + " is not a valid subscriber name."@),
    {
        if check_name(name.as_str()) {
            Ok(SubscriberName { name })
        } else {
            Err(name.concat(" is not a valid subscriber name."))
        }
    }

    /// The name as a string slice.
    pub fn as_ref(&self) -> (r: &str)
        ensures
            r@ == self@,
    {
        self.name.as_str()
    }
}

/// A validated, not-yet-confirmed subscriber.
pub struct NewSubscriber {
    pub email: SubscriberEmail,
    pub name: SubscriberName,
}

impl NewSubscriber {
    /// Validates raw form fields into a subscriber, rejecting on the first
    /// invalid field — the name is checked before the email.
    pub fn parse(email: String, name: String) -> (r: Result<NewSubscriber, String>)
        ensures
            valid_name(name@) && valid_email(email@) ==> (r matches Ok(s) && s.email@ == email@
                && s.name@ == name@),
            !valid_name(name@) ==> r is Err,
            valid_name(name@) && !valid_email(email@) ==> r is Err,
    {
        let name = match SubscriberName::parse(name) {
            Ok(n) => n,
            Err(msg) => {
                return Err(msg);
            },
        };
        let email = match SubscriberEmail::parse(email) {
            Ok(e) => e,
            Err(msg) => {
                return Err(msg);
            },
        };
        Ok(NewSubscriber { email, name })
    }
}

} // verus!
