//! A user's e-mail address, checked when it is made.

use vstd::prelude::*;
use validator::ValidateEmail;

verus! {

/// Whether `validator` accepts `s` as an e-mail address: the HTML5 form of
/// an address, with a local part of at most 64 and a domain of at most 255
/// characters, the domain a host name, an IP literal or an internationalised name.
pub uninterp spec fn is_valid_email(s: Seq<char>) -> bool;

/// Whether `c` is an ASCII letter or digit.
pub open spec fn is_ascii_alnum(c: char) -> bool {
    ('A' <= c && c <= 'Z') || ('a' <= c && c <= 'z') || ('0' <= c && c <= '9')
}

/// A plain local part: 1 to 64 ASCII letters, digits, and `.`, `_`, `-`, `+`.
pub open spec fn plain_local_part(l: Seq<char>) -> bool {
    &&& 0 < l.len() <= 64
    &&& forall|i: int|
        0 <= i < l.len() ==> is_ascii_alnum(#[trigger] l[i]) || l[i] == '.' || l[i] == '_' || l[i]
            == '-' || l[i] == '+'
}

/// A plain domain: at most 63 characters, ASCII letters and digits in labels
/// joined by single dots, beginning and ending with a letter or digit.
pub open spec fn plain_domain(d: Seq<char>) -> bool {
    &&& 0 < d.len() <= 63
    &&& is_ascii_alnum(d[0])
    &&& is_ascii_alnum(d[d.len() - 1])
    &&& forall|i: int| 0 <= i < d.len() ==> is_ascii_alnum(#[trigger] d[i]) || d[i] == '.'
    &&& forall|i: int| 0 <= i < d.len() - 1 && #[trigger] d[i] == '.' ==> d[i + 1] != '.'
}

/// A plain address: a plain local part, one `@`, and a plain domain, such as
/// `ursula.le.guin@gmail.com`.
pub open spec fn is_plain_address(s: Seq<char>) -> bool {
    exists|k: int|
        0 < k < s.len() && #[trigger] s[k] == '@' && plain_local_part(s.take(k)) && plain_domain(
            s.skip(k + 1),
        )
}

/// Calls `validator::ValidateEmail::validate_email` on the string.
/// Claimed: the answer is `is_valid_email` of the characters, a function of
/// them alone; and a string without `@`, the empty one among them, is refused,
/// which `validate_email` checks before anything else. A plain address is
/// accepted: splitting at its one `@` gives a local part of at most 64
/// characters that the local-part pattern `[a-zA-Z0-9.!#$%&'*+/=?^_`{|}~-]+`
/// matches, and a domain of at most 63 characters whose labels of letters and
/// digits, each shorter than 64, the domain pattern matches. Nothing more is
/// stated of which strings it accepts.
#[verifier::external_body]
fn validate_email(s: &String) -> (valid: bool)
    ensures
        valid == is_valid_email(s@),
        !s@.contains('@') ==> !valid,
        is_plain_address(s@) ==> valid,
{
    s.validate_email()
}

/// Every plain local part joined by `@` to a plain domain is a plain address,
/// and so is accepted by `UserEmail::parse` with its text unchanged.
pub proof fn lemma_plain_address(local: Seq<char>, domain: Seq<char>)
    requires
        plain_local_part(local),
        plain_domain(domain),
    ensures
        is_plain_address(local + seq!['@'] + domain),
{
    let s = local + seq!['@'] + domain;
    let k = local.len() as int;
    assert(s.take(k) =~= local);
    assert(s.skip(k + 1) =~= domain);
    assert(s[k] == '@');
}

/// The message with which a string that is no e-mail address is refused.
pub open spec fn invalid_email_message(s: Seq<char>) -> Seq<char> {
    "'"@ + s + "' is not a valid email"@
}

/// An e-mail address that `validator` accepts.
#[derive(Debug)]
pub struct UserEmail(String);

impl View for UserEmail {
    type V = Seq<char>;

    closed spec fn view(&self) -> Seq<char> {
        self.0@
    }
}

impl UserEmail {
    #[verifier::type_invariant]
    spec fn accepted(self) -> bool {
        is_valid_email(self.0@)
    }

    /// Makes an address of `s` if `validator` accepts it, else gives the
    /// message that says it is no e-mail address.
    pub fn parse(s: String) -> (res: Result<UserEmail, String>)
        ensures
            is_valid_email(s@) ==> res is Ok && res->Ok_0@ == s@,
            !is_valid_email(s@) ==> res is Err && res->Err_0@ == invalid_email_message(s@),
            !s@.contains('@') ==> res is Err && res->Err_0@ == invalid_email_message(s@),
            is_plain_address(s@) ==> res is Ok && res->Ok_0@ == s@,
    {
        let valid = validate_email(&s);
        UserEmail::from_check(s, valid)
    }

    /// What `parse` does once `validator` has answered `valid` for `s`.
    pub fn from_check(s: String, valid: bool) -> (res: Result<UserEmail, String>)
        requires
            valid == is_valid_email(s@),
        ensures
            valid ==> res is Ok && res->Ok_0@ == s@,
            !valid ==> res is Err && res->Err_0@ == invalid_email_message(s@),
    {
        if valid {
            Ok(UserEmail(s))
        } else {
            let mut message = String::from_str("'");
            message.append(s.as_str());
            message.append("' is not a valid email");
            Err(message)
        }
    }

    /// The address as text.
    pub fn as_ref(&self) -> (s: &str)
        ensures
            s@ == self@,
            is_valid_email(s@),
    {
        proof {
            use_type_invariant(self);
        }
        self.0.as_str()
    }

    /// The address as an owned string, as `Display` writes it.
    pub fn to_string(&self) -> (s: String)
        ensures
            s@ == self@,
    {
        self.0.clone()
    }
}

} // verus!
