//! Registering a user: the token they confirm with, and the e-mail that carries it.

use vstd::prelude::*;
use rand::distributions::Alphanumeric;
use rand::rngs::ThreadRng;
use rand::Rng;
use crate::domain::user_email::{invalid_email_message, is_valid_email, UserEmail};
use crate::routes::failure::{BAD_REQUEST, INTERNAL_SERVER_ERROR};

verus! {

/// The form of a registration request.
#[derive(Debug, Clone, PartialEq, Eq)]
pub struct FormData {
    pub email: String,
    pub name: String,
}

/// Why a registration failed.
#[derive(Debug)]
pub enum RegisterError {
    /// The form holds no valid name or e-mail address; the text says which.
    ValidationError(String),
    /// A database call or the confirmation e-mail failed.
    UnexpectedError(anyhow::Error),
}

/// A user to register, made from a registration form.
#[derive(Debug)]
pub struct NewUser {
    pub email: UserEmail,
    pub name: String,
}

impl NewUser {
    /// The user that a form registers: its name, and its address checked as an
    /// e-mail address; the text of the refusal when the address is no e-mail
    /// address. The name is taken as the form gives it.
    pub fn try_from(value: FormData) -> (res: Result<NewUser, String>)
        ensures
            is_valid_email(value.email@) ==> (res matches Ok(u) && u.email@ == value.email@
                && u.name == value.name),
            !is_valid_email(value.email@) ==> (res matches Err(m) && m@ == invalid_email_message(
                value.email@,
            )),
    {
        let email = UserEmail::parse(value.email)?;
        Ok(NewUser { email, name: value.name })
    }
}

impl RegisterError {
    /// The text of the failure where the library gives it: that of an invalid
    /// form. An unexpected failure is written as the `anyhow::Error` it
    /// carries, which the library does not read, so it gives none.
    pub fn message(&self) -> (m: Option<String>)
        ensures
            self is ValidationError ==> (m matches Some(t) && t@ == self->ValidationError_0@),
            self is UnexpectedError ==> m is None,
    {
        match self {
            RegisterError::ValidationError(text) => Some(text.clone()),
            RegisterError::UnexpectedError(_) => None,
        }
    }

    /// The HTTP status of the failure: `400` for an invalid form, `500` otherwise.
    pub fn status_code(&self) -> (code: u16)
        ensures
            self is ValidationError ==> code == BAD_REQUEST,
            self is UnexpectedError ==> code == INTERNAL_SERVER_ERROR,
    {
        match self {
            RegisterError::ValidationError(_) => BAD_REQUEST,
            RegisterError::UnexpectedError(_) => INTERNAL_SERVER_ERROR,
        }
    }
}

/// The number of characters of a confirmation token.
pub const USER_TOKEN_LEN: usize = 25;

/// Whether `c` is an ASCII letter or digit.
pub open spec fn is_ascii_alphanumeric(c: char) -> bool {
    ('A' <= c && c <= 'Z') || ('a' <= c && c <= 'z') || ('0' <= c && c <= '9')
}

/// `rand::rngs::ThreadRng`, the handle to the thread's random number generator.
#[verifier::external_type_specification]
#[verifier::external_body]
pub struct ExThreadRng(ThreadRng);

/// Calls `rand::thread_rng`. Nothing is claimed of the handle.
#[verifier::external_body]
fn new_thread_rng() -> ThreadRng {
    rand::thread_rng()
}

/// Calls `Rng::sample` with `rand::distributions::Alphanumeric`. Claimed, as
/// the distribution's source shows: the byte is one of `A-Z`, `a-z`, `0-9`.
/// Which one is left to chance.
#[verifier::external_body]
fn sample_alphanumeric(rng: &mut ThreadRng) -> (b: u8)
    ensures
        is_ascii_alphanumeric(b as char),
{
    rng.sample(Alphanumeric)
}

/// Calls `String::push`. Claimed, as its documentation says: the character
/// is appended to the string.
#[verifier::external_body]
fn push_char(s: &mut String, c: char)
    ensures
        final(s)@ == old(s)@.push(c),
{
    s.push(c)
}

/// The token made of the drawn bytes: one character per byte, in the order drawn.
pub fn token_from_samples(samples: &Vec<u8>) -> (token: String)
    requires
        samples@.len() == USER_TOKEN_LEN,
        forall|i: int| 0 <= i < samples@.len() ==> is_ascii_alphanumeric(#[trigger] samples@[i] as char),
    ensures
        token@ == samples@.map_values(|b: u8| b as char),
        token@.len() == USER_TOKEN_LEN,
        forall|i: int| 0 <= i < token@.len() ==> is_ascii_alphanumeric(#[trigger] token@[i]),
{
    let mut token = String::new();
    let mut n: usize = 0;
    while n < samples.len()
        invariant
            n <= samples@.len(),
            token@ == samples@.take(n as int).map_values(|b: u8| b as char),
        decreases samples@.len() - n,
    {
        push_char(&mut token, samples[n] as char);
        assert(samples@.take(n + 1) =~= samples@.take(n as int).push(samples@[n as int]));
        assert(token@ =~= samples@.take(n + 1).map_values(|b: u8| b as char));
        n = n + 1;
    }
    assert(samples@.take(samples@.len() as int) =~= samples@);
    token
}

/// A fresh confirmation token: 25 random ASCII letters and digits, drawn from
/// the thread's generator and made into a token by `token_from_samples`.
/// Which letters and digits come out is left to chance.
pub fn generate_user_token() -> (token: String)
    ensures
        token@.len() == USER_TOKEN_LEN,
        forall|i: int| 0 <= i < token@.len() ==> is_ascii_alphanumeric(#[trigger] token@[i]),
{
    let mut rng = new_thread_rng();
    let mut samples: Vec<u8> = Vec::new();
    while samples.len() < USER_TOKEN_LEN
        invariant
            samples@.len() <= USER_TOKEN_LEN,
            forall|i: int| 0 <= i < samples@.len() ==> is_ascii_alphanumeric(#[trigger] samples@[i] as char),
        decreases USER_TOKEN_LEN - samples@.len(),
    {
        samples.push(sample_alphanumeric(&mut rng));
    }
    token_from_samples(&samples)
}

/// The link that confirms the user holding `user_token`.
pub open spec fn confirmation_link_text(base_url: Seq<char>, user_token: Seq<char>) -> Seq<char> {
    base_url + "/users/confirm?user_token="@ + user_token
}

/// The subject of the confirmation e-mail.
pub open spec fn welcome_subject() -> Seq<char> {
    "Welcome to Claans!"@
}

/// The plain-text body of the confirmation e-mail.
pub open spec fn welcome_plain_body(link: Seq<char>) -> Seq<char> {
    "Welcome to Claans!\nVisit "@ + link + " to confirm you account."@
}

/// The HTML body of the confirmation e-mail.
pub open spec fn welcome_html_body(link: Seq<char>) -> Seq<char> {
    "Welcome to Claans!<br />\n        Click <a href=\""@ + link
        + "\"here</a> to confirm your account."@
}

/// The confirmation e-mail of a new user, to be sent to their address.
#[derive(Debug, Clone, PartialEq, Eq)]
pub struct ConfirmationEmail {
    pub subject: String,
    pub html_body: String,
    pub plain_body: String,
}

/// The confirmation link is the base URL, then the confirmation path, then the
/// token itself, character for character: nothing in the token is changed.
pub proof fn lemma_confirmation_link_carries_token(base_url: Seq<char>, user_token: Seq<char>)
    ensures
        confirmation_link_text(base_url, user_token).len() == base_url.len()
            + "/users/confirm?user_token="@.len() + user_token.len(),
        confirmation_link_text(base_url, user_token).take(base_url.len() as int) == base_url,
        confirmation_link_text(base_url, user_token).skip(
            (base_url.len() + "/users/confirm?user_token="@.len()) as int,
        ) == user_token,
{
    let link = confirmation_link_text(base_url, user_token);
    let path = "/users/confirm?user_token="@;
    assert(link.take(base_url.len() as int) =~= base_url);
    assert(link.skip((base_url.len() + path.len()) as int) =~= user_token);
}

/// The link that confirms the user holding `user_token`, under `base_url`.
pub fn confirmation_link(base_url: &str, user_token: &str) -> (link: String)
    ensures
        link@ == confirmation_link_text(base_url@, user_token@),
        link@ == base_url@ + "/users/confirm?user_token="@ + user_token@,
        link@.skip(link@.len() - user_token@.len()) == user_token@,
{
    let mut link = String::from_str(base_url);
    link.append("/users/confirm?user_token=");
    link.append(user_token);
    assert(link@.skip(link@.len() - user_token@.len()) =~= user_token@);
    link
}

/// The confirmation e-mail of the user holding `user_token`: both bodies
/// carry the link that confirms them.
pub fn confirmation_email(base_url: &str, user_token: &str) -> (email: ConfirmationEmail)
    ensures
        email.subject@ == welcome_subject(),
        email.plain_body@ == welcome_plain_body(confirmation_link_text(base_url@, user_token@)),
        email.html_body@ == welcome_html_body(confirmation_link_text(base_url@, user_token@)),
{
    let link = confirmation_link(base_url, user_token);
    let mut plain_body = String::from_str("Welcome to Claans!\nVisit ");
    plain_body.append(link.as_str());
    plain_body.append(" to confirm you account.");
    let mut html_body = String::from_str("Welcome to Claans!<br />\n        Click <a href=\"");
    html_body.append(link.as_str());
    html_body.append("\"here</a> to confirm your account.");
    ConfirmationEmail { subject: String::from_str("Welcome to Claans!"), html_body, plain_body }
}

} // verus!
