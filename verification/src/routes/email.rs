//! Publishing an e-mail to every confirmed user.

use vstd::prelude::*;
use crate::domain::user_email::{invalid_email_message, is_valid_email, UserEmail};
use crate::routes::failure::{INTERNAL_SERVER_ERROR, UNAUTHORIZED};

verus! {

/// Why publishing failed.
#[derive(Debug)]
pub enum PublishError {
    /// The request carries no `Authorization` header.
    AuthError,
    /// Reading the users or sending to one of them failed.
    UnexpectedError(anyhow::Error),
}

/// The challenge that a request refused for want of authorization is answered with.
pub open spec fn publish_challenge() -> Seq<char> {
    "Basic realm=\"publish\""@
}

impl PublishError {
    /// The HTTP status of the failure: `401` for a missing authorization,
    /// `500` otherwise.
    pub fn status_code(&self) -> (code: u16)
        ensures
            self is AuthError ==> code == UNAUTHORIZED,
            self is UnexpectedError ==> code == INTERNAL_SERVER_ERROR,
    {
        match self {
            PublishError::AuthError => UNAUTHORIZED,
            PublishError::UnexpectedError(_) => INTERNAL_SERVER_ERROR,
        }
    }

    /// The `WWW-Authenticate` header of the answer: `Basic realm="publish"`
    /// for a missing authorization, none otherwise.
    pub fn www_authenticate(&self) -> (header: Option<&'static str>)
        ensures
            self is AuthError ==> (header matches Some(h) && h@ == publish_challenge()),
            self is UnexpectedError ==> header is None,
    {
        match self {
            PublishError::AuthError => Some("Basic realm=\"publish\""),
            PublishError::UnexpectedError(_) => None,
        }
    }
}

/// The `Authorization` header of a publish request, which must be present:
/// its value, or `AuthError` when the request carries none. The credentials
/// in it are not checked here.
pub fn require_authorization(header: Option<String>) -> (res: Result<String, PublishError>)
    ensures
        header matches Some(v) ==> res == Ok::<String, PublishError>(v),
        header is None ==> res matches Err(PublishError::AuthError),
{
    match header {
        Some(value) => Ok(value),
        None => Err(PublishError::AuthError),
    }
}

/// The body of a publish request.
#[derive(Debug, Clone, PartialEq, Eq)]
pub struct BodyData {
    pub title: String,
    pub content: Content,
}

/// The two renderings of the e-mail's text.
#[derive(Debug, Clone, PartialEq, Eq)]
pub struct Content {
    pub html: String,
    pub text: String,
}

/// A confirmed user whose stored address is an e-mail address.
#[derive(Debug)]
pub struct ConfirmedUser {
    pub email: UserEmail,
}

/// What reading a confirmed user's stored address gives: the user, or the
/// message that the address is no e-mail address.
pub open spec fn confirmed_user_matches(r: Result<ConfirmedUser, String>, stored: Seq<char>) -> bool {
    if is_valid_email(stored) {
        r matches Ok(u) && u.email@ == stored
    } else {
        r matches Err(m) && m@ == invalid_email_message(stored)
    }
}

/// The addresses of the confirmed users, as the database stored them, each
/// checked: one entry per stored address, in the same order.
pub fn get_confirmed_user_emails(stored: Vec<String>) -> (users: Vec<Result<ConfirmedUser, String>>)
    ensures
        users@.len() == stored@.len(),
        forall|i: int| 0 <= i < stored@.len() ==> confirmed_user_matches(#[trigger] users@[i], stored@[i]@),
{
    let mut users: Vec<Result<ConfirmedUser, String>> = Vec::new();
    let mut i: usize = 0;
    while i < stored.len()
        invariant
            i <= stored@.len(),
            users@.len() == i,
            forall|j: int| 0 <= j < i ==> confirmed_user_matches(#[trigger] users@[j], stored@[j]@),
        decreases stored@.len() - i,
    {
        let user = match UserEmail::parse(stored[i].clone()) {
            Ok(email) => Ok(ConfirmedUser { email }),
            Err(error) => Err(error),
        };
        users.push(user);
        i = i + 1;
    }
    users
}

/// The addresses that a publish sends to: those of the users whose stored
/// address was an e-mail address, in order. The others are skipped.
pub open spec fn recipients_of(users: Seq<Result<ConfirmedUser, String>>) -> Seq<Seq<char>>
    decreases users.len(),
{
    if users.len() == 0 {
        seq![]
    } else {
        let rest = recipients_of(users.drop_last());
        match users.last() {
            Ok(u) => rest.push(u.email@),
            Err(_) => rest,
        }
    }
}

/// The addresses that a publish sends to, in the order of `users`.
pub fn recipients(users: &Vec<Result<ConfirmedUser, String>>) -> (to: Vec<&UserEmail>)
    ensures
        to@.map_values(|e: &UserEmail| e@) == recipients_of(users@),
{
    let mut to: Vec<&UserEmail> = Vec::new();
    let mut i: usize = 0;
    while i < users.len()
        invariant
            i <= users@.len(),
            to@.map_values(|e: &UserEmail| e@) == recipients_of(users@.take(i as int)),
        decreases users@.len() - i,
    {
        assert(users@.take(i + 1).drop_last() =~= users@.take(i as int));
        match &users[i] {
            Ok(user) => {
                to.push(&user.email);
            },
            Err(_) => {},
        }
        assert(to@.map_values(|e: &UserEmail| e@) =~= recipients_of(users@.take(i + 1)));
        i = i + 1;
    }
    assert(users@.take(users@.len() as int) =~= users@);
    to
}

/// The stored addresses that are e-mail addresses, in order.
pub open spec fn valid_addresses(stored: Seq<Seq<char>>) -> Seq<Seq<char>> {
    stored.filter(|s: Seq<char>| is_valid_email(s))
}

/// A publish reaches exactly the confirmed users whose stored address is an
/// e-mail address, in the order in which they were read; a user whose stored
/// address is not one is skipped, and no one else is sent to.
pub proof fn lemma_publish_reaches_valid_addresses(
    stored: Seq<Seq<char>>,
    users: Seq<Result<ConfirmedUser, String>>,
)
    requires
        users.len() == stored.len(),
        forall|i: int| 0 <= i < stored.len() ==> confirmed_user_matches(#[trigger] users[i], stored[i]),
    ensures
        recipients_of(users) == valid_addresses(stored),
    decreases stored.len(),
{
    if stored.len() > 0 {
        let n = stored.len() - 1;
        assert(users.drop_last().len() == stored.drop_last().len());
        assert forall|i: int| 0 <= i < stored.drop_last().len() implies confirmed_user_matches(
            #[trigger] users.drop_last()[i],
            stored.drop_last()[i],
        ) by {
            assert(confirmed_user_matches(users[i], stored[i]));
        }
        lemma_publish_reaches_valid_addresses(stored.drop_last(), users.drop_last());
        assert(confirmed_user_matches(users[n], stored[n]));
        assert(users.last() == users[n]);
        assert(stored.last() == stored[n]);
        let p = |s: Seq<char>| is_valid_email(s);
        reveal(Seq::filter);
        assert(valid_addresses(stored) == stored.filter(p));
        assert(valid_addresses(stored.drop_last()) == stored.drop_last().filter(p));
        if is_valid_email(stored[n]) {
            assert(stored.filter(p) == stored.drop_last().filter(p).push(stored[n]));
        } else {
            assert(stored.filter(p) == stored.drop_last().filter(p));
        }
    } else {
        reveal(Seq::filter);
        assert(recipients_of(users) =~= valid_addresses(stored));
    }
}

/// The next step of a publish that walks `users` in order.
#[derive(Debug)]
pub enum PublishStep<'a> {
    /// Send the e-mail to this address, then take the step after it.
    Send(&'a UserEmail),
    /// Skip this user, whose stored address is no e-mail address; the text
    /// says why. Then take the step after it.
    Skip(&'a String),
    /// The delivery just attempted failed: stop, reporting it with this context.
    Stop(String),
    /// Every user has been dealt with.
    Finished,
}

/// The step of a publish at position `next` of `users`, given whether the
/// delivery to the user before it (`last_failed`) failed, and the position of
/// the step after it. A failed delivery stops the publish at once; otherwise
/// each user in turn is sent to or skipped, and the publish finishes after the
/// last. The addresses sent to before position `next` are
/// `recipients_of(users@.take(next))`: each step extends them by its own, and
/// when the walk finishes they are `recipients_of(users@)`.
pub fn publish_step<'a>(
    users: &'a Vec<Result<ConfirmedUser, String>>,
    next: usize,
    last_failed: bool,
) -> (res: (PublishStep<'a>, usize))
    requires
        next <= users@.len(),
        last_failed ==> next > 0 && users@[next - 1] is Ok,
    ensures
        last_failed ==> (res.0 matches PublishStep::Stop(context) && context@
            == delivery_failure_context(users@[next - 1]->Ok_0.email@)) && res.1 == next,
        !last_failed && next == users@.len() ==> res.0 is Finished && res.1 == next
            && recipients_of(users@.take(next as int)) == recipients_of(users@),
        !last_failed && next < users@.len() && users@[next as int] is Ok ==> (res.0 matches PublishStep::Send(e)
            && e == &users@[next as int]->Ok_0.email
            && recipients_of(users@.take(res.1 as int)) == recipients_of(users@.take(next as int)).push(e@))
            && res.1 == next + 1,
        !last_failed && next < users@.len() && users@[next as int] is Err ==> (res.0 matches PublishStep::Skip(m)
            && m == &users@[next as int]->Err_0)
            && recipients_of(users@.take(res.1 as int)) == recipients_of(users@.take(next as int))
            && res.1 == next + 1,
{
    if last_failed {
        match &users[next - 1] {
            Ok(user) => (PublishStep::Stop(delivery_failure(&user.email)), next),
            Err(_) => {
                proof {
                    assert(false);
                }
                (PublishStep::Finished, next)
            },
        }
    } else if next == users.len() {
        assert(users@.take(next as int) =~= users@);
        (PublishStep::Finished, next)
    } else {
        assert(users@.take(next + 1).drop_last() =~= users@.take(next as int));
        match &users[next] {
            Ok(user) => (PublishStep::Send(&user.email), next + 1),
            Err(error) => (PublishStep::Skip(error), next + 1),
        }
    }
}

/// The addresses that a publish walk with no failed delivery has sent to after
/// its first `n` steps: step `i` sends to the address of `users[i]` when that
/// user was read as valid, and skips it otherwise.
pub open spec fn walked_sends(users: Seq<Result<ConfirmedUser, String>>, n: nat) -> Seq<Seq<char>>
    decreases n,
{
    if n == 0 {
        seq![]
    } else {
        let prev = walked_sends(users, (n - 1) as nat);
        match users[n - 1] {
            Ok(u) => prev.push(u.email@),
            Err(_) => prev,
        }
    }
}

/// Walking `publish_step` from position 0 with no failed delivery sends, after
/// `n` steps, to `recipients_of` the first `n` users; when it finishes it has
/// sent to exactly `recipients_of(users)`, in order, and to no one else.
pub proof fn lemma_walk_sends_recipients(users: Seq<Result<ConfirmedUser, String>>, n: nat)
    requires
        n <= users.len(),
    ensures
        walked_sends(users, n) == recipients_of(users.take(n as int)),
        n == users.len() ==> walked_sends(users, n) == recipients_of(users),
    decreases n,
{
    if n > 0 {
        lemma_walk_sends_recipients(users, (n - 1) as nat);
        assert(users.take(n as int).drop_last() =~= users.take(n - 1));
        assert(users.take(n as int).last() == users[n - 1]);
    } else {
        assert(users.take(0) =~= Seq::<Result<ConfirmedUser, String>>::empty());
    }
    if n == users.len() {
        assert(users.take(n as int) =~= users);
    }
}

/// The context that a failed delivery to `email` is reported with.
pub open spec fn delivery_failure_context(email: Seq<char>) -> Seq<char> {
    "Failed to send email to "@ + email
}

/// The context with which a failed delivery to `email` is reported.
pub fn delivery_failure(email: &UserEmail) -> (context: String)
    ensures
        context@ == delivery_failure_context(email@),
{
    let mut context = String::from_str("Failed to send email to ");
    context.append(email.as_ref());
    context
}

} // verus!
