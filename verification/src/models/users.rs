//! Users, and how a user is written out.

use vstd::prelude::*;
use chrono::NaiveDateTime;
use crate::models::claans::Claan;
use crate::crud::claans::read::list_claan;
use crate::crud::db_error::{is_fatal, DbError};

verus! {

/// A stored user.
#[derive(Debug, PartialEq, Eq, PartialOrd, Ord)]
pub struct User {
    pub id: i32,
    pub name: String,
    pub claan_id: i32,
    pub email: String,
    pub password_hash: Vec<u8>,
    pub active: bool,
    pub current_auth_token: Option<String>,
    pub created_at: NaiveDateTime,
    pub updated_at: NaiveDateTime,
    pub last_action: Option<NaiveDateTime>,
}

/// A user that is yet to be stored.
#[derive(Debug, PartialEq, Eq)]
pub struct NewUser {
    pub name: String,
    pub claan_id: i32,
    pub email: String,
    pub password_hash: Vec<u8>,
    pub active: bool,
}

/// How a user is written out, given the name of the claan shown for them.
pub open spec fn user_display(name: Seq<char>, email: Seq<char>, claan_name: Seq<char>) -> Seq<char> {
    "<User "@ + name + ", "@ + email + ", in "@ + claan_name
}

/// The written-out user holds the name, the address and the claan name
/// verbatim, each at its place between the fixed texts `<User `, `, ` and `, in `.
pub proof fn lemma_user_display_verbatim(name: Seq<char>, email: Seq<char>, claan_name: Seq<char>)
    ensures
        user_display(name, email, claan_name).len() == 6int + name.len() + 2 + email.len() + 5
            + claan_name.len(),
        user_display(name, email, claan_name).take(6) == "<User "@,
        user_display(name, email, claan_name).subrange(6, 6int + name.len()) == name,
        user_display(name, email, claan_name).subrange(6int + name.len(), 8int + name.len()) == ", "@,
        user_display(name, email, claan_name).subrange(8int + name.len(), 8int + name.len() + email.len())
            == email,
        user_display(name, email, claan_name).subrange(
            8int + name.len() + email.len(),
            13int + name.len() + email.len(),
        ) == ", in "@,
        user_display(name, email, claan_name).skip(13int + name.len() + email.len()) == claan_name,
{
    reveal_strlit("<User ");
    reveal_strlit(", ");
    reveal_strlit(", in ");
    let s = user_display(name, email, claan_name);
    assert(s.take(6) =~= "<User "@);
    assert(s.subrange(6, 6int + name.len()) =~= name);
    assert(s.subrange(6int + name.len(), 8int + name.len()) =~= ", "@);
    assert(s.subrange(8int + name.len(), 8int + name.len() + email.len()) =~= email);
    assert(s.subrange(8int + name.len() + email.len(), 13int + name.len() + email.len()) =~= ", in "@);
    assert(s.skip(13int + name.len() + email.len()) =~= claan_name);
}

/// The claan name shown for a user whose claan lookup gave `claan`.
pub open spec fn shown_claan_name(claan: Option<Claan>) -> Seq<char> {
    match claan {
        Some(c) => c.name@,
        None => "no claan"@,
    }
}

impl User {
    /// The user's claan, given what the database gave for `self.claan_id`:
    /// the claan if it was found, none if it was not (the lookup by id answers
    /// with a not-found response, which is dropped).
    pub fn get_claan(&self, found: Result<Claan, DbError>) -> (claan: Option<Claan>)
        requires
            !(found matches Err(e) && is_fatal(e)),
        ensures
            found matches Ok(c) ==> claan == Some(c),
            found is Err ==> claan is None,
    {
        match list_claan(self.claan_id, found) {
            Ok(claan) => Some(claan),
            Err(_) => None,
        }
    }

    /// The user written out as `<User {name}, {email}, in {claan name}`,
    /// where the claan name is `no claan` when the claan was not found.
    pub fn to_display_string(&self, claan: Option<Claan>) -> (s: String)
        ensures
            s@ == user_display(self.name@, self.email@, shown_claan_name(claan)),
    {
        let claan_name: String = match claan {
            Some(c) => c.name,
            None => String::from_str("no claan"),
        };
        let mut s = String::from_str("<User ");
        s.append(self.name.as_str());
        s.append(", ");
        s.append(self.email.as_str());
        s.append(", in ");
        s.append(claan_name.as_str());
        s
    }
}

} // verus!
