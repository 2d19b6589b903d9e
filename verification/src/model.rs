//! The records the service keeps and hands out: identities, users, and the
//! pages of a user listing.

use crate::clock::rfc3339_now;
use crate::entropy::fresh_id;
use crate::error::{field_errors_view, FieldError, FieldErrorView};
use crate::text::texts;
use crate::validation::{
    has_length_at_least, has_length_between, length_at_least, length_between, note, violation,
};
use vstd::prelude::*;

verus! {

/// An identity: one registered principal, as it is stored.
#[derive(Debug, Clone, PartialEq, Eq)]
pub struct Auth {
    pub id: String,
    pub email: String,
    pub first_name: String,
    pub last_name: String,
    /// The Argon2 record of the password, never the password.
    pub password_hash: String,
    pub roles: Vec<String>,
    pub active: bool,
    pub reset_password: bool,
    /// Milliseconds since the Unix epoch.
    pub created_ts: i64,
    /// Milliseconds since the Unix epoch.
    pub updated_ts: i64,
}

/// What an identity holds, as text and numbers.
pub struct AuthView {
    pub id: Seq<char>,
    pub email: Seq<char>,
    pub first_name: Seq<char>,
    pub last_name: Seq<char>,
    pub password_hash: Seq<char>,
    pub roles: Seq<Seq<char>>,
    pub active: bool,
    pub reset_password: bool,
    pub created_ts: i64,
    pub updated_ts: i64,
}

impl View for Auth {
    type V = AuthView;

    open spec fn view(&self) -> AuthView {
        AuthView {
            id: self.id@,
            email: self.email@,
            first_name: self.first_name@,
            last_name: self.last_name@,
            password_hash: self.password_hash@,
            roles: texts(self.roles@),
            active: self.active,
            reset_password: self.reset_password,
            created_ts: self.created_ts,
            updated_ts: self.updated_ts,
        }
    }
}

/// A user of the directory, as it is stored and as a client sends it.
#[derive(Debug, Clone, PartialEq, Eq)]
pub struct User {
    pub id: Option<String>,
    pub name: String,
    pub location: String,
    pub title: String,
}

/// What a user holds, as text.
pub struct UserView {
    pub id: Option<Seq<char>>,
    pub name: Seq<char>,
    pub location: Seq<char>,
    pub title: Seq<char>,
}

impl View for User {
    type V = UserView;

    open spec fn view(&self) -> UserView {
        UserView {
            id: match self.id {
                Some(id) => Some(id@),
                None => None,
            },
            name: self.name@,
            location: self.location@,
            title: self.title@,
        }
    }
}

impl User {
    /// The fields that break their rules, in the order name, location.
    pub open spec fn violations(&self) -> Seq<FieldErrorView> {
        violation(
            !length_at_least(self.name@, 2),
            "name"@,
            self.name@,
            "Name must be have minimum of 3 characters"@,
        ) + violation(
            !length_between(self.location@, 2, 15),
            "location"@,
            self.location@,
            "Location character length between 2 and 15"@,
        )
    }

    /// Every field that breaks its rule.
    pub fn validate(&self) -> (r: Vec<FieldError>)
        ensures
            field_errors_view(r@) == self.violations(),
    {
        let mut errors: Vec<FieldError> = Vec::new();
        assert(field_errors_view(errors@) =~= Seq::empty());
        note(
            &mut errors,
            has_length_at_least(self.name.as_str(), 2),
            "name",
            self.name.as_str(),
            "Name must be have minimum of 3 characters",
        );
        note(
            &mut errors,
            has_length_between(self.location.as_str(), 2, 15),
            "location",
            self.location.as_str(),
            "Location character length between 2 and 15",
        );
        assert(field_errors_view(errors@) =~= self.violations());
        errors
    }
}

/// A user in a listing.
#[derive(Debug, Clone, PartialEq, Eq)]
pub struct Users {
    pub id: String,
    pub name: String,
    pub location: String,
    pub title: String,
}

/// One page of the user listing, with its place in the whole and the links
/// to the pages around it.
#[derive(Debug, Clone, PartialEq, Eq)]
pub struct UserListResponse {
    pub data: Vec<Users>,
    pub meta: Meta,
    pub _link: Link,
}

#[derive(Debug, Clone, PartialEq, Eq)]
pub struct Meta {
    pub offset: u64,
    pub limit: i64,
    pub total_results: u64,
    pub search_criteria: Option<String>,
    pub sort_by: Option<String>,
}

#[derive(Debug, Clone, PartialEq, Eq)]
pub struct Link {
    pub first: LinkHref,
    pub last: LinkHref,
    pub previous: Option<LinkHref>,
    pub next: Option<LinkHref>,
    pub self_link: LinkHref,
}

#[derive(Debug, Clone, PartialEq, Eq)]
pub struct LinkHref {
    pub href: String,
}

/// A greeting with an identifier and the time it was made.
#[derive(Debug, Clone, PartialEq, Eq)]
pub struct Message {
    pub id: String,
    pub message: String,
    pub time_stamp: String,
}

impl Message {
    /// The greeting with the given identifier and time.
    pub fn hello(id: String, time_stamp: String) -> (r: Message)
        ensures
            r.id@ == id@,
            r.message@ == "Hello world"@,
            r.time_stamp@ == time_stamp@,
    {
        Message { id, message: "Hello world".to_owned(), time_stamp }
    }
}

/// The greeting with a fresh identifier and the current time.
pub fn hello_message() -> (r: Message)
    ensures
        r.message@ == "Hello world"@,
        r.id@.len() == 21,
{
    Message::hello(fresh_id(), rfc3339_now())
}

} // verus!
