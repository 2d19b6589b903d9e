//! What clients send and what they are answered: the bodies of registration
//! and login, and the page of a listing.

use crate::error::{field_errors_view, FieldError, FieldErrorView};
use crate::validation::{
    email_accepted, has_length_at_least, has_length_between, is_email, length_at_least,
    length_between, note, violation,
};
use vstd::prelude::*;

verus! {

#[derive(Debug, Clone, PartialEq, Eq)]
pub struct RegisterRequest {
    pub email: String,
    pub first_name: String,
    pub last_name: String,
    pub password: String,
}

#[derive(Debug, Clone, PartialEq, Eq)]
pub struct RegisterResponse {
    pub status: String,
    pub message: String,
}

#[derive(Debug, Clone, PartialEq, Eq)]
pub struct LoginRequest {
    pub email: String,
    pub password: String,
}

#[derive(Debug, Clone, PartialEq, Eq)]
pub struct LoginResponse {
    pub access_token: String,
    pub token_type: String,
}

#[derive(Debug, Clone, PartialEq, Eq)]
pub struct UpdatePasswordRequest {
    pub email: String,
    pub current_password: String,
    pub new_password: String,
}

#[derive(Debug, Clone, PartialEq, Eq)]
pub struct ForgotPasswordRequest {
    pub email: String,
}

/// An answer that is no error: its HTTP status and its body.
#[derive(Debug, Clone, PartialEq, Eq)]
pub struct Reply<T> {
    pub status: u16,
    pub body: T,
}

/// Where a page of a listing starts and how long it is.
#[derive(Debug, Clone, Copy, PartialEq, Eq)]
pub struct Pagination {
    pub offset: Option<u64>,
    pub limit: Option<i64>,
}

impl RegisterRequest {
    /// The fields that break their rules, in the order email, first name,
    /// last name, password.
    pub open spec fn violations(&self) -> Seq<FieldErrorView> {
        violation(
            !email_accepted(self.email@),
            "email"@,
            self.email@,
            "email must be valid email"@,
        ) + violation(
            !length_between(self.first_name@, 1, 50),
            "first_name"@,
            self.first_name@,
            "first name length between 1 and 50"@,
        ) + violation(
            !length_between(self.last_name@, 2, 50),
            "last_name"@,
            self.last_name@,
            "last name length between 2 and 50"@,
        ) + violation(
            !length_at_least(self.password@, 12),
            "password"@,
            self.password@,
            "password is required and must be at least 12 characters"@,
        )
    }

    /// Every field that breaks its rule, not only the first.
    pub fn validate(&self) -> (r: Vec<FieldError>)
        ensures
            field_errors_view(r@) == self.violations(),
    {
        let mut errors: Vec<FieldError> = Vec::new();
        assert(field_errors_view(errors@) =~= Seq::empty());
        note(
            &mut errors,
            is_email(self.email.as_str()),
            "email",
            self.email.as_str(),
            "email must be valid email",
        );
        note(
            &mut errors,
            has_length_between(self.first_name.as_str(), 1, 50),
            "first_name",
            self.first_name.as_str(),
            "first name length between 1 and 50",
        );
        note(
            &mut errors,
            has_length_between(self.last_name.as_str(), 2, 50),
            "last_name",
            self.last_name.as_str(),
            "last name length between 2 and 50",
        );
        note(
            &mut errors,
            has_length_at_least(self.password.as_str(), 12),
            "password",
            self.password.as_str(),
            "password is required and must be at least 12 characters",
        );
        assert(field_errors_view(errors@) =~= self.violations());
        errors
    }
}

impl LoginRequest {
    /// The fields that break their rules, in the order email, password.
    pub open spec fn violations(&self) -> Seq<FieldErrorView> {
        violation(
            !email_accepted(self.email@),
            "email"@,
            self.email@,
            "email must be valid email"@,
        ) + violation(
            !length_at_least(self.password@, 12),
            "password"@,
            self.password@,
            "password is required and must be at least 12 characters"@,
        )
    }

    /// Every field that breaks its rule.
    pub fn validate(&self) -> (r: Vec<FieldError>)
        ensures
            field_errors_view(r@) == self.violations(),
    {
        let mut errors: Vec<FieldError> = Vec::new();
        assert(field_errors_view(errors@) =~= Seq::empty());
        note(
            &mut errors,
            is_email(self.email.as_str()),
            "email",
            self.email.as_str(),
            "email must be valid email",
        );
        note(
            &mut errors,
            has_length_at_least(self.password.as_str(), 12),
            "password",
            self.password.as_str(),
            "password is required and must be at least 12 characters",
        );
        assert(field_errors_view(errors@) =~= self.violations());
        errors
    }
}

impl UpdatePasswordRequest {
    /// The fields that break their rules, in the order email, current
    /// password, new password.
    pub open spec fn violations(&self) -> Seq<FieldErrorView> {
        violation(
            !email_accepted(self.email@),
            "email"@,
            self.email@,
            "email must be valid email"@,
        ) + violation(
            !length_at_least(self.current_password@, 12),
            "current_password"@,
            self.current_password@,
            "current password is required and must be at least 12 characters"@,
        ) + violation(
            !length_at_least(self.new_password@, 12),
            "new_password"@,
            self.new_password@,
            "new password is required and must be at least 12 characters"@,
        )
    }

    /// Every field that breaks its rule.
    pub fn validate(&self) -> (r: Vec<FieldError>)
        ensures
            field_errors_view(r@) == self.violations(),
    {
        let mut errors: Vec<FieldError> = Vec::new();
        assert(field_errors_view(errors@) =~= Seq::empty());
        note(
            &mut errors,
            is_email(self.email.as_str()),
            "email",
            self.email.as_str(),
            "email must be valid email",
        );
        note(
            &mut errors,
            has_length_at_least(self.current_password.as_str(), 12),
            "current_password",
            self.current_password.as_str(),
            "current password is required and must be at least 12 characters",
        );
        note(
            &mut errors,
            has_length_at_least(self.new_password.as_str(), 12),
            "new_password",
            self.new_password.as_str(),
            "new password is required and must be at least 12 characters",
        );
        assert(field_errors_view(errors@) =~= self.violations());
        errors
    }
}

impl ForgotPasswordRequest {
    /// The email, if it breaks its rule.
    pub open spec fn violations(&self) -> Seq<FieldErrorView> {
        violation(
            !email_accepted(self.email@),
            "email"@,
            self.email@,
            "email must be valid email"@,
        )
    }

    /// Every field that breaks its rule.
    pub fn validate(&self) -> (r: Vec<FieldError>)
        ensures
            field_errors_view(r@) == self.violations(),
    {
        let mut errors: Vec<FieldError> = Vec::new();
        assert(field_errors_view(errors@) =~= Seq::empty());
        note(
            &mut errors,
            is_email(self.email.as_str()),
            "email",
            self.email.as_str(),
            "email must be valid email",
        );
        assert(field_errors_view(errors@) =~= self.violations());
        errors
    }
}

} // verus!
