//! Request body shapes and their whole-body validation.
//!
//! Validating a body checks every field and collects every failure, in
//! field declaration order, into one field-to-message list; it never
//! stops at the first bad field.

use vstd::prelude::*;
use crate::response::{fields_match, FieldError};
use crate::validation::{
    content_error, email_error, password_error, title_error, username_error,
    validate_content_length, validate_email_length, validate_password_length,
    validate_title_length, validate_username_length,
};

verus! {

/// The (field, message) list a failed field contributes: one pair, or
/// nothing where the field passed.
pub open spec fn opt_field(field: Seq<char>, e: Option<Seq<char>>) -> Seq<(Seq<char>, Seq<char>)> {
    match e {
        Some(m) => seq![(field, m)],
        None => seq![],
    }
}

/// All field errors of a registration body, in declaration order.
pub open spec fn register_error_list(u: Seq<char>, e: Seq<char>, p: Seq<char>) -> Seq<(Seq<char>, Seq<char>)> {
    opt_field("username"@, username_error(u)) + opt_field("email"@, email_error(e))
        + opt_field("password"@, password_error(p))
}

/// All field errors of a login body, in declaration order.
pub open spec fn login_error_list(u: Seq<char>, p: Seq<char>) -> Seq<(Seq<char>, Seq<char>)> {
    opt_field("username"@, username_error(u)) + opt_field("password"@, password_error(p))
}

/// All field errors of a post body, in declaration order.
pub open spec fn post_error_list(t: Seq<char>, c: Seq<char>) -> Seq<(Seq<char>, Seq<char>)> {
    opt_field("title"@, title_error(t)) + opt_field("content"@, content_error(c))
}

/// All field errors of a comment body.
pub open spec fn comment_error_list(c: Seq<char>) -> Seq<(Seq<char>, Seq<char>)> {
    opt_field("content"@, content_error(c))
}

/// The body of a registration request.
#[derive(Debug, Clone)]
pub struct RegisterUserSchema {
    pub username: String,
    pub email: String,
    pub password: String,
}

impl RegisterUserSchema {
    pub fn validate(&self) -> (r: Result<(), Vec<FieldError>>)
        ensures
            r is Ok <==> register_error_list(self.username@, self.email@, self.password@).len() == 0,
            r matches Err(v) ==> fields_match(v@, register_error_list(self.username@, self.email@, self.password@)),
    {
        let mut errs: Vec<FieldError> = Vec::new();
        if let Err(e) = validate_username_length(self.username.as_str()) {
            errs.push(FieldError { field: "username".to_owned(), message: e.message });
        }
        if let Err(e) = validate_email_length(self.email.as_str()) {
            errs.push(FieldError { field: "email".to_owned(), message: e.message });
        }
        if let Err(e) = validate_password_length(self.password.as_str()) {
            errs.push(FieldError { field: "password".to_owned(), message: e.message });
        }
        if errs.len() == 0 {
            Ok(())
        } else {
            Err(errs)
        }
    }
}

/// The body of a login request.
#[derive(Debug, Clone)]
pub struct LoginUserSchema {
    pub username: String,
    pub password: String,
}

impl LoginUserSchema {
    pub fn validate(&self) -> (r: Result<(), Vec<FieldError>>)
        ensures
            r is Ok <==> login_error_list(self.username@, self.password@).len() == 0,
            r matches Err(v) ==> fields_match(v@, login_error_list(self.username@, self.password@)),
    {
        let mut errs: Vec<FieldError> = Vec::new();
        if let Err(e) = validate_username_length(self.username.as_str()) {
            errs.push(FieldError { field: "username".to_owned(), message: e.message });
        }
        if let Err(e) = validate_password_length(self.password.as_str()) {
            errs.push(FieldError { field: "password".to_owned(), message: e.message });
        }
        if errs.len() == 0 {
            Ok(())
        } else {
            Err(errs)
        }
    }
}

/// The body of a post creation request.
#[derive(Debug, Clone)]
pub struct PostSchema {
    pub title: String,
    pub content: String,
}

impl PostSchema {
    pub fn validate(&self) -> (r: Result<(), Vec<FieldError>>)
        ensures
            r is Ok <==> post_error_list(self.title@, self.content@).len() == 0,
            r matches Err(v) ==> fields_match(v@, post_error_list(self.title@, self.content@)),
    {
        let mut errs: Vec<FieldError> = Vec::new();
        if let Err(e) = validate_title_length(self.title.as_str()) {
            errs.push(FieldError { field: "title".to_owned(), message: e.message });
        }
        if let Err(e) = validate_content_length(self.content.as_str()) {
            errs.push(FieldError { field: "content".to_owned(), message: e.message });
        }
        if errs.len() == 0 {
            Ok(())
        } else {
            Err(errs)
        }
    }
}

/// The body of a comment creation request.
#[derive(Debug, Clone)]
pub struct CommentSchema {
    pub content: String,
}

impl CommentSchema {
    pub fn validate(&self) -> (r: Result<(), Vec<FieldError>>)
        ensures
            r is Ok <==> comment_error_list(self.content@).len() == 0,
            r matches Err(v) ==> fields_match(v@, comment_error_list(self.content@)),
    {
        let mut errs: Vec<FieldError> = Vec::new();
        if let Err(e) = validate_content_length(self.content.as_str()) {
            errs.push(FieldError { field: "content".to_owned(), message: e.message });
        }
        if errs.len() == 0 {
            Ok(())
        } else {
            Err(errs)
        }
    }
}

/// The body of a reaction request: the flag alone, with no rule to check.
#[derive(Debug, Clone, Copy, PartialEq, Eq, Structural)]
pub struct ReactPostSchema {
    pub is_like: bool,
}

impl ReactPostSchema {
    pub fn validate(&self) -> (r: Result<(), Vec<FieldError>>)
        ensures
            r is Ok,
    {
        Ok(())
    }
}

} // verus!
