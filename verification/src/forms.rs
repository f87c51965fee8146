//! The rules that the application's forms and lists go by: which fields
//! must be filled in, and which filter of a list means "all".

use vstd::prelude::*;

use crate::text::{chars_of, same, skip_run, trimmed, CharClass};

verus! {

/// Why a form is refused before it reaches the store.
#[derive(Debug, Clone, Copy, PartialEq, Eq, Structural)]
pub enum FormError {
    /// A field of a form whose fields are all required is blank.
    FieldsRequired,
    /// The name or the password of a login is blank.
    CredentialsRequired,
    /// The new name of a profile is blank.
    EmptyUsername,
    /// The new password of a profile is blank.
    EmptyPassword,
}

impl FormError {
    /// The message that the user is shown.
    pub fn message(&self) -> (m: &'static str)
        ensures
            m@ == match self {
                FormError::FieldsRequired => "All fields are required"@,
                FormError::CredentialsRequired => "Username and password are required"@,
                FormError::EmptyUsername => "Username cannot be empty"@,
                FormError::EmptyPassword => "Password cannot be empty"@,
            },
    {
        match self {
            FormError::FieldsRequired => "All fields are required",
            FormError::CredentialsRequired => "Username and password are required",
            FormError::EmptyUsername => "Username cannot be empty",
            FormError::EmptyPassword => "Password cannot be empty",
        }
    }
}

/// Whether a text holds nothing but white space.
pub open spec fn is_blank(text: Seq<char>) -> bool {
    trimmed(text, CharClass::Space).len() == 0
}

/// Whether `text` holds nothing but white space.
pub fn blank(text: &str) -> (b: bool)
    ensures
        b == is_blank(text@),
{
    let chars = chars_of(text);
    let start = skip_run(chars.as_slice(), CharClass::Space, 0);
    proof {
        crate::text::lemma_run_end(chars@, CharClass::Space, 0);
        crate::text::lemma_run_start(
            chars@,
            CharClass::Space,
            start as int,
            chars@.len() as int,
        );
    }
    start >= chars.len()
}

/// A registration and a password reset need all of their three fields.
pub fn check_all_fields(first: &str, second: &str, third: &str) -> (r: Result<(), FormError>)
    ensures
        r is Err <==> is_blank(first@) || is_blank(second@) || is_blank(third@),
        r matches Err(e) ==> e == FormError::FieldsRequired,
{
    if blank(first) || blank(second) || blank(third) {
        Err(FormError::FieldsRequired)
    } else {
        Ok(())
    }
}

/// A login needs a name and a password.
pub fn check_credentials(username: &str, password: &str) -> (r: Result<(), FormError>)
    ensures
        r is Err <==> is_blank(username@) || is_blank(password@),
        r matches Err(e) ==> e == FormError::CredentialsRequired,
{
    if blank(username) || blank(password) {
        Err(FormError::CredentialsRequired)
    } else {
        Ok(())
    }
}

/// A change of profile may leave out the name, the password or both; one
/// that is given must not be blank. A blank name is reported before a blank
/// password.
pub fn check_profile(new_username: Option<&str>, new_password: Option<&str>) -> (r: Result<
    (),
    FormError,
>)
    ensures
        r == profile_check(
            match new_username {
                Some(name) => Some(name@),
                None => None,
            },
            match new_password {
                Some(password) => Some(password@),
                None => None,
            },
        ),
{
    match new_username {
        Some(name) => {
            if blank(name) {
                return Err(FormError::EmptyUsername);
            }
        },
        None => {},
    }
    match new_password {
        Some(password) => {
            if blank(password) {
                return Err(FormError::EmptyPassword);
            }
        },
        None => {},
    }
    Ok(())
}

/// What the check of a change of profile gives.
pub open spec fn profile_check(
    new_username: Option<Seq<char>>,
    new_password: Option<Seq<char>>,
) -> Result<(), FormError> {
    if new_username matches Some(name) && is_blank(name) {
        Err(FormError::EmptyUsername)
    } else if new_password matches Some(password) && is_blank(password) {
        Err(FormError::EmptyPassword)
    } else {
        Ok(())
    }
}

/// The platform that a list of favorites is narrowed to: none where the
/// filter is missing, empty or `all`.
pub open spec fn platform_filter(platform: Option<Seq<char>>) -> Option<Seq<char>> {
    match platform {
        Some(p) => if p.len() > 0 && p != "all"@ {
            Some(p)
        } else {
            None
        },
        None => None,
    }
}

/// The platform that a list of favorites is narrowed to.
pub fn favorites_filter(platform: Option<&str>) -> (r: Option<String>)
    ensures
        crate::models::text_view(r) == platform_filter(
            match platform {
                Some(p) => Some(p@),
                None => None,
            },
        ),
{
    match platform {
        Some(p) => {
            let chars = chars_of(p);
            let all = chars_of("all");
            if chars.len() > 0 && !same(chars.as_slice(), all.as_slice()) {
                Some(p.to_owned())
            } else {
                None
            }
        },
        None => None,
    }
}

} // verus!
