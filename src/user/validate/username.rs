use vstd::prelude::*;

use crate::text::{replace_underscores, strings_view, underscores_to_spaces};
use crate::validation::{
    field_name_or, grapheme_count, length_messages, name_or, push_length_messages, ItemView,
    StrValidationExtension, ValidateErrorItem, ValidateErrorItemTrait,
};

verus! {

/// The messages that a username earns under the field `field`; the label in
/// the messages is the field name with underscores turned into spaces.
pub open spec fn username_messages(username: Seq<char>, field: Seq<char>) -> Seq<Seq<char>> {
    length_messages(
        underscores_to_spaces(field),
        grapheme_count(username),
        " cannot be empty"@,
        5,
        " must be at least 5 characters"@,
        30,
        " must be at most 30 characters"@,
    )
}

/// The error item of a username that is already taken.
pub open spec fn username_taken_item(field: Seq<char>) -> ItemView {
    (field, seq![underscores_to_spaces(field) + " is already taken"@])
}

/// Why a username was rejected.
#[derive(Debug)]
pub struct UsernameError(ValidateErrorItem);

impl View for UsernameError {
    type V = ItemView;

    closed spec fn view(&self) -> ItemView {
        self.0@
    }
}

impl ValidateErrorItemTrait for UsernameError {
    open spec fn error_item(&self) -> Option<ItemView> {
        Some(self@)
    }

    fn get_validate_error_item(&self) -> (r: Option<ValidateErrorItem>) {
        Some(self.0.copy())
    }
}

/// An account name: 5 to 30 grapheme clusters.
#[derive(Debug)]
pub struct Username(String);

impl View for Username {
    type V = Seq<char>;

    closed spec fn view(&self) -> Seq<char> {
        self.0@
    }
}

impl Username {
    /// Checks `username`; the messages of a rejection are reported under
    /// `field_name` (by default `username`).
    pub fn parse(username: String, field_name: Option<String>) -> (r: Result<Self, UsernameError>)
        ensures
            r is Ok <==> 5 <= grapheme_count(username@) <= 30,
            r is Ok <==> username_messages(username@, name_or(field_name, "username"@)).len() == 0,
            r matches Ok(u) ==> u@ == username@,
            username@.len() == 0 ==> (r matches Err(e) && e@ == (
                name_or(field_name, "username"@),
                seq![underscores_to_spaces(name_or(field_name, "username"@)) + " cannot be empty"@],
            )),
            r matches Err(e) ==> e@ == (
                name_or(field_name, "username"@),
                username_messages(username@, name_or(field_name, "username"@)),
            ),
    {
        let field = field_name_or(field_name, "username");
        let label = replace_underscores(field.as_str());
        let mut messages: Vec<String> = Vec::new();
        assert(strings_view(messages@) =~= Seq::<Seq<char>>::empty());
        let count = username.as_string_validator().count_graphemes();
        push_length_messages(
            &mut messages,
            label.as_str(),
            count,
            " cannot be empty",
            5,
            " must be at least 5 characters",
            30,
            " must be at most 30 characters",
        );
        assert(strings_view(messages@) =~= username_messages(username@, field@));
        match ValidateErrorItem::from_vec(field, messages) {
            Some(item) => Err(UsernameError(item)),
            None => Ok(Username(username)),
        }
    }

    pub fn as_str(&self) -> (r: &str)
        ensures
            r@ == self@,
    {
        self.0.as_str()
    }
}

/// Rejects `username` as taken when `taken` holds; the message is reported
/// under `field_name` (by default `username`).
pub fn username_taken_check(username: Username, taken: bool, field_name: Option<String>) -> (r:
    Result<Username, UsernameError>)
    ensures
        !taken ==> r == Ok::<Username, UsernameError>(username),
        taken ==> (r matches Err(e) && e@ == username_taken_item(name_or(field_name, "username"@))),
{
    let field = field_name_or(field_name, "username");
    if taken {
        let label = replace_underscores(field.as_str());
        let mut messages: Vec<String> = Vec::new();
        messages.push(crate::text::labelled(label.as_str(), " is already taken"));
        let ghost f = field@;
        assert(strings_view(messages@) =~= username_taken_item(f).1);
        match ValidateErrorItem::from_vec(field, messages) {
            Some(item) => Err(UsernameError(item)),
            None => Ok(username),
        }
    } else {
        Ok(username)
    }
}

/// Tells whether an account name is in use.
pub trait IsUsernameTaken {
    fn is_username_taken(&self, username: &str) -> bool;
}

/// Adds the "already taken" check to the result of `Username::parse`.
pub trait UsernameCheckResult: Sized {
    fn check_username_result<T: IsUsernameTaken>(self, service: &T, field_name: Option<String>) -> (r:
        Self)
    ;
}

/// A rejected username stays rejected; an accepted one is put to `service` once
/// and is either kept or rejected as taken.
pub fn check_username<T: IsUsernameTaken>(
    result: Result<Username, UsernameError>,
    service: &T,
    field_name: Option<String>,
) -> (r: Result<Username, UsernameError>)
    ensures
        result is Err ==> r == result,
        result matches Ok(v) ==> (r == Ok::<Username, UsernameError>(v) || (r matches Err(e)
            && e@ == username_taken_item(name_or(field_name, "username"@)))),
{
    match result {
        Ok(v) => {
            let taken = service.is_username_taken(v.as_str());
            username_taken_check(v, taken, field_name)
        },
        Err(e) => Err(e),
    }
}

impl UsernameCheckResult for Result<Username, UsernameError> {
    fn check_username_result<T: IsUsernameTaken>(self, service: &T, field_name: Option<String>) -> (r:
        Self) {
        check_username(self, service, field_name)
    }
}

} // verus!
