use vstd::prelude::*;

use crate::text::{replace_underscores, strings_view, underscores_to_spaces, has_in_class, CharClass};
use crate::validation::{
    field_name_or, grapheme_count, length_messages, name_or, push_length_messages, push_rule, rule,
    ItemView, StrValidationExtension, ValidateErrorItem, ValidateErrorItemTrait,
};

pub mod username;

pub use username::{username_messages, Username, UsernameError};

verus! {

/// The messages that a password earns under the field `field`; the label in
/// the messages is the field name with underscores turned into spaces.
pub open spec fn password_messages(password: Seq<char>, field: Seq<char>) -> Seq<Seq<char>> {
    let label = underscores_to_spaces(field);
    let count = grapheme_count(password);
    length_messages(
        label,
        count,
        " cannot be empty"@,
        8,
        " must be at least 8 characters"@,
        64,
        " must be at most 64 characters"@,
    ) + if count == 0 {
        Seq::empty()
    } else {
        rule(
            !(has_in_class(password, CharClass::AsciiUppercase) && has_in_class(
                password,
                CharClass::AsciiLowercase,
            )),
            label + " must contain at least one uppercase and lowercase letter"@,
        ) + rule(
            !has_in_class(password, CharClass::Special),
            label + " must contain at least one special character"@,
        ) + rule(!has_in_class(password, CharClass::AsciiDigit), label + " must contain at least one digit"@)
    }
}

/// Whether a password meets every rule.
pub open spec fn password_acceptable(password: Seq<char>) -> bool {
    &&& 8 <= grapheme_count(password) <= 64
    &&& has_in_class(password, CharClass::AsciiUppercase)
    &&& has_in_class(password, CharClass::AsciiLowercase)
    &&& has_in_class(password, CharClass::Special)
    &&& has_in_class(password, CharClass::AsciiDigit)
}

/// The messages of a confirmation that differs from the password.
pub open spec fn confirm_messages(password: Seq<char>, confirm: Seq<char>, field: Seq<char>) -> Seq<
    Seq<char>,
> {
    rule(confirm != password, underscores_to_spaces(field) + " does not match"@)
}

/// Why a password or its confirmation was rejected.
#[derive(Debug)]
pub struct PasswordError(ValidateErrorItem);

impl View for PasswordError {
    type V = ItemView;

    closed spec fn view(&self) -> ItemView {
        self.0@
    }
}

impl ValidateErrorItemTrait for PasswordError {
    open spec fn error_item(&self) -> Option<ItemView> {
        Some(self@)
    }

    fn get_validate_error_item(&self) -> (r: Option<ValidateErrorItem>) {
        Some(self.0.copy())
    }
}

/// A password in clear text.
#[derive(Debug)]
pub struct Password(String);

impl View for Password {
    type V = Seq<char>;

    closed spec fn view(&self) -> Seq<char> {
        self.0@
    }
}

impl Password {
    /// Wraps a password without checking the rules.
    pub fn new_unchecked(password: String) -> (r: Self)
        ensures
            r@ == password@,
    {
        Password(password)
    }

    /// Checks `password`; the messages of a rejection are reported under
    /// `field_name` (by default `password`).
    pub fn parse(password: String, field_name: Option<String>) -> (r: Result<Self, PasswordError>)
        ensures
            r is Ok <==> password_acceptable(password@),
            r is Ok <==> password_messages(password@, name_or(field_name, "password"@)).len() == 0,
            r matches Ok(p) ==> p@ == password@,
            password@.len() == 0 ==> (r matches Err(e) && e@ == (
                name_or(field_name, "password"@),
                seq![underscores_to_spaces(name_or(field_name, "password"@)) + " cannot be empty"@],
            )),
            r matches Err(e) ==> e@ == (
                name_or(field_name, "password"@),
                password_messages(password@, name_or(field_name, "password"@)),
            ),
    {
        let field = field_name_or(field_name, "password");
        let label = replace_underscores(field.as_str());
        let mut messages: Vec<String> = Vec::new();
        assert(strings_view(messages@) =~= Seq::<Seq<char>>::empty());
        let validator = password.as_string_validator();
        let count = validator.count_graphemes();
        push_length_messages(
            &mut messages,
            label.as_str(),
            count,
            " cannot be empty",
            8,
            " must be at least 8 characters",
            64,
            " must be at most 64 characters",
        );
        let ghost lengths = strings_view(messages@);
        if count != 0 {
            push_rule(
                &mut messages,
                !validator.has_ascii_uppercase_and_lowercase(),
                label.as_str(),
                " must contain at least one uppercase and lowercase letter",
            );
            push_rule(
                &mut messages,
                !validator.has_special_chars(),
                label.as_str(),
                " must contain at least one special character",
            );
            push_rule(
                &mut messages,
                !validator.has_ascii_digit(),
                label.as_str(),
                " must contain at least one digit",
            );
        }
        assert(strings_view(messages@) =~= password_messages(password@, field@));
        match ValidateErrorItem::from_vec(field, messages) {
            Some(item) => Err(PasswordError(item)),
            None => Ok(Password(password)),
        }
    }

    /// Checks that `password_confirm` repeats this password; the message of a
    /// rejection is reported under `field_name` (by default `password_confirm`).
    pub fn parse_confirm(&self, password_confirm: String, field_name: Option<String>) -> (r: Result<
        Self,
        PasswordError,
    >)
        ensures
            r is Ok <==> password_confirm@ == self@,
            r matches Ok(p) ==> p@ == password_confirm@,
            r matches Err(e) ==> e@ == (
                name_or(field_name, "password_confirm"@),
                confirm_messages(self@, password_confirm@, name_or(field_name, "password_confirm"@)),
            ),
    {
        let field = field_name_or(field_name, "password_confirm");
        let label = replace_underscores(field.as_str());
        let mut messages: Vec<String> = Vec::new();
        assert(strings_view(messages@) =~= Seq::<Seq<char>>::empty());
        let same = password_confirm == self.0;
        push_rule(&mut messages, !same, label.as_str(), " does not match");
        assert(strings_view(messages@) =~= confirm_messages(self@, password_confirm@, field@));
        match ValidateErrorItem::from_vec(field, messages) {
            Some(item) => Err(PasswordError(item)),
            None => Ok(Password(password_confirm)),
        }
    }

    pub fn as_str(&self) -> (r: &str)
        ensures
            r@ == self@,
    {
        self.0.as_str()
    }
}

} // verus!
