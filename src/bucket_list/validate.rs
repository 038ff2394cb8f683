use vstd::prelude::*;

use crate::text::strings_view;
use crate::validation::{
    field_name_or, grapheme_count, length_messages, name_or, push_length_messages, ItemView,
    StrValidationExtension, ValidateErrorItem, ValidateErrorItemTrait,
};

pub mod description;

pub use description::{description_messages, Description, DescriptionError};

verus! {

/// The messages that a bucket-list item name earns under the label `field`.
pub open spec fn name_messages(name: Seq<char>, field: Seq<char>) -> Seq<Seq<char>> {
    length_messages(
        field,
        grapheme_count(name),
        " is required"@,
        5,
        " must be at least 5 characters"@,
        20,
        " must be at most 20 characters"@,
    )
}

/// Why a name was rejected.
#[derive(Debug)]
pub struct NameError(ValidateErrorItem);

impl View for NameError {
    type V = ItemView;

    closed spec fn view(&self) -> ItemView {
        self.0@
    }
}

impl ValidateErrorItemTrait for NameError {
    open spec fn error_item(&self) -> Option<ItemView> {
        Some(self@)
    }

    fn get_validate_error_item(&self) -> (r: Option<ValidateErrorItem>) {
        Some(self.0.copy())
    }
}

/// The name of a bucket-list item: 5 to 20 grapheme clusters.
#[derive(Debug)]
pub struct Name(String);

impl View for Name {
    type V = Seq<char>;

    closed spec fn view(&self) -> Seq<char> {
        self.0@
    }
}

impl Name {
    /// Checks `name`; the messages of a rejection are reported under
    /// `field_name` (by default `name`).
    pub fn parse(name: String, field_name: Option<String>) -> (r: Result<Self, NameError>)
        ensures
            r is Ok <==> 5 <= grapheme_count(name@) <= 20,
            r is Ok <==> name_messages(name@, name_or(field_name, "name"@)).len() == 0,
            r matches Ok(n) ==> n@ == name@,
            name@.len() == 0 ==> (r matches Err(e) && e@ == (
                name_or(field_name, "name"@),
                seq![name_or(field_name, "name"@) + " is required"@],
            )),
            r matches Err(e) ==> e@ == (
                name_or(field_name, "name"@),
                name_messages(name@, name_or(field_name, "name"@)),
            ),
    {
        let field = field_name_or(field_name, "name");
        let mut messages: Vec<String> = Vec::new();
        assert(strings_view(messages@) =~= Seq::<Seq<char>>::empty());
        let count = name.as_string_validator().count_graphemes();
        push_length_messages(
            &mut messages,
            field.as_str(),
            count,
            " is required",
            5,
            " must be at least 5 characters",
            20,
            " must be at most 20 characters",
        );
        assert(strings_view(messages@) =~= name_messages(name@, field@));
        match ValidateErrorItem::from_vec(field, messages) {
            Some(item) => Err(NameError(item)),
            None => Ok(Name(name)),
        }
    }

    pub fn as_str(&self) -> (r: &str)
        ensures
            r@ == self@,
    {
        self.0.as_str()
    }
}

} // verus!
