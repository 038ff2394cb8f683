use vstd::prelude::*;

use crate::text::strings_view;
use crate::validation::{
    field_name_or, grapheme_count, length_messages, name_or, push_length_messages, ItemView,
    StrValidationExtension, ValidateErrorItem, ValidateErrorItemTrait,
};

verus! {

/// The messages that a bucket-list item description earns under the label `field`.
pub open spec fn description_messages(description: Seq<char>, field: Seq<char>) -> Seq<Seq<char>> {
    length_messages(
        field,
        grapheme_count(description),
        " is required"@,
        5,
        " must be at least 5 characters"@,
        100,
        " must be at most 100 characters"@,
    )
}

/// Why a description was rejected.
#[derive(Debug)]
pub struct DescriptionError(ValidateErrorItem);

impl View for DescriptionError {
    type V = ItemView;

    closed spec fn view(&self) -> ItemView {
        self.0@
    }
}

impl ValidateErrorItemTrait for DescriptionError {
    open spec fn error_item(&self) -> Option<ItemView> {
        Some(self@)
    }

    fn get_validate_error_item(&self) -> (r: Option<ValidateErrorItem>) {
        Some(self.0.copy())
    }
}

/// The description of a bucket-list item: 5 to 100 grapheme clusters.
#[derive(Debug)]
pub struct Description(String);

impl View for Description {
    type V = Seq<char>;

    closed spec fn view(&self) -> Seq<char> {
        self.0@
    }
}

impl Description {
    /// Checks `description`; the messages of a rejection are reported under
    /// `field_name` (by default `description`).
    pub fn parse(description: String, field_name: Option<String>) -> (r: Result<Self, DescriptionError>)
        ensures
            r is Ok <==> 5 <= grapheme_count(description@) <= 100,
            r is Ok <==> description_messages(description@, name_or(field_name, "description"@)).len() == 0,
            r matches Ok(n) ==> n@ == description@,
            description@.len() == 0 ==> (r matches Err(e) && e@ == (
                name_or(field_name, "description"@),
                seq![name_or(field_name, "description"@) + " is required"@],
            )),
            r matches Err(e) ==> e@ == (
                name_or(field_name, "description"@),
                description_messages(description@, name_or(field_name, "description"@)),
            ),
    {
        let field = field_name_or(field_name, "description");
        let mut messages: Vec<String> = Vec::new();
        assert(strings_view(messages@) =~= Seq::<Seq<char>>::empty());
        let count = description.as_string_validator().count_graphemes();
        push_length_messages(
            &mut messages,
            field.as_str(),
            count,
            " is required",
            5,
            " must be at least 5 characters",
            100,
            " must be at most 100 characters",
        );
        assert(strings_view(messages@) =~= description_messages(description@, field@));
        match ValidateErrorItem::from_vec(field, messages) {
            Some(item) => Err(DescriptionError(item)),
            None => Ok(Description(description)),
        }
    }

    pub fn as_str(&self) -> (r: &str)
        ensures
            r@ == self@,
    {
        self.0.as_str()
    }
}

} // verus!
