use vstd::prelude::*;

use crate::bucket_list::validate::{description_messages, name_messages, Description, Name};
use crate::validation::{
    items_view, ItemView, ValidateErrorItemTrait, ValidationErrorResponse,
    ValidationErrorsBuilder,
};

verus! {

/// One stored bucket-list entry; `timestamp` is in seconds since the Unix epoch, UTC.
#[derive(Debug)]
pub struct BucketListItem {
    pub id: i64,
    pub name: String,
    pub description: String,
    pub timestamp: i64,
}

/// A request to add an entry, as it arrives.
#[derive(Debug)]
pub struct AddToBucketList {
    pub name: String,
    pub description: String,
}

/// The error items of an entry request: one for each field that failed, name first.
pub open spec fn add_request_errors(name: Seq<char>, description: Seq<char>) -> Seq<ItemView> {
    let n = name_messages(name, "name"@);
    let d = description_messages(description, "description"@);
    (if n.len() > 0 {
        seq![("name"@, n)]
    } else {
        Seq::empty()
    }) + (if d.len() > 0 {
        seq![("description"@, d)]
    } else {
        Seq::empty()
    })
}

impl AddToBucketList {
    /// Checks both fields; fails with the items of every field that failed.
    pub fn to_validated(&self) -> (r: Result<AddToBucketListValidated, ValidationErrorResponse>)
        ensures
            r is Ok <==> add_request_errors(self.name@, self.description@).len() == 0,
            r matches Ok(v) ==> v.name@ == self.name@ && v.description@ == self.description@,
            r matches Err(e) ==> items_view(e.0@) == add_request_errors(
                self.name@,
                self.description@,
            ),
    {
        let mut builder = ValidationErrorsBuilder::new();
        let name = builder.add_item_from_trait(Name::parse(self.name.clone(), None));
        let description = builder.add_item_from_trait(
            Description::parse(self.description.clone(), None),
        );
        assert(builder.spec_items() =~= add_request_errors(self.name@, self.description@));
        match builder.build_result() {
            Err(e) => Err(e),
            Ok(()) => match (name, description) {
                (Ok(name), Ok(description)) => Ok(AddToBucketListValidated { name, description }),
                (Err(_), _) => {
                    // No item was recorded, so every field passed.
                    proof {
                        assert(false);
                    }
                    Err(ValidationErrorResponse(Vec::new()))
                },
                (_, Err(_)) => {
                    // No item was recorded, so every field passed.
                    proof {
                        assert(false);
                    }
                    Err(ValidationErrorResponse(Vec::new()))
                },
            },
        }
    }
}

/// An entry request whose fields passed their rules.
#[derive(Debug)]
pub struct AddToBucketListValidated {
    pub name: Name,
    pub description: Description,
}

} // verus!
