use vstd::prelude::*;

use crate::user::model::UserRegisterFormValidated;
use crate::user::validate::username::username_messages;
use crate::user::validate::{confirm_messages, password_messages, Password, Username};
use crate::validation::{
    items_view, ItemView, ValidateErrorItemTrait, ValidationErrorResponse,
    ValidationErrorsBuilder,
};

verus! {

/// A registration form, as it arrives.
#[derive(Debug, Clone)]
pub struct UserRegisterForm {
    pub username: String,
    pub password: String,
    pub password_confirm: String,
}

/// The item of `field` when it has messages, else nothing.
pub open spec fn item_if_any(field: Seq<char>, messages: Seq<Seq<char>>) -> Seq<ItemView> {
    if messages.len() > 0 {
        seq![(field, messages)]
    } else {
        Seq::empty()
    }
}

/// The error items of a registration, in the order username, password,
/// confirmation. The confirmation is compared with the password when the
/// password passed its rules, and with the empty text when it did not.
pub open spec fn register_errors(username: Seq<char>, password: Seq<char>, confirm: Seq<char>) -> Seq<
    ItemView,
> {
    let p = password_messages(password, "password"@);
    let base = if p.len() == 0 {
        password
    } else {
        Seq::empty()
    };
    item_if_any("username"@, username_messages(username, "username"@)) + item_if_any(
        "password"@,
        p,
    ) + item_if_any("password_confirm"@, confirm_messages(base, confirm, "password_confirm"@))
}

impl UserRegisterForm {
    /// Checks every field; fails with the items of every field that failed.
    pub fn as_validated(&self) -> (r: Result<UserRegisterFormValidated, ValidationErrorResponse>)
        ensures
            r is Ok <==> register_errors(self.username@, self.password@, self.password_confirm@).len()
                == 0,
            r matches Ok(v) ==> v.username@ == self.username@ && v.password@ == self.password@
                && v.password_confirm@ == self.password_confirm@,
            r matches Err(e) ==> items_view(e.0@) == register_errors(
                self.username@,
                self.password@,
                self.password_confirm@,
            ),
    {
        let mut builder = ValidationErrorsBuilder::new();
        let username = builder.add_item_from_trait(Username::parse(self.username.clone(), None));
        let password = builder.add_item_from_trait(Password::parse(self.password.clone(), None));
        let base = match &password {
            Ok(p) => Password::new_unchecked(String::from_str(p.as_str())),
            Err(_) => Password::new_unchecked(String::new()),
        };
        let password_confirm = builder.add_item_from_trait(
            base.parse_confirm(self.password_confirm.clone(), None),
        );
        assert(builder.spec_items() =~= register_errors(
            self.username@,
            self.password@,
            self.password_confirm@,
        ));
        match builder.build_result() {
            Err(e) => Err(e),
            Ok(()) => match (username, password, password_confirm) {
                (Ok(username), Ok(password), Ok(password_confirm)) => Ok(
                    UserRegisterFormValidated { username, password, password_confirm },
                ),
                _ => {
                    // No item was recorded, so every field passed.
                    proof {
                        assert(false);
                    }
                    Err(ValidationErrorResponse(Vec::new()))
                },
            },
        }
    }
}

} // verus!
