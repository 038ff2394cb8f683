use vstd::prelude::*;

use crate::dependency::{DependencyFlag, DependencyFlagData};

verus! {

/// For pages of the visitor only (login, registration): accounts are refused.
pub struct LoginFlag;

impl DependencyFlag for LoginFlag {
    open spec fn spec_feature_flag() -> Seq<char> {
        "default"@
    }

    open spec fn spec_use_forward() -> bool {
        false
    }

    open spec fn spec_allow_user() -> bool {
        false
    }

    open spec fn spec_allow_visitor() -> bool {
        true
    }

    fn build_flag_data() -> (r: DependencyFlagData) {
        DependencyFlagData::new("default", false, false, true)
    }
}

/// For pages of accounts only (logout): the visitor is refused.
pub struct LogoutFlag;

impl DependencyFlag for LogoutFlag {
    open spec fn spec_feature_flag() -> Seq<char> {
        "default"@
    }

    open spec fn spec_use_forward() -> bool {
        false
    }

    open spec fn spec_allow_user() -> bool {
        true
    }

    open spec fn spec_allow_visitor() -> bool {
        false
    }

    fn build_flag_data() -> (r: DependencyFlagData) {
        DependencyFlagData::new("default", false, true, false)
    }
}

} // verus!
