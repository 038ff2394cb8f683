use vstd::prelude::*;

use crate::bucket_list::model::{add_request_errors, AddToBucketList, BucketListItem};
use crate::bucket_list::repository::{listing_outcome, BucketListRepository, BucketListRepositoryError};
use crate::validation::{items_view, ValidationErrorResponse};

verus! {

/// Why adding an entry failed.
#[derive(Debug)]
pub enum AddBucketListRouteError {
    Repo(BucketListRepositoryError),
    Validate(ValidationErrorResponse),
}

/// Every entry of the bucket list, exactly as the repository lists it.
pub fn all_bucket_list(repo: &BucketListRepository) -> (r: Result<Vec<BucketListItem>, BucketListRepositoryError>)
    ensures
        listing_outcome(r),
{
    repo.get_all_from_bucket_list()
}

/// Validates `data` and stores it. A request that fails validation is answered
/// with its error items and never reaches the store.
pub fn add_bucket_list(data: &AddToBucketList, repo: &BucketListRepository) -> (r: Result<
    (),
    AddBucketListRouteError,
>)
    ensures
        add_request_errors(data.name@, data.description@).len() > 0 ==> (r matches Err(
            AddBucketListRouteError::Validate(e),
        ) && items_view(e.0@) == add_request_errors(data.name@, data.description@)),
        add_request_errors(data.name@, data.description@).len() == 0 ==> (r is Ok || r matches Err(
            AddBucketListRouteError::Repo(_),
        )),
{
    let validated = match data.to_validated() {
        Ok(v) => v,
        Err(e) => return Err(AddBucketListRouteError::Validate(e)),
    };
    match repo.add_to_bucket_list(&validated) {
        Ok(()) => Ok(()),
        Err(e) => Err(AddBucketListRouteError::Repo(e)),
    }
}

/// The bucket-list routes.
pub struct BucketListRoute;

impl BucketListRoute {
    /// Where the routes are mounted.
    pub fn mount_point() -> (r: &'static str)
        ensures
            r@ == "/bucket-list"@,
    {
        "/bucket-list"
    }
}

} // verus!
