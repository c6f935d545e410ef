//! The contract of a field primitive.

use crate::enums::data_feed_error::DataFeedError;
use vstd::prelude::*;

verus! {

/// A field primitive: a value that can tell whether it is valid.
pub trait TDataType {
    /// What `validate` reports of this value.
    spec fn validity(&self) -> Result<(), DataFeedError>;

    /// Checks the value against the rule of its type.
    fn validate(&self) -> (r: Result<(), DataFeedError>)
        ensures
            r == self.validity(),
    ;
}

} // verus!
