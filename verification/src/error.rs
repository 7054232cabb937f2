//! Errors of the library

use vstd::prelude::*;

verus! {

#[verifier::external_type_specification]
pub struct ExLcmsError(lcms2::Error);

/// Why an operation failed
pub enum GlycinError {
    /// Little CMS could not use a color profile
    Lcms(lcms2::Error),
    /// The operation was canceled, with a message if there is one
    Canceled(Option<String>),
}

} // verus!
