//! Assets that can be loaded by name.

use vstd::prelude::*;
use crate::model::AssetError;

verus! {

/// A value that can be loaded from the asset store by file name.
pub trait Resource: Sized {
    fn load(file_name: &str) -> Result<Self, AssetError>;
}

} // verus!
