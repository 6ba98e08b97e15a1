//! The `getUpdates` long-polling request.

use vstd::prelude::*;

verus! {

/// Parameters of a `getUpdates` call.
pub struct GetUpdates {
    pub offset: Option<u32>,
    pub limit: Option<u32>,
    pub timeout: Option<u32>,
}

} // verus!
