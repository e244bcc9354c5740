//! The route that answers with the server's shared state.

use crate::routes::SharedData;
use vstd::prelude::*;

verus! {

/// Gives the shared string as it stands. The shared state is only read:
/// every call on one state gives the same text.
pub fn access_shared_data(shared_data: &SharedData) -> (body: String)
    ensures
        body@ == shared_data.data_one@,
{
    shared_data.data_one.clone()
}

} // verus!
