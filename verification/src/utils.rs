//! Small account helpers shared by the handlers.  The funding primitive
//! that creates and assigns accounts is the host's and lives with it;
//! only the ownership check is the controller's own logic.

use vstd::prelude::*;

use crate::addr::Address;
use crate::error::PoolError;
use crate::state::Account;

verus! {

/// Rejects an account owned by any subsystem other than the expected one.
pub fn assert_owned_by(account: &Account, owner: &Address) -> (r: Result<(), PoolError>)
    ensures
        r == if account.owner@ != owner@ {
            Err::<(), PoolError>(PoolError::IllegalOwner)
        } else {
            Ok::<(), PoolError>(())
        },
{
    if !(account.owner == *owner) {
        Err(PoolError::IllegalOwner)
    } else {
        Ok(())
    }
}

} // verus!
