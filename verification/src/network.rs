//! The network that the managed containers share.

use crate::error::{EngineError, Error};
use vstd::prelude::*;

verus! {

/// The status with which the engine answers when the network exists already.
pub const CONFLICT_STATUS_CODE: u16 = 409;

/// The name of the shared network.
pub const DPLOY_NETWORK: &'static str = "dploy_default";

/// What creating the shared network amounts to, given the engine's answer:
/// a network that exists already is as good as a new one, and every other
/// failure of the engine is fatal.
pub fn create_dploy_network(answer: Result<(), EngineError>) -> (outcome: Result<(), Error>)
    ensures
        match answer {
            Ok(_) => outcome is Ok,
            Err(error) => if error.status_code == Some(CONFLICT_STATUS_CODE) {
                outcome is Ok
            } else {
                outcome == Err::<(), Error>(Error::Engine(error))
            },
        },
{
    match answer {
        Ok(_) => Ok(()),
        Err(error) => {
            let conflict = match error.status_code {
                Some(code) => code == CONFLICT_STATUS_CODE,
                None => false,
            };
            if conflict {
                Ok(())
            } else {
                Err(Error::Engine(error))
            }
        },
    }
}

} // verus!
