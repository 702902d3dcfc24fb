//! The session cleanup handler: what an interrupt deletes, and whether the
//! deletion went through.

use vstd::prelude::*;
use crate::client::errors::ClientError;
use crate::errors::Errors;
use crate::resource::PlaybookSpec;

verus! {

/// The status code with which the remote service answers a deletion.
pub const NO_CONTENT: u16 = 204;

/// Decides what an interrupt deletes: the playbook of the session, if the
/// user asked for cleanup and the session has one.
pub fn setup_signal_handler(cleanup: bool, playbook: &Option<PlaybookSpec>) -> (target: Option<String>)
    ensures
        match *playbook {
            Some(current) => if cleanup {
                target matches Some(id) && id@ == current.id@
            } else {
                target is None
            },
            None => target is None,
        },
{
    if cleanup {
        match playbook {
            Some(current) => Some(current.id.clone()),
            None => None,
        }
    } else {
        None
    }
}

/// Judges the answer to the deletion of the playbook `pid`. Only the status
/// "no content" means that the playbook is gone.
pub fn try_cleanup_playbook(pid: &str, answer: Result<u16, ClientError>) -> (res: Result<(), Errors>)
    ensures
        match answer {
            Ok(status) => if status == NO_CONTENT {
                res is Ok
            } else {
                res matches Err(Errors::FailedDeletePlaybook(id)) && id@ == pid@
            },
            Err(error) => res == Err::<(), Errors>(Errors::ClientError(error)),
        },
{
    match answer {
        Ok(status) => {
            if status != NO_CONTENT {
                return Err(Errors::FailedDeletePlaybook(String::from_str(pid)));
            }
            Ok(())
        },
        Err(error) => Err(Errors::ClientError(error)),
    }
}

} // verus!
