//! The `read` action: displays the content of a file.

use vstd::prelude::*;
use crate::commands::{CmdError, ErrorKind, is_error};
use crate::text::{concat, push_str};

verus! {

/// The message of the error when the file path is missing.
pub const READ_ERROR: &'static str = "\nread error: 'file_path' parameter required\n";

/// The message of the error when the file path is missing.
pub fn error_command() -> (r: &'static str)
    ensures
        r@ == READ_ERROR@,
{
    READ_ERROR
}

/// The message of an error while reading, `reason` saying why.
pub open spec fn read_error(reason: Seq<char>) -> Seq<char> {
    "\nread error: "@ + reason + "\n"@
}

/// What the `read` action shows: `found` says whether the file could be
/// looked up (or why not), `content` what reading it gave (or why it
/// failed). A file that cannot be looked up is invalid input; one that
/// cannot be read is a permission error.
pub fn read_outcome(found: Result<(), String>, content: Result<String, String>) -> (r: Result<String, CmdError>)
    ensures
        found matches Err(m) ==> (r matches Err(e) && is_error(e, ErrorKind::InvalidInput, read_error(m@))),
        found is Ok ==> match content {
            Ok(c) => (r matches Ok(x) && x@ == c@),
            Err(m) => (r matches Err(e) && is_error(e, ErrorKind::PermissionDenied, read_error(m@))),
        },
{
    match found {
        Err(m) => {
            let mut t = concat("\nread error: ", m.as_str());
            push_str(&mut t, "\n");
            Err(CmdError::new(ErrorKind::InvalidInput, t))
        },
        Ok(()) => match content {
            Ok(c) => Ok(c),
            Err(m) => {
                let mut t = concat("\nread error: ", m.as_str());
                push_str(&mut t, "\n");
                Err(CmdError::new(ErrorKind::PermissionDenied, t))
            },
        },
    }
}

} // verus!
