//! The `search` action: the lines of a file that hold a term.

use vstd::prelude::*;
use crate::commands::{CmdError, ErrorKind, is_error};
use crate::actions::get_args_parameter;

verus! {

/// The `search` action: `oms search /home/me/text.txt you`.
pub struct Search {
    pub file_path: String,
    pub search_term: String,
}

/// Returns the `search` action: the path of the file is the third
/// argument, the term the fourth.
pub fn build_action(args: &Vec<String>) -> (r: Result<Search, CmdError>)
    ensures
        args.len() > 3 ==> (r matches Ok(s) && s.file_path@ == args@[2]@ && s.search_term@ == args@[3]@),
        args.len() <= 2 ==> (r matches Err(e) && is_error(e, ErrorKind::InvalidInput, "\nread error: 'file_path' parameter required\n"@)),
        args.len() == 3 ==> (r matches Err(e) && is_error(e, ErrorKind::InvalidInput, "\nread error: 'search_term' parameter required\n"@)),
{
    let file_path = match get_args_parameter(args, 2, "\nread error: 'file_path' parameter required\n") {
        Ok(v) => v,
        Err(e) => {
            return Err(e);
        },
    };
    let search_term = match get_args_parameter(args, 3, "\nread error: 'search_term' parameter required\n") {
        Ok(v) => v,
        Err(e) => {
            return Err(e);
        },
    };
    Ok(Search { file_path, search_term })
}

} // verus!
