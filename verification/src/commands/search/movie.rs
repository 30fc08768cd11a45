//! Search among movies: lists the movie files.

use vstd::prelude::*;
use crate::commands::search::option::SearchOption;

verus! {

/// Search in a movie file.
pub struct MovieSearch<'a> {
    pub file_path: &'a String,
    pub search_term: &'a String,
    pub search_option: &'a SearchOption,
}

impl<'a> MovieSearch<'a> {
    /// The line displayed for the movie: its path.
    pub fn search(&self) -> (r: String)
        ensures
            r@ == self.file_path@,
    {
        self.file_path.clone()
    }
}

} // verus!
