//! Search in the information found for an audio file.

use vstd::prelude::*;
use crate::commands::search::option::SearchOption;

verus! {

/// Search in an audio file.
pub struct AudioSearch<'a> {
    pub file_path: &'a String,
    pub search_term: &'a String,
    pub search_option: &'a SearchOption,
}

impl<'a> AudioSearch<'a> {
    /// What is found for the audio file: the items of its information that
    /// matched the search term, nothing when no information was found.
    pub fn search(&self, results: Option<Vec<(String, String)>>) -> (r: Vec<(String, String)>)
        ensures
            match results {
                Some(v) => r@ == v@,
                None => r.len() == 0,
            },
    {
        match results {
            Some(v) => v,
            None => Vec::new(),
        }
    }
}

} // verus!
