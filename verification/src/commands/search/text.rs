//! Search in the lines of a text file.

use vstd::prelude::*;
use crate::commands::search::option::SearchOption;
use crate::commands::search::{text_contains, text_has, number_label};
use crate::text::{pair_views, usize_to_string};

verus! {

/// The lines of a file that could be read, by position.
pub open spec fn line_views(lines: Seq<Option<String>>) -> Seq<Option<Seq<char>>> {
    lines.map_values(|l: Option<String>| match l {
        Some(s) => Some(s@),
        None => None,
    })
}

/// The lines (with their position, counted from zero) that contain the
/// normalized search term.
pub open spec fn text_hits(lines: Seq<Option<Seq<char>>>, search_term: Seq<char>) -> Seq<(Seq<char>, Seq<char>)>
    decreases lines.len(),
{
    if lines.len() == 0 {
        Seq::empty()
    } else {
        let prev = text_hits(lines.drop_last(), search_term);
        match lines.last() {
            Some(t) => if text_has(t, search_term) {
                prev.push((number_label((lines.len() - 1) as nat), t))
            } else {
                prev
            },
            None => prev,
        }
    }
}

/// Search in a text file.
pub struct TextSearch<'a> {
    pub file_path: &'a String,
    pub search_term: &'a String,
    pub search_option: &'a SearchOption,
}

impl<'a> TextSearch<'a> {
    /// The lines of the file (given in order; `None` for a line that could
    /// not be read) that contain the search term, each with its position.
    pub fn search(&self, lines: &Vec<Option<String>>) -> (r: Vec<(String, String)>)
        ensures
            pair_views(r@) == text_hits(line_views(lines@), self.search_term@),
    {
        let mut found: Vec<(String, String)> = Vec::new();
        let mut i: usize = 0;
        while i < lines.len()
            invariant
                i <= lines.len(),
                pair_views(found@) == text_hits(line_views(lines@).take(i as int), self.search_term@),
            decreases lines.len() - i,
        {
            let ghost lv = line_views(lines@);
            assert(lv.take(i + 1).drop_last() =~= lv.take(i as int));
            match &lines[i] {
                Some(line) => {
                    if text_contains(line, self.search_term) {
                        let ghost f0 = found@;
                        found.push((usize_to_string(i), line.clone()));
                        assert(pair_views(found@) =~= pair_views(f0).push((number_label(i as nat), line@)));
                    }
                },
                None => {},
            }
            i = i + 1;
        }
        assert(line_views(lines@).take(lines.len() as int) =~= line_views(lines@));
        found
    }
}

} // verus!
