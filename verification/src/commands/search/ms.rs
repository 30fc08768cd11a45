//! Search in an office document (docx, xlsx, pptx...).

use vstd::prelude::*;
use crate::commands::search::option::SearchOption;
use crate::commands::search::{text_contains, text_has, text_reg_contains, passages};
use crate::commands::search::pdf::{add_hits, file_only};
use crate::foreign::{lowercase, to_lowercase};
use crate::helpers::{get_file_name, file_name_of};
use crate::text::{pair_views, views, owned, str_eq};

verus! {

/// What is found for a file name: the name itself, labelled `File`, when it
/// contains the normalized search term.
pub open spec fn name_hits(name: Seq<char>, search_term: Seq<char>) -> Seq<(Seq<char>, Seq<char>)> {
    if text_has(name, search_term) { seq![("File"@, name)] } else { Seq::empty() }
}

/// Search in an office document.
pub struct MsSearch<'a> {
    pub file_path: &'a String,
    pub search_term: &'a String,
    pub search_option: &'a SearchOption,
}

impl<'a> MsSearch<'a> {
    /// What is found in the document whose text is `content`: its file name
    /// when it matches, then the passages of the text (unlabelled).
    pub fn search(&self, content: &String) -> (r: Vec<(String, String)>)
        ensures
            pair_views(r@) == add_hits(
                file_only(*self.search_option),
                name_hits(lowercase(file_name_of(self.file_path@)), self.search_term@),
                Seq::empty(),
                passages(content@, self.search_term@),
            ),
    {
        let mut found: Vec<(String, String)> = Vec::new();
        let file_name = to_lowercase(get_file_name(self.file_path.as_str()).as_str());
        if text_contains(&file_name, self.search_term) {
            found.push((owned("File"), file_name.clone()));
        }
        assert(pair_views(found@) =~= name_hits(file_name@, self.search_term@));
        match text_reg_contains(content, self.search_term) {
            None => {
                assert(passages(content@, self.search_term@) =~= Seq::<Seq<char>>::empty());
            },
            Some(results) => {
                let mut j: usize = 0;
                let ghost h = views(results@);
                let ghost f0 = pair_views(found@);
                assert(h.skip(0) =~= h);
                while j < results.len()
                    invariant
                        j <= results.len(),
                        h == views(results@),
                        add_hits(file_only(*self.search_option), f0, Seq::empty(), h) == add_hits(
                            file_only(*self.search_option),
                            pair_views(found@),
                            Seq::empty(),
                            h.skip(j as int),
                        ),
                    ensures
                        add_hits(file_only(*self.search_option), f0, Seq::empty(), h) == pair_views(found@),
                    decreases results.len() - j,
                {
                    if self.skip_file(&found) {
                        break;
                    }
                    assert(h.skip(j as int).len() > 0);
                    let ghost g = found@;
                    found.push((String::new(), results[j].clone()));
                    assert(pair_views(found@) =~= pair_views(g).push((Seq::<char>::empty(), h[j as int])));
                    assert(h.skip(j as int).drop_first() =~= h.skip(j + 1));
                    j = j + 1;
                }
                assert(j == results.len() ==> h.skip(j as int) =~= Seq::<Seq<char>>::empty());
            },
        }
        found
    }

    /// Whether to stop searching: only file names are displayed and
    /// something is found.
    pub fn skip_file(&self, found: &Vec<(String, String)>) -> (r: bool)
        ensures
            r == (file_only(*self.search_option) && found.len() > 0),
    {
        str_eq(self.search_option.display.as_str(), "file-only") && found.len() > 0
    }
}

} // verus!
