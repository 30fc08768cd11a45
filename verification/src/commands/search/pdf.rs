//! Search in a PDF document: its metadata and the text of its pages.

use vstd::prelude::*;
use crate::commands::search::option::SearchOption;
use crate::commands::search::{text_reg_contains, passages, number_label};
use crate::text::{pair_views, views, usize_to_string, concat};

verus! {

/// `found` with the passages `hits` added under `label`; when only file
/// names are displayed, adding stops once something is found.
pub open spec fn add_hits(file_only: bool, found: Seq<(Seq<char>, Seq<char>)>, label: Seq<char>, hits: Seq<Seq<char>>) -> Seq<(Seq<char>, Seq<char>)>
    decreases hits.len(),
{
    if hits.len() == 0 || (file_only && found.len() > 0) {
        found
    } else {
        add_hits(file_only, found.push((label, hits[0])), label, hits.drop_first())
    }
}

/// The label of the passages found on page `n`.
pub open spec fn page_label(n: nat) -> Seq<char> {
    "Page "@ + number_label(n)
}

/// `found` with the passages of `pages` (numbered from `first`) added page
/// after page; when only file names are displayed, adding stops once
/// something is found.
pub open spec fn collect_pages(file_only: bool, found: Seq<(Seq<char>, Seq<char>)>, pages: Seq<Seq<char>>, first: nat, search_term: Seq<char>) -> Seq<(Seq<char>, Seq<char>)>
    decreases pages.len(),
{
    if pages.len() == 0 || (file_only && found.len() > 0) {
        found
    } else {
        collect_pages(
            file_only,
            add_hits(file_only, found, page_label(first), passages(pages[0], search_term)),
            pages.drop_first(),
            first + 1,
            search_term,
        )
    }
}

/// Whether only file names are displayed.
pub open spec fn file_only(option: SearchOption) -> bool {
    option.display@ == "file-only"@
}

/// Search in a PDF document.
pub struct PdfSearch<'a> {
    pub file_path: &'a String,
    pub search_term: &'a String,
    pub search_option: &'a SearchOption,
}

impl<'a> PdfSearch<'a> {
    /// Adds the passages of `hits` under `label`, as `add_hits` says.
    fn add_passages(&self, found: &mut Vec<(String, String)>, label: &String, hits: &Vec<String>)
        ensures
            pair_views(final(found)@) == add_hits(file_only(*self.search_option), pair_views(old(found)@), label@, views(hits@)),
    {
        let mut j: usize = 0;
        let ghost h = views(hits@);
        assert(h.skip(0) =~= h);
        while j < hits.len()
            invariant
                j <= hits.len(),
                h == views(hits@),
                add_hits(file_only(*self.search_option), pair_views(old(found)@), label@, h) == add_hits(file_only(*self.search_option), pair_views(found@), label@, h.skip(j as int)),
            decreases hits.len() - j,
        {
            if self.skip_file(found) {
                return;
            }
            let ghost f0 = found@;
            found.push((label.clone(), hits[j].clone()));
            assert(pair_views(found@) =~= pair_views(f0).push((label@, h[j as int])));
            assert(h.skip(j as int).drop_first() =~= h.skip(j + 1));
            j = j + 1;
        }
    }

    /// Adds the passages of the pages `contents` to `found`, page after
    /// page, as `collect_pages` says.
    pub fn loop_content(&self, contents: &Vec<String>, found: &mut Vec<(String, String)>)
        ensures
            pair_views(final(found)@) == collect_pages(file_only(*self.search_option), pair_views(old(found)@), views(contents@), 0, self.search_term@),
    {
        let mut page: usize = 0;
        let ghost pages = views(contents@);
        assert(pages.skip(0) =~= pages);
        while page < contents.len()
            invariant
                page <= contents.len(),
                pages == views(contents@),
                collect_pages(file_only(*self.search_option), pair_views(old(found)@), pages, 0, self.search_term@)
                    == collect_pages(file_only(*self.search_option), pair_views(found@), pages.skip(page as int), page as nat, self.search_term@),
            decreases contents.len() - page,
        {
            if self.skip_file(found) {
                return;
            }
            let label = concat("Page ", usize_to_string(page).as_str());
            let ghost rest = pages.skip(page as int);
            assert(rest[0] == contents@[page as int]@);
            assert(rest.drop_first() =~= pages.skip(page + 1));
            match text_reg_contains(&contents[page], self.search_term) {
                Some(results) => self.add_passages(found, &label, &results),
                None => {
                    assert(passages(contents@[page as int]@, self.search_term@) =~= Seq::<Seq<char>>::empty());
                },
            }
            page = page + 1;
        }
    }

    /// Whether to stop searching: only file names are displayed and
    /// something is found.
    pub fn skip_file(&self, found: &Vec<(String, String)>) -> (r: bool)
        ensures
            r == (file_only(*self.search_option) && found.len() > 0),
    {
        crate::text::str_eq(self.search_option.display.as_str(), "file-only") && found.len() > 0
    }

    /// What is found in the document: the items of its metadata that
    /// matched (`metadata_found`), then the passages of its pages.
    pub fn search(&self, metadata_found: Vec<(String, String)>, pages: &Vec<String>) -> (r: Vec<(String, String)>)
        ensures
            pair_views(r@) == collect_pages(file_only(*self.search_option), pair_views(metadata_found@), views(pages@), 0, self.search_term@),
    {
        let mut found = metadata_found;
        self.loop_content(pages, &mut found);
        found
    }
}

} // verus!
