//! Search in the information found for a video file.

use vstd::prelude::*;
use crate::commands::search::option::SearchOption;
use crate::commands::search::text_contains;
use crate::commands::search::ms::name_hits;
use crate::foreign::{lowercase, to_lowercase};
use crate::helpers::{get_file_name, file_name_of};
use crate::text::{pair_views, owned};

verus! {

/// The items found in every video, one video after the other.
pub open spec fn all_video_hits(videos: Seq<Seq<(Seq<char>, Seq<char>)>>) -> Seq<(Seq<char>, Seq<char>)>
    decreases videos.len(),
{
    if videos.len() == 0 {
        Seq::empty()
    } else {
        all_video_hits(videos.drop_last()) + videos.last()
    }
}

/// The views of the items found in each video.
pub open spec fn video_views(videos: Seq<Vec<(String, String)>>) -> Seq<Seq<(Seq<char>, Seq<char>)>> {
    videos.map_values(|v: Vec<(String, String)>| pair_views(v@))
}

/// Search in a video file.
pub struct VideoSearch<'a> {
    pub file_path: &'a String,
    pub search_term: &'a String,
    pub search_option: &'a SearchOption,
}

impl<'a> VideoSearch<'a> {
    /// What is found for the video: nothing when no information was found
    /// for it (`videos` empty); otherwise its file name when it matches,
    /// then what matched in the information of each video found.
    pub fn search(&self, videos: &Vec<Vec<(String, String)>>) -> (r: Vec<(String, String)>)
        ensures
            videos.len() == 0 ==> r.len() == 0,
            videos.len() > 0 ==> pair_views(r@) == name_hits(lowercase(file_name_of(self.file_path@)), self.search_term@)
                + all_video_hits(video_views(videos@)),
    {
        let mut found: Vec<(String, String)> = Vec::new();
        let file_name = to_lowercase(get_file_name(self.file_path.as_str()).as_str());
        if text_contains(&file_name, self.search_term) {
            found.push((owned("File"), file_name.clone()));
        }
        if videos.len() == 0 {
            return Vec::new();
        }
        let ghost f0 = pair_views(found@);
        assert(f0 =~= name_hits(file_name@, self.search_term@));
        let mut i: usize = 0;
        assert(f0 + all_video_hits(video_views(videos@).take(0)) =~= f0);
        while i < videos.len()
            invariant
                i <= videos.len(),
                pair_views(found@) == f0 + all_video_hits(video_views(videos@).take(i as int)),
            decreases videos.len() - i,
        {
            let ghost vv = video_views(videos@);
            assert(vv.take(i + 1).drop_last() =~= vv.take(i as int));
            let hits = &videos[i];
            let mut j: usize = 0;
            let ghost g0 = found@;
            while j < hits.len()
                invariant
                    j <= hits.len(),
                    pair_views(found@) == pair_views(g0) + pair_views(hits@).take(j as int),
                decreases hits.len() - j,
            {
                let ghost g = found@;
                found.push((hits[j].0.clone(), hits[j].1.clone()));
                assert(pair_views(found@) =~= pair_views(g).push(pair_views(hits@)[j as int]));
                assert(pair_views(hits@).take(j + 1) =~= pair_views(hits@).take(j as int).push(pair_views(hits@)[j as int]));
                assert(pair_views(found@) =~= pair_views(g0) + pair_views(hits@).take(j + 1));
                j = j + 1;
            }
            assert(pair_views(hits@).take(hits.len() as int) =~= pair_views(hits@));
            assert(pair_views(found@) =~= f0 + all_video_hits(vv.take(i + 1)));
            i = i + 1;
        }
        assert(video_views(videos@).take(videos.len() as int) =~= video_views(videos@));
        found
    }
}

} // verus!
