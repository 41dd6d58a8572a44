//! Titles and cover images read from the provider's descriptions of a
//! season or a short video.

use vstd::prelude::*;
use crate::naming::{remove_punctuation, strip_forbidden};
use crate::resolution::{int_value_spec, parse_int};

verus! {

/// One episode as a season description lists it.
#[derive(Debug, Clone)]
pub struct Episode {
    pub ep_id: i64,
    /// The episode's shareable title; empty when not given.
    pub share_copy: String,
    /// The episode's cover image; empty when not given.
    pub cover: String,
}

/// A season description: its own title and cover, and its episodes in order.
#[derive(Debug, Clone)]
pub struct SeasonInfo {
    pub title: String,
    pub cover: String,
    pub episodes: Vec<Episode>,
}

/// The index of the first episode with the given number; 0 when none has it
/// or the identifier is not a decimal integer.
pub open spec fn episode_index(eps: Seq<Episode>, ep_id: Seq<char>) -> int {
    if int_value_spec(ep_id) is Some && exists|i: int|
        0 <= i < eps.len() && eps[i].ep_id == int_value_spec(ep_id)->Some_0 {
        choose|i: int|
            0 <= i < eps.len() && eps[i].ep_id == int_value_spec(ep_id)->Some_0 && forall|j: int|
                0 <= j < i ==> eps[j].ep_id != int_value_spec(ep_id)->Some_0
    } else {
        0
    }
}

/// Finds the position of the episode an identifier names.
pub fn find_episode(eps: &Vec<Episode>, ep_id: &str) -> (r: usize)
    ensures
        r as int == episode_index(eps@, ep_id@),
{
    let want = match parse_int(ep_id) {
        Some(v) => v,
        None => {
            return 0;
        },
    };
    let mut i: usize = 0;
    while i < eps.len()
        invariant
            i <= eps@.len(),
            int_value_spec(ep_id@) == Some(want as int),
            forall|j: int| 0 <= j < i ==> eps@[j].ep_id != want,
        decreases eps@.len() - i,
    {
        if eps[i].ep_id == want {
            proof {
                let k = choose|k: int|
                    0 <= k < eps@.len() && eps@[k].ep_id == want && forall|j: int|
                        0 <= j < k ==> eps@[j].ep_id != want;
                assert(k == i as int) by {
                    if k < i {
                    } else if k > i {
                        assert(eps@[i as int].ep_id == want);
                    }
                }
            }
            return i;
        }
        i = i + 1;
    }
    0
}

/// A field of the episode at an index, empty past the end of the list.
pub open spec fn share_copy_at(eps: Seq<Episode>, i: int) -> Seq<char> {
    if 0 <= i < eps.len() {
        eps[i].share_copy@
    } else {
        Seq::empty()
    }
}

pub open spec fn cover_at(eps: Seq<Episode>, i: int) -> Seq<char> {
    if 0 <= i < eps.len() {
        eps[i].cover@
    } else {
        Seq::empty()
    }
}

/// The title of the episode an identifier names (the first episode's when
/// none matches), as given by the season description.
pub fn episode_title(eps: &Vec<Episode>, ep_id: &str) -> (r: String)
    ensures
        r@ == share_copy_at(eps@, episode_index(eps@, ep_id@)),
{
    let i = find_episode(eps, ep_id);
    if i < eps.len() {
        eps[i].share_copy.clone()
    } else {
        String::new()
    }
}

/// The cover of the episode an identifier names, chosen as for its title.
pub fn episode_cover(eps: &Vec<Episode>, ep_id: &str) -> (r: String)
    ensures
        r@ == cover_at(eps@, episode_index(eps@, ep_id@)),
{
    let i = find_episode(eps, ep_id);
    if i < eps.len() {
        eps[i].cover.clone()
    } else {
        String::new()
    }
}

/// Title and cover of episodic content: of the named episode when an episode
/// is given, else of the season; the title cleaned for use as a file name.
pub fn episodic_title_pic(info: &SeasonInfo, ep_id: &str) -> (r: (String, String))
    ensures
        ep_id@.len() > 0 ==> r.0@ == strip_forbidden(
            share_copy_at(info.episodes@, episode_index(info.episodes@, ep_id@)),
        ) && r.1@ == cover_at(info.episodes@, episode_index(info.episodes@, ep_id@)),
        ep_id@.len() == 0 ==> r.0@ == strip_forbidden(info.title@) && r.1@ == info.cover@,
{
    if ep_id.unicode_len() > 0 {
        let t = episode_title(&info.episodes, ep_id);
        (remove_punctuation(t.as_str()), episode_cover(&info.episodes, ep_id))
    } else {
        (remove_punctuation(info.title.as_str()), info.cover.clone())
    }
}

/// Title of a short video, cleaned for use as a file name; `"no title"`
/// when the description has none.
pub fn short_video_title(title: &Option<String>) -> (r: String)
    ensures
        title matches Some(t) ==> r@ == strip_forbidden(t@),
        title is None ==> r@ == strip_forbidden("no title"@),
{
    match title {
        Some(t) => remove_punctuation(t.as_str()),
        None => remove_punctuation("no title"),
    }
}

/// Title and cover of a short video; `"no pic"` when it has no cover.
pub fn short_video_title_pic(title: &Option<String>, pic: &Option<String>) -> (r: (String, String))
    ensures
        r.0@ == (if title is Some {
            strip_forbidden(title->Some_0@)
        } else {
            strip_forbidden("no title"@)
        }),
        pic matches Some(p) ==> r.1@ == p@,
        pic is None ==> r.1@ == "no pic"@,
{
    let p = match pic {
        Some(p) => p.clone(),
        None => String::from_str("no pic"),
    };
    (short_video_title(title), p)
}

} // verus!
