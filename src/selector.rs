//! Manifest model and the track selector that picks one video and one audio
//! rendition under a requested quality.

use vstd::prelude::*;
use crate::error::TaskError;

verus! {

/// One encoded video stream offered by a manifest.
#[derive(Debug, Clone)]
pub struct VideoRendition {
    /// The provider's quality code.
    pub id: i64,
    /// Declared bandwidth; zero when the manifest leaves it out.
    pub bandwidth: u64,
    /// Where the stream is fetched from.
    pub base_url: String,
}

/// One encoded audio stream offered by a manifest.
#[derive(Debug, Clone)]
pub struct AudioRendition {
    /// Declared capacity (size or bandwidth); zero when left out.
    pub capacity: i64,
    /// Where the stream is fetched from.
    pub base_url: String,
}

/// The renditions that one manifest offers, in manifest order.
#[derive(Debug, Clone)]
pub struct Manifest {
    pub video: Vec<VideoRendition>,
    pub audio: Vec<AudioRendition>,
}

/// What the track selector settled on.
#[derive(Debug, Clone)]
pub struct SelectedTracks {
    pub video_url: String,
    pub audio_url: String,
    /// The quality code of the chosen video rendition.
    pub quality: i64,
    /// The chosen quality is not the one requested.
    pub fallback: bool,
}

impl Manifest {
    /// Assembles a manifest from its two rendition lists, naming the first
    /// list that the document lacked.
    pub fn from_parts(
        video: Option<Vec<VideoRendition>>,
        audio: Option<Vec<AudioRendition>>,
    ) -> (r: Result<Manifest, TaskError>)
        ensures
            video is None ==> (r matches Err(TaskError::ManifestParse(f)) && f@ == "video"@),
            video is Some && audio is None ==> (r matches Err(TaskError::ManifestParse(f))
                && f@ == "audio"@),
            video is Some && audio is Some ==> r is Ok && r->Ok_0.video@ == video->Some_0@
                && r->Ok_0.audio@ == audio->Some_0@,
    {
        match (video, audio) {
            (None, _) => Err(TaskError::ManifestParse(String::from_str("video"))),
            (Some(_), None) => Err(TaskError::ManifestParse(String::from_str("audio"))),
            (Some(v), Some(a)) => Ok(Manifest { video: v, audio: a }),
        }
    }
}

/// A rendition carries the requested code.
pub open spec fn matches_code(v: VideoRendition, code: Option<i64>) -> bool {
    code matches Some(c) && v.id == c
}

/// Some rendition of the list carries the requested code.
pub open spec fn any_match(vs: Seq<VideoRendition>, code: Option<i64>) -> bool {
    exists|j: int| 0 <= j < vs.len() && matches_code(#[trigger] vs[j], code)
}

/// A rendition competes for selection: it matches, or nothing matches.
pub open spec fn candidate(vs: Seq<VideoRendition>, code: Option<i64>, i: int) -> bool {
    0 <= i < vs.len() && (any_match(vs, code) ==> matches_code(vs[i], code))
}

/// Index `i` is the selector's video choice: a candidate of maximum bandwidth
/// among candidates, and the first such in manifest order.
pub open spec fn is_video_choice(vs: Seq<VideoRendition>, code: Option<i64>, i: int) -> bool {
    &&& candidate(vs, code, i)
    &&& forall|j: int| candidate(vs, code, j) ==> vs[j].bandwidth <= vs[i].bandwidth
    &&& forall|j: int| 0 <= j < i && candidate(vs, code, j) ==> vs[j].bandwidth < vs[i].bandwidth
}

/// Index `i` is the selector's audio choice: maximum capacity, the last such
/// in manifest order.
pub open spec fn is_audio_choice(aus: Seq<AudioRendition>, i: int) -> bool {
    &&& 0 <= i < aus.len()
    &&& forall|j: int| 0 <= j < aus.len() ==> aus[j].capacity <= aus[i].capacity
    &&& forall|j: int| i < j < aus.len() ==> aus[j].capacity < aus[i].capacity
}

/// Picks the video rendition: the highest bandwidth among those carrying the
/// requested code, or among all when none does; ties go to the earlier one.
pub fn select_video(vs: &Vec<VideoRendition>, code: Option<i64>) -> (r: Option<usize>)
    ensures
        vs@.len() == 0 <==> r is None,
        r matches Some(i) ==> is_video_choice(vs@, code, i as int),
{
    let n = vs.len();
    if n == 0 {
        return None;
    }
    let mut found = false;
    let mut k: usize = 0;
    while k < n
        invariant
            n == vs@.len(),
            k <= n,
            found == exists|j: int| 0 <= j < k && matches_code(#[trigger] vs@[j], code),
        decreases n - k,
    {
        let hit = match code {
            Some(c) => vs[k].id == c,
            None => false,
        };
        if hit {
            found = true;
        }
        k = k + 1;
        assert(found == exists|j: int| 0 <= j < k && matches_code(#[trigger] vs@[j], code)) by {
            if hit {
                assert(matches_code(vs@[k - 1], code));
            }
        }
    }
    assert(found == any_match(vs@, code));
    let mut best: Option<usize> = None;
    let mut i: usize = 0;
    while i < n
        invariant
            n == vs@.len(),
            i <= n,
            found == any_match(vs@, code),
            best is None ==> forall|j: int| 0 <= j < i ==> !candidate(vs@, code, j),
            best matches Some(b) ==> {
                &&& b < i
                &&& candidate(vs@, code, b as int)
                &&& forall|j: int| 0 <= j < i && candidate(vs@, code, j)
                    ==> vs@[j].bandwidth <= vs@[b as int].bandwidth
                &&& forall|j: int| 0 <= j < b && candidate(vs@, code, j)
                    ==> vs@[j].bandwidth < vs@[b as int].bandwidth
            },
        decreases n - i,
    {
        let is_cand = if found {
            match code {
                Some(c) => vs[i].id == c,
                None => false,
            }
        } else {
            true
        };
        assert(is_cand == candidate(vs@, code, i as int));
        if is_cand {
            match best {
                None => {
                    best = Some(i);
                },
                Some(b) => {
                    if vs[i].bandwidth > vs[b].bandwidth {
                        best = Some(i);
                    }
                },
            }
        }
        i = i + 1;
    }
    proof {
        if best is None {
            if found {
                let j = choose|j: int| 0 <= j < vs@.len() && matches_code(#[trigger] vs@[j], code);
                assert(candidate(vs@, code, j));
            } else {
                assert(candidate(vs@, code, 0));
            }
        }
    }
    best
}

/// Picks the audio rendition of maximum capacity; ties go to the later one.
pub fn select_audio(aus: &Vec<AudioRendition>) -> (r: Option<usize>)
    ensures
        aus@.len() == 0 <==> r is None,
        r matches Some(i) ==> is_audio_choice(aus@, i as int),
{
    let n = aus.len();
    if n == 0 {
        return None;
    }
    let mut b: usize = 0;
    let mut i: usize = 1;
    while i < n
        invariant
            n == aus@.len(),
            1 <= i <= n,
            b < i,
            forall|j: int| 0 <= j < i ==> aus@[j].capacity <= aus@[b as int].capacity,
            forall|j: int| b < j < i ==> aus@[j].capacity < aus@[b as int].capacity,
        decreases n - i,
    {
        if aus[i].capacity >= aus[b].capacity {
            b = i;
        }
        i = i + 1;
    }
    Some(b)
}

/// What the selector returns for a manifest and a requested code.
pub open spec fn tracks_of(m: Manifest, code: Option<i64>, vi: int, ai: int) -> SelectedTracks {
    SelectedTracks {
        video_url: m.video@[vi].base_url,
        audio_url: m.audio@[ai].base_url,
        quality: m.video@[vi].id,
        fallback: code != Some(m.video@[vi].id),
    }
}

/// Chooses one video and one audio rendition. The requested code constrains
/// only the video; the reported quality is read back from the chosen video
/// rendition, and `fallback` says when it differs from the request.
pub fn select_tracks(m: &Manifest, code: Option<i64>) -> (r: Result<SelectedTracks, TaskError>)
    ensures
        m.video@.len() == 0 ==> r == Err::<SelectedTracks, TaskError>(TaskError::NoVideoStream),
        m.video@.len() > 0 && m.audio@.len() == 0 ==> r == Err::<SelectedTracks, TaskError>(
            TaskError::NoAudioStream),
        m.video@.len() > 0 && m.audio@.len() > 0 ==> r is Ok,
        r is Ok ==> exists|vi: int, ai: int|
            is_video_choice(m.video@, code, vi) && is_audio_choice(m.audio@, ai)
                && r->Ok_0 == #[trigger] tracks_of(*m, code, vi, ai),
{
    let vi = match select_video(&m.video, code) {
        Some(i) => i,
        None => {
            return Err(TaskError::NoVideoStream);
        },
    };
    let ai = match select_audio(&m.audio) {
        Some(i) => i,
        None => {
            return Err(TaskError::NoAudioStream);
        },
    };
    let v = &m.video[vi];
    let a = &m.audio[ai];
    let fallback = match code {
        Some(c) => c != v.id,
        None => true,
    };
    let r = SelectedTracks {
        video_url: v.base_url.clone(),
        audio_url: a.base_url.clone(),
        quality: v.id,
        fallback,
    };
    assert(r == tracks_of(*m, code, vi as int, ai as int));
    Ok(r)
}

/// The video choice honours the request: when some rendition carries the
/// requested code, the choice carries it and no carrier has more bandwidth;
/// when none does, no rendition at all has more bandwidth.
pub proof fn lemma_video_choice_honours_request(vs: Seq<VideoRendition>, code: Option<i64>, i: int)
    requires
        is_video_choice(vs, code, i),
    ensures
        any_match(vs, code) ==> matches_code(vs[i], code) && forall|j: int|
            0 <= j < vs.len() && matches_code(#[trigger] vs[j], code) ==> vs[j].bandwidth
                <= vs[i].bandwidth,
        !any_match(vs, code) ==> forall|j: int|
            0 <= j < vs.len() ==> (#[trigger] vs[j]).bandwidth <= vs[i].bandwidth,
{
    assert forall|j: int| 0 <= j < vs.len() && (any_match(vs, code) ==> matches_code(
        #[trigger] vs[j],
        code,
    )) implies vs[j].bandwidth <= vs[i].bandwidth by {
        assert(candidate(vs, code, j));
    }
}

/// The video choice is determined: two indices that both qualify are equal.
pub proof fn lemma_video_choice_unique(vs: Seq<VideoRendition>, code: Option<i64>, i: int, k: int)
    requires
        is_video_choice(vs, code, i),
        is_video_choice(vs, code, k),
    ensures
        i == k,
{
}

/// An audio rendition whose capacity exceeds every other's is chosen,
/// wherever it stands in the list.
pub proof fn lemma_audio_choice_is_unique_max(aus: Seq<AudioRendition>, k: int, i: int)
    requires
        0 <= k < aus.len(),
        forall|j: int| 0 <= j < aus.len() && j != k ==> (#[trigger] aus[j]).capacity < aus[k].capacity,
        is_audio_choice(aus, i),
    ensures
        i == k,
{
    if i != k {
        assert(aus[k].capacity <= aus[i].capacity);
        assert(aus[i].capacity < aus[k].capacity);
    }
}

/// With no requested code the selector cannot fail for want of a match: the
/// choice is a rendition of maximum bandwidth over the whole list.
pub proof fn lemma_no_code_picks_overall_max(vs: Seq<VideoRendition>, i: int)
    requires
        is_video_choice(vs, None, i),
    ensures
        forall|j: int| 0 <= j < vs.len() ==> (#[trigger] vs[j]).bandwidth <= vs[i].bandwidth,
{
    assert(!any_match(vs, None));
    lemma_video_choice_honours_request(vs, None, i);
}

} // verus!
