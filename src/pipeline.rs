//! The single-task pipeline: for one identifier, fetch the manifest, select
//! the tracks, download video then audio, and merge; as a state machine that
//! names the outside work to do next and takes back what came of it.

use vstd::prelude::*;
use crate::error::TaskError;
use crate::info::{episode_title, Episode};
use crate::naming::{audio_path, display_name, file_in, output_path, remove_punctuation,
    strip_forbidden, video_path};
use crate::resolution::{code_of_label, label_for_code, label_for_code_spec, parse_code, qn};
use crate::selector::{select_tracks, Manifest, SelectedTracks};
use crate::text::{int_to_text, int_text, push_str};
use crate::video_id::{Route, Video};

verus! {

/// Where a task stands.
#[derive(Debug, Clone, Copy, PartialEq, Eq)]
pub enum Stage {
    /// Waiting for the description of the episode, season or video.
    Resolving,
    /// Waiting for the manifest of the current file.
    Fetching,
    /// Waiting to learn whether the final file already exists.
    Checking,
    /// The current file is complete; waiting for its history line to be written.
    Recording,
    DownloadingVideo,
    DownloadingAudio,
    Merging,
    Done,
    Failed,
}

/// One file that a task produces.
#[derive(Debug, Clone)]
pub struct Job {
    /// The identifier that the manifest is fetched for.
    pub fetch_id: String,
    /// The short video's content id; empty for episodes.
    pub cid: String,
    /// The title, cleaned for use as a file name.
    pub title: String,
    /// The identifier written in the history line.
    pub history_id: String,
}

/// The outside work that a task asks for next.
#[derive(Debug)]
pub enum Action {
    /// Fetch the season description for an episode and/or a season.
    FetchEpisodes { ep_id: String, season_id: String },
    /// Fetch the content id and title of a short video.
    FetchShortInfo { bv_id: String },
    /// Fetch the manifest of one file at the task's quality label.
    FetchManifest { route: Route, id: String, cid: String },
    /// Append a history line for a completed file, stamped with the time now.
    AppendHistory { id: String, name: String },
    /// Tell whether a file exists.
    CheckOutput { path: String },
    /// Stream one rendition to a file.
    Download { url: String, path: String, file_index: u32, file_count: u32 },
    /// Merge two downloaded files into the final one.
    Merge { video: String, audio: String, output: String },
    /// The task is over.
    Finish(Result<String, TaskError>),
}

/// What came of the outside work last asked for.
#[derive(Debug, Clone)]
pub enum Event {
    /// The season description's episodes; `None` when it lists none.
    Episodes(Option<Vec<Episode>>),
    /// A short video's content id and title (absent when not given).
    ShortInfo { cid: String, title: Option<String> },
    Manifest(Manifest),
    HistoryAppended,
    OutputExists(bool),
    Downloaded,
    Merged,
    /// The outside work failed.
    Failed(TaskError),
}

/// The quality code that a label asks for, as the selector takes it.
pub open spec fn requested_code(label: Seq<char>) -> Option<i64> {
    match code_of_label(label) {
        Some(c) => Some(c as i64),
        None => None,
    }
}

/// The state of one task.
#[derive(Debug, Clone)]
pub struct TaskPipeline {
    pub route: Route,
    pub video: Video,
    /// The quality label asked for.
    pub label: String,
    /// The quality code that the label stands for.
    pub code: Option<i64>,
    pub save_path: String,
    pub stage: Stage,
    pub jobs: Vec<Job>,
    /// The job being worked on.
    pub current: usize,
    /// The tracks selected for the current job.
    pub tracks: Option<SelectedTracks>,
    /// The display name of the current job's files.
    pub name: String,
    pub video_path: String,
    pub audio_path: String,
    pub output_path: String,
}

impl TaskPipeline {
    /// The stages in which a job is being worked on.
    pub open spec fn working(&self) -> bool {
        !(self.stage is Resolving || self.stage is Done || self.stage is Failed)
    }

    /// The pipeline's invariant.
    pub open spec fn wf(&self) -> bool {
        &&& self.working() ==> self.current < self.jobs@.len()
        &&& (self.working() && !(self.stage is Fetching)) ==> self.tracks is Some
        &&& self.code == requested_code(self.label@)
    }

    /// Events that a stage can take: a failure in any waiting stage, or the
    /// outcome of the work the stage waits for.
    pub open spec fn accepts_spec(&self, ev: Event) -> bool {
        match ev {
            Event::Failed(_) => !(self.stage is Done || self.stage is Failed),
            Event::Episodes(_) => self.stage is Resolving && self.route is Episodic,
            Event::ShortInfo { .. } => self.stage is Resolving && self.route is ShortVideo,
            Event::Manifest(_) => self.stage is Fetching,
            Event::HistoryAppended => self.stage is Recording,
            Event::OutputExists(_) => self.stage is Checking,
            Event::Downloaded => self.stage is DownloadingVideo || self.stage is DownloadingAudio,
            Event::Merged => self.stage is Merging,
        }
    }

    /// Whether the pipeline can take an event now.
    pub fn accepts(&self, ev: &Event) -> (r: bool)
        ensures
            r == self.accepts_spec(*ev),
    {
        match ev {
            Event::Failed(_) => !(matches!(self.stage, Stage::Done) || matches!(self.stage, Stage::Failed)),
            Event::Episodes(_) => matches!(self.stage, Stage::Resolving) && matches!(self.route, Route::Episodic),
            Event::ShortInfo { .. } => matches!(self.stage, Stage::Resolving) && matches!(self.route, Route::ShortVideo),
            Event::Manifest(_) => matches!(self.stage, Stage::Fetching),
            Event::HistoryAppended => matches!(self.stage, Stage::Recording),
            Event::OutputExists(_) => matches!(self.stage, Stage::Checking),
            Event::Downloaded => matches!(self.stage, Stage::DownloadingVideo) || matches!(self.stage, Stage::DownloadingAudio),
            Event::Merged => matches!(self.stage, Stage::Merging),
        }
    }
}

/// The route a video takes, as `Video::route` decides it.
pub open spec fn route_of(v: Video) -> Option<Route> {
    if v.ep_id@.len() > 0 || v.season_id@.len() > 0 {
        Some(Route::Episodic)
    } else if v.bv_id@.len() > 0 {
        Some(Route::ShortVideo)
    } else {
        None
    }
}

/// The episodes a season description lists; none when it lists none.
pub open spec fn listed(eps: Option<Vec<Episode>>) -> Seq<Episode> {
    match eps {
        Some(v) => v@,
        None => Seq::empty(),
    }
}

/// A job's four texts.
pub open spec fn job_texts(j: Job) -> (Seq<char>, Seq<char>, Seq<char>, Seq<char>) {
    (j.fetch_id@, j.cid@, j.title@, j.history_id@)
}

/// The job for one episode of a season.
pub open spec fn season_job(e: Episode) -> (Seq<char>, Seq<char>, Seq<char>, Seq<char>) {
    (int_text(e.ep_id as int), Seq::empty(), strip_forbidden(e.share_copy@), "ep"@ + int_text(
        e.ep_id as int,
    ))
}

/// The job for a single episode, titled from the season description.
pub open spec fn episode_job(eps: Seq<Episode>, ep_id: Seq<char>) -> (
    Seq<char>,
    Seq<char>,
    Seq<char>,
    Seq<char>,
) {
    (
        ep_id,
        Seq::empty(),
        strip_forbidden(crate::info::share_copy_at(eps, crate::info::episode_index(eps, ep_id))),
        "ep"@ + ep_id,
    )
}

/// The job for a short video.
pub open spec fn short_job(bv_id: Seq<char>, cid: Seq<char>, title: Option<String>) -> (
    Seq<char>,
    Seq<char>,
    Seq<char>,
    Seq<char>,
) {
    (
        bv_id,
        cid,
        if title is Some {
            strip_forbidden(title->Some_0@)
        } else {
            strip_forbidden("no title"@)
        },
        bv_id,
    )
}

/// The request for job `i`'s manifest.
pub open spec fn fetches_job(a: Action, p: TaskPipeline, i: int) -> bool {
    a matches Action::FetchManifest { route, id, cid } && route == p.route && id@
        == p.jobs@[i].fetch_id@ && cid@ == p.jobs@[i].cid@
}

/// The name and paths of the current job follow from its title, the chosen
/// quality and the save directory.
pub open spec fn named_for(p: TaskPipeline, t: SelectedTracks) -> bool {
    &&& p.name@ == p.jobs@[p.current as int].title@ + " "@ + label_for_code_spec(t.quality as int)
    &&& p.video_path@ == file_in(p.save_path@, p.name@, "_video.m4s"@)
    &&& p.audio_path@ == file_in(p.save_path@, p.name@, "_audio.m4s"@)
    &&& p.output_path@ == file_in(p.save_path@, p.name@, ".mp4"@)
}

/// After job `old.current` is finished: the next job's manifest is fetched,
/// or, after the last, the task is done with that job's title.
pub open spec fn advanced(old: TaskPipeline, new: TaskPipeline, a: Action) -> bool {
    &&& new.jobs == old.jobs
    &&& if old.current + 1 < old.jobs@.len() {
        &&& new.stage is Fetching
        &&& new.current == old.current + 1
        &&& fetches_job(a, new, new.current as int)
    } else {
        &&& new.stage is Done
        &&& a matches Action::Finish(Ok(t)) && t@ == old.jobs@[old.current as int].title@
    }
}

/// The current job, its selected tracks, its name and its paths are kept.
pub open spec fn same_job(old: TaskPipeline, new: TaskPipeline) -> bool {
    &&& new.jobs == old.jobs
    &&& new.current == old.current
    &&& new.tracks == old.tracks
    &&& new.name == old.name
    &&& new.video_path == old.video_path
    &&& new.audio_path == old.audio_path
    &&& new.output_path == old.output_path
}

/// The current job is complete: its history line, with its identifier and
/// display name, is asked for, and nothing else changes.
pub open spec fn records_job(old: TaskPipeline, new: TaskPipeline, a: Action) -> bool {
    &&& new.stage is Recording
    &&& same_job(old, new)
    &&& a matches Action::AppendHistory { id, name } && id@ == old.jobs@[old.current as int].history_id@
        && name@ == old.name@
}

/// What a task keeps from its start to its end.
pub open spec fn same_task(old: TaskPipeline, new: TaskPipeline) -> bool {
    &&& new.route == old.route
    &&& new.video == old.video
    &&& new.label == old.label
    &&& new.code == old.code
    &&& new.save_path == old.save_path
}

impl TaskPipeline {
    /// Begins a task for a video at a quality label, saving under `save_path`:
    /// the first step fetches the description that titles the files.
    pub fn start(video: Video, label: &str, save_path: &str) -> (r: (TaskPipeline, Action))
        ensures
            r.0.wf(),
            r.0.video == video,
            r.0.label@ == label@,
            r.0.save_path@ == save_path@,
            route_of(video) is None ==> r.0.stage is Failed && (r.1 matches Action::Finish(Err(e))
                && e is InvalidUrl),
            route_of(video) == Some(Route::Episodic) ==> r.0.stage is Resolving && r.0.route
                is Episodic && (r.1 matches Action::FetchEpisodes { ep_id, season_id } && ep_id@
                == video.ep_id@ && season_id@ == video.season_id@),
            route_of(video) == Some(Route::ShortVideo) ==> r.0.stage is Resolving && r.0.route
                is ShortVideo && (r.1 matches Action::FetchShortInfo { bv_id } && bv_id@
                == video.bv_id@),
    {
        let code = parse_code(qn(label));
        let routed = video.route();
        let (route, stage) = match &routed {
            Ok(rt) => (*rt, Stage::Resolving),
            Err(_) => (Route::ShortVideo, Stage::Failed),
        };
        let action = match routed {
            Ok(Route::Episodic) => Action::FetchEpisodes {
                ep_id: video.ep_id.clone(),
                season_id: video.season_id.clone(),
            },
            Ok(Route::ShortVideo) => Action::FetchShortInfo { bv_id: video.bv_id.clone() },
            Err(e) => Action::Finish(Err(e)),
        };
        let p = TaskPipeline {
            route,
            video,
            label: String::from_str(label),
            code,
            save_path: String::from_str(save_path),
            stage,
            jobs: Vec::new(),
            current: 0,
            tracks: None,
            name: String::new(),
            video_path: String::new(),
            audio_path: String::new(),
            output_path: String::new(),
        };
        (p, action)
    }
}

fn season_job_of(e: &Episode) -> (j: Job)
    ensures
        job_texts(j) == season_job(*e),
{
    let id = int_to_text(e.ep_id);
    let mut hid = String::from_str("ep");
    push_str(&mut hid, id.as_str());
    Job { fetch_id: id, cid: String::new(), title: remove_punctuation(e.share_copy.as_str()), history_id: hid }
}

/// The jobs of episodic content: every episode of a season when a season is
/// named, else the one episode.
fn episodic_jobs(video: &Video, eps: &Vec<Episode>) -> (r: Vec<Job>)
    ensures
        video.season_id@.len() > 0 ==> r@.len() == eps@.len() && forall|i: int|
            0 <= i < r@.len() ==> job_texts(#[trigger] r@[i]) == season_job(eps@[i]),
        video.season_id@.len() == 0 ==> r@.len() == 1 && job_texts(r@[0]) == episode_job(
            eps@,
            video.ep_id@,
        ),
{
    let mut r: Vec<Job> = Vec::new();
    if video.season_id.unicode_len() > 0 {
        let mut i: usize = 0;
        while i < eps.len()
            invariant
                i <= eps@.len(),
                r@.len() == i,
                forall|k: int| 0 <= k < i ==> job_texts(#[trigger] r@[k]) == season_job(eps@[k]),
            decreases eps@.len() - i,
        {
            r.push(season_job_of(&eps[i]));
            i = i + 1;
        }
    } else {
        let t = episode_title(eps, video.ep_id.as_str());
        let mut hid = String::from_str("ep");
        push_str(&mut hid, video.ep_id.as_str());
        r.push(Job {
            fetch_id: video.ep_id.clone(),
            cid: String::new(),
            title: remove_punctuation(t.as_str()),
            history_id: hid,
        });
    }
    r
}

impl TaskPipeline {
    fn fetch_action(&self, i: usize) -> (a: Action)
        requires
            i < self.jobs@.len(),
        ensures
            fetches_job(a, *self, i as int),
    {
        Action::FetchManifest {
            route: self.route,
            id: self.jobs[i].fetch_id.clone(),
            cid: self.jobs[i].cid.clone(),
        }
    }

    /// Moves past the current job, which is finished.
    fn advance(&mut self) -> (a: Action)
        requires
            old(self).wf(),
            old(self).working(),
        ensures
            final(self).wf(),
            same_task(*old(self), *final(self)),
            final(self).jobs == old(self).jobs,
            advanced(*old(self), *final(self), a),
    {
        if self.jobs.len() - self.current > 1 {
            self.current = self.current + 1;
            self.stage = Stage::Fetching;
            self.fetch_action(self.current)
        } else {
            self.stage = Stage::Done;
            Action::Finish(Ok(self.jobs[self.current].title.clone()))
        }
    }

    /// Starts on the jobs once the description has been read.
    fn begin_jobs(&mut self, jobs: Vec<Job>) -> (a: Action)
        requires
            old(self).wf(),
            old(self).stage is Resolving,
        ensures
            final(self).wf(),
            same_task(*old(self), *final(self)),
            final(self).jobs == jobs,
            jobs@.len() == 0 ==> final(self).stage is Done && (a matches Action::Finish(Ok(t))
                && t@.len() == 0),
            jobs@.len() > 0 ==> final(self).stage is Fetching && final(self).current == 0
                && fetches_job(a, *final(self), 0),
    {
        self.jobs = jobs;
        self.current = 0;
        if self.jobs.len() == 0 {
            self.stage = Stage::Done;
            Action::Finish(Ok(String::new()))
        } else {
            self.stage = Stage::Fetching;
            self.fetch_action(0)
        }
    }

    /// Asks for the history line of the current job, which is complete.
    fn record(&mut self) -> (a: Action)
        requires
            old(self).wf(),
            old(self).working(),
            old(self).stage is Checking || old(self).stage is Merging,
        ensures
            final(self).wf(),
            same_task(*old(self), *final(self)),
            records_job(*old(self), *final(self), a),
    {
        self.stage = Stage::Recording;
        Action::AppendHistory {
            id: self.jobs[self.current].history_id.clone(),
            name: self.name.clone(),
        }
    }

    /// Selects the tracks of the current job and names its files.
    fn on_manifest(&mut self, m: Manifest) -> (a: Action)
        requires
            old(self).wf(),
            old(self).stage is Fetching,
        ensures
            final(self).wf(),
            same_task(*old(self), *final(self)),
            final(self).jobs == old(self).jobs,
            final(self).current == old(self).current,
            m.video@.len() == 0 ==> final(self).stage is Failed && (a matches Action::Finish(Err(e))
                && e is NoVideoStream),
            m.video@.len() > 0 && m.audio@.len() == 0 ==> final(self).stage is Failed && (a matches Action::Finish(
                Err(e),
            ) && e is NoAudioStream),
            m.video@.len() > 0 && m.audio@.len() > 0 ==> {
                &&& final(self).stage is Checking
                &&& final(self).tracks matches Some(t) && exists|vi: int, ai: int|
                    crate::selector::is_video_choice(m.video@, old(self).code, vi)
                        && crate::selector::is_audio_choice(m.audio@, ai) && t
                        == #[trigger] crate::selector::tracks_of(m, old(self).code, vi, ai)
                &&& named_for(*final(self), final(self).tracks->Some_0)
                &&& a matches Action::CheckOutput { path } && path@ == final(self).output_path@
            },
    {
        match select_tracks(&m, self.code) {
            Err(e) => {
                self.stage = Stage::Failed;
                Action::Finish(Err(e))
            },
            Ok(t) => {
                let job = &self.jobs[self.current];
                let name = display_name(job.title.as_str(), label_for_code(t.quality));
                self.video_path = video_path(self.save_path.as_str(), name.as_str());
                self.audio_path = audio_path(self.save_path.as_str(), name.as_str());
                self.output_path = output_path(self.save_path.as_str(), name.as_str());
                self.name = name;
                self.tracks = Some(t);
                self.stage = Stage::Checking;
                Action::CheckOutput { path: self.output_path.clone() }
            },
        }
    }
}

impl TaskPipeline {
    /// Takes the outcome of the last outside work and names the next. Any
    /// failure ends the task with that error. A final file that already
    /// exists finishes its job without downloading; video is downloaded
    /// before audio, and the merge comes last.
    pub fn step(&mut self, ev: Event) -> (a: Action)
        requires
            old(self).wf(),
            old(self).accepts_spec(ev),
        ensures
            final(self).wf(),
            same_task(*old(self), *final(self)),
            ev matches Event::Failed(e) ==> final(self).stage is Failed && a == Action::Finish(
                Err(e),
            ),
            ev matches Event::Episodes(eps) ==> (eps is None && old(self).video.season_id@.len() > 0)
                ==> (final(self).stage is Failed && (a matches Action::Finish(
                Err(TaskError::ManifestParse(f)),
            ) && f@ == "episodes"@)),
            ev matches Event::Episodes(eps) ==> !(eps is None && old(self).video.season_id@.len() > 0)
                ==> {
                &&& old(self).video.season_id@.len() > 0 ==> final(self).jobs@.len() == listed(
                    eps,
                ).len() && forall|i: int|
                    0 <= i < listed(eps).len() ==> job_texts(#[trigger] final(self).jobs@[i])
                        == season_job(listed(eps)[i])
                &&& old(self).video.season_id@.len() == 0 ==> final(self).jobs@.len() == 1
                    && job_texts(final(self).jobs@[0]) == episode_job(
                    listed(eps),
                    old(self).video.ep_id@,
                )
                &&& final(self).jobs@.len() == 0 ==> final(self).stage is Done && (a matches Action::Finish(
                    Ok(t),
                ) && t@.len() == 0)
                &&& final(self).jobs@.len() > 0 ==> final(self).stage is Fetching && final(self).current
                    == 0 && fetches_job(a, *final(self), 0)
            },
            ev matches Event::ShortInfo { cid, title } ==> {
                &&& final(self).jobs@.len() == 1
                &&& job_texts(final(self).jobs@[0]) == short_job(old(self).video.bv_id@, cid@, title)
                &&& final(self).stage is Fetching && final(self).current == 0
                &&& fetches_job(a, *final(self), 0)
            },
            ev matches Event::Manifest(m) ==> {
                &&& final(self).jobs == old(self).jobs
                &&& final(self).current == old(self).current
                &&& m.video@.len() == 0 ==> final(self).stage is Failed && (a matches Action::Finish(
                    Err(e),
                ) && e is NoVideoStream)
                &&& m.video@.len() > 0 && m.audio@.len() == 0 ==> final(self).stage is Failed && (a matches Action::Finish(
                    Err(e),
                ) && e is NoAudioStream)
                &&& m.video@.len() > 0 && m.audio@.len() > 0 ==> {
                    &&& final(self).stage is Checking
                    &&& final(self).tracks matches Some(t) && exists|vi: int, ai: int|
                        crate::selector::is_video_choice(m.video@, old(self).code, vi)
                            && crate::selector::is_audio_choice(m.audio@, ai) && t
                            == #[trigger] crate::selector::tracks_of(m, old(self).code, vi, ai)
                    &&& named_for(*final(self), final(self).tracks->Some_0)
                    &&& a matches Action::CheckOutput { path } && path@ == final(self).output_path@
                }
            },
            ev is HistoryAppended ==> advanced(*old(self), *final(self), a),
            ev == Event::OutputExists(true) ==> records_job(*old(self), *final(self), a),
            ev == Event::OutputExists(false) ==> final(self).stage is DownloadingVideo && (a matches Action::Download {
                url,
                path,
                file_index,
                file_count,
            } && url@ == old(self).tracks->Some_0.video_url@ && path@ == old(self).video_path@
                && file_index == 0 && file_count == 2),
            ev is Downloaded && old(self).stage is DownloadingVideo ==> final(self).stage is DownloadingAudio && (a matches Action::Download {
                url,
                path,
                file_index,
                file_count,
            } && url@ == old(self).tracks->Some_0.audio_url@ && path@ == old(self).audio_path@
                && file_index == 1 && file_count == 2),
            ev is Downloaded && old(self).stage is DownloadingAudio ==> final(self).stage is Merging && (a matches Action::Merge {
                video,
                audio,
                output,
            } && video@ == old(self).video_path@ && audio@ == old(self).audio_path@ && output@
                == old(self).output_path@),
            ev is Merged ==> records_job(*old(self), *final(self), a),
            (ev == Event::OutputExists(false) || ev is Downloaded) ==> same_job(
                *old(self),
                *final(self),
            ),
    {
        match ev {
            Event::Failed(e) => {
                self.stage = Stage::Failed;
                Action::Finish(Err(e))
            },
            Event::Episodes(listing) => {
                let eps = match listing {
                    Some(v) => v,
                    None => {
                        if self.video.season_id.unicode_len() > 0 {
                            self.stage = Stage::Failed;
                            return Action::Finish(
                                Err(TaskError::ManifestParse(String::from_str("episodes"))),
                            );
                        }
                        Vec::new()
                    },
                };
                let jobs = episodic_jobs(&self.video, &eps);
                self.begin_jobs(jobs)
            },
            Event::ShortInfo { cid, title } => {
                let mut jobs: Vec<Job> = Vec::new();
                jobs.push(
                    Job {
                        fetch_id: self.video.bv_id.clone(),
                        cid,
                        title: crate::info::short_video_title(&title),
                        history_id: self.video.bv_id.clone(),
                    },
                );
                self.begin_jobs(jobs)
            },
            Event::Manifest(m) => self.on_manifest(m),
            Event::HistoryAppended => self.advance(),
            Event::OutputExists(exists) => {
                if exists {
                    self.record()
                } else {
                    self.stage = Stage::DownloadingVideo;
                    let url = match &self.tracks {
                        Some(t) => t.video_url.clone(),
                        None => String::new(),
                    };
                    Action::Download { url, path: self.video_path.clone(), file_index: 0, file_count: 2 }
                }
            },
            Event::Downloaded => {
                if matches!(self.stage, Stage::DownloadingVideo) {
                    self.stage = Stage::DownloadingAudio;
                    let url = match &self.tracks {
                        Some(t) => t.audio_url.clone(),
                        None => String::new(),
                    };
                    Action::Download { url, path: self.audio_path.clone(), file_index: 1, file_count: 2 }
                } else {
                    self.stage = Stage::Merging;
                    Action::Merge {
                        video: self.video_path.clone(),
                        audio: self.audio_path.clone(),
                        output: self.output_path.clone(),
                    }
                }
            },
            Event::Merged => self.record(),
        }
    }
}

/// A task asked for a label without a quality code still selects a video:
/// the one of maximum bandwidth over the whole manifest.
pub proof fn lemma_unknown_label_selects_overall_max(
    label: Seq<char>,
    vs: Seq<crate::selector::VideoRendition>,
    i: int,
)
    requires
        crate::resolution::qn_spec(label).len() == 0,
        crate::selector::is_video_choice(vs, requested_code(label), i),
    ensures
        requested_code(label) is None,
        forall|j: int| 0 <= j < vs.len() ==> (#[trigger] vs[j]).bandwidth <= vs[i].bandwidth,
{
    crate::resolution::lemma_unknown_label_has_no_code(label);
    crate::selector::lemma_no_code_picks_overall_max(vs, i);
}

} // verus!
