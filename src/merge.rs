//! The merge stage: decide whether the muxer must run, with which
//! arguments, and what follows its exit.

use vstd::prelude::*;
use crate::error::TaskError;
use crate::text::texts;

verus! {

/// The muxer's arguments: copy the first input's video and the second
/// input's audio into one container without re-encoding, laid out for
/// streaming playback, reporting errors only.
pub open spec fn mux_args_spec(video: Seq<char>, audio: Seq<char>, output: Seq<char>) -> Seq<
    Seq<char>,
> {
    seq![
        "-i"@,
        video,
        "-i"@,
        audio,
        "-c:v"@,
        "copy"@,
        "-c:a"@,
        "copy"@,
        "-shortest"@,
        "-map"@,
        "0:v"@,
        "-map"@,
        "1:a"@,
        "-y"@,
        "-movflags"@,
        "+faststart"@,
        output,
        "-hide_banner"@,
        "-stats"@,
        "-loglevel"@,
        "error"@,
    ]
}

/// Builds the muxer's argument list for two inputs and one output.
pub fn mux_args(video: &str, audio: &str, output: &str) -> (r: Vec<String>)
    ensures
        texts(r@) == mux_args_spec(video@, audio@, output@),
{
    let mut r: Vec<String> = Vec::new();
    r.push(String::from_str("-i"));
    r.push(String::from_str(video));
    r.push(String::from_str("-i"));
    r.push(String::from_str(audio));
    r.push(String::from_str("-c:v"));
    r.push(String::from_str("copy"));
    r.push(String::from_str("-c:a"));
    r.push(String::from_str("copy"));
    r.push(String::from_str("-shortest"));
    r.push(String::from_str("-map"));
    r.push(String::from_str("0:v"));
    r.push(String::from_str("-map"));
    r.push(String::from_str("1:a"));
    r.push(String::from_str("-y"));
    r.push(String::from_str("-movflags"));
    r.push(String::from_str("+faststart"));
    r.push(String::from_str(output));
    r.push(String::from_str("-hide_banner"));
    r.push(String::from_str("-stats"));
    r.push(String::from_str("-loglevel"));
    r.push(String::from_str("error"));
    assert(texts(r@) =~= mux_args_spec(video@, audio@, output@));
    r
}

/// How a merge begins.
#[derive(Debug, Clone)]
pub enum MergeStart {
    /// The output already exists: nothing is run and nothing is written.
    AlreadyDone,
    /// Run the muxer with these arguments.
    RunMuxer(Vec<String>),
}

/// Decides whether the muxer runs: not when the output already exists.
pub fn merge_start(output_exists: bool, video: &str, audio: &str, output: &str) -> (r: MergeStart)
    ensures
        output_exists ==> r is AlreadyDone,
        !output_exists ==> (r matches MergeStart::RunMuxer(args) && texts(args@) == mux_args_spec(
            video@,
            audio@,
            output@,
        )),
{
    if output_exists {
        MergeStart::AlreadyDone
    } else {
        MergeStart::RunMuxer(mux_args(video, audio, output))
    }
}

/// How the muxer ended: `Ok(true)` for a zero exit, `Ok(false)` for another
/// exit, `Err` when it could not be started or waited for.
pub open spec fn mux_succeeded(exit: Result<bool, String>) -> bool {
    exit == Ok::<bool, String>(true)
}

/// Settles a merge from the muxer's exit. On success the intermediates are
/// to be removed; on failure they stay and the task fails with a merge error.
pub fn merge_finish(exit: Result<bool, String>) -> (r: Result<(), TaskError>)
    ensures
        mux_succeeded(exit) <==> r is Ok,
        r is Err ==> r->Err_0 is Merge,
{
    match exit {
        Ok(true) => Ok(()),
        Ok(false) => Err(TaskError::Merge(String::from_str("the muxer exited with a failure"))),
        Err(e) => Err(TaskError::Merge(e)),
    }
}

/// Which of a merge's files are on disk.
#[derive(Debug, Clone, Copy, PartialEq, Eq)]
pub struct MergeFiles {
    pub video: bool,
    pub audio: bool,
    pub output: bool,
}

/// One merge carried out as `merge_start` and `merge_finish` direct: the
/// files afterwards, and whether the muxer was run.
pub open spec fn merge_run(f: MergeFiles, exit: Result<bool, String>) -> (MergeFiles, bool) {
    if f.output {
        (f, false)
    } else if mux_succeeded(exit) {
        (MergeFiles { video: false, audio: false, output: true }, true)
    } else {
        (f, true)
    }
}

/// Merging again once a merge has produced the output runs no muxer and
/// leaves every file as it was.
pub proof fn lemma_merge_idempotent(
    f: MergeFiles,
    first: Result<bool, String>,
    second: Result<bool, String>,
)
    requires
        merge_run(f, first).0.output,
    ensures
        merge_run(merge_run(f, first).0, second) == (merge_run(f, first).0, false),
{
}

/// A failed merge keeps the downloaded intermediates.
pub proof fn lemma_failed_merge_keeps_intermediates(f: MergeFiles, exit: Result<bool, String>)
    requires
        !f.output,
        !mux_succeeded(exit),
    ensures
        merge_run(f, exit).0 == f,
        merge_run(f, exit).1,
{
}

} // verus!
