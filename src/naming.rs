//! Names and paths of the files a task produces, and its history line.

use vstd::prelude::*;
use crate::text::{push_char, push_str};

verus! {

/// Characters that file names on common platforms cannot hold.
pub open spec fn is_forbidden(c: char) -> bool {
    c == '<' || c == '>' || c == ':' || c == '"' || c == '/' || c == '\\' || c == '|' || c == '?'
        || c == '*'
}

pub open spec fn keep_char(c: char) -> bool {
    !is_forbidden(c)
}

/// The text with every forbidden character taken out, the others kept in order.
pub open spec fn strip_forbidden(s: Seq<char>) -> Seq<char> {
    s.filter(|c: char| keep_char(c))
}

/// Removes the characters that a file name cannot hold.
pub fn remove_punctuation(input: &str) -> (r: String)
    ensures
        r@ == strip_forbidden(input@),
{
    let n = input.unicode_len();
    let mut r = String::new();
    let mut i: usize = 0;
    while i < n
        invariant
            n == input@.len(),
            i <= n,
            r@ == strip_forbidden(input@.subrange(0, i as int)),
        decreases n - i,
    {
        let c = input.get_char(i);
        let forbidden = c == '<' || c == '>' || c == ':' || c == '"' || c == '/' || c == '\\'
            || c == '|' || c == '?' || c == '*';
        proof {
            let pre = input@.subrange(0, i + 1);
            assert(pre.drop_last() == input@.subrange(0, i as int));
            assert(pre.last() == c);
            reveal(Seq::filter);
        }
        if !forbidden {
            push_char(&mut r, c);
        }
        i = i + 1;
    }
    assert(input@.subrange(0, n as int) == input@);
    r
}

/// The display name of a download: the cleaned title, a space, the quality label.
pub fn display_name(title: &str, label: &str) -> (r: String)
    ensures
        r@ == title@ + " "@ + label@,
{
    let mut r = String::from_str(title);
    push_str(&mut r, " ");
    push_str(&mut r, label);
    r
}

/// `dir/name` followed by a suffix.
pub open spec fn file_in(dir: Seq<char>, name: Seq<char>, suffix: Seq<char>) -> Seq<char> {
    dir + "/"@ + name + suffix
}

fn path_with(dir: &str, name: &str, suffix: &str) -> (r: String)
    ensures
        r@ == file_in(dir@, name@, suffix@),
{
    let mut r = String::from_str(dir);
    push_str(&mut r, "/");
    push_str(&mut r, name);
    push_str(&mut r, suffix);
    r
}

/// Where the video track of `name` is downloaded to.
pub fn video_path(dir: &str, name: &str) -> (r: String)
    ensures
        r@ == file_in(dir@, name@, "_video.m4s"@),
{
    path_with(dir, name, "_video.m4s")
}

/// Where the audio track of `name` is downloaded to.
pub fn audio_path(dir: &str, name: &str) -> (r: String)
    ensures
        r@ == file_in(dir@, name@, "_audio.m4s"@),
{
    path_with(dir, name, "_audio.m4s")
}

/// Where the merged container of `name` is written.
pub fn output_path(dir: &str, name: &str) -> (r: String)
    ensures
        r@ == file_in(dir@, name@, ".mp4"@),
{
    path_with(dir, name, ".mp4")
}

/// One tab-separated history line: time, identifier, name, and a closing tab.
pub open spec fn history_text(time: Seq<char>, id: Seq<char>, name: Seq<char>) -> Seq<char> {
    time + "\t"@ + id + "\t"@ + name + "\t\n"@
}

/// Formats the history line recorded for a finished task.
pub fn history_line(time: &str, id: &str, name: &str) -> (r: String)
    ensures
        r@ == history_text(time@, id@, name@),
{
    let mut r = String::from_str(time);
    push_str(&mut r, "\t");
    push_str(&mut r, id);
    push_str(&mut r, "\t");
    push_str(&mut r, name);
    push_str(&mut r, "\t\n");
    r
}

} // verus!
