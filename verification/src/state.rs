//! The application's state and what its three buttons do to it.

use crate::job::{Job, JobRequest};
use crate::status::StatusLog;
use vstd::prelude::*;
use vstd::string::*;

verus! {

/// What the window shows and edits: the selected input files in playing
/// order, the theme, the two metadata fields and the status log.
pub struct M4bApp {
    pub files: Vec<String>,
    pub dark_mode: bool,
    pub title: String,
    pub author: String,
    pub ffmpeg_output: StatusLog,
}

/// The whole status text after a run was asked for with no input file.
pub open spec fn no_input_warning() -> Seq<char> {
    "⚠ No input files selected."@
}

/// The status text with which an accepted run starts.
pub open spec fn run_started() -> Seq<char> {
    "🔄 Generating m4b...\n"@
}

impl Default for M4bApp {
    /// Nothing selected, the dark theme, no metadata and an empty log.
    fn default() -> (app: M4bApp)
        ensures
            app.files@ == Seq::<String>::empty(),
            app.dark_mode,
            app.title@ == Seq::<char>::empty(),
            app.author@ == Seq::<char>::empty(),
            app.ffmpeg_output@ == Seq::<char>::empty(),
            !app.ffmpeg_output.redraw_requested(),
    {
        M4bApp {
            files: Vec::new(),
            dark_mode: true,
            title: String::new(),
            author: String::new(),
            ffmpeg_output: StatusLog::new(),
        }
    }
}

fn clone_texts(texts: &Vec<String>) -> (copy: Vec<String>)
    ensures
        copy.len() == texts.len(),
        copy.deep_view() == texts.deep_view(),
{
    let mut copy: Vec<String> = Vec::new();
    let mut i: usize = 0;
    while i < texts.len()
        invariant
            i <= texts.len(),
            copy.len() == i,
            forall|k: int| 0 <= k < i ==> copy[k]@ == texts[k]@,
        decreases texts.len() - i,
    {
        copy.push(texts[i].clone());
        i += 1;
    }
    copy
}

impl M4bApp {
    /// Switches between the dark and the light theme.
    pub fn toggle_theme(&mut self)
        ensures
            final(self).dark_mode == !old(self).dark_mode,
            final(self).files == old(self).files,
            final(self).title == old(self).title,
            final(self).author == old(self).author,
            final(self).ffmpeg_output == old(self).ffmpeg_output,
    {
        self.dark_mode = !self.dark_mode;
    }

    /// Replaces the selection by `files`, in the order given.
    pub fn select_files(&mut self, files: Vec<String>)
        ensures
            final(self).files == files,
            final(self).dark_mode == old(self).dark_mode,
            final(self).title == old(self).title,
            final(self).author == old(self).author,
            final(self).ffmpeg_output == old(self).ffmpeg_output,
    {
        self.files = files;
    }

    /// Asks for a run that writes to `output_path`. With no input file
    /// selected the run is refused: the log then holds the warning and
    /// nothing else, and no request is made. Otherwise the log is reset to
    /// the starting message and the request is handed out, holding the
    /// selection, the title and the author as they are now. Either way a
    /// redraw is asked for, and nothing but the log changes.
    pub fn generate_m4b(&mut self, output_path: &str) -> (job: Option<JobRequest>)
        ensures
            job is None <==> old(self).files.len() == 0,
            job is None ==> final(self).ffmpeg_output@ == no_input_warning(),
            job matches Some(j) ==> {
                &&& final(self).ffmpeg_output@ == run_started()
                &&& j@ == (Job {
                    files: old(self).files.deep_view(),
                    title: old(self).title@,
                    author: old(self).author@,
                    output_path: output_path@,
                })
            },
            final(self).ffmpeg_output.redraw_requested(),
            final(self).files == old(self).files,
            final(self).dark_mode == old(self).dark_mode,
            final(self).title == old(self).title,
            final(self).author == old(self).author,
    {
        let job = JobRequest::new(
            clone_texts(&self.files),
            self.title.clone(),
            self.author.clone(),
            String::from_str(output_path),
        );
        match job {
            None => {
                self.ffmpeg_output.reset("⚠ No input files selected.");
            },
            Some(_) => {
                self.ffmpeg_output.reset("🔄 Generating m4b...\n");
            },
        }
        job
    }
}

} // verus!
