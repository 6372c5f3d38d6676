//! The status log: the text that a run reports into and the screen shows.

use vstd::prelude::*;
use vstd::string::*;

verus! {

/// An append-only text with a redraw request beside it. Writers replace the
/// text when a run starts and add whole lines after that; a reader takes a
/// copy. Every change of the text asks for a redraw, and the request stays
/// until it is taken.
pub struct StatusLog {
    text: String,
    redraw: bool,
}

impl View for StatusLog {
    type V = Seq<char>;

    /// The text of the log.
    closed spec fn view(&self) -> Seq<char> {
        self.text@
    }
}

impl StatusLog {
    /// Whether a change of the text still waits to be drawn.
    pub closed spec fn redraw_requested(&self) -> bool {
        self.redraw
    }

    /// An empty log that asks for no redraw.
    pub fn new() -> (log: StatusLog)
        ensures
            log@ == Seq::<char>::empty(),
            !log.redraw_requested(),
    {
        StatusLog { text: String::new(), redraw: false }
    }

    /// Replaces the whole text by `message`.
    pub fn reset(&mut self, message: &str)
        ensures
            final(self)@ == message@,
            final(self).redraw_requested(),
    {
        self.text = String::from_str(message);
        self.redraw = true;
    }

    /// Adds `text` at the end, as it is. For a text made of whole lines, each
    /// with its line feed.
    pub(crate) fn append(&mut self, text: &str)
        ensures
            final(self)@ == old(self)@ + text@,
            final(self).redraw_requested(),
    {
        self.text.append(text);
        self.redraw = true;
    }

    /// Adds `line` and a line feed at the end, in one step.
    pub fn append_line(&mut self, line: &str)
        ensures
            final(self)@ == old(self)@ + line@.push('\n'),
            final(self).redraw_requested(),
    {
        self.text.append(line);
        self.text.append("\n");
        self.redraw = true;
        proof {
            reveal_strlit("\n");
        }
    }

    /// A copy of the text as it is now. The log is left as it was.
    pub fn snapshot(&self) -> (copy: String)
        ensures
            copy@ == self@,
    {
        self.text.clone()
    }

    /// Hands over the pending redraw request, if there is one, and clears it.
    pub fn take_redraw(&mut self) -> (pending: bool)
        ensures
            pending == old(self).redraw_requested(),
            !final(self).redraw_requested(),
            final(self)@ == old(self)@,
    {
        let pending = self.redraw;
        self.redraw = false;
        pending
    }
}

/// Two snapshots of one log with nothing written between them hold the same
/// text: a snapshot depends on the text of the log alone.
pub proof fn snapshot_is_repeatable(log: StatusLog, first: String, second: String)
    requires
        first@ == log@,
        second@ == log@,
    ensures
        first@ == second@,
{
}

} // verus!
