//! The loop controller: one `Watcher` owns the text displayed after the
//! previous run and its highlighted form, and folds each new run's outcome
//! into that state. Running the command, clearing the terminal, printing and
//! sleeping are the caller's side of the loop; the decisions live here.

use crate::diff::{diffed_display, get_diffed_output};
use crate::digest::{outputs_changed, sha256_of};
use crate::text::{text_of, ByteOrString};
use vstd::prelude::*;
use vstd::utf8::encode_utf8;

verus! {

/// What one trip through the loop observed: the command ran and produced
/// these standard-output bytes (a nonzero exit status is not distinguished
/// from success), or it could not be launched at all.
pub enum RunEvent {
    Output(Vec<u8>),
    LaunchFailed,
}

/// The loop controller's two states: running normally, or terminated for
/// good after a launch failure.
pub enum LoopState {
    Running,
    Terminated,
}

/// The loop controller's state: the text displayed after the last run, and
/// the (possibly highlighted) form of it that the renderer prints.
pub struct Watcher {
    displayed: String,
    diffed: String,
}

impl Watcher {
    /// The text form of the last run's output, empty before the first run.
    pub closed spec fn displayed_text(&self) -> Seq<char> {
        self.displayed@
    }

    /// The text the renderer prints, with highlight markers where the last
    /// run changed the output.
    pub closed spec fn diffed_text(&self) -> Seq<char> {
        self.diffed@
    }

    /// A watcher that has not seen any output yet.
    pub fn new() -> (w: Watcher)
        ensures
            w.displayed_text() == Seq::<char>::empty(),
            w.diffed_text() == Seq::<char>::empty(),
    {
        Watcher { displayed: String::new(), diffed: String::new() }
    }

    /// The text the renderer prints.
    pub fn diffed_output(&self) -> (r: &String)
        ensures
            r@ == self.diffed_text(),
    {
        &self.diffed
    }

    /// The text form of the last run's output.
    pub fn displayed_output(&self) -> (r: &String)
        ensures
            r@ == self.displayed_text(),
    {
        &self.displayed
    }

    /// Folds one run's captured output into the state. The displayed text
    /// becomes the new output's text form. The highlighted display is
    /// recomputed only when the content digests differ; for stable output it
    /// is reused verbatim, so the highlighting never flickers.
    pub fn observe(&mut self, stdout: Vec<u8>) -> (changed: bool)
        ensures
            changed == (sha256_of(stdout@) != sha256_of(
                encode_utf8(old(self).displayed_text()),
            )),
            stdout@ == encode_utf8(old(self).displayed_text()) ==> !changed,
            final(self).displayed_text() == text_of(stdout@),
            changed ==> final(self).diffed_text() == text_of(
                diffed_display(encode_utf8(old(self).displayed_text()), stdout@),
            ),
            !changed ==> final(self).diffed_text() == old(self).diffed_text(),
    {
        let current = ByteOrString::Bytes(stdout);
        let previous = ByteOrString::String(self.displayed.clone());
        let changed = outputs_changed(&current, &previous);
        if changed {
            self.diffed = get_diffed_output(&current, &previous);
        }
        self.displayed = current.as_string();
        changed
    }

    /// One step of the loop controller: on captured output, fold it into
    /// the state and keep running; on a launch failure, terminate for good
    /// with the state untouched.
    pub fn step(&mut self, event: RunEvent) -> (state: LoopState)
        ensures
            match event {
                RunEvent::Output(stdout) => {
                    &&& state is Running
                    &&& final(self).displayed_text() == text_of(stdout@)
                    &&& sha256_of(stdout@) != sha256_of(
                        encode_utf8(old(self).displayed_text()),
                    ) ==> final(self).diffed_text() == text_of(
                        diffed_display(encode_utf8(old(self).displayed_text()), stdout@),
                    )
                    &&& sha256_of(stdout@) == sha256_of(
                        encode_utf8(old(self).displayed_text()),
                    ) ==> final(self).diffed_text() == old(self).diffed_text()
                },
                RunEvent::LaunchFailed => state is Terminated && *final(self) == *old(self),
            },
    {
        match event {
            RunEvent::Output(stdout) => {
                self.observe(stdout);
                LoopState::Running
            },
            RunEvent::LaunchFailed => LoopState::Terminated,
        }
    }
}

} // verus!
