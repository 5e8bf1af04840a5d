//! Keeping a directory watch bound to the working directory, and deciding
//! when its events call for a fresh listing.
use vstd::prelude::*;
use crate::state::{send_message_or_panic, AppState, Notice};

verus! {

/// What a watch reports of a change among the entries of its directory.
#[derive(PartialEq, Eq, Structural, Clone, Copy, Debug)]
pub enum WatchEvent {
    Created,
    Removed,
    /// An entry changed its name.
    NameChanged,
    /// Anything else, such as a change of contents or metadata.
    Other,
}

/// Events that change which entries a directory holds.
pub open spec fn changes_listing(e: WatchEvent) -> bool {
    !(e is Other)
}

/// Whether any of the events drained in one tick changes the listing; all of
/// them together call for a single fresh listing.
pub fn events_need_refresh(events: &Vec<WatchEvent>) -> (r: bool)
    ensures
        r == exists|i: int| 0 <= i < events.len() && changes_listing(#[trigger] events@[i]),
{
    let mut i: usize = 0;
    while i < events.len()
        invariant
            i <= events.len(),
            forall|k: int| 0 <= k < i ==> !changes_listing(#[trigger] events@[k]),
        decreases events.len() - i,
    {
        if events[i] != WatchEvent::Other {
            return true;
        }
        i = i + 1;
    }
    false
}

/// What to do with the watch so that it follows the working directory.
pub enum WatchCommand {
    /// The watch already targets the working directory.
    Keep,
    /// Start watching `dir`; nothing is watched now.
    Bind { dir: String },
    /// Stop watching `from`, then watch `to`.
    Rebind { from: String, to: String },
}

/// The directory the watch was last aimed at, and whether that succeeded.
pub struct WatchBinding {
    pub watched: Option<String>,
    pub live: bool,
}

impl WatchBinding {
    /// A watch aimed at nothing yet.
    pub fn new() -> (r: WatchBinding)
        ensures
            r.watched is None,
            !r.live,
    {
        WatchBinding { watched: None, live: false }
    }

    /// Whether the watch was last aimed at `dir`.
    pub open spec fn targets(&self, dir: Seq<char>) -> bool {
        self.watched is Some && self.watched->0@ == dir
    }

    /// The command that moves the watch to `working_directory`. A directory
    /// that could not be watched is not tried again until the working
    /// directory changes.
    pub fn plan(&self, working_directory: &String) -> (c: WatchCommand)
        ensures
            self.targets(working_directory@) ==> c is Keep,
            !self.targets(working_directory@) && self.live && self.watched is Some ==> c is Rebind
                && c->from@ == self.watched->0@ && c->to@ == working_directory@,
            !self.targets(working_directory@) && !(self.live && self.watched is Some) ==> c is Bind
                && c->dir@ == working_directory@,
    {
        match &self.watched {
            Some(w) => {
                if *w == *working_directory {
                    WatchCommand::Keep
                } else if self.live {
                    WatchCommand::Rebind { from: w.clone(), to: working_directory.clone() }
                } else {
                    WatchCommand::Bind { dir: working_directory.clone() }
                }
            },
            None => WatchCommand::Bind { dir: working_directory.clone() },
        }
    }

    /// Records that the watch was aimed at `dir`, and whether it took.
    pub fn record(&mut self, dir: String, bound: bool)
        ensures
            final(self).targets(dir@),
            final(self).live == bound,
    {
        self.watched = Some(dir);
        self.live = bound;
    }
}

/// Takes the outcome of aiming the watch at the working directory. A failure
/// is shown and leaves the directory without live refresh; navigation goes on.
pub fn watch_rebound(app_state: &mut AppState, result: Result<(), String>)
    requires
        old(app_state).wf(),
    ensures
        final(app_state).wf(),
        final(app_state).watch.targets(old(app_state).working_directory@),
        final(app_state).watch.live == result is Ok,
        match result {
            Ok(()) => *final(app_state) == (AppState { watch: final(app_state).watch, ..*old(app_state) }),
            Err(e) => *final(app_state) == (AppState {
                watch: final(app_state).watch,
                message: Notice::WatchFailed(e),
                ..*old(app_state)
            }),
        },
{
    let dir = app_state.working_directory.clone();
    match result {
        Ok(()) => {
            app_state.watch.record(dir, true);
        },
        Err(e) => {
            app_state.watch.record(dir, false);
            send_message_or_panic(app_state, Notice::WatchFailed(e));
        },
    }
}

} // verus!
