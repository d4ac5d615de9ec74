//! Work on one item of a list of identifiers.
//!
//! The item is searched for by its identifier, its detail view is opened,
//! its document is downloaded, and the list view is returned to. Controls
//! that are missing are passed over; the item is completed when its
//! download was triggered.

use vstd::prelude::*;
use crate::policy::{spec_timeout, TimeoutPolicy};
use crate::portal::{
    BACK_BUTTON, RESULT_DETAIL_BUTTON, RESULT_DOWNLOAD, SEARCH_BOX, SEARCH_BUTTON,
};
use crate::remote::{
    after, count, plain, spec_after, spec_count, spec_plain, spec_succeeded, succeeded, Command,
    Message, Reply, Selector, Step,
};

verus! {

/// Pause after the identifier was entered, in milliseconds.
pub const ENTRY_MS: u64 = 500;

/// Pause after a click that changes the view, in milliseconds.
pub const VIEW_CHANGE_MS: u64 = 2000;

/// Pause that lets the browser create the in-flight marker of the download
/// just triggered, in milliseconds.
pub const MARKER_GRACE_MS: u64 = 1300;

/// Where the work on a listed item stands.
#[derive(Clone, Copy, Debug, PartialEq, Eq, Structural)]
pub enum ListedPhase {
    SeekingSearchBox,
    FocusingSearchBox,
    EnteringSearch,
    SeekingSearchButton,
    Searching,
    SeekingDetail,
    OpeningDetail,
    SeekingDownload,
    Triggering,
    Awaiting,
    SeekingBack,
    Returning,
    Finished { completed: bool },
}

/// The state of the work on the listed item at `position`: the phase,
/// whether its download was triggered, and the waits to apply.
#[derive(Clone, Copy, Debug, PartialEq, Eq, Structural)]
pub struct ListedItem {
    pub phase: ListedPhase,
    pub position: usize,
    pub triggered: bool,
    pub policy: TimeoutPolicy,
}

/// What the work on a listed item asks for next, or how it ended.
#[derive(Clone, Copy, Debug, PartialEq, Eq, Structural)]
pub enum ListedMove {
    Continue { step: Step },
    Finished { completed: bool },
}

/// The state in which the work on a listed item starts.
pub open spec fn spec_initial(position: usize, policy: TimeoutPolicy) -> ListedItem {
    ListedItem { phase: ListedPhase::SeekingSearchBox, position, triggered: false, policy }
}

/// The command with which the work on a listed item starts.
pub open spec fn spec_first_command() -> Command {
    Command::Probe { selector: Selector::TextBox }
}

pub open spec fn spec_to(s: ListedItem, phase: ListedPhase, step: Step) -> (ListedItem, ListedMove) {
    (ListedItem { phase, ..s }, ListedMove::Continue { step })
}

pub open spec fn spec_end(s: ListedItem, completed: bool) -> (ListedItem, ListedMove) {
    (
        ListedItem { phase: ListedPhase::Finished { completed }, ..s },
        ListedMove::Finished { completed },
    )
}

/// The transition of the work on a listed item: the state after `reply`
/// and the next move.
pub open spec fn spec_advance(s: ListedItem, reply: Reply) -> (ListedItem, ListedMove) {
    match s.phase {
        ListedPhase::SeekingSearchBox => match spec_count(reply) {
            Some(found) if found > SEARCH_BOX => spec_to(
                s,
                ListedPhase::FocusingSearchBox,
                spec_plain(Command::Click { selector: Selector::TextBox, index: SEARCH_BOX }),
            ),
            _ => spec_end(s, false),
        },
        ListedPhase::FocusingSearchBox => spec_to(
            s,
            ListedPhase::EnteringSearch,
            spec_plain(Command::EnterSearch { position: s.position }),
        ),
        ListedPhase::EnteringSearch => spec_to(
            s,
            ListedPhase::SeekingSearchButton,
            spec_after(ENTRY_MS, Command::Probe { selector: Selector::Button }),
        ),
        ListedPhase::SeekingSearchButton => match spec_count(reply) {
            Some(found) if found > SEARCH_BUTTON => spec_to(
                s,
                ListedPhase::Searching,
                spec_plain(Command::Click { selector: Selector::Button, index: SEARCH_BUTTON }),
            ),
            _ => spec_to(
                s,
                ListedPhase::SeekingDetail,
                spec_plain(Command::Probe { selector: Selector::PlainButton }),
            ),
        },
        ListedPhase::Searching => spec_to(
            s,
            ListedPhase::SeekingDetail,
            spec_after(VIEW_CHANGE_MS, Command::Probe { selector: Selector::PlainButton }),
        ),
        ListedPhase::SeekingDetail => match spec_count(reply) {
            Some(found) if found > RESULT_DETAIL_BUTTON => spec_to(
                s,
                ListedPhase::OpeningDetail,
                spec_plain(
                    Command::Click { selector: Selector::PlainButton, index: RESULT_DETAIL_BUTTON },
                ),
            ),
            _ => spec_to(
                s,
                ListedPhase::SeekingDownload,
                spec_plain(Command::Probe { selector: Selector::DownloadIcon }),
            ),
        },
        ListedPhase::OpeningDetail => spec_to(
            s,
            ListedPhase::SeekingDownload,
            spec_after(VIEW_CHANGE_MS, Command::Probe { selector: Selector::DownloadIcon }),
        ),
        ListedPhase::SeekingDownload => match spec_count(reply) {
            Some(found) if found > RESULT_DOWNLOAD => spec_to(
                s,
                ListedPhase::Triggering,
                spec_plain(
                    Command::Click { selector: Selector::DownloadIcon, index: RESULT_DOWNLOAD },
                ),
            ),
            _ => spec_to(
                s,
                ListedPhase::SeekingBack,
                spec_plain(Command::Probe { selector: Selector::ViewButton }),
            ),
        },
        ListedPhase::Triggering => (
            ListedItem { phase: ListedPhase::Awaiting, triggered: spec_succeeded(reply), ..s },
            ListedMove::Continue {
                step: spec_after(
                    MARKER_GRACE_MS,
                    Command::AwaitDownloads { timeout_secs: spec_timeout(s.policy, 1) as u64 },
                ),
            },
        ),
        ListedPhase::Awaiting => spec_to(
            s,
            ListedPhase::SeekingBack,
            Step {
                pause_ms: 0,
                report: if reply == (Reply::Downloads { stable: true }) {
                    None
                } else {
                    Some(Message::DownloadsUnconfirmed)
                },
                command: Command::Probe { selector: Selector::ViewButton },
            },
        ),
        ListedPhase::SeekingBack => match spec_count(reply) {
            Some(found) if found > BACK_BUTTON => spec_to(
                s,
                ListedPhase::Returning,
                spec_plain(Command::Click { selector: Selector::ViewButton, index: BACK_BUTTON }),
            ),
            _ => spec_end(s, s.triggered),
        },
        ListedPhase::Returning => spec_end(s, s.triggered),
        ListedPhase::Finished { completed } => (s, ListedMove::Finished { completed }),
    }
}

impl ListedItem {
    /// Starts the work on the listed item at `position`. The command that
    /// comes back is the first to perform.
    pub fn start(position: usize, policy: TimeoutPolicy) -> (begun: (ListedItem, Command))
        ensures
            begun.0 == spec_initial(position, policy),
            begun.1 == spec_first_command(),
    {
        (
            ListedItem { phase: ListedPhase::SeekingSearchBox, position, triggered: false, policy },
            Command::Probe { selector: Selector::TextBox },
        )
    }

    fn to(&mut self, phase: ListedPhase, step: Step) -> (next: ListedMove)
        ensures
            (*final(self), next) == spec_to(*old(self), phase, step),
    {
        self.phase = phase;
        ListedMove::Continue { step }
    }

    fn end(&mut self, completed: bool) -> (next: ListedMove)
        ensures
            (*final(self), next) == spec_end(*old(self), completed),
    {
        self.phase = ListedPhase::Finished { completed };
        ListedMove::Finished { completed }
    }

    /// Takes in the reply to the command last asked for and says what to do
    /// next. Once the work has ended, it repeats how it ended.
    pub fn advance(&mut self, reply: Reply) -> (next: ListedMove)
        ensures
            (*final(self), next) == spec_advance(*old(self), reply),
    {
        match self.phase {
            ListedPhase::SeekingSearchBox => match count(reply) {
                Some(found) if found > SEARCH_BOX => self.to(
                    ListedPhase::FocusingSearchBox,
                    plain(Command::Click { selector: Selector::TextBox, index: SEARCH_BOX }),
                ),
                _ => self.end(false),
            },
            ListedPhase::FocusingSearchBox => {
                let position = self.position;
                self.to(ListedPhase::EnteringSearch, plain(Command::EnterSearch { position }))
            },
            ListedPhase::EnteringSearch => self.to(
                ListedPhase::SeekingSearchButton,
                after(ENTRY_MS, Command::Probe { selector: Selector::Button }),
            ),
            ListedPhase::SeekingSearchButton => match count(reply) {
                Some(found) if found > SEARCH_BUTTON => self.to(
                    ListedPhase::Searching,
                    plain(Command::Click { selector: Selector::Button, index: SEARCH_BUTTON }),
                ),
                _ => self.to(
                    ListedPhase::SeekingDetail,
                    plain(Command::Probe { selector: Selector::PlainButton }),
                ),
            },
            ListedPhase::Searching => self.to(
                ListedPhase::SeekingDetail,
                after(VIEW_CHANGE_MS, Command::Probe { selector: Selector::PlainButton }),
            ),
            ListedPhase::SeekingDetail => match count(reply) {
                Some(found) if found > RESULT_DETAIL_BUTTON => self.to(
                    ListedPhase::OpeningDetail,
                    plain(
                        Command::Click {
                            selector: Selector::PlainButton,
                            index: RESULT_DETAIL_BUTTON,
                        },
                    ),
                ),
                _ => self.to(
                    ListedPhase::SeekingDownload,
                    plain(Command::Probe { selector: Selector::DownloadIcon }),
                ),
            },
            ListedPhase::OpeningDetail => self.to(
                ListedPhase::SeekingDownload,
                after(VIEW_CHANGE_MS, Command::Probe { selector: Selector::DownloadIcon }),
            ),
            ListedPhase::SeekingDownload => match count(reply) {
                Some(found) if found > RESULT_DOWNLOAD => self.to(
                    ListedPhase::Triggering,
                    plain(
                        Command::Click { selector: Selector::DownloadIcon, index: RESULT_DOWNLOAD },
                    ),
                ),
                _ => self.to(
                    ListedPhase::SeekingBack,
                    plain(Command::Probe { selector: Selector::ViewButton }),
                ),
            },
            ListedPhase::Triggering => {
                self.triggered = succeeded(reply);
                let timeout_secs = self.policy.timeout_for(1);
                self.to(
                    ListedPhase::Awaiting,
                    after(MARKER_GRACE_MS, Command::AwaitDownloads { timeout_secs }),
                )
            },
            ListedPhase::Awaiting => {
                let report = match reply {
                    Reply::Downloads { stable: true } => None,
                    _ => Some(Message::DownloadsUnconfirmed),
                };
                self.to(
                    ListedPhase::SeekingBack,
                    Step {
                        pause_ms: 0,
                        report,
                        command: Command::Probe { selector: Selector::ViewButton },
                    },
                )
            },
            ListedPhase::SeekingBack => {
                let triggered = self.triggered;
                match count(reply) {
                    Some(found) if found > BACK_BUTTON => self.to(
                        ListedPhase::Returning,
                        plain(
                            Command::Click { selector: Selector::ViewButton, index: BACK_BUTTON },
                        ),
                    ),
                    _ => self.end(triggered),
                }
            },
            ListedPhase::Returning => {
                let triggered = self.triggered;
                self.end(triggered)
            },
            ListedPhase::Finished { completed } => ListedMove::Finished { completed },
        }
    }
}

} // verus!
