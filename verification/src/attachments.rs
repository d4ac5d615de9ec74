//! Attachment harvest loop.
//!
//! Works through one communication: opens its detail view by its place on
//! the page, goes through the pages of its attachment list, triggers every
//! download but the cover entry's, waits for the downloads to settle and
//! returns to the list. An item without attachments is a valid item: it is
//! worked through without any wait for downloads.

use vstd::prelude::*;
use crate::policy::{spec_timeout, TimeoutPolicy};
use crate::portal::{ATTACHMENTS_NEXT, BACK_BUTTON, FIRST_ATTACHMENT, LIST_NEXT};
use crate::remote::{
    after, count, plain, spec_after, spec_count, spec_plain, spec_succeeded, succeeded, Command,
    Message, Reply, Selector, Step,
};

verus! {

/// Pause between two clicks on download controls, in milliseconds.
pub const CLICK_PACE_MS: u64 = 300;

/// Pause that lets the browser create the in-flight markers of the
/// downloads just triggered, in milliseconds.
pub const MARKER_GRACE_MS: u64 = 3000;

/// Pause that lets a view settle after it changed, in milliseconds.
pub const VIEW_SETTLE_MS: u64 = 1000;

/// Pause after a click that changes the view, before the new view is
/// looked at, in milliseconds.
pub const VIEW_CHANGE_MS: u64 = 2000;

/// Where the work on an item stands.
#[derive(Clone, Copy, Debug, PartialEq, Eq, Structural)]
pub enum ItemPhase {
    /// The list's "next page" controls are being counted.
    SeekingAdvance,
    /// The list is being advanced by one page.
    Advancing,
    /// The rows of the page are being counted.
    Locating,
    /// The item's row is being clicked.
    Opening,
    /// The download controls of the attachment page are being counted.
    Listing,
    /// The download control at `index` of `shown` is being clicked.
    Triggering { index: usize, shown: usize },
    /// The downloads of the attachment page are being waited for.
    Awaiting,
    /// The attachment list's "next page" controls are being counted.
    SeekingMore,
    /// The attachment list is being advanced by one page.
    Turning,
    /// The detail view's buttons are being counted.
    SeekingBack,
    /// The "back" control is being clicked.
    Returning,
    /// The work on the item has ended.
    Finished { completed: bool },
}

/// The state of the work on one item: the phase, the item's zero-based
/// place on its page, whether every step at the level of the item has
/// succeeded so far, and the waits to apply.
#[derive(Clone, Copy, Debug, PartialEq, Eq, Structural)]
pub struct ItemHarvest {
    pub phase: ItemPhase,
    pub position: usize,
    pub sound: bool,
    pub policy: TimeoutPolicy,
}

/// What the work on an item asks for next, or how it ended. An item is
/// completed when it was opened and the return to the list went its normal
/// way; downloads that failed to start or to settle do not count against it.
#[derive(Clone, Copy, Debug, PartialEq, Eq, Structural)]
pub enum ItemMove {
    Continue { step: Step },
    Finished { completed: bool },
}

/// Files that an attachment page with `shown` download controls offers: the
/// first control belongs to the cover entry.
pub open spec fn spec_files(shown: usize) -> int {
    if shown >= FIRST_ATTACHMENT {
        shown - FIRST_ATTACHMENT
    } else {
        0
    }
}

/// The state in which the work on an item starts.
pub open spec fn spec_initial(position: usize, advance: bool, policy: TimeoutPolicy) -> ItemHarvest {
    ItemHarvest {
        phase: if advance {
            ItemPhase::SeekingAdvance
        } else {
            ItemPhase::Locating
        },
        position,
        sound: true,
        policy,
    }
}

/// The command with which the work on an item starts.
pub open spec fn spec_first_command(advance: bool) -> Command {
    if advance {
        Command::Probe { selector: Selector::PagingNext }
    } else {
        Command::Probe { selector: Selector::DetailIcon }
    }
}

pub open spec fn spec_to(s: ItemHarvest, phase: ItemPhase, step: Step) -> (ItemHarvest, ItemMove) {
    (ItemHarvest { phase, ..s }, ItemMove::Continue { step })
}

pub open spec fn spec_end(s: ItemHarvest, completed: bool) -> (ItemHarvest, ItemMove) {
    (ItemHarvest { phase: ItemPhase::Finished { completed }, ..s }, ItemMove::Finished { completed })
}

/// Leaves the attachment loop and looks for the way back to the list.
pub open spec fn spec_leave(s: ItemHarvest, sound: bool, report: Option<Message>) -> (
    ItemHarvest,
    ItemMove,
) {
    (
        ItemHarvest { phase: ItemPhase::SeekingBack, sound, ..s },
        ItemMove::Continue {
            step: Step {
                pause_ms: 0,
                report,
                command: Command::Probe { selector: Selector::ViewButton },
            },
        },
    )
}

/// The step that looks at an attachment page once the view has settled.
pub open spec fn spec_list_step() -> Step {
    spec_after(VIEW_CHANGE_MS, Command::Probe { selector: Selector::DownloadIcon })
}

/// The step that waits for the downloads of a page with `shown` controls.
pub open spec fn spec_await_step(s: ItemHarvest, pause_ms: u64, report: Option<Message>, shown: usize)
    -> Step {
    Step {
        pause_ms,
        report,
        command: Command::AwaitDownloads {
            timeout_secs: spec_timeout(s.policy, spec_files(shown)) as u64,
        },
    }
}

/// The transition of the work on an item: the state after `reply` and the
/// next move.
pub open spec fn spec_advance(s: ItemHarvest, reply: Reply) -> (ItemHarvest, ItemMove) {
    match s.phase {
        ItemPhase::SeekingAdvance => match spec_count(reply) {
            Some(found) => if found > LIST_NEXT {
                spec_to(
                    s,
                    ItemPhase::Advancing,
                    spec_plain(Command::Click { selector: Selector::PagingNext, index: LIST_NEXT }),
                )
            } else {
                spec_to(
                    s,
                    ItemPhase::Locating,
                    spec_after(VIEW_SETTLE_MS, Command::Probe { selector: Selector::DetailIcon }),
                )
            },
            None => spec_end(s, false),
        },
        ItemPhase::Advancing => if spec_succeeded(reply) {
            spec_to(
                s,
                ItemPhase::Locating,
                spec_after(VIEW_CHANGE_MS, Command::Probe { selector: Selector::DetailIcon }),
            )
        } else {
            spec_end(s, false)
        },
        ItemPhase::Locating => match spec_count(reply) {
            Some(found) if found > s.position => spec_to(
                s,
                ItemPhase::Opening,
                spec_plain(Command::Click { selector: Selector::DetailIcon, index: s.position }),
            ),
            _ => spec_end(s, false),
        },
        ItemPhase::Opening => if spec_succeeded(reply) {
            spec_to(s, ItemPhase::Listing, spec_list_step())
        } else {
            spec_end(s, false)
        },
        ItemPhase::Listing => match spec_count(reply) {
            Some(shown) => if shown == 0 {
                spec_leave(s, s.sound, None)
            } else if shown > FIRST_ATTACHMENT {
                spec_to(
                    s,
                    ItemPhase::Triggering { index: FIRST_ATTACHMENT, shown },
                    spec_plain(
                        Command::Click { selector: Selector::DownloadIcon, index: FIRST_ATTACHMENT },
                    ),
                )
            } else {
                spec_to(s, ItemPhase::Awaiting, spec_await_step(s, MARKER_GRACE_MS, None, shown))
            },
            None => spec_leave(s, false, None),
        },
        ItemPhase::Triggering { index, shown } => {
            let report = if spec_succeeded(reply) {
                None
            } else {
                Some(Message::AttachmentFailed { index })
            };
            if index + 1 < shown {
                spec_to(
                    s,
                    ItemPhase::Triggering { index: (index + 1) as usize, shown },
                    Step {
                        pause_ms: CLICK_PACE_MS,
                        report,
                        command: Command::Click {
                            selector: Selector::DownloadIcon,
                            index: (index + 1) as usize,
                        },
                    },
                )
            } else {
                spec_to(
                    s,
                    ItemPhase::Awaiting,
                    spec_await_step(s, (CLICK_PACE_MS + MARKER_GRACE_MS) as u64, report, shown),
                )
            }
        },
        ItemPhase::Awaiting => spec_to(
            s,
            ItemPhase::SeekingMore,
            Step {
                pause_ms: 0,
                report: if reply == (Reply::Downloads { stable: true }) {
                    None
                } else {
                    Some(Message::DownloadsUnconfirmed)
                },
                command: Command::Probe { selector: Selector::PagingNext },
            },
        ),
        ItemPhase::SeekingMore => match spec_count(reply) {
            Some(found) if found > ATTACHMENTS_NEXT => spec_to(
                s,
                ItemPhase::Turning,
                spec_plain(
                    Command::Click { selector: Selector::PagingNext, index: ATTACHMENTS_NEXT },
                ),
            ),
            _ => spec_leave(s, s.sound, None),
        },
        ItemPhase::Turning => if spec_succeeded(reply) {
            spec_to(s, ItemPhase::Listing, spec_list_step())
        } else {
            spec_leave(s, s.sound, None)
        },
        ItemPhase::SeekingBack => match spec_count(reply) {
            Some(found) => if found > BACK_BUTTON {
                spec_to(
                    s,
                    ItemPhase::Returning,
                    spec_plain(Command::Click { selector: Selector::ViewButton, index: BACK_BUTTON }),
                )
            } else {
                spec_end(s, s.sound)
            },
            None => spec_end(s, false),
        },
        ItemPhase::Returning => spec_end(s, s.sound && spec_succeeded(reply)),
        ItemPhase::Finished { completed } => (s, ItemMove::Finished { completed }),
    }
}

impl ItemHarvest {
    /// Starts the work on the item at `position` of its page. With
    /// `advance`, the list is first moved on by one page. The command that
    /// comes back is the first to perform.
    pub fn start(position: usize, advance: bool, policy: TimeoutPolicy) -> (begun: (
        ItemHarvest,
        Command,
    ))
        ensures
            begun.0 == spec_initial(position, advance, policy),
            begun.1 == spec_first_command(advance),
    {
        if advance {
            (
                ItemHarvest { phase: ItemPhase::SeekingAdvance, position, sound: true, policy },
                Command::Probe { selector: Selector::PagingNext },
            )
        } else {
            (
                ItemHarvest { phase: ItemPhase::Locating, position, sound: true, policy },
                Command::Probe { selector: Selector::DetailIcon },
            )
        }
    }

    fn to(&mut self, phase: ItemPhase, step: Step) -> (next: ItemMove)
        ensures
            (*final(self), next) == spec_to(*old(self), phase, step),
    {
        self.phase = phase;
        ItemMove::Continue { step }
    }

    fn end(&mut self, completed: bool) -> (next: ItemMove)
        ensures
            (*final(self), next) == spec_end(*old(self), completed),
    {
        self.phase = ItemPhase::Finished { completed };
        ItemMove::Finished { completed }
    }

    fn leave(&mut self, sound: bool, report: Option<Message>) -> (next: ItemMove)
        ensures
            (*final(self), next) == spec_leave(*old(self), sound, report),
    {
        self.phase = ItemPhase::SeekingBack;
        self.sound = sound;
        ItemMove::Continue {
            step: Step {
                pause_ms: 0,
                report,
                command: Command::Probe { selector: Selector::ViewButton },
            },
        }
    }

    fn list_step() -> (step: Step)
        ensures
            step == spec_list_step(),
    {
        after(VIEW_CHANGE_MS, Command::Probe { selector: Selector::DownloadIcon })
    }

    fn await_step(&self, pause_ms: u64, report: Option<Message>, shown: usize) -> (step: Step)
        ensures
            step == spec_await_step(*self, pause_ms, report, shown),
    {
        let files = if shown >= FIRST_ATTACHMENT {
            shown - FIRST_ATTACHMENT
        } else {
            0
        };
        Step {
            pause_ms,
            report,
            command: Command::AwaitDownloads { timeout_secs: self.policy.timeout_for(files) },
        }
    }

    /// Takes in the reply to the command last asked for and says what to do
    /// next. Once the work has ended, it repeats how it ended.
    pub fn advance(&mut self, reply: Reply) -> (next: ItemMove)
        ensures
            (*final(self), next) == spec_advance(*old(self), reply),
    {
        match self.phase {
            ItemPhase::SeekingAdvance => match count(reply) {
                Some(found) => {
                    if found > LIST_NEXT {
                        self.to(
                            ItemPhase::Advancing,
                            plain(Command::Click { selector: Selector::PagingNext, index: LIST_NEXT }),
                        )
                    } else {
                        self.to(
                            ItemPhase::Locating,
                            after(VIEW_SETTLE_MS, Command::Probe { selector: Selector::DetailIcon }),
                        )
                    }
                },
                None => self.end(false),
            },
            ItemPhase::Advancing => {
                if succeeded(reply) {
                    self.to(
                        ItemPhase::Locating,
                        after(VIEW_CHANGE_MS, Command::Probe { selector: Selector::DetailIcon }),
                    )
                } else {
                    self.end(false)
                }
            },
            ItemPhase::Locating => {
                let position = self.position;
                match count(reply) {
                    Some(found) if found > position => self.to(
                        ItemPhase::Opening,
                        plain(Command::Click { selector: Selector::DetailIcon, index: position }),
                    ),
                    _ => self.end(false),
                }
            },
            ItemPhase::Opening => {
                if succeeded(reply) {
                    self.to(ItemPhase::Listing, Self::list_step())
                } else {
                    self.end(false)
                }
            },
            ItemPhase::Listing => match count(reply) {
                Some(shown) => {
                    if shown == 0 {
                        let sound = self.sound;
                        self.leave(sound, None)
                    } else if shown > FIRST_ATTACHMENT {
                        self.to(
                            ItemPhase::Triggering { index: FIRST_ATTACHMENT, shown },
                            plain(
                                Command::Click {
                                    selector: Selector::DownloadIcon,
                                    index: FIRST_ATTACHMENT,
                                },
                            ),
                        )
                    } else {
                        let step = self.await_step(MARKER_GRACE_MS, None, shown);
                        self.to(ItemPhase::Awaiting, step)
                    }
                },
                None => self.leave(false, None),
            },
            ItemPhase::Triggering { index, shown } => {
                let report = if succeeded(reply) {
                    None
                } else {
                    Some(Message::AttachmentFailed { index })
                };
                if index < shown && index + 1 < shown {
                    self.to(
                        ItemPhase::Triggering { index: index + 1, shown },
                        Step {
                            pause_ms: CLICK_PACE_MS,
                            report,
                            command: Command::Click {
                                selector: Selector::DownloadIcon,
                                index: index + 1,
                            },
                        },
                    )
                } else {
                    let step = self.await_step(CLICK_PACE_MS + MARKER_GRACE_MS, report, shown);
                    self.to(ItemPhase::Awaiting, step)
                }
            },
            ItemPhase::Awaiting => {
                let report = match reply {
                    Reply::Downloads { stable: true } => None,
                    _ => Some(Message::DownloadsUnconfirmed),
                };
                self.to(
                    ItemPhase::SeekingMore,
                    Step {
                        pause_ms: 0,
                        report,
                        command: Command::Probe { selector: Selector::PagingNext },
                    },
                )
            },
            ItemPhase::SeekingMore => {
                let sound = self.sound;
                match count(reply) {
                    Some(found) if found > ATTACHMENTS_NEXT => self.to(
                        ItemPhase::Turning,
                        plain(
                            Command::Click {
                                selector: Selector::PagingNext,
                                index: ATTACHMENTS_NEXT,
                            },
                        ),
                    ),
                    _ => self.leave(sound, None),
                }
            },
            ItemPhase::Turning => {
                if succeeded(reply) {
                    self.to(ItemPhase::Listing, Self::list_step())
                } else {
                    let sound = self.sound;
                    self.leave(sound, None)
                }
            },
            ItemPhase::SeekingBack => {
                let sound = self.sound;
                match count(reply) {
                    Some(found) => {
                        if found > BACK_BUTTON {
                            self.to(
                                ItemPhase::Returning,
                                plain(
                                    Command::Click {
                                        selector: Selector::ViewButton,
                                        index: BACK_BUTTON,
                                    },
                                ),
                            )
                        } else {
                            self.end(sound)
                        }
                    },
                    None => self.end(false),
                }
            },
            ItemPhase::Returning => {
                let completed = self.sound && succeeded(reply);
                self.end(completed)
            },
            ItemPhase::Finished { completed } => ItemMove::Finished { completed },
        }
    }
}

/// Whether a move asks for a wait on the downloads.
pub open spec fn spec_is_await(next: ItemMove) -> bool {
    next matches ItemMove::Continue { step } && step.command is AwaitDownloads
}

/// The state of the work after it has taken in `replies`, one after the
/// other, starting from `s`.
pub open spec fn spec_run(s: ItemHarvest, replies: Seq<Reply>) -> ItemHarvest
    decreases replies.len(),
{
    if replies.len() == 0 {
        s
    } else {
        spec_run(spec_advance(s, replies[0]).0, replies.drop_first())
    }
}

/// How often the work that starts from `s` asks for a wait on the downloads
/// while it takes in `replies`.
pub open spec fn spec_awaits(s: ItemHarvest, replies: Seq<Reply>) -> nat
    decreases replies.len(),
{
    if replies.len() == 0 {
        0
    } else {
        let (t, next) = spec_advance(s, replies[0]);
        (if spec_is_await(next) {
            1nat
        } else {
            0nat
        }) + spec_awaits(t, replies.drop_first())
    }
}

/// Phases that lie behind the attachment loop.
pub open spec fn spec_past_loop(phase: ItemPhase) -> bool {
    phase is SeekingBack || phase is Returning || phase is Finished
}

/// Once the attachment loop has been left, the downloads are not waited for
/// again, and the item stays sound if it was.
pub proof fn lemma_no_await_after_loop(s: ItemHarvest, replies: Seq<Reply>)
    requires
        spec_past_loop(s.phase),
    ensures
        spec_awaits(s, replies) == 0,
        spec_past_loop(spec_run(s, replies).phase),
    decreases replies.len(),
{
    if replies.len() > 0 {
        lemma_no_await_after_loop(spec_advance(s, replies[0]).0, replies.drop_first());
    }
}

/// An item whose attachment list is empty when it is first looked at is
/// worked through without any wait for downloads, whatever happens next.
pub proof fn lemma_empty_list_never_waits(s: ItemHarvest, replies: Seq<Reply>)
    requires
        s.phase is Listing,
        replies.len() >= 1,
        replies[0] == (Reply::Count { found: 0 }),
    ensures
        spec_awaits(s, replies) == 0,
{
    lemma_no_await_after_loop(spec_advance(s, replies[0]).0, replies.drop_first());
}

/// An item without attachments is completed: the empty list leads straight
/// to the "back" control, and the click on it ends the item as completed.
pub proof fn lemma_empty_list_completes(position: usize, policy: TimeoutPolicy, buttons: usize)
    requires
        buttons > BACK_BUTTON,
    ensures
        ({
            let s = ItemHarvest { phase: ItemPhase::Listing, position, sound: true, policy };
            let (s1, m1) = spec_advance(s, Reply::Count { found: 0 });
            let (s2, m2) = spec_advance(s1, Reply::Count { found: buttons });
            let (s3, m3) = spec_advance(s2, Reply::Done);
            &&& m1 == (ItemMove::Continue {
                step: spec_plain(Command::Probe { selector: Selector::ViewButton }),
            })
            &&& m2 == (ItemMove::Continue {
                step: spec_plain(
                    Command::Click { selector: Selector::ViewButton, index: BACK_BUTTON },
                ),
            })
            &&& m3 == (ItemMove::Finished { completed: true })
        }),
{
}

/// Every download control but the cover entry's is clicked, in order: after
/// the click on control `index` comes the click on the next one, until the
/// last control of the page has been clicked.
pub proof fn lemma_every_attachment_is_triggered(s: ItemHarvest, index: usize, shown: usize, reply: Reply)
    requires
        s.phase == (ItemPhase::Triggering { index, shown }),
        FIRST_ATTACHMENT <= index < shown,
    ensures
        ({
            let (t, next) = spec_advance(s, reply);
            if index + 1 < shown {
                &&& t.phase == (ItemPhase::Triggering { index: (index + 1) as usize, shown })
                &&& next matches ItemMove::Continue { step }
                &&& step.command == (Command::Click {
                    selector: Selector::DownloadIcon,
                    index: (index + 1) as usize,
                })
            } else {
                &&& t.phase is Awaiting
                &&& next matches ItemMove::Continue { step }
                &&& step.command == (Command::AwaitDownloads {
                    timeout_secs: spec_timeout(s.policy, shown - FIRST_ATTACHMENT) as u64,
                })
            }
        }),
{
}

/// A wait that ran out does not count against the item: the state after it
/// is the same as after a wait that succeeded.
pub proof fn lemma_unsettled_downloads_do_not_fail_item(s: ItemHarvest, reply: Reply)
    requires
        s.phase is Awaiting,
    ensures
        spec_advance(s, reply).0 == spec_advance(s, Reply::Downloads { stable: true }).0,
        spec_advance(s, reply).0.sound == s.sound,
{
}

/// The download control of the cover entry is never clicked, whatever the
/// state and the reply.
pub proof fn lemma_cover_is_never_clicked(s: ItemHarvest, reply: Reply)
    ensures
        spec_advance(s, reply).1 matches ItemMove::Continue { step } ==> step.command != (
        Command::Click { selector: Selector::DownloadIcon, index: 0 }),
{
}

/// The wait for the downloads of an attachment page lies between the floor
/// and the ceiling of a coherent policy, and is the longer the more files
/// the page offers.
pub proof fn lemma_wait_scales_with_files(s: ItemHarvest, fewer: usize, more: usize)
    requires
        s.policy.wf(),
        fewer <= more,
    ensures
        s.policy.floor_secs <= spec_timeout(s.policy, spec_files(fewer)) <= spec_timeout(
            s.policy,
            spec_files(more),
        ) <= s.policy.ceiling_secs,
{
    crate::policy::lemma_timeout_bounded(s.policy, spec_files(fewer));
    crate::policy::lemma_timeout_bounded(s.policy, spec_files(more));
    crate::policy::lemma_timeout_monotonic(s.policy, spec_files(fewer), spec_files(more));
}

/// Phases in which the detail view of the item is open and its attachment
/// list is being gone through.
pub open spec fn spec_in_loop(phase: ItemPhase) -> bool {
    phase is Listing || phase is Triggering || phase is Awaiting || phase is SeekingMore
        || phase is Turning
}

/// An item whose detail view is open does not end before the way back to
/// the list was looked for: from within the attachment loop the work goes
/// on within the loop or turns to the "back" control, whatever the reply.
pub proof fn lemma_open_item_returns_to_list(s: ItemHarvest, reply: Reply)
    requires
        spec_in_loop(s.phase),
    ensures
        spec_advance(s, reply).1 is Continue,
        spec_in_loop(spec_advance(s, reply).0.phase) || spec_advance(s, reply).0.phase
            is SeekingBack,
{
}

/// An item ends as completed only from the return to the list, and only if
/// every step at the level of the item had succeeded.
pub proof fn lemma_completed_means_returned(s: ItemHarvest, reply: Reply)
    requires
        !(s.phase is Finished),
        spec_advance(s, reply).1 == (ItemMove::Finished { completed: true }),
    ensures
        s.phase is SeekingBack || s.phase is Returning,
        s.sound,
{
}

} // verus!
