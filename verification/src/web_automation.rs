//! Harvest orchestrator for a range of items.
//!
//! Drives one run from its request to its result: makes the profile, starts
//! the browser, signs in, opens the inbox, makes the list show full pages,
//! skips to the page of the first item, works through the items one by one
//! in their order, waits for the last downloads, closes the browser and
//! deletes the profile. What fails before the first item ends the run with
//! an error; what fails on an item costs that item only.

use vstd::prelude::*;
use crate::attachments::{ItemHarvest, ItemMove, VIEW_SETTLE_MS};
use crate::config::{spec_tiene, Config};
use crate::pagination::{
    needs_advance, page_offset, page_position, spec_needs_advance, spec_page_offset,
    spec_page_position, PAGE_SIZE,
};
use crate::policy::TimeoutPolicy;
use crate::portal::{INBOX_TAB, LIST_NEXT, PAGE_SIZE_BUTTON};
use crate::profile::{Cleanup, CleanupMove};
use crate::remote::{
    after, count, plain, spec_after, spec_count, spec_plain, spec_succeeded, spec_told, succeeded,
    told, Command, Message, Reply, Selector, Step,
};
use crate::session::{Session, SessionError, SessionMove};

verus! {

/// Pause after the sign-in form was submitted, in milliseconds.
pub const SIGN_IN_MS: u64 = 3000;

/// Pause after the inbox tab was clicked, in milliseconds.
pub const INBOX_MS: u64 = 2000;

/// Pause after the list was told to show full pages, in milliseconds.
pub const RESIZE_MS: u64 = 4000;

/// Pause after the list was advanced by one page on the way to the first
/// item, in milliseconds.
pub const SKIP_MS: u64 = 2000;

/// The summary of a run: how many items were completed, of how many asked
/// for.
#[derive(Clone, Copy, Debug, Default, PartialEq, Eq, Structural)]
pub struct ResultadoDescarga {
    pub comunicaciones_procesadas: u32,
    pub total_comunicaciones: u32,
}

/// Why a run ended without a summary.
#[derive(Clone, Copy, Debug, PartialEq, Eq, Structural)]
pub enum HarvestError {
    /// The configuration holds no account under the user's key.
    MissingCredentials,
    /// The profile for the browser could not be made.
    ProfileSetup,
    /// The browser could not be started.
    BrowserLaunch,
    /// The sign-in form is missing, also after signing out and trying again.
    Authentication,
    /// The browser failed to carry out a command on the way to the list.
    Remote,
}

/// Where a run stands: which command it waits on, or how it ended.
#[derive(Clone, Copy, Debug, PartialEq, Eq)]
pub enum Stage {
    CreatingProfile,
    Launching,
    SigningIn { session: Session },
    SeekingInbox,
    OpeningInbox,
    SeekingPageSize,
    SettingPageSize,
    /// The "next page" controls are counted; `left` advances are still due.
    SeekingSkip { left: u32 },
    /// The list is advanced; this advance included, `left` are still due.
    Skipping { left: u32 },
    /// The item that follows those done is worked on.
    Harvesting { item: ItemHarvest },
    /// The failure of the item just done is reported.
    Reporting,
    /// The downloads still in flight are waited for.
    Draining,
    /// The browser's events are no longer taken in.
    Silencing,
    Closing,
    Cleaning { cleanup: Cleanup },
    /// The profile that was left behind is reported.
    Warning,
    Ended { outcome: Result<ResultadoDescarga, HarvestError> },
}

/// The state of a run over the items `first`, `first + 1`, ... of which
/// there are `total`: the stage, how many items are done, and how many of
/// those were completed.
#[derive(Clone, Copy, Debug, PartialEq, Eq)]
pub struct Harvest {
    pub stage: Stage,
    pub first: u32,
    pub total: u32,
    pub done: u32,
    pub completed: u32,
    pub policy: TimeoutPolicy,
}

/// What a run asks for next, or how it ended.
#[derive(Clone, Copy, Debug, PartialEq, Eq)]
pub enum HarvestMove {
    Continue { step: Step },
    Finished { outcome: Result<ResultadoDescarga, HarvestError> },
}

/// The number of items in the range from `inicio` to `final_`, both
/// included. Items are numbered from 1; a range that starts at 0 or ends
/// before it starts holds nothing.
pub open spec fn spec_batch_size(inicio: u32, final_: u32) -> int {
    if inicio >= 1 && final_ >= inicio {
        final_ - inicio + 1
    } else {
        0
    }
}

/// The summary of a run in state `h`.
pub open spec fn spec_summary(h: Harvest) -> ResultadoDescarga {
    ResultadoDescarga { comunicaciones_procesadas: h.completed, total_comunicaciones: h.total }
}

/// Whether the stage lies before the end of an item: an item is still to
/// do or under way.
pub open spec fn spec_before_drain(stage: Stage) -> bool {
    !(stage is Reporting || stage is Draining || stage is Silencing || stage is Closing
        || stage is Cleaning || stage is Warning || stage is Ended)
}

impl Harvest {
    /// The invariant of a run: the items fit the numbering, no more items
    /// are completed than done, nor more done than asked for; while an item
    /// is to do or under way some are left, a failure is reported of an
    /// item that is done, and once the run drains none is left; a run that
    /// ended well ended with its own summary.
    pub open spec fn wf(self) -> bool {
        &&& self.completed <= self.done <= self.total
        &&& self.first + self.total <= u32::MAX + 1
        &&& self.total > 0 ==> self.first >= 1
        &&& spec_before_drain(self.stage) ==> self.done < self.total
        &&& self.stage is Reporting ==> self.done >= 1
        &&& (self.stage is Draining || self.stage is Silencing || self.stage is Closing
            || self.stage is Cleaning || self.stage is Warning) ==> self.done == self.total
        &&& self.stage matches Stage::Ended { outcome: Ok(summary) } ==> summary == spec_summary(
            self,
        ) && self.done == self.total
    }
}

/// The state and the first move of a run over the given range.
pub open spec fn spec_begin(inicio: u32, final_: u32, credentials: bool, policy: TimeoutPolicy) -> (
    Harvest,
    HarvestMove,
) {
    let size = spec_batch_size(inicio, final_);
    if size == 0 {
        spec_finish(
            Harvest {
                stage: Stage::CreatingProfile,
                first: inicio,
                total: 0,
                done: 0,
                completed: 0,
                policy,
            },
            Ok(ResultadoDescarga { comunicaciones_procesadas: 0, total_comunicaciones: 0 }),
        )
    } else {
        let h = Harvest {
            stage: Stage::CreatingProfile,
            first: inicio,
            total: size as u32,
            done: 0,
            completed: 0,
            policy,
        };
        if credentials {
            (h, HarvestMove::Continue { step: spec_plain(Command::CreateProfile) })
        } else {
            spec_finish(h, Err(HarvestError::MissingCredentials))
        }
    }
}

pub open spec fn spec_finish(h: Harvest, outcome: Result<ResultadoDescarga, HarvestError>) -> (
    Harvest,
    HarvestMove,
) {
    (Harvest { stage: Stage::Ended { outcome }, ..h }, HarvestMove::Finished { outcome })
}

pub open spec fn spec_to(h: Harvest, stage: Stage, step: Step) -> (Harvest, HarvestMove) {
    (Harvest { stage, ..h }, HarvestMove::Continue { step })
}

/// The number of the item that follows those done.
pub open spec fn spec_current(h: Harvest) -> u32 {
    (h.first + h.done) as u32
}

/// Starts the work on the item that follows those done, after `pause_ms`.
pub open spec fn spec_open_item(h: Harvest, pause_ms: u64) -> (Harvest, HarvestMove) {
    let current = spec_current(h);
    let advance = spec_needs_advance(current as int, h.first as int, PAGE_SIZE as int);
    let position = spec_page_position(current as int, PAGE_SIZE as int) as usize;
    let item = crate::attachments::spec_initial(position, advance, h.policy);
    spec_to(
        h,
        Stage::Harvesting { item },
        spec_told(
            if advance {
                pause_ms
            } else {
                (pause_ms + VIEW_SETTLE_MS) as u64
            },
            Message::Downloading {
                item: current,
                ordinal: (h.completed + 1) as u32,
                total: h.total,
            },
            crate::attachments::spec_first_command(advance),
        ),
    )
}

/// Goes on after the list shows full pages: skips to the page of the first
/// item, or starts on that item at once.
pub open spec fn spec_after_resize(h: Harvest) -> (Harvest, HarvestMove) {
    let offset = spec_page_offset(h.first as int, PAGE_SIZE as int) as u32;
    if offset > 0 {
        spec_to(
            h,
            Stage::SeekingSkip { left: offset },
            spec_told(
                RESIZE_MS,
                Message::AdvancingToPage { page: (offset + 1) as u32 },
                Command::Probe { selector: Selector::PagingNext },
            ),
        )
    } else {
        spec_open_item(h, RESIZE_MS)
    }
}

/// Goes on after one advance on the way to the first item was dealt with.
pub open spec fn spec_after_skip(h: Harvest, left: u32, pause_ms: u64) -> (Harvest, HarvestMove) {
    if left > 1 {
        spec_to(
            h,
            Stage::SeekingSkip { left: (left - 1) as u32 },
            spec_after(pause_ms, Command::Probe { selector: Selector::PagingNext }),
        )
    } else {
        spec_open_item(h, pause_ms)
    }
}

/// Goes on after an item was done and reported: to the next item, or to the
/// wait for the last downloads.
pub open spec fn spec_after_item(h: Harvest, pause_ms: u64) -> (Harvest, HarvestMove) {
    if h.done < h.total {
        spec_open_item(h, pause_ms)
    } else {
        spec_to(
            h,
            Stage::Draining,
            spec_told(
                pause_ms,
                Message::Finishing,
                Command::AwaitDownloads { timeout_secs: h.policy.drain_secs },
            ),
        )
    }
}

/// Books an item as done, completed or not.
pub open spec fn spec_item_done(h: Harvest, completed: bool) -> (Harvest, HarvestMove) {
    let booked = Harvest {
        done: (h.done + 1) as u32,
        completed: if completed {
            (h.completed + 1) as u32
        } else {
            h.completed
        },
        ..h
    };
    if completed {
        spec_after_item(booked, VIEW_SETTLE_MS)
    } else {
        spec_to(
            booked,
            Stage::Reporting,
            spec_told(0, Message::ItemFailed { item: spec_current(h) }, Command::Idle),
        )
    }
}

/// The error of a run whose sign-in failed.
pub open spec fn spec_session_error(error: SessionError) -> HarvestError {
    match error {
        SessionError::Authentication => HarvestError::Authentication,
        SessionError::Remote => HarvestError::Remote,
    }
}

/// The transition of a run: the state after `reply` and the next move.
pub open spec fn spec_advance(h: Harvest, reply: Reply) -> (Harvest, HarvestMove) {
    match h.stage {
        Stage::CreatingProfile => if spec_succeeded(reply) {
            spec_to(h, Stage::Launching, spec_told(0, Message::StartingBrowser, Command::Launch))
        } else {
            spec_finish(h, Err(HarvestError::ProfileSetup))
        },
        Stage::Launching => if spec_succeeded(reply) {
            spec_to(
                h,
                Stage::SigningIn { session: crate::session::spec_initial() },
                crate::session::spec_first_step(),
            )
        } else {
            spec_finish(h, Err(HarvestError::BrowserLaunch))
        },
        Stage::SigningIn { session } => {
            let (session, next) = crate::session::spec_advance(session, reply);
            match next {
                SessionMove::Continue { step } => spec_to(h, Stage::SigningIn { session }, step),
                SessionMove::Authenticated => spec_to(
                    h,
                    Stage::SeekingInbox,
                    spec_told(
                        SIGN_IN_MS,
                        Message::OpeningInbox,
                        Command::Probe { selector: Selector::TabCaption },
                    ),
                ),
                SessionMove::Failed { error } => spec_finish(h, Err(spec_session_error(error))),
            }
        },
        Stage::SeekingInbox => match spec_count(reply) {
            Some(found) => if found > INBOX_TAB {
                spec_to(
                    h,
                    Stage::OpeningInbox,
                    spec_plain(Command::Click { selector: Selector::TabCaption, index: INBOX_TAB }),
                )
            } else {
                spec_to(
                    h,
                    Stage::SeekingPageSize,
                    spec_after(INBOX_MS, Command::Probe { selector: Selector::PlainButton }),
                )
            },
            None => spec_finish(h, Err(HarvestError::Remote)),
        },
        Stage::OpeningInbox => if spec_succeeded(reply) {
            spec_to(
                h,
                Stage::SeekingPageSize,
                spec_after(INBOX_MS, Command::Probe { selector: Selector::PlainButton }),
            )
        } else {
            spec_finish(h, Err(HarvestError::Remote))
        },
        Stage::SeekingPageSize => match spec_count(reply) {
            Some(found) => if found > PAGE_SIZE_BUTTON {
                spec_to(
                    h,
                    Stage::SettingPageSize,
                    spec_plain(
                        Command::Click { selector: Selector::PlainButton, index: PAGE_SIZE_BUTTON },
                    ),
                )
            } else {
                spec_after_resize(h)
            },
            None => spec_finish(h, Err(HarvestError::Remote)),
        },
        Stage::SettingPageSize => if spec_succeeded(reply) {
            spec_after_resize(h)
        } else {
            spec_finish(h, Err(HarvestError::Remote))
        },
        Stage::SeekingSkip { left } => match spec_count(reply) {
            Some(found) => if found > LIST_NEXT {
                spec_to(
                    h,
                    Stage::Skipping { left },
                    spec_plain(Command::Click { selector: Selector::PagingNext, index: LIST_NEXT }),
                )
            } else {
                spec_after_skip(h, left, 0)
            },
            None => spec_finish(h, Err(HarvestError::Remote)),
        },
        Stage::Skipping { left } => if spec_succeeded(reply) {
            spec_after_skip(h, left, SKIP_MS)
        } else {
            spec_finish(h, Err(HarvestError::Remote))
        },
        Stage::Harvesting { item } => {
            let (item, next) = crate::attachments::spec_advance(item, reply);
            match next {
                ItemMove::Continue { step } => spec_to(h, Stage::Harvesting { item }, step),
                ItemMove::Finished { completed } => spec_item_done(h, completed),
            }
        },
        Stage::Reporting => spec_after_item(h, 0),
        Stage::Draining => spec_to(
            h,
            Stage::Silencing,
            Step {
                pause_ms: 0,
                report: if reply == (Reply::Downloads { stable: true }) {
                    None
                } else {
                    Some(Message::DownloadsUnconfirmed)
                },
                command: Command::Silence,
            },
        ),
        Stage::Silencing => spec_to(h, Stage::Closing, spec_plain(Command::Close)),
        Stage::Closing => spec_to(
            h,
            Stage::Cleaning { cleanup: crate::profile::spec_initial() },
            crate::profile::spec_first_step(),
        ),
        Stage::Cleaning { cleanup } => {
            let (cleanup, next) = crate::profile::spec_advance(cleanup, reply);
            match next {
                CleanupMove::Continue { step } => spec_to(h, Stage::Cleaning { cleanup }, step),
                CleanupMove::Finished { removed } => if removed {
                    spec_finish(h, Ok(spec_summary(h)))
                } else {
                    spec_to(
                        h,
                        Stage::Warning,
                        spec_told(0, Message::ProfileLeftBehind, Command::Idle),
                    )
                },
            }
        },
        Stage::Warning => spec_finish(h, Ok(spec_summary(h))),
        Stage::Ended { outcome } => (h, HarvestMove::Finished { outcome }),
    }
}

/// A run keeps its invariant, its range and its waits through every
/// transition; the items done and completed never become fewer.
pub proof fn lemma_advance_keeps_invariant(h: Harvest, reply: Reply)
    requires
        h.wf(),
    ensures
        spec_advance(h, reply).0.wf(),
        spec_advance(h, reply).0.first == h.first,
        spec_advance(h, reply).0.total == h.total,
        spec_advance(h, reply).0.policy == h.policy,
        spec_advance(h, reply).0.done >= h.done,
        spec_advance(h, reply).0.completed >= h.completed,
{
}

/// A run that ends well ends with its own summary: no more items completed
/// than asked for, and as many asked for as the range holds.
pub proof fn lemma_summary_is_sound(h: Harvest, reply: Reply)
    requires
        h.wf(),
    ensures
        spec_advance(h, reply).1 matches HarvestMove::Finished { outcome: Ok(summary) } ==> {
            &&& summary.comunicaciones_procesadas <= summary.total_comunicaciones
            &&& summary.total_comunicaciones == h.total
            &&& summary.comunicaciones_procesadas == h.completed
        },
{
}

impl Harvest {
    fn finish(&mut self, outcome: Result<ResultadoDescarga, HarvestError>) -> (next: HarvestMove)
        ensures
            (*final(self), next) == spec_finish(*old(self), outcome),
    {
        self.stage = Stage::Ended { outcome };
        HarvestMove::Finished { outcome }
    }

    fn to(&mut self, stage: Stage, step: Step) -> (next: HarvestMove)
        ensures
            (*final(self), next) == spec_to(*old(self), stage, step),
    {
        self.stage = stage;
        HarvestMove::Continue { step }
    }

    fn summary(&self) -> (summary: ResultadoDescarga)
        ensures
            summary == spec_summary(*self),
    {
        ResultadoDescarga {
            comunicaciones_procesadas: self.completed,
            total_comunicaciones: self.total,
        }
    }

    fn open_item(&mut self, pause_ms: u64) -> (next: HarvestMove)
        requires
            old(self).completed <= old(self).done < old(self).total,
            old(self).first + old(self).total <= u32::MAX + 1,
            old(self).first >= 1,
            pause_ms <= RESIZE_MS,
        ensures
            (*final(self), next) == spec_open_item(*old(self), pause_ms),
    {
        let current = self.first + self.done;
        let advance = needs_advance(current, self.first, PAGE_SIZE);
        let position = page_position(current, PAGE_SIZE) as usize;
        let (item, command) = ItemHarvest::start(position, advance, self.policy);
        let pause = if advance {
            pause_ms
        } else {
            pause_ms + VIEW_SETTLE_MS
        };
        let message = Message::Downloading {
            item: current,
            ordinal: self.completed + 1,
            total: self.total,
        };
        self.to(Stage::Harvesting { item }, told(pause, message, command))
    }

    fn after_resize(&mut self) -> (next: HarvestMove)
        requires
            old(self).completed <= old(self).done < old(self).total,
            old(self).first + old(self).total <= u32::MAX + 1,
            old(self).first >= 1,
        ensures
            (*final(self), next) == spec_after_resize(*old(self)),
    {
        let offset = page_offset(self.first, PAGE_SIZE);
        if offset > 0 {
            self.to(
                Stage::SeekingSkip { left: offset },
                told(
                    RESIZE_MS,
                    Message::AdvancingToPage { page: offset + 1 },
                    Command::Probe { selector: Selector::PagingNext },
                ),
            )
        } else {
            self.open_item(RESIZE_MS)
        }
    }

    fn after_skip(&mut self, left: u32, pause_ms: u64) -> (next: HarvestMove)
        requires
            old(self).completed <= old(self).done < old(self).total,
            old(self).first + old(self).total <= u32::MAX + 1,
            old(self).first >= 1,
            pause_ms <= RESIZE_MS,
        ensures
            (*final(self), next) == spec_after_skip(*old(self), left, pause_ms),
    {
        if left > 1 {
            self.to(
                Stage::SeekingSkip { left: left - 1 },
                after(pause_ms, Command::Probe { selector: Selector::PagingNext }),
            )
        } else {
            self.open_item(pause_ms)
        }
    }

    fn after_item(&mut self, pause_ms: u64) -> (next: HarvestMove)
        requires
            old(self).completed <= old(self).done <= old(self).total,
            old(self).first + old(self).total <= u32::MAX + 1,
            old(self).first >= 1,
            pause_ms <= RESIZE_MS,
        ensures
            (*final(self), next) == spec_after_item(*old(self), pause_ms),
    {
        if self.done < self.total {
            self.open_item(pause_ms)
        } else {
            let timeout_secs = self.policy.drain_secs;
            self.to(
                Stage::Draining,
                told(pause_ms, Message::Finishing, Command::AwaitDownloads { timeout_secs }),
            )
        }
    }

    fn item_done(&mut self, completed: bool) -> (next: HarvestMove)
        requires
            old(self).completed <= old(self).done < old(self).total,
            old(self).first + old(self).total <= u32::MAX + 1,
            old(self).first >= 1,
        ensures
            (*final(self), next) == spec_item_done(*old(self), completed),
    {
        let item = self.first + self.done;
        self.done = self.done + 1;
        if completed {
            self.completed = self.completed + 1;
            self.after_item(VIEW_SETTLE_MS)
        } else {
            self.to(Stage::Reporting, told(0, Message::ItemFailed { item }, Command::Idle))
        }
    }

    /// Tests the invariant of a run.
    pub fn is_wf(&self) -> (holds: bool)
        ensures
            holds == self.wf(),
    {
        let counts = self.completed <= self.done && self.done <= self.total
            && self.first as u64 + self.total as u64 <= u32::MAX as u64 + 1 && (self.total == 0
            || self.first >= 1);
        let placed = match self.stage {
            Stage::Reporting => self.done >= 1,
            Stage::Draining
            | Stage::Silencing
            | Stage::Closing
            | Stage::Cleaning { .. }
            | Stage::Warning => self.done == self.total,
            Stage::Ended { outcome: Ok(summary) } => summary.comunicaciones_procesadas
                == self.completed && summary.total_comunicaciones == self.total && self.done
                == self.total,
            Stage::Ended { outcome: Err(_) } => true,
            _ => self.done < self.total,
        };
        counts && placed
    }

    /// Begins a run over the items numbered `inicio` to `final_`.
    /// `credentials` tells whether the user's account is at hand. A range
    /// that holds nothing ends the run at once with an empty summary,
    /// before anything is asked of the browser; so does a missing account,
    /// with an error.
    pub fn begin(inicio: u32, final_: u32, credentials: bool, policy: TimeoutPolicy) -> (begun: (
        Harvest,
        HarvestMove,
    ))
        ensures
            begun == spec_begin(inicio, final_, credentials, policy),
            begun.0.wf(),
            begun.0.total == spec_batch_size(inicio, final_),
    {
        if inicio == 0 || final_ < inicio {
            let mut h = Harvest {
                stage: Stage::CreatingProfile,
                first: inicio,
                total: 0,
                done: 0,
                completed: 0,
                policy,
            };
            let next = h.finish(
                Ok(ResultadoDescarga { comunicaciones_procesadas: 0, total_comunicaciones: 0 }),
            );
            (h, next)
        } else {
            let mut h = Harvest {
                stage: Stage::CreatingProfile,
                first: inicio,
                total: final_ - inicio + 1,
                done: 0,
                completed: 0,
                policy,
            };
            if credentials {
                (h, HarvestMove::Continue { step: plain(Command::CreateProfile) })
            } else {
                let next = h.finish(Err(HarvestError::MissingCredentials));
                (h, next)
            }
        }
    }

    /// Takes in the reply to the command that the run last asked for and
    /// says what to do next. Once the run has ended, it repeats how it
    /// ended whatever the reply.
    pub fn advance(&mut self, reply: Reply) -> (next: HarvestMove)
        requires
            old(self).wf(),
        ensures
            (*final(self), next) == spec_advance(*old(self), reply),
            final(self).wf(),
            final(self).total == old(self).total,
            final(self).first == old(self).first,
            next matches HarvestMove::Finished { outcome: Ok(summary) } ==> {
                &&& summary.comunicaciones_procesadas <= summary.total_comunicaciones
                &&& summary.total_comunicaciones == old(self).total
            },
    {
        proof {
            lemma_advance_keeps_invariant(*self, reply);
            lemma_summary_is_sound(*self, reply);
        }
        match self.stage {
            Stage::CreatingProfile => {
                if succeeded(reply) {
                    self.to(Stage::Launching, told(0, Message::StartingBrowser, Command::Launch))
                } else {
                    self.finish(Err(HarvestError::ProfileSetup))
                }
            },
            Stage::Launching => {
                if succeeded(reply) {
                    let (session, step) = Session::start();
                    self.to(Stage::SigningIn { session }, step)
                } else {
                    self.finish(Err(HarvestError::BrowserLaunch))
                }
            },
            Stage::SigningIn { session } => {
                let mut session = session;
                match session.advance(reply) {
                    SessionMove::Continue { step } => self.to(Stage::SigningIn { session }, step),
                    SessionMove::Authenticated => self.to(
                        Stage::SeekingInbox,
                        told(
                            SIGN_IN_MS,
                            Message::OpeningInbox,
                            Command::Probe { selector: Selector::TabCaption },
                        ),
                    ),
                    SessionMove::Failed { error } => {
                        let error = match error {
                            SessionError::Authentication => HarvestError::Authentication,
                            SessionError::Remote => HarvestError::Remote,
                        };
                        self.finish(Err(error))
                    },
                }
            },
            Stage::SeekingInbox => match count(reply) {
                Some(found) => {
                    if found > INBOX_TAB {
                        self.to(
                            Stage::OpeningInbox,
                            plain(
                                Command::Click { selector: Selector::TabCaption, index: INBOX_TAB },
                            ),
                        )
                    } else {
                        self.to(
                            Stage::SeekingPageSize,
                            after(INBOX_MS, Command::Probe { selector: Selector::PlainButton }),
                        )
                    }
                },
                None => self.finish(Err(HarvestError::Remote)),
            },
            Stage::OpeningInbox => {
                if succeeded(reply) {
                    self.to(
                        Stage::SeekingPageSize,
                        after(INBOX_MS, Command::Probe { selector: Selector::PlainButton }),
                    )
                } else {
                    self.finish(Err(HarvestError::Remote))
                }
            },
            Stage::SeekingPageSize => match count(reply) {
                Some(found) => {
                    if found > PAGE_SIZE_BUTTON {
                        self.to(
                            Stage::SettingPageSize,
                            plain(
                                Command::Click {
                                    selector: Selector::PlainButton,
                                    index: PAGE_SIZE_BUTTON,
                                },
                            ),
                        )
                    } else {
                        self.after_resize()
                    }
                },
                None => self.finish(Err(HarvestError::Remote)),
            },
            Stage::SettingPageSize => {
                if succeeded(reply) {
                    self.after_resize()
                } else {
                    self.finish(Err(HarvestError::Remote))
                }
            },
            Stage::SeekingSkip { left } => match count(reply) {
                Some(found) => {
                    if found > LIST_NEXT {
                        self.to(
                            Stage::Skipping { left },
                            plain(
                                Command::Click { selector: Selector::PagingNext, index: LIST_NEXT },
                            ),
                        )
                    } else {
                        self.after_skip(left, 0)
                    }
                },
                None => self.finish(Err(HarvestError::Remote)),
            },
            Stage::Skipping { left } => {
                if succeeded(reply) {
                    self.after_skip(left, SKIP_MS)
                } else {
                    self.finish(Err(HarvestError::Remote))
                }
            },
            Stage::Harvesting { item } => {
                let mut item = item;
                match item.advance(reply) {
                    ItemMove::Continue { step } => self.to(Stage::Harvesting { item }, step),
                    ItemMove::Finished { completed } => self.item_done(completed),
                }
            },
            Stage::Reporting => self.after_item(0),
            Stage::Draining => {
                let report = match reply {
                    Reply::Downloads { stable: true } => None,
                    _ => Some(Message::DownloadsUnconfirmed),
                };
                self.to(Stage::Silencing, Step { pause_ms: 0, report, command: Command::Silence })
            },
            Stage::Silencing => self.to(Stage::Closing, plain(Command::Close)),
            Stage::Closing => {
                let (cleanup, step) = Cleanup::start();
                self.to(Stage::Cleaning { cleanup }, step)
            },
            Stage::Cleaning { cleanup } => {
                let mut cleanup = cleanup;
                match cleanup.advance(reply) {
                    CleanupMove::Continue { step } => self.to(Stage::Cleaning { cleanup }, step),
                    CleanupMove::Finished { removed } => {
                        if removed {
                            let summary = self.summary();
                            self.finish(Ok(summary))
                        } else {
                            self.to(
                                Stage::Warning,
                                told(0, Message::ProfileLeftBehind, Command::Idle),
                            )
                        }
                    },
                }
            },
            Stage::Warning => {
                let summary = self.summary();
                self.finish(Ok(summary))
            },
            Stage::Ended { outcome } => HarvestMove::Finished { outcome },
        }
    }
}

/// Begins the download of the communications numbered `inicio` to `final_`
/// with the account that `usuario_id` selects in `config`, under the
/// standard waits. Hands back the run and its first move.
pub fn descargar_comunicaciones(inicio: u32, final_: u32, usuario_id: &str, config: &Config) -> (begun:
    (Harvest, HarvestMove))
    ensures
        begun == spec_begin(
            inicio,
            final_,
            spec_tiene(config.usuarios@, usuario_id@),
            crate::policy::TimeoutPolicy {
                per_file_secs: 5,
                floor_secs: 10,
                ceiling_secs: 60,
                drain_secs: 30,
            },
        ),
        begun.0.wf(),
        begun.0.total == spec_batch_size(inicio, final_),
{
    let credentials = config.get_credenciales(usuario_id).is_some();
    Harvest::begin(inicio, final_, credentials, TimeoutPolicy::standard())
}

/// The state of a run after it has taken in `replies`, one after the
/// other, starting from `h`.
pub open spec fn spec_run(h: Harvest, replies: Seq<Reply>) -> Harvest
    decreases replies.len(),
{
    if replies.len() == 0 {
        h
    } else {
        spec_run(spec_advance(h, replies[0]).0, replies.drop_first())
    }
}

/// Whatever the replies, a run keeps its invariant and its range.
pub proof fn lemma_run_keeps_invariant(h: Harvest, replies: Seq<Reply>)
    requires
        h.wf(),
    ensures
        spec_run(h, replies).wf(),
        spec_run(h, replies).total == h.total,
        spec_run(h, replies).first == h.first,
        spec_run(h, replies).done >= h.done,
        spec_run(h, replies).completed >= h.completed,
    decreases replies.len(),
{
    if replies.len() > 0 {
        lemma_advance_keeps_invariant(h, replies[0]);
        lemma_run_keeps_invariant(spec_advance(h, replies[0]).0, replies.drop_first());
    }
}

/// In every state that a run over a range can reach, no more items are
/// completed than were asked for, and the number asked for is the number of
/// items in the range. A run that has ended with a summary reports these
/// two numbers.
pub proof fn lemma_counts_are_sound(
    inicio: u32,
    final_: u32,
    credentials: bool,
    policy: TimeoutPolicy,
    replies: Seq<Reply>,
)
    ensures
        ({
            let h = spec_run(spec_begin(inicio, final_, credentials, policy).0, replies);
            &&& h.completed <= h.total
            &&& h.total == spec_batch_size(inicio, final_)
            &&& h.stage matches Stage::Ended { outcome: Ok(summary) } ==> {
                &&& summary.comunicaciones_procesadas == h.completed
                &&& summary.total_comunicaciones == h.total
            }
        }),
{
    lemma_run_keeps_invariant(spec_begin(inicio, final_, credentials, policy).0, replies);
}

/// A range that holds nothing ends the run at once with an empty summary,
/// with or without an account: nothing is asked of the browser.
pub proof fn lemma_empty_range_ends_at_once(
    inicio: u32,
    final_: u32,
    credentials: bool,
    policy: TimeoutPolicy,
)
    requires
        inicio == 0 || final_ < inicio,
    ensures
        spec_begin(inicio, final_, credentials, policy).1 == (HarvestMove::Finished {
            outcome: Ok(
                ResultadoDescarga { comunicaciones_procesadas: 0, total_comunicaciones: 0 },
            ),
        }),
{
}

/// Without an account a run over a range that holds something ends at once
/// with an error: nothing is asked of the browser.
pub proof fn lemma_missing_account_is_fatal(inicio: u32, final_: u32, policy: TimeoutPolicy)
    requires
        1 <= inicio <= final_,
    ensures
        spec_begin(inicio, final_, false, policy).1 == (HarvestMove::Finished {
            outcome: Err(HarvestError::MissingCredentials),
        }),
{
}

/// The item that a move announces, with its ordinal and the total, if the
/// move announces one.
pub open spec fn spec_announced(next: HarvestMove) -> Option<(u32, u32, u32)> {
    match next {
        HarvestMove::Continue { step } => match step.report {
            Some(Message::Downloading { item, ordinal, total }) => Some((item, ordinal, total)),
            _ => None,
        },
        _ => None,
    }
}

/// Items are taken one at a time and in their order: a transition finishes
/// at most one item, and the item that a run works on is the one that
/// follows those done.
pub proof fn lemma_one_item_at_a_time(h: Harvest, reply: Reply)
    requires
        h.wf(),
    ensures
        spec_advance(h, reply).0.done <= h.done + 1,
        spec_advance(h, reply).0.completed <= h.completed + 1,
        spec_advance(h, reply).0.done > h.done ==> h.stage is Harvesting,
        spec_advance(h, reply).0.completed > h.completed ==> spec_advance(h, reply).0.done
            > h.done,
        spec_announced(spec_advance(h, reply).1) matches Some(told) ==> {
            &&& told.0 == spec_advance(h, reply).0.first + spec_advance(h, reply).0.done
            &&& told.1 == spec_advance(h, reply).0.completed + 1
            &&& told.2 == h.total
        },
{
}

/// An item that could not be worked through counts towards the items done
/// and not towards those completed, its failure is reported with its
/// number, and the run goes on.
pub proof fn lemma_failed_item_is_skipped(h: Harvest, item: ItemHarvest, reply: Reply)
    requires
        h.wf(),
        h.stage == (Stage::Harvesting { item }),
        crate::attachments::spec_advance(item, reply).1 == (ItemMove::Finished {
            completed: false,
        }),
    ensures
        ({
            let (after, next) = spec_advance(h, reply);
            &&& after.done == h.done + 1
            &&& after.completed == h.completed
            &&& after.stage is Reporting
            &&& next == (HarvestMove::Continue {
                step: spec_told(
                    0,
                    Message::ItemFailed { item: (h.first + h.done) as u32 },
                    Command::Idle,
                ),
            })
        }),
{
}

/// The run shuts down in a fixed order: the browser's events are no longer
/// taken in only after the last downloads were waited for, the browser is
/// closed only after that, and the profile is deleted only after the
/// browser was closed.
pub proof fn lemma_shutdown_order(h: Harvest, reply: Reply)
    requires
        h.wf(),
    ensures
        (spec_advance(h, reply).1 matches HarvestMove::Continue { step } && step.command
            is Silence) ==> h.stage is Draining,
        (spec_advance(h, reply).1 matches HarvestMove::Continue { step } && step.command
            is Close) ==> h.stage is Silencing,
        (spec_advance(h, reply).1 matches HarvestMove::Continue { step } && step.command
            is RemoveProfile) ==> h.stage is Closing || h.stage is Cleaning,
        (spec_advance(h, reply).1 matches HarvestMove::Continue { step } && step.command
            == (Command::AwaitDownloads { timeout_secs: h.policy.drain_secs })
            && spec_advance(h, reply).0.stage is Draining) ==> spec_advance(h, reply).0.done
            == h.total,
{
}

/// Whether the stage lies behind the sign-in: the items have begun, or are
/// over.
pub open spec fn spec_items_begun(stage: Stage) -> bool {
    stage is Harvesting || stage is Reporting || stage is Draining || stage is Silencing
        || stage is Closing || stage is Cleaning || stage is Warning
}

/// Once the items have begun, nothing ends the run with an error: not an
/// item that fails, not downloads that do not settle, not a profile that
/// cannot be deleted. The run goes on, or ends with its summary.
pub proof fn lemma_no_error_once_items_begun(h: Harvest, reply: Reply)
    requires
        h.wf(),
        spec_items_begun(h.stage),
    ensures
        !(spec_advance(h, reply).1 matches HarvestMove::Finished { outcome: Err(_) }),
        spec_items_begun(spec_advance(h, reply).0.stage) || spec_advance(h, reply).0.stage
            matches Stage::Ended { outcome: Ok(_) },
{
}

/// A run that has ended stays as it ended.
pub proof fn lemma_end_is_final(h: Harvest, reply: Reply)
    requires
        h.stage is Ended,
    ensures
        spec_advance(h, reply).0 == h,
        spec_advance(h, reply).1 == (HarvestMove::Finished { outcome: h.stage->outcome }),
{
}

} // verus!
