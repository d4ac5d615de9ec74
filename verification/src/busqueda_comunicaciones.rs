//! Harvest orchestrator for a list of identifiers.
//!
//! Drives one run over the communications that a list names: makes the
//! profile, starts the browser, signs in, works through the items one by
//! one in the order of the list, waits for the last downloads, closes the
//! browser and deletes the profile.

use vstd::prelude::*;
use crate::config::{spec_tiene, Config};
use crate::listed::{ListedItem, ListedMove};
use crate::policy::TimeoutPolicy;
use crate::profile::{Cleanup, CleanupMove};
use crate::remote::{
    plain, spec_plain, spec_succeeded, spec_told, succeeded, told, Command, Message, Reply, Step,
};
use crate::session::{Session, SessionError, SessionMove};
use crate::text::{same_text, spec_trim, trim};
use crate::web_automation::{spec_session_error, HarvestError};

verus! {

/// Pause after the sign-in form was submitted, in milliseconds.
pub const SIGN_IN_MS: u64 = 3000;

/// Pause after the return to the list view, in milliseconds.
pub const RETURN_MS: u64 = 1000;

/// The summary of a run: how many items were completed, of how many named.
#[derive(Clone, Copy, Debug, Default, PartialEq, Eq, Structural)]
pub struct ResultadoBusqueda {
    pub comunicaciones_descargadas: usize,
    pub total_comunicaciones: usize,
}

/// Where a run stands: which command it waits on, or how it ended.
#[derive(Clone, Copy, Debug, PartialEq, Eq)]
pub enum ListStage {
    CreatingProfile,
    Launching,
    SigningIn { session: Session },
    /// The item that follows those done is worked on.
    Harvesting { item: ListedItem },
    /// The failure of the item just done is reported.
    Reporting,
    /// The downloads still in flight are waited for.
    Draining,
    /// The browser's events are no longer taken in.
    Silencing,
    Closing,
    Cleaning { cleanup: Cleanup },
    /// The profile that was left behind is reported.
    Warning,
    Ended { outcome: Result<ResultadoBusqueda, HarvestError> },
}

/// The state of a run over a list of `total` items: the stage, how many
/// items are done, and how many of those were completed.
#[derive(Clone, Copy, Debug, PartialEq, Eq)]
pub struct ListHarvest {
    pub stage: ListStage,
    pub total: usize,
    pub done: usize,
    pub completed: usize,
    pub policy: TimeoutPolicy,
}

/// What a run asks for next, or how it ended.
#[derive(Clone, Copy, Debug, PartialEq, Eq)]
pub enum ListMove {
    Continue { step: Step },
    Finished { outcome: Result<ResultadoBusqueda, HarvestError> },
}

/// The summary of a run in state `h`.
pub open spec fn spec_summary(h: ListHarvest) -> ResultadoBusqueda {
    ResultadoBusqueda { comunicaciones_descargadas: h.completed, total_comunicaciones: h.total }
}

/// Whether the stage lies before the end of an item: an item is still to
/// do or under way.
pub open spec fn spec_before_drain(stage: ListStage) -> bool {
    stage is CreatingProfile || stage is Launching || stage is SigningIn || stage is Harvesting
}

impl ListHarvest {
    /// The invariant of a run: no more items are completed than done, nor
    /// more done than named; while an item is to do or under way some are
    /// left, and once the run drains none is left; a run that ended well
    /// ended with its own summary.
    pub open spec fn wf(self) -> bool {
        &&& self.completed <= self.done <= self.total
        &&& spec_before_drain(self.stage) ==> self.done < self.total
        &&& (self.stage is Draining || self.stage is Silencing || self.stage is Closing
            || self.stage is Cleaning || self.stage is Warning) ==> self.done == self.total
        &&& self.stage is Reporting ==> self.done >= 1
        &&& self.stage matches ListStage::Ended { outcome: Ok(summary) } ==> summary
            == spec_summary(self) && self.done == self.total
    }
}

pub open spec fn spec_finish(h: ListHarvest, outcome: Result<ResultadoBusqueda, HarvestError>) -> (
    ListHarvest,
    ListMove,
) {
    (ListHarvest { stage: ListStage::Ended { outcome }, ..h }, ListMove::Finished { outcome })
}

pub open spec fn spec_to(h: ListHarvest, stage: ListStage, step: Step) -> (ListHarvest, ListMove) {
    (ListHarvest { stage, ..h }, ListMove::Continue { step })
}

/// The state and the first move of a run over a list of `total` items.
pub open spec fn spec_begin(total: usize, credentials: bool, policy: TimeoutPolicy) -> (
    ListHarvest,
    ListMove,
) {
    let h = ListHarvest { stage: ListStage::CreatingProfile, total, done: 0, completed: 0, policy };
    if total == 0 {
        spec_finish(
            h,
            Ok(ResultadoBusqueda { comunicaciones_descargadas: 0, total_comunicaciones: 0 }),
        )
    } else if credentials {
        (h, ListMove::Continue { step: spec_plain(Command::CreateProfile) })
    } else {
        spec_finish(h, Err(HarvestError::MissingCredentials))
    }
}

/// Starts the work on the item that follows those done, after `pause_ms`.
pub open spec fn spec_open_item(h: ListHarvest, pause_ms: u64) -> (ListHarvest, ListMove) {
    spec_to(
        h,
        ListStage::Harvesting { item: crate::listed::spec_initial(h.done, h.policy) },
        spec_told(
            pause_ms,
            Message::DownloadingListed {
                position: h.done,
                number: (h.done + 1) as usize,
                count: h.total,
            },
            crate::listed::spec_first_command(),
        ),
    )
}

/// Goes on after an item was done and reported: to the next item, or to the
/// wait for the last downloads.
pub open spec fn spec_after_item(h: ListHarvest, pause_ms: u64) -> (ListHarvest, ListMove) {
    if h.done < h.total {
        spec_open_item(h, pause_ms)
    } else {
        spec_to(
            h,
            ListStage::Draining,
            spec_told(
                pause_ms,
                Message::ClosingBrowser,
                Command::AwaitDownloads { timeout_secs: h.policy.drain_secs },
            ),
        )
    }
}

/// Books an item as done, completed or not.
pub open spec fn spec_item_done(h: ListHarvest, completed: bool) -> (ListHarvest, ListMove) {
    let booked = ListHarvest {
        done: (h.done + 1) as usize,
        completed: if completed {
            (h.completed + 1) as usize
        } else {
            h.completed
        },
        ..h
    };
    if completed {
        spec_after_item(booked, RETURN_MS)
    } else {
        spec_to(
            booked,
            ListStage::Reporting,
            spec_told(0, Message::ListedItemFailed { position: h.done }, Command::Idle),
        )
    }
}

/// The transition of a run: the state after `reply` and the next move.
pub open spec fn spec_advance(h: ListHarvest, reply: Reply) -> (ListHarvest, ListMove) {
    match h.stage {
        ListStage::CreatingProfile => if spec_succeeded(reply) {
            spec_to(h, ListStage::Launching, spec_told(0, Message::StartingBrowser, Command::Launch))
        } else {
            spec_finish(h, Err(HarvestError::ProfileSetup))
        },
        ListStage::Launching => if spec_succeeded(reply) {
            spec_to(
                h,
                ListStage::SigningIn { session: crate::session::spec_initial() },
                crate::session::spec_first_step(),
            )
        } else {
            spec_finish(h, Err(HarvestError::BrowserLaunch))
        },
        ListStage::SigningIn { session } => {
            let (session, next) = crate::session::spec_advance(session, reply);
            match next {
                SessionMove::Continue { step } => spec_to(h, ListStage::SigningIn { session }, step),
                SessionMove::Authenticated => spec_open_item(h, SIGN_IN_MS),
                SessionMove::Failed { error } => spec_finish(h, Err(spec_session_error(error))),
            }
        },
        ListStage::Harvesting { item } => {
            let (item, next) = crate::listed::spec_advance(item, reply);
            match next {
                ListedMove::Continue { step } => spec_to(h, ListStage::Harvesting { item }, step),
                ListedMove::Finished { completed } => spec_item_done(h, completed),
            }
        },
        ListStage::Reporting => spec_after_item(h, 0),
        ListStage::Draining => spec_to(
            h,
            ListStage::Silencing,
            Step {
                pause_ms: 0,
                report: if reply == (Reply::Downloads { stable: true }) {
                    None
                } else {
                    Some(Message::DownloadsUnconfirmed)
                },
                command: Command::Silence,
            },
        ),
        ListStage::Silencing => spec_to(h, ListStage::Closing, spec_plain(Command::Close)),
        ListStage::Closing => spec_to(
            h,
            ListStage::Cleaning { cleanup: crate::profile::spec_initial() },
            crate::profile::spec_first_step(),
        ),
        ListStage::Cleaning { cleanup } => {
            let (cleanup, next) = crate::profile::spec_advance(cleanup, reply);
            match next {
                CleanupMove::Continue { step } => spec_to(h, ListStage::Cleaning { cleanup }, step),
                CleanupMove::Finished { removed } => if removed {
                    spec_finish(h, Ok(spec_summary(h)))
                } else {
                    spec_to(
                        h,
                        ListStage::Warning,
                        spec_told(0, Message::ProfileLeftBehind, Command::Idle),
                    )
                },
            }
        },
        ListStage::Warning => spec_finish(h, Ok(spec_summary(h))),
        ListStage::Ended { outcome } => (h, ListMove::Finished { outcome }),
    }
}

/// A run keeps its invariant, its size and its waits through every
/// transition; the items done and completed never become fewer.
pub proof fn lemma_advance_keeps_invariant(h: ListHarvest, reply: Reply)
    requires
        h.wf(),
    ensures
        spec_advance(h, reply).0.wf(),
        spec_advance(h, reply).0.total == h.total,
        spec_advance(h, reply).0.policy == h.policy,
        spec_advance(h, reply).0.done >= h.done,
        spec_advance(h, reply).0.completed >= h.completed,
{
}

impl ListHarvest {
    fn finish(&mut self, outcome: Result<ResultadoBusqueda, HarvestError>) -> (next: ListMove)
        ensures
            (*final(self), next) == spec_finish(*old(self), outcome),
    {
        self.stage = ListStage::Ended { outcome };
        ListMove::Finished { outcome }
    }

    fn to(&mut self, stage: ListStage, step: Step) -> (next: ListMove)
        ensures
            (*final(self), next) == spec_to(*old(self), stage, step),
    {
        self.stage = stage;
        ListMove::Continue { step }
    }

    fn summary(&self) -> (summary: ResultadoBusqueda)
        ensures
            summary == spec_summary(*self),
    {
        ResultadoBusqueda {
            comunicaciones_descargadas: self.completed,
            total_comunicaciones: self.total,
        }
    }

    fn open_item(&mut self, pause_ms: u64) -> (next: ListMove)
        requires
            old(self).done < old(self).total,
        ensures
            (*final(self), next) == spec_open_item(*old(self), pause_ms),
    {
        let (item, command) = ListedItem::start(self.done, self.policy);
        let message = Message::DownloadingListed {
            position: self.done,
            number: self.done + 1,
            count: self.total,
        };
        self.to(ListStage::Harvesting { item }, told(pause_ms, message, command))
    }

    fn after_item(&mut self, pause_ms: u64) -> (next: ListMove)
        requires
            old(self).done <= old(self).total,
        ensures
            (*final(self), next) == spec_after_item(*old(self), pause_ms),
    {
        if self.done < self.total {
            self.open_item(pause_ms)
        } else {
            let timeout_secs = self.policy.drain_secs;
            self.to(
                ListStage::Draining,
                told(pause_ms, Message::ClosingBrowser, Command::AwaitDownloads { timeout_secs }),
            )
        }
    }

    fn item_done(&mut self, completed: bool) -> (next: ListMove)
        requires
            old(self).completed <= old(self).done < old(self).total,
        ensures
            (*final(self), next) == spec_item_done(*old(self), completed),
    {
        let position = self.done;
        self.done = self.done + 1;
        if completed {
            self.completed = self.completed + 1;
            self.after_item(RETURN_MS)
        } else {
            self.to(
                ListStage::Reporting,
                told(0, Message::ListedItemFailed { position }, Command::Idle),
            )
        }
    }

    /// Tests the invariant of a run.
    pub fn is_wf(&self) -> (holds: bool)
        ensures
            holds == self.wf(),
    {
        let counts = self.completed <= self.done && self.done <= self.total;
        let placed = match self.stage {
            ListStage::Reporting => self.done >= 1,
            ListStage::Draining
            | ListStage::Silencing
            | ListStage::Closing
            | ListStage::Cleaning { .. }
            | ListStage::Warning => self.done == self.total,
            ListStage::Ended { outcome: Ok(summary) } => summary.comunicaciones_descargadas
                == self.completed && summary.total_comunicaciones == self.total && self.done
                == self.total,
            ListStage::Ended { outcome: Err(_) } => true,
            _ => self.done < self.total,
        };
        counts && placed
    }

    /// Begins a run over a list of `total` items. `credentials` tells
    /// whether the user's account is at hand. An empty list ends the run at
    /// once with an empty summary, before anything is asked of the browser;
    /// so does a missing account, with an error.
    pub fn begin(total: usize, credentials: bool, policy: TimeoutPolicy) -> (begun: (
        ListHarvest,
        ListMove,
    ))
        ensures
            begun == spec_begin(total, credentials, policy),
            begun.0.wf(),
            begun.0.total == total,
    {
        let mut h = ListHarvest {
            stage: ListStage::CreatingProfile,
            total,
            done: 0,
            completed: 0,
            policy,
        };
        if total == 0 {
            let next = h.finish(
                Ok(ResultadoBusqueda { comunicaciones_descargadas: 0, total_comunicaciones: 0 }),
            );
            (h, next)
        } else if credentials {
            (h, ListMove::Continue { step: plain(Command::CreateProfile) })
        } else {
            let next = h.finish(Err(HarvestError::MissingCredentials));
            (h, next)
        }
    }

    /// Takes in the reply to the command that the run last asked for and
    /// says what to do next. Once the run has ended, it repeats how it
    /// ended whatever the reply.
    pub fn advance(&mut self, reply: Reply) -> (next: ListMove)
        requires
            old(self).wf(),
        ensures
            (*final(self), next) == spec_advance(*old(self), reply),
            final(self).wf(),
            final(self).total == old(self).total,
            next matches ListMove::Finished { outcome: Ok(summary) } ==> {
                &&& summary.comunicaciones_descargadas <= summary.total_comunicaciones
                &&& summary.total_comunicaciones == old(self).total
            },
    {
        proof {
            lemma_advance_keeps_invariant(*self, reply);
        }
        match self.stage {
            ListStage::CreatingProfile => {
                if succeeded(reply) {
                    self.to(
                        ListStage::Launching,
                        told(0, Message::StartingBrowser, Command::Launch),
                    )
                } else {
                    self.finish(Err(HarvestError::ProfileSetup))
                }
            },
            ListStage::Launching => {
                if succeeded(reply) {
                    let (session, step) = Session::start();
                    self.to(ListStage::SigningIn { session }, step)
                } else {
                    self.finish(Err(HarvestError::BrowserLaunch))
                }
            },
            ListStage::SigningIn { session } => {
                let mut session = session;
                match session.advance(reply) {
                    SessionMove::Continue { step } => self.to(
                        ListStage::SigningIn { session },
                        step,
                    ),
                    SessionMove::Authenticated => self.open_item(SIGN_IN_MS),
                    SessionMove::Failed { error } => {
                        let error = match error {
                            SessionError::Authentication => HarvestError::Authentication,
                            SessionError::Remote => HarvestError::Remote,
                        };
                        self.finish(Err(error))
                    },
                }
            },
            ListStage::Harvesting { item } => {
                let mut item = item;
                match item.advance(reply) {
                    ListedMove::Continue { step } => self.to(ListStage::Harvesting { item }, step),
                    ListedMove::Finished { completed } => self.item_done(completed),
                }
            },
            ListStage::Reporting => self.after_item(0),
            ListStage::Draining => {
                let report = match reply {
                    Reply::Downloads { stable: true } => None,
                    _ => Some(Message::DownloadsUnconfirmed),
                };
                self.to(
                    ListStage::Silencing,
                    Step { pause_ms: 0, report, command: Command::Silence },
                )
            },
            ListStage::Silencing => self.to(ListStage::Closing, plain(Command::Close)),
            ListStage::Closing => {
                let (cleanup, step) = Cleanup::start();
                self.to(ListStage::Cleaning { cleanup }, step)
            },
            ListStage::Cleaning { cleanup } => {
                let mut cleanup = cleanup;
                match cleanup.advance(reply) {
                    CleanupMove::Continue { step } => self.to(
                        ListStage::Cleaning { cleanup },
                        step,
                    ),
                    CleanupMove::Finished { removed } => {
                        if removed {
                            let summary = self.summary();
                            self.finish(Ok(summary))
                        } else {
                            self.to(
                                ListStage::Warning,
                                told(0, Message::ProfileLeftBehind, Command::Idle),
                            )
                        }
                    },
                }
            },
            ListStage::Warning => {
                let summary = self.summary();
                self.finish(Ok(summary))
            },
            ListStage::Ended { outcome } => ListMove::Finished { outcome },
        }
    }
}

/// Begins the download of the communications that `comunicaciones` names,
/// with the account that `usuario_id` selects in `config`. Hands back the
/// run and its first move.
pub fn buscar_comunicaciones(comunicaciones: &Vec<String>, usuario_id: &str, config: &Config) -> (begun:
    (ListHarvest, ListMove))
    ensures
        begun == spec_begin(
            comunicaciones@.len() as usize,
            spec_tiene(config.usuarios@, usuario_id@),
            crate::policy::TimeoutPolicy {
                per_file_secs: 30,
                floor_secs: 30,
                ceiling_secs: 30,
                drain_secs: 30,
            },
        ),
        begun.0.wf(),
        begun.0.total == comunicaciones@.len(),
{
    let credentials = config.get_credenciales(usuario_id).is_some();
    ListHarvest::begin(comunicaciones.len(), credentials, TimeoutPolicy::single_file())
}

/// The state of a run after it has taken in `replies`, one after the
/// other, starting from `h`.
pub open spec fn spec_run(h: ListHarvest, replies: Seq<Reply>) -> ListHarvest
    decreases replies.len(),
{
    if replies.len() == 0 {
        h
    } else {
        spec_run(spec_advance(h, replies[0]).0, replies.drop_first())
    }
}

/// In every state that a run over a list can reach, no more items are
/// completed than the list names, and the number asked for is the length of
/// the list. A run that has ended with a summary reports these two numbers.
pub proof fn lemma_counts_are_sound(
    total: usize,
    credentials: bool,
    policy: TimeoutPolicy,
    replies: Seq<Reply>,
)
    ensures
        ({
            let h = spec_run(spec_begin(total, credentials, policy).0, replies);
            &&& h.wf()
            &&& h.completed <= h.total
            &&& h.total == total
            &&& h.stage matches ListStage::Ended { outcome: Ok(summary) } ==> {
                &&& summary.comunicaciones_descargadas == h.completed
                &&& summary.total_comunicaciones == h.total
            }
        }),
{
    lemma_run_keeps_invariant(spec_begin(total, credentials, policy).0, replies);
}

/// Whatever the replies, a run keeps its invariant and its size.
pub proof fn lemma_run_keeps_invariant(h: ListHarvest, replies: Seq<Reply>)
    requires
        h.wf(),
    ensures
        spec_run(h, replies).wf(),
        spec_run(h, replies).total == h.total,
    decreases replies.len(),
{
    if replies.len() > 0 {
        lemma_advance_keeps_invariant(h, replies[0]);
        lemma_run_keeps_invariant(spec_advance(h, replies[0]).0, replies.drop_first());
    }
}

/// An empty list ends the run at once with an empty summary, with or
/// without an account: nothing is asked of the browser.
pub proof fn lemma_empty_list_ends_at_once(credentials: bool, policy: TimeoutPolicy)
    ensures
        spec_begin(0, credentials, policy).1 == (ListMove::Finished {
            outcome: Ok(
                ResultadoBusqueda { comunicaciones_descargadas: 0, total_comunicaciones: 0 },
            ),
        }),
{
}

/// Why the communications without a body could not be read off a sheet.
#[derive(Clone, Copy, Debug, PartialEq, Eq, Structural)]
pub enum ErrorExcel {
    /// The sheet has no rows.
    Vacio,
    /// No column of the sheet is headed as that of the communications.
    SinColumnaCcoo,
    /// No column of the sheet is headed as that of the sending bodies.
    SinColumnaOrganismo,
}

/// Heading of the column of the communications' numbers.
pub open spec fn spec_titulo_ccoo() -> Seq<char> {
    "CCOO N°"@
}

/// Heading of the column of the sending bodies.
pub open spec fn spec_titulo_organismo() -> Seq<char> {
    "ORGANISMO"@
}

/// Whether `j` is the first column headed `titulo`.
pub open spec fn spec_es_columna(encabezados: Seq<String>, titulo: Seq<char>, j: int) -> bool {
    &&& 0 <= j < encabezados.len()
    &&& encabezados[j]@ == titulo
    &&& forall|k: int| 0 <= k < j ==> (#[trigger] encabezados[k])@ != titulo
}

/// Whether some column is headed `titulo`.
pub open spec fn spec_tiene_columna(encabezados: Seq<String>, titulo: Seq<char>) -> bool {
    exists|j: int| 0 <= j < encabezados.len() && (#[trigger] encabezados[j])@ == titulo
}

/// What a row holds in column `j`: the empty text where the row is too
/// short.
pub open spec fn spec_celda(fila: Seq<String>, j: int) -> Seq<char> {
    if 0 <= j < fila.len() {
        fila[j]@
    } else {
        Seq::empty()
    }
}

/// Whether a row names a communication that has no sending body yet: its
/// cell for the body is empty, and its cell for the communication is not.
pub open spec fn spec_pendiente(fila: Seq<String>, ccoo: int, organismo: int) -> bool {
    spec_celda(fila, organismo).len() == 0 && spec_celda(fila, ccoo).len() > 0
}

/// The numbers of the communications without sending body among the rows,
/// in the order of the rows.
pub open spec fn spec_pendientes(filas: Seq<Vec<String>>, ccoo: int, organismo: int) -> Seq<
    Seq<char>,
>
    decreases filas.len(),
{
    if filas.len() == 0 {
        Seq::empty()
    } else if spec_pendiente(filas.last()@, ccoo, organismo) {
        spec_pendientes(filas.drop_last(), ccoo, organismo).push(
            spec_celda(filas.last()@, ccoo),
        )
    } else {
        spec_pendientes(filas.drop_last(), ccoo, organismo)
    }
}

/// The texts of a sequence of strings.
pub open spec fn spec_textos(nombres: Seq<String>) -> Seq<Seq<char>> {
    nombres.map_values(|nombre: String| nombre@)
}

/// Whether `recortadas` is the table `filas` with the white space taken
/// off both ends of every cell.
pub open spec fn spec_recortadas(filas: Seq<Vec<String>>, recortadas: Seq<Vec<String>>) -> bool {
    &&& recortadas.len() == filas.len()
    &&& forall|i: int|
        0 <= i < filas.len() ==> (#[trigger] recortadas[i])@.len() == filas[i]@.len()
    &&& forall|i: int, j: int|
        0 <= i < filas.len() && 0 <= j < filas[i]@.len() ==> (#[trigger] recortadas[i]@[j])@
            == spec_trim(filas[i]@[j]@)
}

fn recortar_fila(fila: &Vec<String>) -> (recortada: Vec<String>)
    ensures
        recortada@.len() == fila@.len(),
        forall|j: int| 0 <= j < fila@.len() ==> (#[trigger] recortada@[j])@ == spec_trim(fila@[j]@),
{
    let mut recortada: Vec<String> = Vec::new();
    let mut j: usize = 0;
    while j < fila.len()
        invariant
            j <= fila.len(),
            recortada@.len() == j,
            forall|k: int| 0 <= k < j ==> (#[trigger] recortada@[k])@ == spec_trim(fila@[k]@),
        decreases fila.len() - j,
    {
        recortada.push(trim(fila[j].as_str()));
        j += 1;
    }
    recortada
}

/// Takes the white space off both ends of every cell of a table.
pub fn recortar_celdas(filas: &Vec<Vec<String>>) -> (recortadas: Vec<Vec<String>>)
    ensures
        spec_recortadas(filas@, recortadas@),
{
    let mut recortadas: Vec<Vec<String>> = Vec::new();
    let mut i: usize = 0;
    while i < filas.len()
        invariant
            i <= filas.len(),
            recortadas@.len() == i,
            forall|k: int| 0 <= k < i ==> (#[trigger] recortadas@[k])@.len() == filas@[k]@.len(),
            forall|k: int, j: int|
                0 <= k < i && 0 <= j < filas@[k]@.len() ==> (#[trigger] recortadas@[k]@[j])@
                    == spec_trim(filas@[k]@[j]@),
        decreases filas.len() - i,
    {
        recortadas.push(recortar_fila(&filas[i]));
        i += 1;
    }
    recortadas
}

fn columna(encabezados: &Vec<String>, titulo: &str) -> (hallada: Option<usize>)
    ensures
        hallada is Some <==> spec_tiene_columna(encabezados@, titulo@),
        hallada matches Some(j) ==> spec_es_columna(encabezados@, titulo@, j as int),
{
    let mut j: usize = 0;
    while j < encabezados.len()
        invariant
            j <= encabezados.len(),
            forall|k: int| 0 <= k < j ==> (#[trigger] encabezados@[k])@ != titulo@,
        decreases encabezados.len() - j,
    {
        if same_text(encabezados[j].as_str(), titulo) {
            return Some(j);
        }
        j += 1;
    }
    None
}

fn celda(fila: &Vec<String>, j: usize) -> (texto: String)
    ensures
        texto@ == spec_celda(fila@, j as int),
{
    if j < fila.len() {
        fila[j].clone()
    } else {
        String::new()
    }
}

/// Whether `pendientes` is what is read off the rows of a sheet whose
/// cells carry no white space around them: an error if the sheet has no
/// rows or lacks one of the two columns, that of the communications being
/// looked for first; else the communications without sending body, the
/// columns being the first with their headings.
pub open spec fn spec_lectura(filas: Seq<Vec<String>>, pendientes: Result<Vec<String>, ErrorExcel>)
    -> bool {
    &&& pendientes is Ok <==> filas.len() > 0 && spec_tiene_columna(filas[0]@, spec_titulo_ccoo())
        && spec_tiene_columna(filas[0]@, spec_titulo_organismo())
    &&& pendientes matches Err(e) ==> e == (if filas.len() == 0 {
        ErrorExcel::Vacio
    } else if !spec_tiene_columna(filas[0]@, spec_titulo_ccoo()) {
        ErrorExcel::SinColumnaCcoo
    } else {
        ErrorExcel::SinColumnaOrganismo
    })
    &&& pendientes matches Ok(p) ==> exists|ccoo: int, organismo: int|
        {
            &&& spec_es_columna(filas[0]@, spec_titulo_ccoo(), ccoo)
            &&& spec_es_columna(filas[0]@, spec_titulo_organismo(), organismo)
            &&& spec_textos(p@) == spec_pendientes(
                filas.subrange(1, filas.len() as int),
                ccoo,
                organismo,
            )
        }
}

/// The numbers of the communications that have no sending body yet, read
/// off the rows of a sheet whose first row holds the headings and whose
/// cells carry no white space around them. The two columns are the first
/// that are headed as the column of the communications and as that of the
/// sending bodies; the rows are taken in their order.
pub fn comunicaciones_pendientes(filas: &Vec<Vec<String>>) -> (pendientes: Result<
    Vec<String>,
    ErrorExcel,
>)
    ensures
        spec_lectura(filas@, pendientes),
{
    if filas.len() == 0 {
        return Err(ErrorExcel::Vacio);
    }
    let idx_ccoo = match columna(&filas[0], "CCOO N°") {
        Some(j) => j,
        None => {
            return Err(ErrorExcel::SinColumnaCcoo);
        },
    };
    let idx_organismo = match columna(&filas[0], "ORGANISMO") {
        Some(j) => j,
        None => {
            return Err(ErrorExcel::SinColumnaOrganismo);
        },
    };
    let mut comunicaciones: Vec<String> = Vec::new();
    let mut i: usize = 1;
    assert(spec_textos(comunicaciones@) =~= Seq::<Seq<char>>::empty());
    while i < filas.len()
        invariant
            1 <= i <= filas.len(),
            spec_textos(comunicaciones@) == spec_pendientes(
                filas@.subrange(1, i as int),
                idx_ccoo as int,
                idx_organismo as int,
            ),
        decreases filas.len() - i,
    {
        assert(filas@.subrange(1, i + 1).drop_last() =~= filas@.subrange(1, i as int));
        assert(filas@.subrange(1, i + 1).last() == filas@[i as int]);
        let organismo = celda(&filas[i], idx_organismo);
        let ccoo = celda(&filas[i], idx_ccoo);
        if organismo.as_str().is_empty() && !ccoo.as_str().is_empty() {
            let ghost antes = comunicaciones@;
            comunicaciones.push(ccoo);
            assert(spec_textos(comunicaciones@) =~= spec_textos(antes).push(
                spec_celda(filas@[i as int]@, idx_ccoo as int),
            ));
        }
        i += 1;
    }
    Ok(comunicaciones)
}

/// The numbers of the communications that have no sending body yet, read
/// off the rows of a sheet whose first row holds the headings: the white
/// space around every cell is taken off, and the rows are then read as
/// `comunicaciones_pendientes` reads them.
pub fn obtener_comunicaciones_sin_organismo(filas: &Vec<Vec<String>>) -> (pendientes: Result<
    Vec<String>,
    ErrorExcel,
>)
    ensures
        exists|recortadas: Seq<Vec<String>>|
            {
                &&& spec_recortadas(filas@, recortadas)
                &&& #[trigger] spec_lectura(recortadas, pendientes)
            },
{
    let recortadas = recortar_celdas(filas);
    comunicaciones_pendientes(&recortadas)
}

/// Whether the stage lies behind the sign-in: the items have begun, or are
/// over.
pub open spec fn spec_items_begun(stage: ListStage) -> bool {
    stage is Harvesting || stage is Reporting || stage is Draining || stage is Silencing
        || stage is Closing || stage is Cleaning || stage is Warning
}

/// Once the items have begun, nothing ends the run with an error. The run
/// goes on, or ends with its summary.
pub proof fn lemma_no_error_once_items_begun(h: ListHarvest, reply: Reply)
    requires
        h.wf(),
        spec_items_begun(h.stage),
    ensures
        !(spec_advance(h, reply).1 matches ListMove::Finished { outcome: Err(_) }),
        spec_items_begun(spec_advance(h, reply).0.stage) || spec_advance(h, reply).0.stage
            matches ListStage::Ended { outcome: Ok(_) },
{
}

/// Items are taken one at a time and in the order of the list: a
/// transition finishes at most one item, and the item that a run turns to
/// is the one that follows those done.
pub proof fn lemma_one_item_at_a_time(h: ListHarvest, reply: Reply)
    requires
        h.wf(),
    ensures
        spec_advance(h, reply).0.done <= h.done + 1,
        spec_advance(h, reply).0.completed <= h.completed + 1,
        spec_advance(h, reply).0.done > h.done ==> h.stage is Harvesting,
        spec_advance(h, reply).0.completed > h.completed ==> spec_advance(h, reply).0.done
            > h.done,
        (spec_advance(h, reply).0.stage is Harvesting && !(h.stage is Harvesting))
            ==> spec_advance(h, reply).0.stage->item.position == spec_advance(h, reply).0.done,
{
}

/// The run shuts down in a fixed order: the browser's events are no longer
/// taken in only after the last downloads were waited for, the browser is
/// closed only after that, and the profile is deleted only after the
/// browser was closed.
pub proof fn lemma_shutdown_order(h: ListHarvest, reply: Reply)
    requires
        h.wf(),
    ensures
        (spec_advance(h, reply).1 matches ListMove::Continue { step } && step.command
            is Silence) ==> h.stage is Draining,
        (spec_advance(h, reply).1 matches ListMove::Continue { step } && step.command is Close)
            ==> h.stage is Silencing,
        (spec_advance(h, reply).1 matches ListMove::Continue { step } && step.command
            is RemoveProfile) ==> h.stage is Closing || h.stage is Cleaning,
{
}

} // verus!
