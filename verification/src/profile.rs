//! Profile lifecycle.
//!
//! Each run works on a browser profile of its own: a directory with a name
//! that no concurrent run shares, holding a preference document that
//! switches off what would interrupt the run. The directory is deleted when
//! the run ends. The operating system may hold its files for a moment after
//! the browser has gone, so the deletion is tried a few times; if it still
//! fails, the directory is left behind, and the run is none the worse.

use vstd::prelude::*;
use crate::remote::{after, spec_after, spec_succeeded, succeeded, Command, Reply, Step};
use crate::text::{decimal, lemma_decimal_injective, spec_decimal};

verus! {

/// How often the deletion of the profile is tried.
pub const REMOVAL_ATTEMPTS: u32 = 5;

/// Pause before the deletion is tried again, in milliseconds.
pub const REMOVAL_BACKOFF_MS: u64 = 1000;

/// Pause that lets the operating system release the profile's files once
/// the browser is closed, in milliseconds.
pub const RELEASE_MS: u64 = 2000;

/// Name of the directory, inside the profile, that holds the preferences.
pub fn preferences_dir() -> (name: &'static str)
    ensures
        name@ == "Default"@,
{
    "Default"
}

/// Name of the preference document.
pub fn preferences_file() -> (name: &'static str)
    ensures
        name@ == "Preferences"@,
{
    "Preferences"
}

/// The preference document: no offers to translate, no password manager,
/// and several downloads in a row allowed without asking.
pub fn preferences() -> (document: &'static str)
    ensures
        document@
            == "{\"translate\":{\"enabled\":false},\"profile\":{\"password_manager_enabled\":false,\"default_content_setting_values\":{\"automatic_downloads\":1}},\"credentials_enable_service\":false}"@,
{
    "{\"translate\":{\"enabled\":false},\"profile\":{\"password_manager_enabled\":false,\"default_content_setting_values\":{\"automatic_downloads\":1}},\"credentials_enable_service\":false}"
}

/// The name of a profile directory: `stem`, then the decimal digits of
/// `nanos`.
pub open spec fn spec_profile_name(stem: Seq<char>, nanos: nat) -> Seq<char> {
    stem + spec_decimal(nanos)
}

/// Runs that begin at different instants have profiles of different names.
pub proof fn lemma_profile_names_differ(stem: Seq<char>, nanos: nat, other: nat)
    requires
        nanos != other,
    ensures
        spec_profile_name(stem, nanos) != spec_profile_name(stem, other),
{
    let a = spec_profile_name(stem, nanos);
    let b = spec_profile_name(stem, other);
    if a == b {
        assert(a.subrange(stem.len() as int, a.len() as int) =~= spec_decimal(nanos));
        assert(b.subrange(stem.len() as int, b.len() as int) =~= spec_decimal(other));
        lemma_decimal_injective(nanos, other);
    }
}

/// Stem of the profile names of runs that harvest a range of items.
pub fn range_profile_stem() -> (stem: &'static str)
    ensures
        stem@ == "auto_sade_profile_"@,
{
    "auto_sade_profile_"
}

/// Stem of the profile names of runs that harvest a list of items.
pub fn list_profile_stem() -> (stem: &'static str)
    ensures
        stem@ == "busqueda_ccoo_profile_"@,
{
    "busqueda_ccoo_profile_"
}

/// The name of the profile directory of a run that began `nanos`
/// nanoseconds after the epoch.
pub fn profile_name(stem: &str, nanos: u128) -> (name: String)
    ensures
        name@ == spec_profile_name(stem@, nanos as nat),
{
    let digits = decimal(nanos);
    String::from_str(stem).concat(digits.as_str())
}

/// The switches with which the browser is started: no greetings and no
/// offers, no restoring of an earlier session, the portal's language, and
/// downloads from the portal without questions.
pub open spec fn spec_launch_flags() -> Seq<Seq<char>> {
    seq![
        "--no-first-run"@,
        "--no-default-browser-check"@,
        "--disable-session-crashed-bubble"@,
        "--disable-infobars"@,
        "--disable-restore-session-state"@,
        "--disable-background-networking"@,
        "--hide-crash-restore-bubble"@,
        "--lang=es-419"@,
        "--disable-features=Translate,TranslateUI,DownloadBubble,DownloadBubbleV2,IsolateOrigins,site-per-process,BlockInsecurePrivateNetworkRequests"@,
        "--safebrowsing-disable-download-protection"@,
        "--disable-web-security"@,
        "--allow-running-insecure-content"@,
        "--disable-site-isolation-trials"@,
        "--unsafely-treat-insecure-origin-as-secure=http://euc.gcba.gob.ar"@,
        "--ignore-certificate-errors"@,
        "--disable-popup-blocking"@,
    ]
}

/// The switches with which the browser is started.
pub fn launch_flags() -> (flags: Vec<&'static str>)
    ensures
        flags@.len() == spec_launch_flags().len(),
        forall|i: int| 0 <= i < flags@.len() ==> (#[trigger] flags@[i])@ == spec_launch_flags()[i],
{
    vec![
        "--no-first-run",
        "--no-default-browser-check",
        "--disable-session-crashed-bubble",
        "--disable-infobars",
        "--disable-restore-session-state",
        "--disable-background-networking",
        "--hide-crash-restore-bubble",
        "--lang=es-419",
        "--disable-features=Translate,TranslateUI,DownloadBubble,DownloadBubbleV2,IsolateOrigins,site-per-process,BlockInsecurePrivateNetworkRequests",
        "--safebrowsing-disable-download-protection",
        "--disable-web-security",
        "--allow-running-insecure-content",
        "--disable-site-isolation-trials",
        "--unsafely-treat-insecure-origin-as-secure=http://euc.gcba.gob.ar",
        "--ignore-certificate-errors",
        "--disable-popup-blocking",
    ]
}

/// The switch that tells the browser where to put its downloads.
pub fn download_flag(directory: &str) -> (flag: String)
    ensures
        flag@ == "--download.default_directory="@ + directory@,
{
    String::from_str("--download.default_directory=").concat(directory)
}

/// The deletion of a profile: how many attempts are still open, the one
/// under way included.
#[derive(Clone, Copy, Debug, PartialEq, Eq, Structural)]
pub struct Cleanup {
    pub attempts_left: u32,
}

/// What the deletion asks for next, or how it ended.
#[derive(Clone, Copy, Debug, PartialEq, Eq, Structural)]
pub enum CleanupMove {
    Continue { step: Step },
    Finished { removed: bool },
}

/// The state in which a deletion starts.
pub open spec fn spec_initial() -> Cleanup {
    Cleanup { attempts_left: REMOVAL_ATTEMPTS }
}

/// The step with which a deletion starts.
pub open spec fn spec_first_step() -> Step {
    spec_after(RELEASE_MS, Command::RemoveProfile)
}

/// The deletion's transition: the state after `reply` and the next move.
pub open spec fn spec_advance(c: Cleanup, reply: Reply) -> (Cleanup, CleanupMove) {
    if c.attempts_left == 0 {
        (c, CleanupMove::Finished { removed: false })
    } else if spec_succeeded(reply) {
        (Cleanup { attempts_left: 0 }, CleanupMove::Finished { removed: true })
    } else if c.attempts_left == 1 {
        (Cleanup { attempts_left: 0 }, CleanupMove::Finished { removed: false })
    } else {
        (
            Cleanup { attempts_left: (c.attempts_left - 1) as u32 },
            CleanupMove::Continue { step: spec_after(REMOVAL_BACKOFF_MS, Command::RemoveProfile) },
        )
    }
}

impl Cleanup {
    /// A deletion in its initial state, with the step that makes the first
    /// attempt.
    pub fn start() -> (begun: (Cleanup, Step))
        ensures
            begun.0 == spec_initial(),
            begun.1 == spec_first_step(),
    {
        (Cleanup { attempts_left: REMOVAL_ATTEMPTS }, after(RELEASE_MS, Command::RemoveProfile))
    }

    /// Takes in the reply to an attempt. A failed attempt is followed by
    /// another, after a pause, as long as attempts are open.
    pub fn advance(&mut self, reply: Reply) -> (next: CleanupMove)
        ensures
            (*final(self), next) == spec_advance(*old(self), reply),
    {
        if self.attempts_left == 0 {
            CleanupMove::Finished { removed: false }
        } else if succeeded(reply) {
            self.attempts_left = 0;
            CleanupMove::Finished { removed: true }
        } else if self.attempts_left == 1 {
            self.attempts_left = 0;
            CleanupMove::Finished { removed: false }
        } else {
            self.attempts_left = self.attempts_left - 1;
            CleanupMove::Continue { step: after(REMOVAL_BACKOFF_MS, Command::RemoveProfile) }
        }
    }
}

/// How many further attempts a deletion that starts from `c` asks for while
/// it takes in `replies`.
pub open spec fn spec_retries(c: Cleanup, replies: Seq<Reply>) -> nat
    decreases replies.len(),
{
    if replies.len() == 0 {
        0
    } else {
        let (d, next) = spec_advance(c, replies[0]);
        (if next is Continue {
            1nat
        } else {
            0nat
        }) + spec_retries(d, replies.drop_first())
    }
}

/// Whatever the replies, a deletion asks for fewer further attempts than it
/// has attempts open.
pub proof fn lemma_retries_bounded(c: Cleanup, replies: Seq<Reply>)
    ensures
        spec_retries(c, replies) + 1 <= c.attempts_left || spec_retries(c, replies) == 0,
    decreases replies.len(),
{
    if replies.len() > 0 {
        lemma_retries_bounded(spec_advance(c, replies[0]).0, replies.drop_first());
    }
}

/// A deletion makes at most `REMOVAL_ATTEMPTS` attempts in all, the first
/// one included.
pub proof fn lemma_attempts_bounded(replies: Seq<Reply>)
    ensures
        1 + spec_retries(spec_initial(), replies) <= REMOVAL_ATTEMPTS,
{
    lemma_retries_bounded(spec_initial(), replies);
}

} // verus!
