//! Vocabulary shared by the state machines that drive the remote browser.
//!
//! A machine never touches the browser. Each of its steps names one command
//! for the caller to perform, and the caller answers with what came of it.

use vstd::prelude::*;

verus! {

/// The classes of page elements that the portal is addressed by. Elements
/// have no stable identity: one is found by its class and by its place among
/// the elements of that class.
#[derive(Clone, Copy, Debug, PartialEq, Eq, Structural)]
pub enum Selector {
    /// Text inputs of the sign-in form.
    FormTextBox,
    /// The sign-out control of the page header.
    SignOut,
    /// The button that submits the sign-in form.
    SubmitButton,
    /// Captions of the tabs of the main view.
    TabCaption,
    /// Borderless buttons of the list views.
    PlainButton,
    /// "Next page" controls of all the paginated lists on the page.
    PagingNext,
    /// The magnifier that opens a communication's detail view.
    DetailIcon,
    /// Download controls of an attachment list.
    DownloadIcon,
    /// Buttons of the detail view.
    ViewButton,
    /// Any text input.
    TextBox,
    /// Any button.
    Button,
}

/// Which of the user's credentials to type into a field.
#[derive(Clone, Copy, Debug, PartialEq, Eq, Structural)]
pub enum CredentialField {
    Username,
    Password,
}

/// Progress and diagnostics that a machine reports on its way.
#[derive(Clone, Copy, Debug, PartialEq, Eq, Structural)]
pub enum Message {
    StartingBrowser,
    NavigatingToPortal,
    SigningIn,
    ExistingSession,
    NavigatingAgain,
    EnteringCredentials,
    OpeningInbox,
    AdvancingToPage { page: u32 },
    /// Item number `item` is being harvested, as number `ordinal` of `total`.
    Downloading { item: u32, ordinal: u32, total: u32 },
    /// The listed item at `position` is being harvested, `number` of `count`.
    DownloadingListed { position: usize, number: usize, count: usize },
    /// The item could not be opened or worked through; it is skipped.
    ItemFailed { item: u32 },
    /// The listed item at `position` could not be worked through.
    ListedItemFailed { position: usize },
    /// The download control at `index` could not be triggered.
    AttachmentFailed { index: usize },
    /// The downloads did not settle within their timeout.
    DownloadsUnconfirmed,
    Finishing,
    ClosingBrowser,
    /// The profile directory could not be removed and is left behind.
    ProfileLeftBehind,
}

/// One thing for the caller to do.
#[derive(Clone, Copy, Debug, PartialEq, Eq, Structural)]
pub enum Command {
    /// Create the disposable browser profile.
    CreateProfile,
    /// Start the browser on that profile and open a blank page.
    Launch,
    /// Load the portal's entry address.
    Navigate,
    /// Count the elements that match a selector.
    Probe { selector: Selector },
    /// Click the element at `index` among those that match `selector`.
    Click { selector: Selector, index: usize },
    /// Click that element and type a credential into it.
    Fill { selector: Selector, index: usize, field: CredentialField },
    /// Put the identifier of the listed item at `position` into the first
    /// text input of the page.
    EnterSearch { position: usize },
    /// Wait until the download directory is stable, for at most the timeout.
    AwaitDownloads { timeout_secs: u64 },
    /// Stop taking in the events that the browser sends.
    Silence,
    /// Close the browser.
    Close,
    /// Try once to delete the profile directory.
    RemoveProfile,
    /// Nothing to perform: the step only pauses or reports.
    Idle,
}

/// What came of a command.
#[derive(Clone, Copy, Debug, PartialEq, Eq, Structural)]
pub enum Reply {
    /// The command was carried out.
    Done,
    /// The command could not be carried out.
    Failed,
    /// Answer to `Probe`: how many elements match.
    Count { found: usize },
    /// Answer to `AwaitDownloads`: whether the directory became stable.
    Downloads { stable: bool },
}

/// A step of a machine: wait `pause_ms`, then report the message if there
/// is one, then perform the command and answer with its reply.
#[derive(Clone, Copy, Debug, PartialEq, Eq, Structural)]
pub struct Step {
    pub pause_ms: u64,
    pub report: Option<Message>,
    pub command: Command,
}

/// The number of elements that a reply reports, if it reports one.
pub open spec fn spec_count(reply: Reply) -> Option<usize> {
    match reply {
        Reply::Count { found } => Some(found),
        _ => None,
    }
}

/// Whether a reply confirms that the command was carried out.
pub open spec fn spec_succeeded(reply: Reply) -> bool {
    reply == Reply::Done
}

/// A step that performs `command` at once and reports nothing.
pub open spec fn spec_plain(command: Command) -> Step {
    Step { pause_ms: 0, report: None, command }
}

/// A step that performs `command` after a pause and reports nothing.
pub open spec fn spec_after(pause_ms: u64, command: Command) -> Step {
    Step { pause_ms, report: None, command }
}

/// A step that pauses, reports `message` and performs `command`.
pub open spec fn spec_told(pause_ms: u64, message: Message, command: Command) -> Step {
    Step { pause_ms, report: Some(message), command }
}

/// Tests whether a reply confirms that the command was carried out.
pub fn succeeded(reply: Reply) -> (ok: bool)
    ensures
        ok == spec_succeeded(reply),
{
    match reply {
        Reply::Done => true,
        _ => false,
    }
}

/// The number of elements that a reply reports, if it reports one.
pub fn count(reply: Reply) -> (found: Option<usize>)
    ensures
        found == spec_count(reply),
{
    match reply {
        Reply::Count { found } => Some(found),
        _ => None,
    }
}

/// A step that performs `command` at once and reports nothing.
pub fn plain(command: Command) -> (step: Step)
    ensures
        step == spec_plain(command),
{
    Step { pause_ms: 0, report: None, command }
}

/// A step that performs `command` after a pause and reports nothing.
pub fn after(pause_ms: u64, command: Command) -> (step: Step)
    ensures
        step == spec_after(pause_ms, command),
{
    Step { pause_ms, report: None, command }
}

/// A step that pauses, reports `message` and performs `command`.
pub fn told(pause_ms: u64, message: Message, command: Command) -> (step: Step)
    ensures
        step == spec_told(pause_ms, message, command),
{
    Step { pause_ms, report: Some(message), command }
}

} // verus!
