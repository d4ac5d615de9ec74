//! Session controller.
//!
//! Brings the portal from an unknown state to a fresh sign-in. The sign-in
//! form is probed first. Where it is missing, a session is taken to be open:
//! the controller signs out, enters the portal again and probes once more.
//! It never signs out twice. A form that is still missing after that means
//! that the portal no longer looks as expected, and the controller gives up.

use vstd::prelude::*;
use crate::config::Credenciales;
use crate::portal::{LOGIN_FIELDS, PASSWORD_FIELD, SIGN_OUT, SUBMIT, USERNAME_FIELD};
use crate::remote::{
    after, count, plain, spec_after, spec_count, spec_plain, spec_succeeded, spec_told, succeeded,
    told, Command, CredentialField, Message, Reply, Selector, Step,
};

verus! {

/// Pause after the portal was entered or left, in milliseconds.
pub const SETTLE_MS: u64 = 2000;

/// Why a sign-in could not be brought about.
#[derive(Clone, Copy, Debug, PartialEq, Eq, Structural)]
pub enum SessionError {
    /// The sign-in form is missing although no session could be closed, or
    /// is still missing after the session was closed.
    Authentication,
    /// The browser could not carry out a command.
    Remote,
}

/// Where the controller stands: which command it waits on, or how it ended.
#[derive(Clone, Copy, Debug, PartialEq, Eq, Structural)]
pub enum Phase {
    Entering,
    Probing,
    SeekingSignOut,
    SigningOut,
    Reentering,
    Reprobing,
    TypingUsername,
    TypingPassword,
    SeekingSubmit,
    Submitting,
    Authenticated,
    Rejected { error: SessionError },
}

/// The controller's state. `signed_out` records that the one sign-out that
/// the controller allows itself has been spent.
#[derive(Clone, Copy, Debug, PartialEq, Eq, Structural)]
pub struct Session {
    pub phase: Phase,
    pub signed_out: bool,
}

/// What the controller asks for next, or how it ended.
#[derive(Clone, Copy, Debug, PartialEq, Eq, Structural)]
pub enum SessionMove {
    Continue { step: Step },
    Authenticated,
    Failed { error: SessionError },
}

/// The state in which a controller starts, waiting on the first navigation.
pub open spec fn spec_initial() -> Session {
    Session { phase: Phase::Entering, signed_out: false }
}

/// The step with which a controller starts.
pub open spec fn spec_first_step() -> Step {
    spec_told(0, Message::NavigatingToPortal, Command::Navigate)
}

pub open spec fn spec_reject(s: Session, error: SessionError) -> (Session, SessionMove) {
    (
        Session { phase: Phase::Rejected { error }, signed_out: s.signed_out },
        SessionMove::Failed { error },
    )
}

pub open spec fn spec_go(s: Session, phase: Phase, step: Step) -> (Session, SessionMove) {
    (Session { phase, signed_out: s.signed_out }, SessionMove::Continue { step })
}

/// The step that begins to fill in the sign-in form.
pub open spec fn spec_fill_username() -> Step {
    spec_told(
        0,
        Message::EnteringCredentials,
        Command::Fill {
            selector: Selector::FormTextBox,
            index: USERNAME_FIELD,
            field: CredentialField::Username,
        },
    )
}

/// The controller's transition: the state after `reply` and the next move.
pub open spec fn spec_advance(s: Session, reply: Reply) -> (Session, SessionMove) {
    match s.phase {
        Phase::Entering => if spec_succeeded(reply) {
            spec_go(
                s,
                Phase::Probing,
                spec_told(
                    SETTLE_MS,
                    Message::SigningIn,
                    Command::Probe { selector: Selector::FormTextBox },
                ),
            )
        } else {
            spec_reject(s, SessionError::Remote)
        },
        Phase::Probing => match spec_count(reply) {
            Some(found) => if found >= LOGIN_FIELDS {
                spec_go(s, Phase::TypingUsername, spec_fill_username())
            } else {
                spec_go(
                    s,
                    Phase::SeekingSignOut,
                    spec_told(
                        0,
                        Message::ExistingSession,
                        Command::Probe { selector: Selector::SignOut },
                    ),
                )
            },
            None => spec_reject(s, SessionError::Remote),
        },
        Phase::SeekingSignOut => match spec_count(reply) {
            Some(found) => if found > SIGN_OUT {
                (
                    Session { phase: Phase::SigningOut, signed_out: true },
                    SessionMove::Continue {
                        step: spec_plain(
                            Command::Click { selector: Selector::SignOut, index: SIGN_OUT },
                        ),
                    },
                )
            } else {
                spec_reject(s, SessionError::Authentication)
            },
            None => spec_reject(s, SessionError::Remote),
        },
        Phase::SigningOut => if spec_succeeded(reply) {
            spec_go(
                s,
                Phase::Reentering,
                spec_told(SETTLE_MS, Message::NavigatingAgain, Command::Navigate),
            )
        } else {
            spec_reject(s, SessionError::Remote)
        },
        Phase::Reentering => if spec_succeeded(reply) {
            spec_go(
                s,
                Phase::Reprobing,
                spec_after(SETTLE_MS, Command::Probe { selector: Selector::FormTextBox }),
            )
        } else {
            spec_reject(s, SessionError::Remote)
        },
        Phase::Reprobing => match spec_count(reply) {
            Some(found) => if found >= LOGIN_FIELDS {
                spec_go(s, Phase::TypingUsername, spec_fill_username())
            } else {
                spec_reject(s, SessionError::Authentication)
            },
            None => spec_reject(s, SessionError::Remote),
        },
        Phase::TypingUsername => if spec_succeeded(reply) {
            spec_go(
                s,
                Phase::TypingPassword,
                spec_plain(
                    Command::Fill {
                        selector: Selector::FormTextBox,
                        index: PASSWORD_FIELD,
                        field: CredentialField::Password,
                    },
                ),
            )
        } else {
            spec_reject(s, SessionError::Remote)
        },
        Phase::TypingPassword => if spec_succeeded(reply) {
            spec_go(
                s,
                Phase::SeekingSubmit,
                spec_plain(Command::Probe { selector: Selector::SubmitButton }),
            )
        } else {
            spec_reject(s, SessionError::Remote)
        },
        Phase::SeekingSubmit => match spec_count(reply) {
            Some(found) => if found > SUBMIT {
                spec_go(
                    s,
                    Phase::Submitting,
                    spec_plain(Command::Click { selector: Selector::SubmitButton, index: SUBMIT }),
                )
            } else {
                spec_reject(s, SessionError::Remote)
            },
            None => spec_reject(s, SessionError::Remote),
        },
        Phase::Submitting => if spec_succeeded(reply) {
            (
                Session { phase: Phase::Authenticated, signed_out: s.signed_out },
                SessionMove::Authenticated,
            )
        } else {
            spec_reject(s, SessionError::Remote)
        },
        Phase::Authenticated => (s, SessionMove::Authenticated),
        Phase::Rejected { error } => (s, SessionMove::Failed { error }),
    }
}

impl Session {
    /// A controller in its initial state, with the step that enters the
    /// portal.
    pub fn start() -> (begun: (Session, Step))
        ensures
            begun.0 == spec_initial(),
            begun.1 == spec_first_step(),
    {
        (
            Session { phase: Phase::Entering, signed_out: false },
            told(0, Message::NavigatingToPortal, Command::Navigate),
        )
    }

    fn reject(&mut self, error: SessionError) -> (next: SessionMove)
        ensures
            (*final(self), next) == spec_reject(*old(self), error),
    {
        self.phase = Phase::Rejected { error };
        SessionMove::Failed { error }
    }

    fn go(&mut self, phase: Phase, step: Step) -> (next: SessionMove)
        ensures
            (*final(self), next) == spec_go(*old(self), phase, step),
    {
        self.phase = phase;
        SessionMove::Continue { step }
    }

    fn fill_username() -> (step: Step)
        ensures
            step == spec_fill_username(),
    {
        told(
            0,
            Message::EnteringCredentials,
            Command::Fill {
                selector: Selector::FormTextBox,
                index: USERNAME_FIELD,
                field: CredentialField::Username,
            },
        )
    }

    /// Takes in the reply to the command that the controller last asked for
    /// and says what to do next. Once the controller has ended, it repeats
    /// how it ended whatever the reply.
    pub fn advance(&mut self, reply: Reply) -> (next: SessionMove)
        ensures
            (*final(self), next) == spec_advance(*old(self), reply),
    {
        match self.phase {
            Phase::Entering => {
                if succeeded(reply) {
                    self.go(
                        Phase::Probing,
                        told(
                            SETTLE_MS,
                            Message::SigningIn,
                            Command::Probe { selector: Selector::FormTextBox },
                        ),
                    )
                } else {
                    self.reject(SessionError::Remote)
                }
            },
            Phase::Probing => match count(reply) {
                Some(found) => {
                    if found >= LOGIN_FIELDS {
                        self.go(Phase::TypingUsername, Self::fill_username())
                    } else {
                        self.go(
                            Phase::SeekingSignOut,
                            told(
                                0,
                                Message::ExistingSession,
                                Command::Probe { selector: Selector::SignOut },
                            ),
                        )
                    }
                },
                None => self.reject(SessionError::Remote),
            },
            Phase::SeekingSignOut => match count(reply) {
                Some(found) => {
                    if found > SIGN_OUT {
                        self.phase = Phase::SigningOut;
                        self.signed_out = true;
                        SessionMove::Continue {
                            step: plain(
                                Command::Click { selector: Selector::SignOut, index: SIGN_OUT },
                            ),
                        }
                    } else {
                        self.reject(SessionError::Authentication)
                    }
                },
                None => self.reject(SessionError::Remote),
            },
            Phase::SigningOut => {
                if succeeded(reply) {
                    self.go(
                        Phase::Reentering,
                        told(SETTLE_MS, Message::NavigatingAgain, Command::Navigate),
                    )
                } else {
                    self.reject(SessionError::Remote)
                }
            },
            Phase::Reentering => {
                if succeeded(reply) {
                    self.go(
                        Phase::Reprobing,
                        after(SETTLE_MS, Command::Probe { selector: Selector::FormTextBox }),
                    )
                } else {
                    self.reject(SessionError::Remote)
                }
            },
            Phase::Reprobing => match count(reply) {
                Some(found) => {
                    if found >= LOGIN_FIELDS {
                        self.go(Phase::TypingUsername, Self::fill_username())
                    } else {
                        self.reject(SessionError::Authentication)
                    }
                },
                None => self.reject(SessionError::Remote),
            },
            Phase::TypingUsername => {
                if succeeded(reply) {
                    self.go(
                        Phase::TypingPassword,
                        plain(
                            Command::Fill {
                                selector: Selector::FormTextBox,
                                index: PASSWORD_FIELD,
                                field: CredentialField::Password,
                            },
                        ),
                    )
                } else {
                    self.reject(SessionError::Remote)
                }
            },
            Phase::TypingPassword => {
                if succeeded(reply) {
                    self.go(
                        Phase::SeekingSubmit,
                        plain(Command::Probe { selector: Selector::SubmitButton }),
                    )
                } else {
                    self.reject(SessionError::Remote)
                }
            },
            Phase::SeekingSubmit => match count(reply) {
                Some(found) => {
                    if found > SUBMIT {
                        self.go(
                            Phase::Submitting,
                            plain(
                                Command::Click { selector: Selector::SubmitButton, index: SUBMIT },
                            ),
                        )
                    } else {
                        self.reject(SessionError::Remote)
                    }
                },
                None => self.reject(SessionError::Remote),
            },
            Phase::Submitting => {
                if succeeded(reply) {
                    self.phase = Phase::Authenticated;
                    SessionMove::Authenticated
                } else {
                    self.reject(SessionError::Remote)
                }
            },
            Phase::Authenticated => SessionMove::Authenticated,
            Phase::Rejected { error } => SessionMove::Failed { error },
        }
    }
}

/// The text to type into a field of the sign-in form: the account's name
/// or its password.
pub fn credential(credenciales: &Credenciales, field: CredentialField) -> (text: &String)
    ensures
        *text == (match field {
            CredentialField::Username => credenciales.usuario,
            CredentialField::Password => credenciales.password,
        }),
{
    match field {
        CredentialField::Username => &credenciales.usuario,
        CredentialField::Password => &credenciales.password,
    }
}

/// Whether a move asks for a click on the sign-out control.
pub open spec fn spec_is_sign_out(next: SessionMove) -> bool {
    next == (SessionMove::Continue {
        step: spec_plain(Command::Click { selector: Selector::SignOut, index: SIGN_OUT }),
    })
}

/// The state that a controller is in after it has taken in `replies`, one
/// after the other, starting from `s`.
pub open spec fn spec_run(s: Session, replies: Seq<Reply>) -> Session
    decreases replies.len(),
{
    if replies.len() == 0 {
        s
    } else {
        spec_run(spec_advance(s, replies[0]).0, replies.drop_first())
    }
}

/// How often a controller that starts from `s` asks for a sign-out while it
/// takes in `replies`.
pub open spec fn spec_sign_outs(s: Session, replies: Seq<Reply>) -> nat
    decreases replies.len(),
{
    if replies.len() == 0 {
        0
    } else {
        let (t, next) = spec_advance(s, replies[0]);
        (if spec_is_sign_out(next) {
            1nat
        } else {
            0nat
        }) + spec_sign_outs(t, replies.drop_first())
    }
}

/// Phases that lie behind the sign-out: none of them leads back to it.
pub open spec fn spec_past_sign_out(phase: Phase) -> bool {
    !(phase is Entering || phase is Probing || phase is SeekingSignOut)
}

/// A controller that is past the point of signing out never asks for a
/// sign-out again, whatever the replies.
pub proof fn lemma_no_sign_out_afterwards(s: Session, replies: Seq<Reply>)
    requires
        spec_past_sign_out(s.phase),
    ensures
        spec_sign_outs(s, replies) == 0,
        spec_past_sign_out(spec_run(s, replies).phase),
    decreases replies.len(),
{
    if replies.len() > 0 {
        lemma_no_sign_out_afterwards(spec_advance(s, replies[0]).0, replies.drop_first());
    }
}

/// Whatever the replies, a controller signs out at most once.
pub proof fn lemma_signs_out_at_most_once(s: Session, replies: Seq<Reply>)
    ensures
        spec_sign_outs(s, replies) <= 1,
    decreases replies.len(),
{
    if replies.len() > 0 {
        let (t, next) = spec_advance(s, replies[0]);
        if spec_is_sign_out(next) || spec_past_sign_out(s.phase) {
            lemma_no_sign_out_afterwards(t, replies.drop_first());
        } else {
            lemma_signs_out_at_most_once(t, replies.drop_first());
        }
    }
}

/// A controller that finds the portal already signed in (the sign-in form
/// shows fewer fields than it needs, and a sign-out control is there) goes
/// through exactly one cycle of signing out and probing again, and then
/// either fills in the form or fails for want of it.
pub proof fn lemma_open_session_retries_once(fields: usize, controls: usize, replies: Seq<Reply>)
    requires
        fields < LOGIN_FIELDS,
        controls > SIGN_OUT,
        replies.len() >= 3,
        replies[0] == Reply::Done,
        replies[1] == (Reply::Count { found: fields }),
        replies[2] == (Reply::Count { found: controls }),
    ensures
        spec_sign_outs(spec_initial(), replies) == 1,
        spec_run(spec_initial(), replies).signed_out,
        spec_past_sign_out(spec_run(spec_initial(), replies).phase),
{
    let s1 = spec_advance(spec_initial(), replies[0]).0;
    let r1 = replies.drop_first();
    let s2 = spec_advance(s1, r1[0]).0;
    let r2 = r1.drop_first();
    let (s3, next) = spec_advance(s2, r2[0]);
    let r3 = r2.drop_first();
    assert(s1.phase is Probing);
    assert(s2.phase is SeekingSignOut);
    assert(s3.phase is SigningOut && s3.signed_out);
    assert(spec_is_sign_out(next));
    lemma_no_sign_out_afterwards(s3, r3);
    lemma_sign_out_is_kept(s3, r3);
    assert(spec_run(spec_initial(), replies) == spec_run(s1, r1));
    assert(spec_run(s1, r1) == spec_run(s2, r2));
    assert(spec_run(s2, r2) == spec_run(s3, r3));
    assert(spec_sign_outs(spec_initial(), replies) == spec_sign_outs(s1, r1));
    assert(spec_sign_outs(s1, r1) == spec_sign_outs(s2, r2));
    assert(spec_sign_outs(s2, r2) == 1 + spec_sign_outs(s3, r3));
}

/// A sign-out that was spent stays spent.
pub proof fn lemma_sign_out_is_kept(s: Session, replies: Seq<Reply>)
    requires
        s.signed_out,
    ensures
        spec_run(s, replies).signed_out,
    decreases replies.len(),
{
    if replies.len() > 0 {
        lemma_sign_out_is_kept(spec_advance(s, replies[0]).0, replies.drop_first());
    }
}

/// After the second probe the controller has decided: with the form it goes
/// on to fill it in, without it it fails with an authentication error.
pub proof fn lemma_second_probe_decides(signed_out: bool, fields: usize)
    ensures
        ({
            let s = Session { phase: Phase::Reprobing, signed_out };
            let (t, next) = spec_advance(s, Reply::Count { found: fields });
            if fields >= LOGIN_FIELDS {
                t.phase is TypingUsername && next == (SessionMove::Continue {
                    step: spec_fill_username(),
                })
            } else {
                next == (SessionMove::Failed { error: SessionError::Authentication })
            }
        }),
{
}

/// Commands that a controller in the given phase can still ask for at most.
pub open spec fn spec_steps_left(phase: Phase) -> nat {
    match phase {
        Phase::Entering => 10,
        Phase::Probing => 9,
        Phase::SeekingSignOut => 8,
        Phase::SigningOut => 7,
        Phase::Reentering => 6,
        Phase::Reprobing => 5,
        Phase::TypingUsername => 4,
        Phase::TypingPassword => 3,
        Phase::SeekingSubmit => 2,
        Phase::Submitting => 1,
        Phase::Authenticated => 0,
        Phase::Rejected { .. } => 0,
    }
}

/// Every reply brings a controller that has not ended closer to its end.
pub proof fn lemma_each_reply_brings_the_end_closer(s: Session, reply: Reply)
    ensures
        spec_steps_left(s.phase) > 0 ==> spec_steps_left(spec_advance(s, reply).0.phase)
            < spec_steps_left(s.phase),
        spec_steps_left(s.phase) == 0 ==> spec_advance(s, reply).0 == s,
{
}

/// A controller never waits on the browser without end: whatever the
/// replies, after as many of them as it had commands left it has ended,
/// signed in or rejected.
pub proof fn lemma_controller_ends(s: Session, replies: Seq<Reply>)
    requires
        replies.len() >= spec_steps_left(s.phase),
    ensures
        spec_steps_left(spec_run(s, replies).phase) == 0,
    decreases replies.len(),
{
    if replies.len() > 0 {
        lemma_each_reply_brings_the_end_closer(s, replies[0]);
        lemma_controller_ends(spec_advance(s, replies[0]).0, replies.drop_first());
    }
}

} // verus!
