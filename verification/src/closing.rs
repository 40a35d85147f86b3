//! The two shutdown sequences.
//!
//! Both give the user interface a grace period to finish its own work (to
//! revoke a session, say) before it loses its execution context. Both start
//! with the same notification, [`CLOSE_EVENT`]. They differ in what follows:
//!
//! * A close that the interface asks for itself ([`handle_app_close`]) fails
//!   when the notification cannot be delivered. Otherwise it holds its caller
//!   for [`MANUAL_CLOSE_DELAY_MS`] and reports success. It does not end the
//!   process.
//! * A close that the window system asks for is intercepted
//!   ([`CloseInterceptor`]): the window stays open, the interface is notified,
//!   and after [`FORCED_EXIT_DELAY_MS`] the process exits with
//!   [`FORCED_EXIT_CODE`], whether or not the interface has answered.
//!
//! Nothing here sends, sleeps or exits. The functions decide; the host
//! carries out what they return and reports back what happened.

use vstd::prelude::*;

verus! {

/// Name of the notification that tells the user interface that the
/// application is about to close. It carries no payload.
pub const CLOSE_EVENT: &'static str = "app-closing";

/// Label of the window whose close requests are intercepted.
pub const MAIN_WINDOW: &'static str = "main";

/// Grace period, in milliseconds, of a close that the user interface asked
/// for.
pub const MANUAL_CLOSE_DELAY_MS: u64 = 500;

/// Grace period, in milliseconds, between an intercepted close request and
/// the forced exit.
pub const FORCED_EXIT_DELAY_MS: u64 = 800;

/// Exit code of the forced exit.
pub const FORCED_EXIT_CODE: i32 = 0;

/// Whether `c` is an ASCII letter or digit, or one of `-`, `/`, `:` and `_`.
pub open spec fn is_plain_name_char(c: char) -> bool {
    ||| 'a' <= c <= 'z'
    ||| 'A' <= c <= 'Z'
    ||| '0' <= c <= '9'
    ||| c == '-'
    ||| c == '/'
    ||| c == ':'
    ||| c == '_'
}

/// Whether `name` is made of plain characters only. The notification channel
/// turns a name down if one of its characters is neither alphanumeric nor one
/// of `-`, `/`, `:` and `_`, so it takes every plain name.
pub open spec fn is_plain_name(name: Seq<char>) -> bool {
    forall|i: int| 0 <= i < name.len() ==> is_plain_name_char(#[trigger] name[i])
}

/// The close notification has a plain name: the channel never turns it down
/// for its name, and a broadcast of it can fail on delivery only.
pub proof fn lemma_close_event_has_plain_name()
    ensures
        is_plain_name(CLOSE_EVENT@),
{
    reveal_strlit("app-closing");
}

/// What follows the broadcast of [`CLOSE_EVENT`] in a close that the user
/// interface asked for.
///
/// `broadcast` is the outcome of the broadcast, its error put into words.
/// Where the notification went out, the result is the number of milliseconds
/// for which the caller is to be held before success is reported to it. Where
/// it did not, the result is the error as it came, and there is nothing to
/// wait for.
pub fn handle_app_close(broadcast: Result<(), String>) -> (outcome: Result<u64, String>)
    ensures
        broadcast is Ok ==> outcome == Ok::<u64, String>(MANUAL_CLOSE_DELAY_MS),
        broadcast matches Err(message) ==> outcome == Err::<u64, String>(message),
{
    match broadcast {
        Ok(_) => Ok(MANUAL_CLOSE_DELAY_MS),
        Err(message) => Err(message),
    }
}

/// Where the interception of close requests stands.
#[derive(Clone, Copy, PartialEq, Eq, Structural, Debug)]
pub enum CloseState {
    /// No close request has come yet.
    Open,
    /// A close request was intercepted and the grace period runs.
    Closing,
    /// The process was told to exit.
    Terminated,
}

/// What the host reports to the interceptor.
#[derive(Clone, Copy, PartialEq, Eq, Structural, Debug)]
pub enum CloseTrigger {
    /// The window system asks for the main window to be closed.
    CloseRequested,
    /// The main window had any other event.
    OtherWindowEvent,
    /// A grace period that an [`CloseAction::Intercept`] started has run out.
    GraceElapsed,
}

/// What the host is to do in answer to a trigger.
#[derive(Clone, Copy, PartialEq, Eq, Structural, Debug)]
pub enum CloseAction {
    /// Nothing: the event takes its default course.
    Nothing,
    /// Keep the window open. Then, without holding up the delivery of further
    /// events, broadcast [`CLOSE_EVENT`], let `grace_ms` milliseconds pass and
    /// report [`CloseTrigger::GraceElapsed`]. Whether the broadcast went out
    /// is not reported back: the sequence goes on either way.
    Intercept { grace_ms: u64 },
    /// End the process with this exit code.
    Exit { code: i32 },
}

/// The state that follows `state` on `trigger`.
pub open spec fn next_state(state: CloseState, trigger: CloseTrigger) -> CloseState {
    match (state, trigger) {
        (CloseState::Open, CloseTrigger::CloseRequested) => CloseState::Closing,
        (CloseState::Closing, CloseTrigger::GraceElapsed) => CloseState::Terminated,
        _ => state,
    }
}

/// The action that `trigger` calls for in `state`.
pub open spec fn action_on(state: CloseState, trigger: CloseTrigger) -> CloseAction {
    match (state, trigger) {
        (CloseState::Open, CloseTrigger::CloseRequested)
        | (CloseState::Closing, CloseTrigger::CloseRequested) => CloseAction::Intercept {
            grace_ms: FORCED_EXIT_DELAY_MS,
        },
        (CloseState::Closing, CloseTrigger::GraceElapsed) => CloseAction::Exit {
            code: FORCED_EXIT_CODE,
        },
        _ => CloseAction::Nothing,
    }
}

/// The state that follows `state` on `triggers`, taken in order.
pub open spec fn state_after(state: CloseState, triggers: Seq<CloseTrigger>) -> CloseState
    decreases triggers.len(),
{
    if triggers.len() == 0 {
        state
    } else {
        next_state(state_after(state, triggers.drop_last()), triggers.last())
    }
}

/// Turns the window system's close requests into a shutdown that the
/// application controls.
pub struct CloseInterceptor {
    state: CloseState,
}

impl CloseInterceptor {
    /// Where the interception stands.
    pub closed spec fn state(&self) -> CloseState {
        self.state
    }

    /// The interceptor at process start.
    pub fn new() -> (interceptor: Self)
        ensures
            interceptor.state() == CloseState::Open,
    {
        CloseInterceptor { state: CloseState::Open }
    }

    /// Reads where the interception stands.
    pub fn current_state(&self) -> (state: CloseState)
        ensures
            state == self.state(),
    {
        self.state
    }

    /// Takes one trigger: moves to the state that follows and returns what
    /// the host is to do.
    pub fn handle(&mut self, trigger: CloseTrigger) -> (action: CloseAction)
        ensures
            final(self).state() == next_state(old(self).state(), trigger),
            action == action_on(old(self).state(), trigger),
    {
        match (self.state, trigger) {
            (CloseState::Open, CloseTrigger::CloseRequested) => {
                self.state = CloseState::Closing;
                CloseAction::Intercept { grace_ms: FORCED_EXIT_DELAY_MS }
            },
            (CloseState::Closing, CloseTrigger::CloseRequested) => CloseAction::Intercept {
                grace_ms: FORCED_EXIT_DELAY_MS,
            },
            (CloseState::Closing, CloseTrigger::GraceElapsed) => {
                self.state = CloseState::Terminated;
                CloseAction::Exit { code: FORCED_EXIT_CODE }
            },
            _ => CloseAction::Nothing,
        }
    }
}

/// There is no way back: an interceptor that has left `Open` never returns to
/// it. It is `Open` after a run of triggers exactly if it was `Open` before
/// and none of them was a close request.
pub proof fn lemma_never_reopens(state: CloseState, triggers: Seq<CloseTrigger>)
    ensures
        state_after(state, triggers) is Open <==> state is Open && forall|i: int|
            0 <= i < triggers.len() ==> !(#[trigger] triggers[i] is CloseRequested),
    decreases triggers.len(),
{
    if triggers.len() > 0 {
        let earlier = triggers.drop_last();
        lemma_never_reopens(state, earlier);
        assert(forall|i: int| 0 <= i < earlier.len() ==> earlier[i] == triggers[i]);
    }
}

/// `Terminated` is final: no trigger leads out of it, and none is answered by
/// an action.
pub proof fn lemma_terminated_is_final(triggers: Seq<CloseTrigger>)
    ensures
        state_after(CloseState::Terminated, triggers) == CloseState::Terminated,
        forall|trigger: CloseTrigger|
            #[trigger] action_on(CloseState::Terminated, trigger) == CloseAction::Nothing,
    decreases triggers.len(),
{
    if triggers.len() > 0 {
        lemma_terminated_is_final(triggers.drop_last());
    }
}

/// An intercepted close cannot be called off. Whatever is reported while the
/// grace period runs, the interceptor stays `Closing`; when the grace period
/// has run out the answer is the exit with [`FORCED_EXIT_CODE`], and the
/// interceptor is `Terminated`.
pub proof fn lemma_interception_ends_in_exit(meanwhile: Seq<CloseTrigger>)
    requires
        forall|i: int| 0 <= i < meanwhile.len() ==> !(#[trigger] meanwhile[i] is GraceElapsed),
    ensures
        state_after(CloseState::Closing, meanwhile) == CloseState::Closing,
        action_on(state_after(CloseState::Closing, meanwhile), CloseTrigger::GraceElapsed)
            == (CloseAction::Exit { code: FORCED_EXIT_CODE }),
        state_after(CloseState::Closing, meanwhile.push(CloseTrigger::GraceElapsed))
            == CloseState::Terminated,
    decreases meanwhile.len(),
{
    if meanwhile.len() > 0 {
        let earlier = meanwhile.drop_last();
        lemma_interception_ends_in_exit(earlier);
    }
    assert(meanwhile.push(CloseTrigger::GraceElapsed).drop_last() =~= meanwhile);
}

} // verus!
