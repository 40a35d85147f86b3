//! The pending-logout flag.
//!
//! The shell keeps one boolean for the user interface: whether a logout has
//! to be carried out. The interface sets it, reads it during its start-up and
//! resets it. The flag lives in an [`AppState`] that its owner hands to each
//! operation; every change takes the state by exclusive reference, so two
//! operations never overlap.

use vstd::prelude::*;

verus! {

/// State owned by the shell for the lifetime of the process.
pub struct AppState {
    needs_logout: bool,
}

/// One of the two calls that write the flag.
pub enum FlagCall {
    /// [`mark_logout_required`]
    Mark,
    /// [`clear_logout_flag`]
    Clear,
}

/// The flag after `call`, made on a state whose flag was `before`.
pub open spec fn flag_after(before: bool, call: FlagCall) -> bool {
    match call {
        FlagCall::Mark => true,
        FlagCall::Clear => false,
    }
}

/// The flag after `calls`, made one after the other on a state whose flag was
/// `before`.
pub open spec fn flag_after_calls(before: bool, calls: Seq<FlagCall>) -> bool
    decreases calls.len(),
{
    if calls.len() == 0 {
        before
    } else {
        flag_after(flag_after_calls(before, calls.drop_last()), calls.last())
    }
}

impl AppState {
    /// Whether a logout is pending.
    pub closed spec fn needs_logout(&self) -> bool {
        self.needs_logout
    }

    /// The state at process start: no logout is pending.
    pub fn new() -> (state: Self)
        ensures
            !state.needs_logout(),
    {
        AppState { needs_logout: false }
    }
}

/// Records that a logout has to be carried out.
pub fn mark_logout_required(state: &mut AppState)
    ensures
        final(state).needs_logout() == flag_after(old(state).needs_logout(), FlagCall::Mark),
{
    state.needs_logout = true;
}

/// Records that no logout is pending any more.
pub fn clear_logout_flag(state: &mut AppState)
    ensures
        final(state).needs_logout() == flag_after(old(state).needs_logout(), FlagCall::Clear),
{
    state.needs_logout = false;
}

/// Reads the flag and leaves it as it is.
pub fn check_logout_required(state: &AppState) -> (pending: bool)
    ensures
        pending == state.needs_logout(),
{
    state.needs_logout
}

/// Last write wins: after any non-empty sequence of calls the flag holds what
/// the last call wrote, whatever it held before and whatever the earlier
/// calls were. After no call at all it is unchanged.
pub proof fn lemma_last_call_wins(before: bool, calls: Seq<FlagCall>)
    ensures
        calls.len() == 0 ==> flag_after_calls(before, calls) == before,
        calls.len() > 0 ==> flag_after_calls(before, calls) == (calls.last() is Mark),
{
}

/// A sequence of calls made in two parts gives the same flag as the whole
/// sequence: no call is lost in between.
pub proof fn lemma_calls_compose(before: bool, first: Seq<FlagCall>, second: Seq<FlagCall>)
    ensures
        flag_after_calls(before, first + second) == flag_after_calls(
            flag_after_calls(before, first),
            second,
        ),
    decreases second.len(),
{
    if second.len() == 0 {
        assert(first + second =~= first);
    } else {
        assert((first + second).drop_last() =~= first + second.drop_last());
        lemma_calls_compose(before, first, second.drop_last());
    }
}

/// Each call is idempotent: made twice in a row it leaves the flag as one
/// call does, set after two marks and unset after two clears.
pub proof fn lemma_call_twice(before: bool, call: FlagCall)
    ensures
        flag_after(flag_after(before, call), call) == flag_after(before, call),
        flag_after(flag_after(before, FlagCall::Mark), FlagCall::Mark),
        !flag_after(flag_after(before, FlagCall::Clear), FlagCall::Clear),
{
}

/// No read sees a value that nobody wrote: at every point of a sequence of
/// calls the flag is either still the initial one, with no call made so far,
/// or the value written by one of the calls made up to that point. Calls that
/// several contexts make on a state behind a lock take effect one after the
/// other, in some order; this holds of every order.
pub proof fn lemma_flag_was_written(before: bool, calls: Seq<FlagCall>, made: int)
    requires
        0 <= made <= calls.len(),
    ensures
        ({
            let seen = flag_after_calls(before, calls.take(made));
            ||| made == 0 && seen == before
            ||| exists|i: int| 0 <= i < made && seen == flag_after(before, #[trigger] calls[i])
        }),
{
    if made > 0 {
        assert(calls.take(made).last() == calls[made - 1]);
    }
}

} // verus!
