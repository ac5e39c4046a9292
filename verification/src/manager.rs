//! The connection manager: immutable configuration, and the decisions a pool
//! asks of it. The manager never touches a socket. It says which step comes
//! next, and what to make of each step's outcome.

use crate::error::{unexpected_reply, Error};
use crate::target::{descriptor_target, parse_descriptor, ConnectionTarget, TargetView};
use std::time::Duration;
use vstd::prelude::*;
use vstd::string::StringExecFns;

verus! {

/// An `r2d2`-style connection manager for Redis.
///
/// Its configuration is fixed when it is built: no method changes it.
#[derive(Debug)]
pub struct RedisConnectionManager {
    target: ConnectionTarget,
    timeout: Duration,
}

/// The mathematical value of a manager.
pub struct ManagerView {
    pub target: TargetView,
    pub timeout: Duration,
}

/// How far the making of one connection has come.
#[derive(Debug)]
pub enum ConnectState {
    /// Nothing done yet: the socket is to be opened.
    Opening,
    /// The socket is open: its write timeout is to be set.
    SettingWriteTimeout,
    /// The write timeout is set: the read timeout is to be set.
    SettingReadTimeout,
    /// Both timeouts are set: the connection may be handed out.
    Ready,
    /// A step failed: the connection, if any, is dropped and the error returned.
    Failed(Error),
}

/// The one piece of outside work that a state asks for.
#[derive(Clone, Copy, Debug, PartialEq, Eq)]
pub enum ConnectAction {
    /// Open a fresh connection to the manager's target.
    Open,
    /// Set the write timeout of the connection just opened.
    SetWriteTimeout(Duration),
    /// Set the read timeout of the connection just opened.
    SetReadTimeout(Duration),
}

/// Whether a state asks for no further work.
pub open spec fn is_terminal(state: ConnectState) -> bool {
    state is Ready || state is Failed
}

/// The state that follows `state` once its action has ended with `outcome`.
/// A failure at any step ends the attempt with the client's error; finished
/// attempts stay as they are.
pub open spec fn next_state(state: ConnectState, outcome: Result<(), redis::RedisError>) -> ConnectState {
    match state {
        ConnectState::Ready => ConnectState::Ready,
        ConnectState::Failed(e) => ConnectState::Failed(e),
        _ => match outcome {
            Err(e) => ConnectState::Failed(Error::Other(e)),
            Ok(_) => match state {
                ConnectState::Opening => ConnectState::SettingWriteTimeout,
                ConnectState::SettingWriteTimeout => ConnectState::SettingReadTimeout,
                _ => ConnectState::Ready,
            },
        },
    }
}

/// The action that `state` asks for, under a manager with the given timeout.
pub open spec fn action_for(timeout: Duration, state: ConnectState) -> Option<ConnectAction> {
    match state {
        ConnectState::Opening => Some(ConnectAction::Open),
        ConnectState::SettingWriteTimeout => Some(ConnectAction::SetWriteTimeout(timeout)),
        ConnectState::SettingReadTimeout => Some(ConnectAction::SetReadTimeout(timeout)),
        _ => None,
    }
}

/// The state reached from `state` after the outcomes in `outcomes`, in order.
pub open spec fn run_from(state: ConnectState, outcomes: Seq<Result<(), redis::RedisError>>) -> ConnectState
    decreases outcomes.len(),
{
    if outcomes.len() == 0 {
        state
    } else {
        run_from(next_state(state, outcomes[0]), outcomes.drop_first())
    }
}

/// What building a manager from a descriptor string and a timeout gives:
/// the manager's value, or `None` where the descriptor is rejected.
pub open spec fn construction(descriptor: Seq<char>, timeout: Duration) -> Option<ManagerView> {
    match descriptor_target(descriptor) {
        Some(target) => Some(ManagerView { target, timeout }),
        None => None,
    }
}

impl View for RedisConnectionManager {
    type V = ManagerView;

    closed spec fn view(&self) -> ManagerView {
        ManagerView { target: self.target@, timeout: self.timeout }
    }
}

impl RedisConnectionManager {
    /// Creates a manager from a connection URL and the timeout that every
    /// connection it plans will get, for reads and writes alike.
    ///
    /// Succeeds exactly on the strings that the Redis client accepts as a
    /// descriptor, whatever the timeout. Nothing is contacted.
    pub fn new(params: &str, timeout: Duration) -> (r: Result<RedisConnectionManager, redis::RedisError>)
        ensures
            match r {
                Ok(manager) => construction(params@, timeout) == Some(manager@),
                Err(_) => construction(params@, timeout) is None,
            },
    {
        Self::from_parsed(parse_descriptor(params), timeout)
    }

    /// Creates a manager from a descriptor that has been parsed already:
    /// the target where there is one, the parser's error as it is otherwise.
    pub fn from_parsed(
        parsed: Result<ConnectionTarget, redis::RedisError>,
        timeout: Duration,
    ) -> (r: Result<RedisConnectionManager, redis::RedisError>)
        ensures
            match parsed {
                Ok(target) => r is Ok && r->Ok_0@ == (ManagerView { target: target@, timeout }),
                Err(e) => r == Err::<RedisConnectionManager, redis::RedisError>(e),
            },
    {
        match parsed {
            Ok(target) => Ok(Self::from_target(target, timeout)),
            Err(e) => Err(e),
        }
    }

    /// Creates a manager from a structured descriptor. This cannot fail.
    pub fn from_target(target: ConnectionTarget, timeout: Duration) -> (r: RedisConnectionManager)
        ensures
            r@ == (ManagerView { target: target@, timeout }),
    {
        RedisConnectionManager { target, timeout }
    }

    /// The target that connections are opened to.
    pub fn target(&self) -> (r: &ConnectionTarget)
        ensures
            r@ == self@.target,
    {
        &self.target
    }

    /// The timeout applied to both directions of every connection.
    pub fn timeout(&self) -> (r: Duration)
        ensures
            r == self@.timeout,
    {
        self.timeout
    }

    /// Begins the making of a connection. Every attempt starts from the same
    /// state: the manager remembers nothing of earlier ones.
    pub fn connect(&self) -> (r: ConnectState)
        ensures
            r == ConnectState::Opening,
    {
        ConnectState::Opening
    }

    /// The outside work that `state` is waiting for, or `None` once the
    /// attempt has ended. Both timeouts are the manager's own.
    pub fn pending_action(&self, state: &ConnectState) -> (r: Option<ConnectAction>)
        ensures
            r == action_for(self@.timeout, *state),
    {
        match state {
            ConnectState::Opening => Some(ConnectAction::Open),
            ConnectState::SettingWriteTimeout => Some(ConnectAction::SetWriteTimeout(self.timeout)),
            ConnectState::SettingReadTimeout => Some(ConnectAction::SetReadTimeout(self.timeout)),
            ConnectState::Ready => None,
            ConnectState::Failed(_) => None,
        }
    }

    /// Takes the outcome of the pending action and moves on.
    pub fn advance(&self, state: ConnectState, outcome: Result<(), redis::RedisError>) -> (r: ConnectState)
        ensures
            r == next_state(state, outcome),
    {
        match state {
            ConnectState::Ready => ConnectState::Ready,
            ConnectState::Failed(e) => ConnectState::Failed(e),
            ConnectState::Opening => match outcome {
                Ok(_) => ConnectState::SettingWriteTimeout,
                Err(e) => ConnectState::Failed(Error::Other(e)),
            },
            ConnectState::SettingWriteTimeout => match outcome {
                Ok(_) => ConnectState::SettingReadTimeout,
                Err(e) => ConnectState::Failed(Error::Other(e)),
            },
            ConnectState::SettingReadTimeout => match outcome {
                Ok(_) => ConnectState::Ready,
                Err(e) => ConnectState::Failed(Error::Other(e)),
            },
        }
    }

    /// The command whose round trip probes a connection.
    pub fn probe_command(&self) -> (r: &'static str)
        ensures
            r@ == "PING"@,
    {
        "PING"
    }

    /// Judges a probe by what came back from the round trip. The connection
    /// is valid exactly when the server answered with the expected
    /// acknowledgement, `PONG`. Any other answer is refused with a client
    /// error that carries the answer; a failed round trip is passed on with
    /// the error it failed with.
    pub fn is_valid(&self, reply: Result<String, redis::RedisError>) -> (r: Result<(), Error>)
        ensures
            match reply {
                Ok(text) => (r is Ok <==> text@ == "PONG"@),
                Err(e) => r == Err::<(), Error>(Error::Other(e)),
            },
    {
        match reply {
            Ok(text) => {
                let expected = String::from_str("PONG");
                if text == expected {
                    Ok(())
                } else {
                    Err(Error::Other(unexpected_reply("ping request", text)))
                }
            },
            Err(e) => Err(Error::Other(e)),
        }
    }

    /// Always `false`: a dead connection shows itself only by an error in
    /// use or by a failed probe, never here. The connection is left alone.
    pub fn has_broken<C>(&self, conn: &mut C) -> (r: bool)
        ensures
            !r,
            *final(conn) == *old(conn),
    {
        false
    }
}

/// Whether a descriptor is accepted does not depend on the timeout: a
/// descriptor that names a target builds a manager with every timeout, and
/// the manager holds that target and exactly the timeout given; one that
/// names none builds a manager with no timeout at all.
pub proof fn lemma_construction_depends_on_descriptor_alone(
    descriptor: Seq<char>,
    timeout: Duration,
    other_timeout: Duration,
)
    ensures
        construction(descriptor, timeout) is Some <==> descriptor_target(descriptor) is Some,
        construction(descriptor, timeout) is Some <==> construction(descriptor, other_timeout) is Some,
        construction(descriptor, timeout) is Some ==> {
            &&& construction(descriptor, timeout)->Some_0.timeout == timeout
            &&& construction(descriptor, timeout)->Some_0.target == descriptor_target(descriptor)->Some_0
            &&& construction(descriptor, other_timeout)->Some_0.target
                == construction(descriptor, timeout)->Some_0.target
        },
{
}

/// An attempt that has ended stays as it ended, whatever is reported to it
/// afterwards: a failure is never turned into a connection, nor a finished
/// connection into a failure.
pub proof fn lemma_finished_attempt_stays(state: ConnectState, outcomes: Seq<Result<(), redis::RedisError>>)
    requires
        is_terminal(state),
    ensures
        run_from(state, outcomes) == state,
    decreases outcomes.len(),
{
    if outcomes.len() > 0 {
        lemma_finished_attempt_stays(next_state(state, outcomes[0]), outcomes.drop_first());
    }
}

/// A connection is handed out exactly when all three steps succeeded, in
/// order: opening, setting the write timeout, setting the read timeout.
pub proof fn lemma_ready_iff_every_step_succeeded(outcomes: Seq<Result<(), redis::RedisError>>)
    ensures
        run_from(ConnectState::Opening, outcomes) is Ready <==> {
            &&& outcomes.len() >= 3
            &&& outcomes[0] is Ok
            &&& outcomes[1] is Ok
            &&& outcomes[2] is Ok
        },
{
    lemma_run_prefix(outcomes);
}

/// The first step that fails ends the attempt, and the attempt returns that
/// step's error, wrapped and otherwise untouched.
pub proof fn lemma_first_failure_is_returned(outcomes: Seq<Result<(), redis::RedisError>>, failed: int)
    requires
        0 <= failed < outcomes.len(),
        failed < 3,
        outcomes[failed] is Err,
        forall|earlier: int| 0 <= earlier < failed ==> (#[trigger] outcomes[earlier]) is Ok,
    ensures
        run_from(ConnectState::Opening, outcomes) == ConnectState::Failed(
            Error::Other(outcomes[failed]->Err_0),
        ),
{
    lemma_run_prefix(outcomes);
    if failed >= 1 {
        assert(outcomes[0] is Ok);
    }
    if failed >= 2 {
        assert(outcomes[1] is Ok);
    }
}

/// Along an attempt in which nothing fails, the manager asks for the three
/// steps in order, both timeouts it asks for are the one it was built with,
/// and after the third step it asks for nothing more.
pub proof fn lemma_steps_carry_the_configured_timeout(timeout: Duration)
    ensures
        ({
            let done = Ok::<(), redis::RedisError>(());
            let first = ConnectState::Opening;
            let second = next_state(first, done);
            let third = next_state(second, done);
            let last = next_state(third, done);
            &&& action_for(timeout, first) == Some(ConnectAction::Open)
            &&& action_for(timeout, second) == Some(ConnectAction::SetWriteTimeout(timeout))
            &&& action_for(timeout, third) == Some(ConnectAction::SetReadTimeout(timeout))
            &&& action_for(timeout, last) is None
            &&& last is Ready
        }),
{
}

/// A state asks for work exactly as long as the attempt has not ended.
pub proof fn lemma_action_pending_until_finished(timeout: Duration, state: ConnectState)
    ensures
        action_for(timeout, state) is None <==> is_terminal(state),
{
}

/// What an attempt has come to after up to three outcomes, and that later
/// outcomes change nothing.
proof fn lemma_run_prefix(outcomes: Seq<Result<(), redis::RedisError>>)
    ensures
        outcomes.len() == 0 ==> run_from(ConnectState::Opening, outcomes) == ConnectState::Opening,
        outcomes.len() == 1 ==> run_from(ConnectState::Opening, outcomes) == next_state(
            ConnectState::Opening,
            outcomes[0],
        ),
        outcomes.len() == 2 ==> run_from(ConnectState::Opening, outcomes) == next_state(
            next_state(ConnectState::Opening, outcomes[0]),
            outcomes[1],
        ),
        outcomes.len() >= 3 ==> run_from(ConnectState::Opening, outcomes) == next_state(
            next_state(next_state(ConnectState::Opening, outcomes[0]), outcomes[1]),
            outcomes[2],
        ),
{
    let s0 = ConnectState::Opening;
    if outcomes.len() >= 1 {
        let rest1 = outcomes.drop_first();
        let s1 = next_state(s0, outcomes[0]);
        assert(run_from(s0, outcomes) == run_from(s1, rest1));
        if outcomes.len() >= 2 {
            let rest2 = rest1.drop_first();
            let s2 = next_state(s1, rest1[0]);
            assert(rest1[0] == outcomes[1]);
            assert(run_from(s1, rest1) == run_from(s2, rest2));
            if outcomes.len() >= 3 {
                let rest3 = rest2.drop_first();
                let s3 = next_state(s2, rest2[0]);
                assert(rest2[0] == outcomes[2]);
                assert(run_from(s2, rest2) == run_from(s3, rest3));
                assert(is_terminal(s3));
                lemma_finished_attempt_stays(s3, rest3);
            } else {
                assert(run_from(s2, rest2) == s2);
            }
        } else {
            assert(run_from(s1, rest1) == s1);
        }
    }
}

} // verus!
