//! Bringing up the one listening socket that serves IPv4 and IPv6 alike.
//!
//! The socket itself is made by the program around this library. What is
//! decided here is what to ask of it, in which order, and that any failure
//! ends the start-up: no step is tried again and none is skipped.

use vstd::prelude::*;

verus! {

/// What the listening socket is set up with.
#[derive(Clone, Copy, Debug, PartialEq, Eq, Structural)]
pub struct ListenConfig {
    /// The TCP port to listen on.
    pub port: u16,
    /// How many connections may wait to be accepted.
    pub backlog: u32,
    /// Whether the IPv6 socket refuses IPv4 peers. The operating system may
    /// default to either, so the program sets this explicitly.
    pub only_v6: bool,
}

/// One step of bringing up the listening socket.
#[derive(Clone, Copy, Debug, PartialEq, Eq, Structural)]
pub enum Step {
    /// Create the IPv6 socket and set it up for both address families.
    Create,
    /// Bind it to the unspecified address and the port.
    Bind,
    /// Start listening with the backlog.
    Listen,
}

/// What the program does next while it brings up the listening socket.
#[derive(Clone, Copy, Debug, PartialEq, Eq, Structural)]
pub enum Next {
    /// Attempt this step.
    Run(Step),
    /// Every step succeeded: serve requests on the socket.
    Serve,
    /// This step failed: report it and terminate.
    Abort(Step),
}

/// What follows the attempt of `step`: after a success the step after it, or
/// serving once the socket listens; after a failure nothing but the end.
pub open spec fn next_after(step: Step, succeeded: bool) -> Next {
    if !succeeded {
        Next::Abort(step)
    } else {
        match step {
            Step::Create => Next::Run(Step::Bind),
            Step::Bind => Next::Run(Step::Listen),
            Step::Listen => Next::Serve,
        }
    }
}

/// Where the program stands once its attempts, starting from `next`, have had
/// the `outcomes`, in order. Nothing is attempted after the end.
pub open spec fn outcome_of(next: Next, outcomes: Seq<bool>) -> Next
    decreases outcomes.len(),
{
    if outcomes.len() == 0 {
        next
    } else {
        match next {
            Next::Run(step) => outcome_of(next_after(step, outcomes[0]), outcomes.drop_first()),
            _ => next,
        }
    }
}

/// The message that names the step that failed.
pub open spec fn failure_text(step: Step) -> Seq<char> {
    match step {
        Step::Create => "failed to create IPv6 socket"@,
        Step::Bind => "failed to bind to dual-stack address"@,
        Step::Listen => "failed to listen on dual-stack socket"@,
    }
}

/// The fixed set-up of the service: port 80, a backlog of 1024 connections,
/// and a socket that takes IPv4 peers too.
pub fn listen_config() -> (config: ListenConfig)
    ensures
        config == (ListenConfig { port: 80, backlog: 1024, only_v6: false }),
{
    ListenConfig { port: 80, backlog: 1024, only_v6: false }
}

/// Where bringing up the socket begins.
pub fn first_step() -> (next: Next)
    ensures
        next == Next::Run(Step::Create),
{
    Next::Run(Step::Create)
}

/// Decides what follows the attempt of `step`, given whether it succeeded.
pub fn advance(step: Step, succeeded: bool) -> (next: Next)
    ensures
        next == next_after(step, succeeded),
{
    if !succeeded {
        Next::Abort(step)
    } else {
        match step {
            Step::Create => Next::Run(Step::Bind),
            Step::Bind => Next::Run(Step::Listen),
            Step::Listen => Next::Serve,
        }
    }
}

/// The message to terminate with when `step` failed.
pub fn failure_message(step: Step) -> (message: &'static str)
    ensures
        message@ == failure_text(step),
{
    match step {
        Step::Create => "failed to create IPv6 socket",
        Step::Bind => "failed to bind to dual-stack address",
        Step::Listen => "failed to listen on dual-stack socket",
    }
}

/// The program serves only on a socket that was created, bound and made to
/// listen, each with success: whatever the outcomes, it comes to serve exactly
/// when the first three attempts all succeeded.
pub proof fn lemma_serves_only_when_every_step_succeeded(outcomes: Seq<bool>)
    ensures
        outcome_of(Next::Run(Step::Create), outcomes) == Next::Serve <==> (outcomes.len() >= 3
            && outcomes[0] && outcomes[1] && outcomes[2]),
{
    reveal_with_fuel(outcome_of, 4);
    if outcomes.len() >= 3 {
        lemma_end_is_final(Next::Serve, outcomes.drop_first().drop_first().drop_first());
    }
}

/// The first attempt that fails ends the start-up at its own step: no later
/// outcome changes that.
pub proof fn lemma_failure_is_final(step: Step, outcomes: Seq<bool>)
    requires
        outcomes.len() >= 1,
        !outcomes[0],
    ensures
        outcome_of(Next::Run(step), outcomes) == Next::Abort(step),
{
    lemma_end_is_final(Next::Abort(step), outcomes.drop_first());
}

/// Once the start-up has ended, in serving or in failure, it stays there.
proof fn lemma_end_is_final(next: Next, outcomes: Seq<bool>)
    requires
        !(next is Run),
    ensures
        outcome_of(next, outcomes) == next,
{
}

} // verus!
