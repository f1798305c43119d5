//! One command's conversation with the display, step by step.
//!
//! A [`Session`] never touches the serial line. It tells its driver what to
//! do next, with [`Session::action`], and is told how that went, with
//! [`Session::advance`]:
//!
//! 1. write the command;
//! 2. read the single byte with which the display acknowledges it.
//!
//! Test and raw only probe the line. Their write and their read are each
//! done once and each reported for itself: the read is attempted even after a
//! failed write, and neither failure ends in an error. The other commands
//! change the tasks on the display and have to get through. For them an
//! attempt fails as soon as the write or the read fails, the read being left
//! out after a failed write, and a failed attempt is followed at once by the
//! next, up to [`MAX_ATTEMPTS`] in all. After the last one the session is over
//! without further ado.
//!
//! A failed read leaves open whether the display acted on the command, so a
//! command that is tried again may be applied twice.

use vstd::prelude::*;
use crate::color::{random_color_number, COLOR_MAX};
use crate::command::{Command, CommandView};

verus! {

/// How often a command that changes the tasks is attempted at most.
pub const MAX_ATTEMPTS: u8 = 5;

/// The number of bytes with which the display acknowledges a command.
pub const ACK_LEN: usize = 1;

/// Where a session stands.
#[derive(Clone, Copy, PartialEq, Eq, Debug)]
pub enum Stage {
    /// The command of the current attempt is to be written.
    Writing,
    /// The acknowledgment of the current attempt is to be read.
    Reading,
    /// Over: a probe has done its write and its read.
    Probed,
    /// Over: the display has acknowledged the command.
    Acknowledged,
    /// Over: every attempt has failed.
    Exhausted,
}

impl Stage {
    /// Whether nothing is left to do.
    pub open spec fn is_over(self) -> bool {
        self is Probed || self is Acknowledged || self is Exhausted
    }
}

/// What the driver of a session is to do next.
#[derive(Debug, PartialEq, Eq)]
pub enum Action {
    /// Write these bytes to the line.
    Write(Vec<u8>),
    /// Read this many bytes from the line.
    Read(usize),
    /// Nothing: the session is over.
    Stop,
}

/// An [`Action`] as contracts see it.
pub enum ActionView {
    Write(Seq<u8>),
    Read(nat),
    Stop,
}

impl View for Action {
    type V = ActionView;

    open spec fn view(&self) -> ActionView {
        match self {
            Action::Write(bytes) => ActionView::Write(bytes@),
            Action::Read(len) => ActionView::Read(*len as nat),
            Action::Stop => ActionView::Stop,
        }
    }
}

/// What a session has to tell after a write or a read. The outcome of either
/// is the number of bytes that went through, or the cause of the failure, of
/// whatever type the driver has for it.
#[derive(Debug, PartialEq, Eq)]
pub enum Report<E> {
    /// Nothing worth telling.
    Nothing,
    /// The outcome of a probe's write.
    Wrote(Result<usize, E>),
    /// The outcome of a probe's read.
    Read(Result<usize, E>),
    /// An attempt at a command that changes the tasks has ended: with the
    /// acknowledgment, or with the cause for which its write or its read
    /// failed. `attempt` counts from one.
    Attempt { attempt: u8, result: Result<(), E> },
}

/// A [`Session`] as contracts see it.
pub struct SessionView {
    /// The command that the session is about.
    pub command: CommandView,
    /// The number of the current attempt, counted from one; once the session
    /// is over, of the last.
    pub attempt: nat,
    /// Where the session stands.
    pub stage: Stage,
}

impl SessionView {
    /// A session about `command` at its start.
    pub open spec fn start(command: CommandView) -> SessionView {
        SessionView { command, attempt: 1, stage: Stage::Writing }
    }

    /// Whether the attempts are within their bounds.
    pub open spec fn wf(self) -> bool {
        1 <= self.attempt <= MAX_ATTEMPTS
    }

    /// The session after the current attempt has failed: at the start of the
    /// next attempt while there is one left, else exhausted.
    pub open spec fn failed(self) -> SessionView {
        if self.attempt < MAX_ATTEMPTS {
            SessionView { attempt: self.attempt + 1, stage: Stage::Writing, ..self }
        } else {
            SessionView { stage: Stage::Exhausted, ..self }
        }
    }

    /// The session after the write or read that it asked for has gone well,
    /// `ok`, or failed.
    pub open spec fn after(self, ok: bool) -> SessionView {
        match self.stage {
            Stage::Writing => if ok || !self.command.is_mutating() {
                SessionView { stage: Stage::Reading, ..self }
            } else {
                self.failed()
            },
            Stage::Reading => if !self.command.is_mutating() {
                SessionView { stage: Stage::Probed, ..self }
            } else if ok {
                SessionView { stage: Stage::Acknowledged, ..self }
            } else {
                self.failed()
            },
            _ => self,
        }
    }

    /// What the session tells when `outcome` is how the write or read went
    /// that it asked for.
    pub open spec fn report<E>(self, outcome: Result<usize, E>) -> Report<E> {
        match self.stage {
            Stage::Writing => if !self.command.is_mutating() {
                Report::Wrote(outcome)
            } else {
                match outcome {
                    Ok(_) => Report::Nothing,
                    Err(cause) => Report::Attempt { attempt: self.attempt as u8, result: Err(cause) },
                }
            },
            Stage::Reading => if !self.command.is_mutating() {
                Report::Read(outcome)
            } else {
                match outcome {
                    Ok(_) => Report::Attempt { attempt: self.attempt as u8, result: Ok(()) },
                    Err(cause) => Report::Attempt { attempt: self.attempt as u8, result: Err(cause) },
                }
            },
            _ => Report::Nothing,
        }
    }

    /// What the session asks for, `number` being the color that chance
    /// gives. Only a write depends on it, and only where the command draws
    /// its color.
    pub open spec fn action(self, number: nat) -> ActionView {
        match self.stage {
            Stage::Writing => ActionView::Write(self.command.wire(number)),
            Stage::Reading => ActionView::Read(ACK_LEN as nat),
            _ => ActionView::Stop,
        }
    }
}

impl SessionView {
    /// The session after a driver has gone through `outcomes`, one for each
    /// write or read in turn.
    pub open spec fn run(self, outcomes: Seq<bool>) -> SessionView
        decreases outcomes.len(),
    {
        if outcomes.len() == 0 {
            self
        } else {
            self.after(outcomes.first()).run(outcomes.drop_first())
        }
    }

    /// How many writes the session asks for on the way through `outcomes`,
    /// the one that may be pending at the end included. This is the number of
    /// attempts that are made.
    pub open spec fn writes_asked(self, outcomes: Seq<bool>) -> nat
        decreases outcomes.len(),
    {
        let now: nat = if self.stage is Writing {
            1
        } else {
            0
        };
        if outcomes.len() == 0 {
            now
        } else {
            now + self.after(outcomes.first()).writes_asked(outcomes.drop_first())
        }
    }
}

/// The step at which an attempt fails.
pub enum Fault {
    /// The write fails; the read is not attempted.
    Write,
    /// The write goes through and the read fails.
    Read,
}

/// The outcomes that a driver meets when one attempt after another fails,
/// each in the way that `faults` gives for it.
pub open spec fn outcomes_of(faults: Seq<Fault>) -> Seq<bool>
    decreases faults.len(),
{
    if faults.len() == 0 {
        Seq::empty()
    } else {
        let first = match faults.first() {
            Fault::Write => seq![false],
            Fault::Read => seq![true, false],
        };
        first + outcomes_of(faults.drop_first())
    }
}

/// The outcomes of an attempt that gets through: the write goes well and so
/// does the read.
pub open spec fn acknowledged() -> Seq<bool> {
    seq![true, true]
}

/// Going through two runs of outcomes in a row is going through both in one.
pub proof fn lemma_run_in_parts(session: SessionView, first: Seq<bool>, rest: Seq<bool>)
    ensures
        session.run(first + rest) == session.run(first).run(rest),
        session.writes_asked(first + rest) + (if session.run(first).stage is Writing {
            1nat
        } else {
            0nat
        }) == session.writes_asked(first) + session.run(first).writes_asked(rest),
    decreases first.len(),
{
    if first.len() == 0 {
        assert(first + rest =~= rest);
        if rest.len() == 0 {
        }
    } else {
        assert((first + rest).drop_first() =~= first.drop_first() + rest);
        lemma_run_in_parts(session.after(first.first()), first.drop_first(), rest);
    }
}

/// The attempts never leave their bounds, and a session that is over stays
/// as it is, whatever it is told.
pub proof fn lemma_run_stays_in_bounds(session: SessionView, outcomes: Seq<bool>)
    requires
        session.wf(),
    ensures
        session.run(outcomes).wf(),
        session.run(outcomes).command == session.command,
        session.run(outcomes).attempt >= session.attempt,
        session.stage.is_over() ==> session.run(outcomes) == session,
        session.stage.is_over() ==> session.writes_asked(outcomes) == 0,
    decreases outcomes.len(),
{
    if outcomes.len() > 0 {
        lemma_run_stays_in_bounds(session.after(outcomes.first()), outcomes.drop_first());
    }
}

/// Every attempt begins with a write and every write begins an attempt: the
/// writes that a session asks for are as many as the attempts that it counts.
pub proof fn lemma_writes_are_attempts(session: SessionView, outcomes: Seq<bool>)
    requires
        session.wf(),
    ensures
        session.writes_asked(outcomes) + session.attempt == session.run(outcomes).attempt + (
        if session.stage is Writing {
            1nat
        } else {
            0nat
        }),
    decreases outcomes.len(),
{
    if outcomes.len() > 0 {
        lemma_writes_are_attempts(session.after(outcomes.first()), outcomes.drop_first());
    }
}

/// Where a session stands after its attempts have failed one after another,
/// each in the way that `faults` gives: at the write of the next attempt
/// while the failures are fewer than [`MAX_ATTEMPTS`], exhausted once they
/// are as many.
pub proof fn lemma_failures_in_a_row(session: SessionView, faults: Seq<Fault>)
    requires
        session.wf(),
        session.command.is_mutating(),
        session.stage is Writing,
        session.attempt + faults.len() <= MAX_ATTEMPTS + 1,
    ensures
        session.attempt + faults.len() <= MAX_ATTEMPTS ==> session.run(outcomes_of(faults)) == (
        SessionView { attempt: session.attempt + faults.len(), ..session }),
        session.attempt + faults.len() > MAX_ATTEMPTS ==> session.run(outcomes_of(faults)) == (
        SessionView { attempt: MAX_ATTEMPTS as nat, stage: Stage::Exhausted, ..session }),
    decreases faults.len(),
{
    if faults.len() > 0 {
        let first = match faults.first() {
            Fault::Write => seq![false],
            Fault::Read => seq![true, false],
        };
        let next = session.run(first);
        assert(next == session.failed()) by {
            reveal_with_fuel(SessionView::run, 3);
            match faults.first() {
                Fault::Write => {},
                Fault::Read => {
                    assert(first.drop_first() =~= seq![false]);
                },
            }
        }
        lemma_run_in_parts(session, first, outcomes_of(faults.drop_first()));
        if session.attempt < MAX_ATTEMPTS {
            lemma_failures_in_a_row(next, faults.drop_first());
        } else {
            assert(faults.drop_first().len() == 0);
        }
    }
}

/// A command that changes the tasks is attempted until it gets through for
/// the first time: after fewer than [`MAX_ATTEMPTS`] failed attempts and one
/// that is acknowledged the session is over, acknowledged, and has made one
/// attempt more than failed. Nothing that it is told afterwards makes it
/// write again.
pub proof fn lemma_stops_at_first_success(command: CommandView, faults: Seq<Fault>)
    requires
        command.is_mutating(),
        faults.len() < MAX_ATTEMPTS,
    ensures
        ({
            let outcomes = outcomes_of(faults) + acknowledged();
            let end = SessionView::start(command).run(outcomes);
            &&& end == SessionView { command, attempt: faults.len() + 1, stage: Stage::Acknowledged }
            &&& SessionView::start(command).writes_asked(outcomes) == faults.len() + 1
        }),
{
    let start = SessionView::start(command);
    let outcomes = outcomes_of(faults) + acknowledged();
    lemma_failures_in_a_row(start, faults);
    lemma_run_in_parts(start, outcomes_of(faults), acknowledged());
    let ready = start.run(outcomes_of(faults));
    assert(ready.run(acknowledged()) == SessionView { stage: Stage::Acknowledged, ..ready }) by {
        reveal_with_fuel(SessionView::run, 3);
        assert(acknowledged().drop_first() =~= seq![true]);
    }
    lemma_writes_are_attempts(start, outcomes);
}

/// A command that changes the tasks is given up after [`MAX_ATTEMPTS`]
/// failed attempts: the session is then over, exhausted, and has made exactly
/// that many attempts. It ends like any other: no error comes of it.
pub proof fn lemma_gives_up_after_last_attempt(command: CommandView, faults: Seq<Fault>)
    requires
        command.is_mutating(),
        faults.len() == MAX_ATTEMPTS,
    ensures
        ({
            let outcomes = outcomes_of(faults);
            let end = SessionView::start(command).run(outcomes);
            &&& end == SessionView { command, attempt: MAX_ATTEMPTS as nat, stage: Stage::Exhausted }
            &&& SessionView::start(command).writes_asked(outcomes) == MAX_ATTEMPTS
        }),
{
    let start = SessionView::start(command);
    lemma_failures_in_a_row(start, faults);
    lemma_writes_are_attempts(start, outcomes_of(faults));
}

/// A probe writes once and reads once, whatever happens: each outcome is
/// reported as it came, the read is asked for after a failed write too, and
/// after the read the session is over with its single attempt.
pub proof fn lemma_probe_reports_both<E>(
    command: CommandView,
    wrote: Result<usize, E>,
    read: Result<usize, E>,
    number: nat,
)
    requires
        !command.is_mutating(),
    ensures
        ({
            let start = SessionView::start(command);
            let then = start.after(wrote is Ok);
            let end = then.after(read is Ok);
            &&& start.action(number) == ActionView::Write(command.wire(number))
            &&& start.report(wrote) == Report::Wrote(wrote)
            &&& then.action(number) == ActionView::Read(ACK_LEN as nat)
            &&& then.report(read) == Report::Read(read)
            &&& end == SessionView { command, attempt: 1, stage: Stage::Probed }
            &&& end.action(number) == ActionView::Stop
        }),
{
}

/// The conversation about one command.
pub struct Session {
    command: Command,
    attempt: u8,
    stage: Stage,
}

impl View for Session {
    type V = SessionView;

    closed spec fn view(&self) -> SessionView {
        SessionView { command: self.command@, attempt: self.attempt as nat, stage: self.stage }
    }
}

impl Session {
    /// No session ever counts an attempt outside the bounds.
    #[verifier::type_invariant]
    spec fn attempts_in_bounds(self) -> bool {
        1 <= self.attempt <= MAX_ATTEMPTS
    }

    /// A session about `command`, before its first write.
    pub fn new(command: Command) -> (session: Session)
        ensures
            session@ == SessionView::start(command@),
    {
        Session { command, attempt: 1, stage: Stage::Writing }
    }

    /// The command that the session is about.
    pub fn command(&self) -> (command: &Command)
        ensures
            command@ == self@.command,
    {
        &self.command
    }

    /// The number of the current attempt, counted from one. It never goes
    /// beyond [`MAX_ATTEMPTS`].
    pub fn attempt(&self) -> (attempt: u8)
        ensures
            attempt == self@.attempt,
            self@.wf(),
    {
        proof {
            use_type_invariant(self);
        }
        self.attempt
    }

    /// Where the session stands.
    pub fn stage(&self) -> (stage: Stage)
        ensures
            stage == self@.stage,
    {
        self.stage
    }

    /// Whether nothing is left to do.
    pub fn is_over(&self) -> (over: bool)
        ensures
            over == self@.stage.is_over(),
    {
        match self.stage {
            Stage::Writing => false,
            Stage::Reading => false,
            _ => true,
        }
    }

    /// What to do next, with `number` for the color that chance gives.
    pub fn action_with(&self, number: u32) -> (action: Action)
        ensures
            action@ == self@.action(number as nat),
    {
        match self.stage {
            Stage::Writing => Action::Write(self.command.encode_with(number)),
            Stage::Reading => Action::Read(ACK_LEN),
            _ => Action::Stop,
        }
    }

    /// What to do next. Where that is the write of a command whose color is
    /// left to chance, the color is drawn now, anew for every attempt: the
    /// action is that of [`Session::action_with`] for some color number.
    /// Everywhere else the action is the same for all of them.
    pub fn action(&self) -> (action: Action)
        ensures
            exists|number: nat| number <= COLOR_MAX && action@ == #[trigger] self@.action(number),
            !(self@.stage is Writing && self@.command.draws_color()) ==> forall|number: nat|
                action@ == #[trigger] self@.action(number),
    {
        let number: u32 = match self.stage {
            Stage::Writing => if self.command.draws_color() {
                random_color_number()
            } else {
                0
            },
            _ => 0,
        };
        self.action_with(number)
    }

    /// Ends the current attempt as failed for `cause`.
    fn fail<E>(&mut self, cause: E) -> (report: Report<E>)
        ensures
            final(self)@ == old(self)@.failed(),
            report == (Report::Attempt { attempt: old(self).attempt, result: Err(cause) }),
    {
        proof {
            use_type_invariant(&*self);
        }
        let attempt: u8 = self.attempt;
        if attempt < MAX_ATTEMPTS {
            self.attempt = attempt + 1;
            self.stage = Stage::Writing;
        } else {
            self.stage = Stage::Exhausted;
        }
        Report::Attempt { attempt, result: Err(cause) }
    }

    /// Takes note of how the write or read went that [`Session::action`]
    /// asked for, and moves on. Once the session is over nothing changes any
    /// more.
    pub fn advance<E>(&mut self, outcome: Result<usize, E>) -> (report: Report<E>)
        ensures
            final(self)@ == old(self)@.after(outcome is Ok),
            report == old(self)@.report(outcome),
    {
        proof {
            use_type_invariant(&*self);
        }
        let mutating: bool = self.command.is_mutating();
        match self.stage {
            Stage::Writing => {
                if !mutating {
                    self.stage = Stage::Reading;
                    Report::Wrote(outcome)
                } else {
                    match outcome {
                        Ok(_) => {
                            self.stage = Stage::Reading;
                            Report::Nothing
                        },
                        Err(cause) => self.fail(cause),
                    }
                }
            },
            Stage::Reading => {
                if !mutating {
                    self.stage = Stage::Probed;
                    Report::Read(outcome)
                } else {
                    match outcome {
                        Ok(_) => {
                            self.stage = Stage::Acknowledged;
                            Report::Attempt { attempt: self.attempt, result: Ok(()) }
                        },
                        Err(cause) => self.fail(cause),
                    }
                }
            },
            _ => Report::Nothing,
        }
    }
}

} // verus!
