use vstd::prelude::*;

use crate::tokenize::views;

verus! {

/// How a session takes its input: line by line from a terminal, or once
/// from the words given at start.
#[derive(Clone, Copy, Debug, PartialEq, Eq, Structural)]
pub enum Mode {
    Interactive,
    Batch,
}

/// Where a session stands.
#[derive(Clone, Copy, Debug, PartialEq, Eq, Structural)]
pub enum Phase {
    /// Waiting for the next input line; no command is in flight.
    AwaitInput,
    /// One command has been dispatched and has not completed.
    Running,
    /// The session is over.
    Finished,
}

/// What the outside world reports to a session.
#[derive(Debug)]
pub enum Event {
    /// A line was read from the input.
    Line(String),
    /// The input has ended.
    EndOfInput,
    /// The command in flight has completed, successfully or not.
    Completed,
}

/// What a session asks the outside world to do next.
#[derive(Debug)]
pub enum Step {
    /// Read one line of input.
    ReadLine,
    /// Dispatch this line and report when it has completed.
    Dispatch(String),
    /// Nothing: the event does not apply in this phase.
    Wait,
    /// Stop.
    Exit,
}

/// The read-dispatch-report cycle, one command at a time.
pub struct Session {
    pub mode: Mode,
    pub phase: Phase,
}

/// The words of a batch invocation joined by single spaces.
pub open spec fn join_words(w: Seq<Seq<char>>) -> Seq<char>
    decreases w.len(),
{
    if w.len() == 0 {
        Seq::empty()
    } else if w.len() == 1 {
        w[0]
    } else {
        join_words(w.drop_last()) + seq![' '] + w.last()
    }
}

/// The phase after `ev` arrives in `phase`.
pub open spec fn next_phase(mode: Mode, phase: Phase, ev: Event) -> Phase {
    match (phase, ev) {
        (Phase::AwaitInput, Event::Line(_)) => Phase::Running,
        (Phase::AwaitInput, Event::EndOfInput) => Phase::Finished,
        (Phase::Running, Event::Completed) => if mode == Mode::Interactive {
            Phase::AwaitInput
        } else {
            Phase::Finished
        },
        _ => phase,
    }
}

/// Whether `r` is the step a session in `phase` takes on `ev`.
pub open spec fn step_answers(mode: Mode, phase: Phase, ev: Event, r: Step) -> bool {
    match (phase, ev) {
        (Phase::AwaitInput, Event::Line(l)) => r matches Step::Dispatch(d) && d@ == l@,
        (Phase::AwaitInput, Event::EndOfInput) => r is Exit,
        (Phase::Running, Event::Completed) => if mode == Mode::Interactive {
            r is ReadLine
        } else {
            r is Exit
        },
        (Phase::Finished, _) => r is Exit,
        _ => r is Wait,
    }
}

/// The words of a batch invocation as one command line.
pub fn batch_line(words: &Vec<String>) -> (r: String)
    ensures
        r@ == join_words(views(words@)),
{
    let mut line = String::new();
    let mut i: usize = 0;
    while i < words.len()
        invariant
            i <= words@.len(),
            line@ == join_words(views(words@).take(i as int)),
        decreases words@.len() - i,
    {
        let ghost w = views(words@);
        assert(w.take(i as int + 1).drop_last() =~= w.take(i as int));
        if i > 0 {
            line.append(" ");
            proof {
                reveal_strlit(" ");
            }
        }
        line.append(words[i].as_str());
        assert(w.take(1) =~= seq![w[0]]);
        i = i + 1;
    }
    assert(views(words@).take(words@.len() as int) =~= views(words@));
    line
}

impl Session {
    /// Opens a session. Without words it is interactive and first reads a
    /// line; with words it is a batch that dispatches them, joined, once.
    pub fn start(words: &Vec<String>) -> (r: (Session, Step))
        ensures
            words@.len() == 0 ==> r.0.mode == Mode::Interactive && r.0.phase == Phase::AwaitInput
                && r.1 is ReadLine,
            words@.len() > 0 ==> r.0.mode == Mode::Batch && r.0.phase == Phase::Running && (
            r.1 matches Step::Dispatch(l) && l@ == join_words(views(words@))),
    {
        if words.len() == 0 {
            (Session { mode: Mode::Interactive, phase: Phase::AwaitInput }, Step::ReadLine)
        } else {
            (Session { mode: Mode::Batch, phase: Phase::Running }, Step::Dispatch(batch_line(words)))
        }
    }

    /// Takes in one event and says what to do next.
    pub fn step(&mut self, ev: Event) -> (r: Step)
        ensures
            final(self).mode == old(self).mode,
            final(self).phase == next_phase(old(self).mode, old(self).phase, ev),
            step_answers(old(self).mode, old(self).phase, ev, r),
    {
        match (self.phase, ev) {
            (Phase::AwaitInput, Event::Line(l)) => {
                self.phase = Phase::Running;
                Step::Dispatch(l)
            },
            (Phase::AwaitInput, Event::EndOfInput) => {
                self.phase = Phase::Finished;
                Step::Exit
            },
            (Phase::Running, Event::Completed) => {
                if self.mode == Mode::Interactive {
                    self.phase = Phase::AwaitInput;
                    Step::ReadLine
                } else {
                    self.phase = Phase::Finished;
                    Step::Exit
                }
            },
            (Phase::Finished, _) => Step::Exit,
            _ => Step::Wait,
        }
    }
}

/// The line shown for a failed command.
pub open spec fn failure_text(msg: Seq<char>) -> Seq<char> {
    "\x1B[91mError!\x1B[0m "@ + msg
}

/// The text shown on the console for a failure whose message is `msg`.
pub fn failure_line(msg: &str) -> (r: String)
    ensures
        r@ == failure_text(msg@),
{
    let mut text = String::from_str("\x1B[91mError!\x1B[0m ");
    text.append(msg);
    text
}

/// Commands run one at a time: a dispatch is only ever issued when no
/// command is in flight, and it leaves one in flight; while one is in flight,
/// every event but its completion leaves it there and dispatches nothing.
pub proof fn lemma_one_command_in_flight(mode: Mode, phase: Phase, ev: Event, r: Step)
    requires
        step_answers(mode, phase, ev, r),
    ensures
        r is Dispatch ==> phase == Phase::AwaitInput && next_phase(mode, phase, ev)
            == Phase::Running,
        phase == Phase::Running && !(ev is Completed) ==> next_phase(mode, phase, ev)
            == Phase::Running && !(r is Dispatch),
{
}

} // verus!
