//! One batch of problems: posing them, grading the answers and summing
//! up.
//!
//! A batch is a small state machine. It waits in turn for a problem to
//! pose, for the user's answer to it, and at the end for the user to
//! acknowledge the summary. Whoever drives it prints what it hands back
//! and feeds it what it waits for.

use crate::input::{parse_i32, signed_numeral};
use crate::problem::{Problem, ProblemView};
use crate::score::{Score, Tally};
use crate::text::{decimal, render_unsigned};
use vstd::prelude::*;

verus! {

/// What a batch is waiting for.
pub enum Stage {
    /// The next problem.
    Posing,
    /// The answer to the problem that was posed.
    Asking(ProblemView),
    /// The user's acknowledgment of the summary.
    Acknowledging,
    /// Nothing: the batch is over.
    Done,
}

/// The mathematical content of a [`Batch`].
pub struct BatchView {
    /// The problems still to be answered, the one being asked included.
    pub remaining: nat,
    /// The answers graded so far.
    pub tally: Tally,
    pub stage: Stage,
}

/// The line that sums a batch up.
pub open spec fn summary(tally: Tally) -> Seq<char> {
    if tally.incorrect == 0 {
        "Great job! No errors."@
    } else {
        "You had "@ + decimal(tally.correct) + " correct and "@ + decimal(tally.incorrect)
            + " incorrect answers."@
    }
}

/// What is shown once the last answer is graded: an empty line, the
/// summary, and another empty line.
pub open spec fn closing(tally: Tally) -> Seq<char> {
    "\n"@ + summary(tally) + "\n"@ + "\n"@
}

/// The complaint about input that is no number.
pub open spec fn complaint(line: Seq<char>) -> Seq<char> {
    "Illegal value: "@ + line + "\n"@
}

impl BatchView {
    /// A batch of `count` problems before the first is posed. A batch
    /// of none goes straight to its summary.
    pub open spec fn begun(count: nat) -> BatchView {
        BatchView {
            remaining: count,
            tally: Tally::zero(),
            stage: if count > 0 {
                Stage::Posing
            } else {
                Stage::Acknowledging
            },
        }
    }

    /// What is shown when a batch of `count` problems begins: an empty
    /// line, and for a batch of none the closing lines too.
    pub open spec fn opening(count: nat) -> Seq<char> {
        if count > 0 {
            "\n"@
        } else {
            "\n"@ + closing(Tally::zero())
        }
    }

    /// The batch after `problem` is handed to it. Only a batch that waits
    /// for a problem takes it.
    pub open spec fn posed(self, problem: ProblemView) -> BatchView {
        if self.stage is Posing {
            BatchView { stage: Stage::Asking(problem), ..self }
        } else {
            self
        }
    }

    /// The batch after the user entered `line`.
    ///
    /// While a problem is asked, a line that is no number changes
    /// nothing: the same problem is asked again. A number is graded
    /// against the problem's answer, and the batch goes on to the next
    /// problem or, after the last, to its summary. A line that
    /// acknowledges the summary ends the batch.
    pub open spec fn answered(self, line: Seq<char>) -> BatchView {
        match self.stage {
            Stage::Asking(problem) => match signed_numeral(line) {
                Some(given) => {
                    let left: nat = if self.remaining > 0 {
                        (self.remaining - 1) as nat
                    } else {
                        0
                    };
                    BatchView {
                        remaining: left,
                        tally: self.tally.plus(Tally::one(given == problem.answer)),
                        stage: if left > 0 {
                            Stage::Posing
                        } else {
                            Stage::Acknowledging
                        },
                    }
                },
                None => self,
            },
            Stage::Acknowledging => BatchView { stage: Stage::Done, ..self },
            _ => self,
        }
    }

    /// What is shown in reply to `line`: a complaint if a number was
    /// expected and `line` is none, the closing lines after the last
    /// answer, and nothing otherwise.
    pub open spec fn reply(self, line: Seq<char>) -> Seq<char> {
        match self.stage {
            Stage::Asking(problem) => if signed_numeral(line) is None {
                complaint(line)
            } else if self.answered(line).stage is Acknowledging {
                closing(self.answered(line).tally)
            } else {
                Seq::empty()
            },
            _ => Seq::empty(),
        }
    }

    /// The text that asks for the next line: the problem, or the request
    /// to acknowledge the summary.
    pub open spec fn prompt(self) -> Seq<char> {
        match self.stage {
            Stage::Asking(problem) => problem.text,
            Stage::Acknowledging => "Press ENTER to continue."@,
            _ => Seq::empty(),
        }
    }

    /// Whether the batch is in step with its `count` problems: each is
    /// either graded or still to be answered, a problem is posed or asked
    /// only while some remain, and the summary comes when none do.
    pub open spec fn in_step(self, count: nat) -> bool {
        &&& self.tally.total() + self.remaining == count
        &&& (self.stage is Posing || self.stage is Asking) ==> self.remaining > 0
        &&& (self.stage is Acknowledging || self.stage is Done) ==> self.remaining == 0
    }
}

enum Phase {
    Posing,
    Asking(Problem),
    Acknowledging,
    Done,
}

/// A batch of problems in progress.
pub struct Batch {
    remaining: u32,
    tally: Score,
    phase: Phase,
}

impl View for Batch {
    type V = BatchView;

    closed spec fn view(&self) -> BatchView {
        BatchView {
            remaining: self.remaining as nat,
            tally: self.tally@,
            stage: match self.phase {
                Phase::Posing => Stage::Posing,
                Phase::Asking(problem) => Stage::Asking(problem@),
                Phase::Acknowledging => Stage::Acknowledging,
                Phase::Done => Stage::Done,
            },
        }
    }
}

/// Writes the line that sums a batch up.
fn write_summary(tally: Score) -> (s: String)
    ensures
        s@ == summary(tally@),
{
    if tally.incorrect == 0 {
        String::from_str("Great job! No errors.")
    } else {
        let mut s = String::from_str("You had ");
        s.append(render_unsigned(tally.correct as u64).as_str());
        s.append(" correct and ");
        s.append(render_unsigned(tally.incorrect as u64).as_str());
        s.append(" incorrect answers.");
        s
    }
}

/// Writes the closing lines of a batch.
fn write_closing(tally: Score) -> (s: String)
    ensures
        s@ == closing(tally@),
{
    let mut s = String::from_str("\n");
    s.append(write_summary(tally).as_str());
    s.append("\n");
    s.append("\n");
    s
}

/// Writes the complaint about input that is no number.
pub fn write_complaint(line: &str) -> (s: String)
    ensures
        s@ == complaint(line@),
{
    let mut s = String::from_str("Illegal value: ");
    s.append(line);
    s.append("\n");
    s
}

impl Batch {
    /// The counters leave room for every answer still to come; a problem
    /// is posed or asked only while some remain, and the summary comes
    /// when none do.
    #[verifier::type_invariant]
    spec fn valid(self) -> bool {
        &&& self.tally@.total() + self.remaining <= u32::MAX
        &&& (self.phase is Posing || self.phase is Asking) ==> self.remaining > 0
        &&& (self.phase is Acknowledging || self.phase is Done) ==> self.remaining == 0
    }

    /// Begins a batch of `count` problems, and says what to show first.
    pub fn begin(count: u32) -> (r: (Batch, String))
        ensures
            r.0@ == BatchView::begun(count as nat),
            r.1@ == BatchView::opening(count as nat),
    {
        let tally = Score::new();
        if count > 0 {
            (Batch { remaining: count, tally, phase: Phase::Posing }, String::from_str("\n"))
        } else {
            let mut shown = String::from_str("\n");
            shown.append(write_closing(tally).as_str());
            (Batch { remaining: count, tally, phase: Phase::Acknowledging }, shown)
        }
    }

    /// Whether the batch waits for a problem.
    pub fn awaits_problem(&self) -> (b: bool)
        ensures
            b == (self@.stage is Posing),
    {
        match &self.phase {
            Phase::Posing => true,
            _ => false,
        }
    }

    /// Whether the batch is over.
    pub fn is_done(&self) -> (b: bool)
        ensures
            b == (self@.stage is Done),
    {
        match &self.phase {
            Phase::Done => true,
            _ => false,
        }
    }

    /// Whether the batch has shown its summary and waits for the user to
    /// acknowledge it.
    pub fn awaits_acknowledgment(&self) -> (b: bool)
        ensures
            b == (self@.stage is Acknowledging),
    {
        match &self.phase {
            Phase::Acknowledging => true,
            _ => false,
        }
    }

    /// The answers graded so far.
    pub fn tally(&self) -> (t: Score)
        ensures
            t@ == self@.tally,
    {
        self.tally
    }

    /// The problems still to be answered.
    pub fn remaining(&self) -> (n: u32)
        ensures
            n == self@.remaining,
    {
        self.remaining
    }

    /// The text that asks for the next line.
    pub fn prompt(&self) -> (s: String)
        ensures
            s@ == self@.prompt(),
    {
        match &self.phase {
            Phase::Asking(problem) => problem.text.clone(),
            Phase::Acknowledging => String::from_str("Press ENTER to continue."),
            _ => String::new(),
        }
    }

    /// Hands the batch the next problem.
    pub fn pose(&mut self, problem: Problem)
        ensures
            final(self)@ == old(self)@.posed(problem@),
    {
        proof {
            use_type_invariant(&*self);
        }
        if self.awaits_problem() {
            self.phase = Phase::Asking(problem);
        }
    }

    /// Hands the batch the line that the user entered, and says what to
    /// show in reply.
    pub fn answer(&mut self, line: &str) -> (shown: String)
        ensures
            final(self)@ == old(self)@.answered(line@),
            shown@ == old(self)@.reply(line@),
    {
        proof {
            use_type_invariant(&*self);
        }
        match &self.phase {
            Phase::Asking(problem) => {
                let expected: i32 = problem.answer;
                match parse_i32(line) {
                    None => write_complaint(line),
                    Some(given) => {
                        let mut tally = self.tally;
                        tally.record(given == expected);
                        let remaining: u32 = self.remaining - 1;
                        if remaining > 0 {
                            *self = Batch { remaining, tally, phase: Phase::Posing };
                            String::new()
                        } else {
                            *self = Batch { remaining, tally, phase: Phase::Acknowledging };
                            write_closing(tally)
                        }
                    },
                }
            },
            Phase::Acknowledging => {
                self.phase = Phase::Done;
                String::new()
            },
            _ => String::new(),
        }
    }
}

/// A batch begins in step with its number of problems and stays in step
/// whatever it is handed; so once it sums up, it has graded exactly as
/// many answers as it had problems.
pub proof fn lemma_batch_stays_in_step(
    batch: BatchView,
    count: nat,
    problem: ProblemView,
    line: Seq<char>,
)
    ensures
        BatchView::begun(count).in_step(count),
        batch.in_step(count) ==> batch.posed(problem).in_step(count),
        batch.in_step(count) ==> batch.answered(line).in_step(count),
        batch.in_step(count) && (batch.stage is Acknowledging || batch.stage is Done)
            ==> batch.tally.total() == count,
{
}

/// An answer that is no number is complained about and changes nothing:
/// the same problem is asked again, and no answer is counted.
pub proof fn lemma_malformed_answer(batch: BatchView, line: Seq<char>)
    requires
        batch.stage is Asking,
        signed_numeral(line) is None,
    ensures
        batch.answered(line) == batch,
        batch.reply(line) == complaint(line),
{
}

/// An answer that is a number is counted once, as correct if and only if
/// it equals the answer of the problem that was asked.
pub proof fn lemma_graded_answer(batch: BatchView, line: Seq<char>)
    requires
        batch.stage is Asking,
        batch.remaining > 0,
        signed_numeral(line) is Some,
    ensures
        batch.answered(line).remaining == batch.remaining - 1,
        batch.answered(line).tally.total() == batch.tally.total() + 1,
        batch.answered(line).tally.correct == batch.tally.correct + (if signed_numeral(line)
            == Some(batch.stage->Asking_0.answer) {
            1nat
        } else {
            0nat
        }),
{
}

} // verus!
