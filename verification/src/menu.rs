//! The session: the menu, the number of problems per batch, and the
//! running score of every category.
//!
//! The session is a state machine over the lines that the user enters.
//! Whoever drives it shows the prompt of the current state, reads a
//! line, hands it over and prints the reply, until the session is over.

use crate::input::{parse_u32, unsigned_numeral};
use crate::problem::{Category, Problem, ProblemView};
use crate::runner::{complaint, write_complaint, Batch, BatchView};
use crate::score::{Score, Tally};
use crate::text::{decimal, render_unsigned};
use rand::rngs::ThreadRng;
use vstd::prelude::*;

verus! {

/// What a line entered at the menu asks for.
#[derive(Clone, Copy, Debug, PartialEq, Eq, Structural)]
pub enum Choice {
    /// `0`: set the number of problems per batch.
    SetCount,
    /// `1` to `9`: run a batch of the category at that place.
    Run(Category),
    /// `q`: leave.
    Quit,
    /// Anything else: nothing.
    Other,
}

/// What `line` asks for at the menu.
pub open spec fn choice(line: Seq<char>) -> Choice {
    if line.len() != 1 {
        Choice::Other
    } else if line[0] == '0' {
        Choice::SetCount
    } else if line[0] == '1' {
        Choice::Run(Category::TensPartners)
    } else if line[0] == '2' {
        Choice::Run(Category::Partners)
    } else if line[0] == '3' {
        Choice::Run(Category::AdditionToTen)
    } else if line[0] == '4' {
        Choice::Run(Category::AdditionToTwenty)
    } else if line[0] == '5' {
        Choice::Run(Category::AdditionToHundred)
    } else if line[0] == '6' {
        Choice::Run(Category::SubtractionToTen)
    } else if line[0] == '7' {
        Choice::Run(Category::SubtractionToTwenty)
    } else if line[0] == '8' {
        Choice::Run(Category::SubtractionToHundred)
    } else if line[0] == '9' {
        Choice::Run(Category::Mixed)
    } else if line[0] == 'q' {
        Choice::Quit
    } else {
        Choice::Other
    }
}

/// The name of a category in the menu.
pub open spec fn title(category: Category) -> Seq<char> {
    match category {
        Category::TensPartners => "Ten's partners"@,
        Category::Partners => "Partners between five and ten"@,
        Category::AdditionToTen => "Addition, up to ten"@,
        Category::AdditionToTwenty => "Addition, between 10 and 20"@,
        Category::AdditionToHundred => "Addition, over 20"@,
        Category::SubtractionToTen => "Subtraction, up to ten"@,
        Category::SubtractionToTwenty => "Subtraction, between 10 and 20"@,
        Category::SubtractionToHundred => "Subtraction, over 20"@,
        Category::Mixed => "Addition and subraction, up to 100"@,
    }
}

/// The place of a category's running score among the ten scores of a
/// session.
pub open spec fn slot(category: Category) -> int {
    category.number() - 1
}

/// The menu line of a category: its place, its name and its running
/// score.
pub open spec fn entry(category: Category, tally: Tally) -> Seq<char> {
    "("@ + decimal(category.number() as nat) + ")  "@ + title(category) + " ["@ + tally.text()
        + "]\n"@
}

/// The menu: how to choose, the number of problems per batch, and the
/// nine categories with their running scores.
pub open spec fn menu(count: nat, scores: Seq<Tally>) -> Seq<char> {
    "Enter a number, or 'q' to quit.\n"@
        + "\n"@
        + "(0)  Set number of problems [current: "@ + decimal(count) + "]\n"@
        + entry(Category::TensPartners, scores[0])
        + entry(Category::Partners, scores[1])
        + entry(Category::AdditionToTen, scores[2])
        + entry(Category::AdditionToTwenty, scores[3])
        + entry(Category::AdditionToHundred, scores[4])
        + entry(Category::SubtractionToTen, scores[5])
        + entry(Category::SubtractionToTwenty, scores[6])
        + entry(Category::SubtractionToHundred, scores[7])
        + entry(Category::Mixed, scores[8])
        + "\n"@
}

/// The line that greets the user by name, or as `there` without one.
pub open spec fn greeting_text(name: Option<Seq<char>>) -> Seq<char> {
    "Hello, "@ + (match name {
        Some(n) => n,
        None => "there"@,
    }) + "! Which exercise do you want to do?\n"@
}

/// What a session is busy with.
pub enum Activity {
    /// Showing the menu and waiting for a choice.
    Menu,
    /// Waiting for the new number of problems per batch.
    SettingCount,
    /// Running a batch of a category.
    Running { category: Category, batch: BatchView },
    /// Nothing: the user has left.
    Quit,
}

/// The mathematical content of a [`Trainer`].
pub struct TrainerView {
    /// The number of problems per batch.
    pub count: nat,
    /// The ten running scores; the score of a category stands at its
    /// [`slot`].
    pub scores: Seq<Tally>,
    pub activity: Activity,
}

impl TrainerView {
    /// A session as it starts: ten problems per batch, nothing answered,
    /// the menu showing.
    pub open spec fn initial() -> TrainerView {
        TrainerView {
            count: 10,
            scores: Seq::new(10, |i: int| Tally::zero()),
            activity: Activity::Menu,
        }
    }

    /// The category from which the session wants a problem drawn, if it
    /// waits for one.
    pub open spec fn wanted(self) -> Option<Category> {
        match self.activity {
            Activity::Running { category, batch } => if batch.stage is Posing {
                Some(category)
            } else {
                None
            },
            _ => None,
        }
    }

    /// Whether the running score has room for the batch that is about
    /// to be merged into it.
    pub open spec fn has_room(self) -> bool {
        match self.activity {
            Activity::Running { category, batch } => batch.stage is Acknowledging
                ==> self.scores[slot(category)].plus(batch.tally).representable(),
            _ => true,
        }
    }

    /// The session after `problem` is handed to it. Only a batch that
    /// waits for a problem takes it.
    pub open spec fn posed(self, problem: ProblemView) -> TrainerView {
        match self.activity {
            Activity::Running { category, batch } => TrainerView {
                activity: Activity::Running { category, batch: batch.posed(problem) },
                ..self
            },
            _ => self,
        }
    }

    /// The session after the user entered `line`.
    ///
    /// At the menu, `0` leads to setting the number of problems, `1` to
    /// `9` begin a batch of that category, `q` leaves, and anything else
    /// changes nothing. While the number of problems is being set, a
    /// number is stored and leads back to the menu, and anything else
    /// changes nothing. While a batch runs, the line goes to the batch;
    /// the line that acknowledges its summary merges its tally into the
    /// running score of its category and leads back to the menu.
    pub open spec fn entered(self, line: Seq<char>) -> TrainerView {
        match self.activity {
            Activity::Menu => match choice(line) {
                Choice::SetCount => TrainerView { activity: Activity::SettingCount, ..self },
                Choice::Run(category) => TrainerView {
                    activity: Activity::Running { category, batch: BatchView::begun(self.count) },
                    ..self
                },
                Choice::Quit => TrainerView { activity: Activity::Quit, ..self },
                Choice::Other => self,
            },
            Activity::SettingCount => match unsigned_numeral(line) {
                Some(count) => TrainerView {
                    count: count as nat,
                    activity: Activity::Menu,
                    ..self
                },
                None => self,
            },
            Activity::Running { category, batch } => if batch.stage is Acknowledging {
                TrainerView {
                    scores: self.scores.update(
                        slot(category),
                        self.scores[slot(category)].plus(batch.tally),
                    ),
                    activity: Activity::Menu,
                    ..self
                }
            } else {
                TrainerView {
                    activity: Activity::Running { category, batch: batch.answered(line) },
                    ..self
                }
            },
            Activity::Quit => self,
        }
    }

    /// What is shown in reply to `line`, before the next prompt.
    pub open spec fn reply(self, line: Seq<char>) -> Seq<char> {
        match self.activity {
            Activity::Menu => match choice(line) {
                Choice::Run(category) => BatchView::opening(self.count),
                _ => Seq::empty(),
            },
            Activity::SettingCount => if unsigned_numeral(line) is None {
                complaint(line)
            } else {
                Seq::empty()
            },
            Activity::Running { category, batch } => batch.reply(line),
            Activity::Quit => Seq::empty(),
        }
    }

    /// The text that asks for the next line.
    pub open spec fn prompt(self) -> Seq<char> {
        match self.activity {
            Activity::Menu => menu(self.count, self.scores) + "Enter your choice: "@,
            Activity::SettingCount => "Number of problems per exercise: "@,
            Activity::Running { category, batch } => batch.prompt(),
            Activity::Quit => Seq::empty(),
        }
    }
}

/// Reads a line entered at the menu.
pub fn read_choice(line: &str) -> (c: Choice)
    ensures
        c == choice(line@),
{
    if line.unicode_len() != 1 {
        return Choice::Other;
    }
    let key = line.get_char(0);
    if key == '0' {
        Choice::SetCount
    } else if key == '1' {
        Choice::Run(Category::TensPartners)
    } else if key == '2' {
        Choice::Run(Category::Partners)
    } else if key == '3' {
        Choice::Run(Category::AdditionToTen)
    } else if key == '4' {
        Choice::Run(Category::AdditionToTwenty)
    } else if key == '5' {
        Choice::Run(Category::AdditionToHundred)
    } else if key == '6' {
        Choice::Run(Category::SubtractionToTen)
    } else if key == '7' {
        Choice::Run(Category::SubtractionToTwenty)
    } else if key == '8' {
        Choice::Run(Category::SubtractionToHundred)
    } else if key == '9' {
        Choice::Run(Category::Mixed)
    } else if key == 'q' {
        Choice::Quit
    } else {
        Choice::Other
    }
}

/// The name of a category in the menu.
fn write_title(category: Category) -> (s: &'static str)
    ensures
        s@ == title(category),
{
    match category {
        Category::TensPartners => "Ten's partners",
        Category::Partners => "Partners between five and ten",
        Category::AdditionToTen => "Addition, up to ten",
        Category::AdditionToTwenty => "Addition, between 10 and 20",
        Category::AdditionToHundred => "Addition, over 20",
        Category::SubtractionToTen => "Subtraction, up to ten",
        Category::SubtractionToTwenty => "Subtraction, between 10 and 20",
        Category::SubtractionToHundred => "Subtraction, over 20",
        Category::Mixed => "Addition and subraction, up to 100",
    }
}

/// Writes the menu line of a category.
fn write_entry(category: Category, score: Score) -> (s: String)
    ensures
        s@ == entry(category, score@),
{
    let mut s = String::from_str("(");
    s.append(render_unsigned(category.number() as u64).as_str());
    s.append(")  ");
    s.append(write_title(category));
    s.append(" [");
    s.append(score.format().as_str());
    s.append("]\n");
    s
}

/// Writes the line that greets the user by name, or as `there` without
/// one.
pub fn greeting(name: Option<&str>) -> (s: String)
    ensures
        s@ == greeting_text(
            match name {
                Some(n) => Some(n@),
                None => None,
            },
        ),
{
    let mut s = String::from_str("Hello, ");
    match name {
        Some(n) => s.append(n),
        None => s.append("there"),
    }
    s.append("! Which exercise do you want to do?\n");
    s
}

enum Mode {
    Menu,
    SettingCount,
    Running(Category, Batch),
    Quit,
}

/// A session of drills.
pub struct Trainer {
    count: u32,
    scores: [Score; 10],
    mode: Mode,
}

impl View for Trainer {
    type V = TrainerView;

    closed spec fn view(&self) -> TrainerView {
        TrainerView {
            count: self.count as nat,
            scores: Seq::new(10, |i: int| self.scores@[i]@),
            activity: match self.mode {
                Mode::Menu => Activity::Menu,
                Mode::SettingCount => Activity::SettingCount,
                Mode::Running(category, batch) => Activity::Running { category, batch: batch@ },
                Mode::Quit => Activity::Quit,
            },
        }
    }
}

impl Trainer {
    /// A session as it starts.
    pub fn new() -> (t: Trainer)
        ensures
            t@ == TrainerView::initial(),
    {
        let zero = Score::new();
        let t = Trainer { count: 10, scores: [zero;10], mode: Mode::Menu };
        assert(t@.scores =~= TrainerView::initial().scores);
        t
    }

    /// A session always keeps ten scores.
    pub proof fn lemma_ten_scores(&self)
        ensures
            self@.scores.len() == 10,
    {
    }

    /// The number of problems per batch.
    pub fn count(&self) -> (n: u32)
        ensures
            n == self@.count,
    {
        self.count
    }

    /// The ten running scores.
    pub fn scores(&self) -> (s: [Score; 10])
        ensures
            forall|i: int| 0 <= i < 10 ==> (#[trigger] s@[i])@ == self@.scores[i],
    {
        self.scores
    }

    /// The running score of a category.
    pub fn score(&self, category: Category) -> (s: Score)
        ensures
            s@ == self@.scores[slot(category)],
    {
        self.scores[(category.number() - 1) as usize]
    }

    /// Whether the user has left.
    pub fn is_finished(&self) -> (b: bool)
        ensures
            b == (self@.activity is Quit),
    {
        match &self.mode {
            Mode::Quit => true,
            _ => false,
        }
    }

    /// The category from which the session wants a problem drawn, if it
    /// waits for one.
    pub fn wanted(&self) -> (c: Option<Category>)
        ensures
            c == self@.wanted(),
    {
        match &self.mode {
            Mode::Running(category, batch) => if batch.awaits_problem() {
                Some(*category)
            } else {
                None
            },
            _ => None,
        }
    }

    /// Whether the running score has room for the batch that is about
    /// to be merged into it.
    pub fn has_room(&self) -> (b: bool)
        ensures
            b == self@.has_room(),
    {
        match &self.mode {
            Mode::Running(category, batch) => if batch.awaits_acknowledgment() {
                self.score(*category).has_room_for(batch.tally())
            } else {
                true
            },
            _ => true,
        }
    }

    /// The text that asks for the next line.
    pub fn prompt(&self) -> (s: String)
        ensures
            s@ == self@.prompt(),
    {
        match &self.mode {
            Mode::Menu => {
                let mut s = String::from_str("Enter a number, or 'q' to quit.\n");
                s.append("\n");
                s.append("(0)  Set number of problems [current: ");
                s.append(render_unsigned(self.count as u64).as_str());
                s.append("]\n");
                s.append(write_entry(Category::TensPartners, self.scores[0]).as_str());
                s.append(write_entry(Category::Partners, self.scores[1]).as_str());
                s.append(write_entry(Category::AdditionToTen, self.scores[2]).as_str());
                s.append(write_entry(Category::AdditionToTwenty, self.scores[3]).as_str());
                s.append(write_entry(Category::AdditionToHundred, self.scores[4]).as_str());
                s.append(write_entry(Category::SubtractionToTen, self.scores[5]).as_str());
                s.append(write_entry(Category::SubtractionToTwenty, self.scores[6]).as_str());
                s.append(write_entry(Category::SubtractionToHundred, self.scores[7]).as_str());
                s.append(write_entry(Category::Mixed, self.scores[8]).as_str());
                s.append("\n");
                s.append("Enter your choice: ");
                s
            },
            Mode::SettingCount => String::from_str("Number of problems per exercise: "),
            Mode::Running(category, batch) => batch.prompt(),
            Mode::Quit => String::new(),
        }
    }

    /// Hands the session the next problem of the running batch.
    pub fn pose(&mut self, problem: Problem)
        ensures
            final(self)@ == old(self)@.posed(problem@),
    {
        match &mut self.mode {
            Mode::Running(category, batch) => {
                batch.pose(problem);
            },
            _ => {},
        }
    }

    /// Hands the session the line that the user entered, and says what
    /// to show in reply.
    pub fn enter(&mut self, line: &str) -> (shown: String)
        requires
            old(self)@.has_room(),
        ensures
            final(self)@ == old(self)@.entered(line@),
            shown@ == old(self)@.reply(line@),
    {
        match &mut self.mode {
            Mode::Menu => match read_choice(line) {
                Choice::SetCount => {
                    self.mode = Mode::SettingCount;
                    String::new()
                },
                Choice::Run(category) => {
                    let (batch, shown) = Batch::begin(self.count);
                    self.mode = Mode::Running(category, batch);
                    shown
                },
                Choice::Quit => {
                    self.mode = Mode::Quit;
                    String::new()
                },
                Choice::Other => String::new(),
            },
            Mode::SettingCount => match parse_u32(line) {
                Some(count) => {
                    self.count = count;
                    self.mode = Mode::Menu;
                    String::new()
                },
                None => write_complaint(line),
            },
            Mode::Running(category, batch) => {
                if batch.awaits_acknowledgment() {
                    let tally = batch.tally();
                    let place: usize = (category.number() - 1) as usize;
                    let mut score = self.scores[place];
                    score.merge(tally);
                    self.scores[place] = score;
                    self.mode = Mode::Menu;
                    assert(self@.scores =~= old(self)@.entered(line@).scores);
                    String::new()
                } else {
                    batch.answer(line)
                }
            },
            Mode::Quit => String::new(),
        }
    }

    /// Hands the session the line that the user entered, draws the next
    /// problem if the session then waits for one, and says what to show
    /// in reply.
    pub fn respond(&mut self, line: &str, rng: &mut ThreadRng) -> (shown: String)
        requires
            old(self)@.has_room(),
        ensures
            shown@ == old(self)@.reply(line@),
            match old(self)@.entered(line@).wanted() {
                Some(category) => exists|problem: ProblemView| #[trigger]
                    category.poses(problem) && final(self)@ == old(self)@.entered(line@).posed(
                        problem,
                    ),
                None => final(self)@ == old(self)@.entered(line@),
            },
    {
        let shown = self.enter(line);
        match self.wanted() {
            Some(category) => {
                let problem = category.generate(rng);
                self.pose(problem);
            },
            None => {},
        }
        shown
    }
}

/// Only the line that acknowledges the summary of a batch changes a
/// score, and only the score of the batch's category: it grows by the
/// tally of the batch. Any other line leaves the ten scores as they were.
pub proof fn lemma_entered_scores(session: TrainerView, line: Seq<char>)
    requires
        session.scores.len() == 10,
    ensures
        session.entered(line).scores.len() == 10,
        match session.activity {
            Activity::Running { category, batch } => if batch.stage is Acknowledging {
                forall|i: int|
                    0 <= i < 10 ==> #[trigger] session.entered(line).scores[i] == if i == slot(
                        category,
                    ) {
                        session.scores[i].plus(batch.tally)
                    } else {
                        session.scores[i]
                    }
            } else {
                session.entered(line).scores == session.scores
            },
            _ => session.entered(line).scores == session.scores,
        },
{
}

/// The number of problems per batch changes only when the session waits
/// for it and is handed a number; it is then that number.
pub proof fn lemma_entered_count(session: TrainerView, line: Seq<char>)
    ensures
        session.entered(line).count == if session.activity is SettingCount {
            match unsigned_numeral(line) {
                Some(count) => count as nat,
                None => session.count,
            }
        } else {
            session.count
        },
{
}

/// Once the user has left, nothing changes the session and nothing more
/// is shown.
pub proof fn lemma_quit_is_final(session: TrainerView, line: Seq<char>, problem: ProblemView)
    requires
        session.activity is Quit,
    ensures
        session.entered(line) == session,
        session.posed(problem) == session,
        session.reply(line) == Seq::<char>::empty(),
        session.prompt() == Seq::<char>::empty(),
        session.wanted() is None,
{
}

} // verus!
