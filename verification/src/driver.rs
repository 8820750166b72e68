//! The round over the batch files: one question for each file, and the
//! decision that its answer gives.

use vstd::prelude::*;
use vstd::string::*;

verus! {

/// What to do with a batch file.
#[derive(Clone, Copy, Debug, PartialEq, Eq)]
pub enum Decision {
    /// Leave the file out.
    Skip,
    /// Distribute to the recipients of the file.
    Process,
}

/// The question for the batch file `file_name`, as text.
pub open spec fn prompt_text(file_name: Seq<char>) -> Seq<char> {
    "Processing "@ + file_name + " ~ Continue [y/n]?\n"@
}

/// Whether an answer declines: it begins with `n` or `N`.
pub open spec fn declined(answer: Seq<char>) -> bool {
    answer.len() > 0 && (answer[0] == 'n' || answer[0] == 'N')
}

/// The question to put before the batch file `file_name` is processed.
pub fn prompt(file_name: &str) -> (r: String)
    ensures
        r@ == prompt_text(file_name@),
{
    let mut text = "Processing ".to_owned();
    text.append(file_name);
    text.append(" ~ Continue [y/n]?\n");
    text
}

/// The decision that `answer` gives: to skip where it begins with `n` or `N`,
/// to process on any other answer, the empty one too.
pub fn decide(answer: &str) -> (r: Decision)
    ensures
        r == if declined(answer@) {
            Decision::Skip
        } else {
            Decision::Process
        },
{
    if answer.is_empty() {
        return Decision::Process;
    }
    let first = answer.get_char(0);
    if first == 'n' || first == 'N' {
        Decision::Skip
    } else {
        Decision::Process
    }
}

/// The round over the batch files of one directory, in the order in which
/// they were listed.
pub struct Driver {
    files: Vec<String>,
    position: usize,
}

/// A round as plain values: the names of the files, and how many of them
/// have been decided.
pub struct DriverView {
    pub files: Seq<Seq<char>>,
    pub position: nat,
}

impl DriverView {
    /// The file that is up for decision, or `None` when every file has been
    /// decided.
    pub open spec fn current(self) -> Option<Seq<char>> {
        if self.position < self.files.len() {
            Some(self.files[self.position as int])
        } else {
            None
        }
    }

    /// The round after the answer to the question for the current file: it
    /// turns to the next file. A round that is over stays as it is.
    pub open spec fn next(self) -> DriverView {
        if self.position < self.files.len() {
            DriverView { position: self.position + 1, ..self }
        } else {
            self
        }
    }

    /// The round after `n` answers.
    pub open spec fn after(self, n: nat) -> DriverView
        decreases n,
    {
        if n == 0 {
            self
        } else {
            self.after((n - 1) as nat).next()
        }
    }
}

impl View for Driver {
    type V = DriverView;

    closed spec fn view(&self) -> DriverView {
        DriverView {
            files: self.files@.map_values(|name: String| name@),
            position: self.position as nat,
        }
    }
}

impl Driver {
    #[verifier::type_invariant]
    spec fn inside(self) -> bool {
        self.position <= self.files.len()
    }

    /// A round over `files` with none of them decided.
    pub fn new(files: Vec<String>) -> (r: Driver)
        ensures
            r@.files == files@.map_values(|name: String| name@),
            r@.position == 0,
    {
        Driver { files, position: 0 }
    }

    /// The name of the file that is up for decision, or `None` when every
    /// file has been decided and the round is over.
    pub fn current(&self) -> (r: Option<&String>)
        ensures
            match r {
                Some(name) => self@.current() == Some(name@),
                None => self@.current().is_none(),
            },
            self@.position <= self@.files.len(),
    {
        proof {
            use_type_invariant(self);
        }
        if self.position < self.files.len() {
            Some(&self.files[self.position])
        } else {
            None
        }
    }

    /// Takes the answer to the question for the current file and turns to
    /// the next file. Returns the decision for the current file, or `None`
    /// where the round was over already.
    pub fn answer(self, reply: &str) -> (r: (Driver, Option<Decision>))
        ensures
            r.0@ == self@.next(),
            r.1 == match self@.current() {
                Some(_) => Some(
                    if declined(reply@) {
                        Decision::Skip
                    } else {
                        Decision::Process
                    },
                ),
                None => None,
            },
    {
        proof {
            use_type_invariant(&self);
        }
        if self.position < self.files.len() {
            let decision = decide(reply);
            let Driver { files, position } = self;
            (Driver { files, position: position + 1 }, Some(decision))
        } else {
            (self, None)
        }
    }
}

/// A round visits every file once, in the order of the listing, and then is
/// over: after `n` answers the file up for decision is the one listed at
/// place `n`, and there is none once `n` reaches the number of files.
pub proof fn law_round_visits_each_file_once(start: DriverView, n: nat)
    requires
        start.position == 0,
    ensures
        start.after(n).files == start.files,
        start.after(n).position == if n <= start.files.len() {
            n
        } else {
            start.files.len()
        },
        start.after(n).current() == if n < start.files.len() {
            Some(start.files[n as int])
        } else {
            None
        },
    decreases n,
{
    if n > 0 {
        law_round_visits_each_file_once(start, (n - 1) as nat);
    }
}

} // verus!
