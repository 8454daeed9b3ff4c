//! The stages of a test run, from finding the package to running its tests.
use vstd::prelude::*;

verus! {

/// A stage of the test run.
#[derive(Debug, Clone, Copy, PartialEq, Eq, Structural)]
pub enum Stage {
    /// Find the package to test.
    FindPackage,
    /// Find the parameter files of its tests.
    FindTests,
    /// Copy the program under test and, meanwhile, sort the parameter files.
    CopyAndSort,
    /// Make tests of the parameter files.
    Produce,
    /// Run the tests.
    Run,
    /// All stages went well.
    Done,
    /// A stage went wrong.
    Failed,
}

impl Stage {
    /// The stage is the last one.
    pub open spec fn is_end(self) -> bool {
        self is Done || self is Failed
    }

    /// The stage after this one, given whether this one went well.
    pub open spec fn successor(self, ok: bool) -> Stage {
        match self {
            Stage::Done => Stage::Done,
            Stage::Failed => Stage::Failed,
            _ => if !ok {
                Stage::Failed
            } else {
                match self {
                    Stage::FindPackage => Stage::FindTests,
                    Stage::FindTests => Stage::CopyAndSort,
                    Stage::CopyAndSort => Stage::Produce,
                    Stage::Produce => Stage::Run,
                    _ => Stage::Done,
                }
            },
        }
    }

    /// The stage that is reached, given how each stage went.
    pub open spec fn reached(self, went_well: Seq<bool>) -> Stage
        decreases went_well.len(),
    {
        if went_well.len() == 0 {
            self
        } else {
            self.reached(went_well.drop_last()).successor(went_well.last())
        }
    }

    /// What is told before the stage begins.
    pub open spec fn announcement(self) -> Option<Seq<char>> {
        match self {
            Stage::FindPackage => Some("parsing cargo workspace"@),
            Stage::FindTests => Some("parsing tests"@),
            Stage::CopyAndSort => Some("copying executable to `tests/` directory and parsing tests"@),
            Stage::Produce => Some("generating tests"@),
            Stage::Run => Some("running tests"@),
            Stage::Done | Stage::Failed => None,
        }
    }

    /// The first stage.
    pub fn start() -> (stage: Stage)
        ensures
            stage == Stage::FindPackage,
    {
        Stage::FindPackage
    }

    /// What is told before the stage begins.
    pub fn message(self) -> (message: Option<&'static str>)
        ensures
            match message {
                Some(message) => self.announcement() == Some(message@),
                None => self.announcement() is None,
            },
    {
        match self {
            Stage::FindPackage => Some("parsing cargo workspace"),
            Stage::FindTests => Some("parsing tests"),
            Stage::CopyAndSort => Some("copying executable to `tests/` directory and parsing tests"),
            Stage::Produce => Some("generating tests"),
            Stage::Run => Some("running tests"),
            Stage::Done | Stage::Failed => None,
        }
    }

    /// Goes on to the next stage, given whether this one went well.
    pub fn next(&mut self, ok: bool)
        ensures
            *final(self) == old(self).successor(ok),
    {
        *self = match *self {
            Stage::Done => Stage::Done,
            Stage::Failed => Stage::Failed,
            _ if !ok => Stage::Failed,
            Stage::FindPackage => Stage::FindTests,
            Stage::FindTests => Stage::CopyAndSort,
            Stage::CopyAndSort => Stage::Produce,
            Stage::Produce => Stage::Run,
            Stage::Run => Stage::Done,
        };
    }

    /// The run is done exactly if its five stages went well.
    pub proof fn done_after_five_good_stages(went_well: Seq<bool>)
        requires
            went_well.len() == 5,
        ensures
            Stage::FindPackage.reached(went_well) is Done <==> forall|i: int| 0 <= i < 5 ==> #[trigger] went_well[i],
            Stage::FindPackage.reached(went_well).is_end(),
    {
        reveal_with_fuel(Stage::reached, 6);
        let w4 = went_well.drop_last();
        let w3 = w4.drop_last();
        let w2 = w3.drop_last();
        let w1 = w2.drop_last();
        assert(w1.last() == went_well[0]);
        assert(w2.last() == went_well[1]);
        assert(w3.last() == went_well[2]);
        assert(w4.last() == went_well[3]);
        assert(went_well.last() == went_well[4]);
    }

    /// Nothing comes after a failure.
    pub proof fn failure_is_final(self, before: Seq<bool>, after: Seq<bool>)
        requires
            self.reached(before) is Failed,
        ensures
            self.reached(before + after) is Failed,
        decreases after.len(),
    {
        if after.len() == 0 {
            assert(before + after =~= before);
        } else {
            self.failure_is_final(before, after.drop_last());
            assert((before + after).drop_last() =~= before + after.drop_last());
        }
    }
}

/// Why the copy of the program and the sorted parameter files are not both there.
#[derive(Debug, PartialEq, Eq)]
pub enum JoinError<E, J> {
    /// The program could not be copied.
    Copy(E),
    /// One of the two tasks did not end by itself.
    Task(J),
}

impl<E, J> JoinError<E, J> {
    /// What went wrong, in words, where the failed copy has not said so already.
    pub open spec fn text(self) -> Option<Seq<char>> {
        match self {
            JoinError::Copy(_) => None,
            JoinError::Task(_) => Some(
                "failed to manage tasks to sort tests and copy the target executable object"@,
            ),
        }
    }

    /// What went wrong, in words, where the failed copy has not said so already.
    pub fn message(&self) -> (message: Option<&'static str>)
        ensures
            match message {
                Some(message) => self.text() == Some(message@),
                None => self.text() is None,
            },
    {
        match self {
            JoinError::Copy(_) => None,
            JoinError::Task(_) => Some(
                "failed to manage tasks to sort tests and copy the target executable object",
            ),
        }
    }
}

/// Waits for both: the sorted parameter files, and the name of the copied program.
pub fn join_copy<T, X, E, J>(joined: Result<(T, Result<X, E>), J>) -> (r: Result<(T, X), JoinError<E, J>>)
    ensures
        r == (match joined {
            Ok((tests, Ok(exe))) => Ok((tests, exe)),
            Ok((_, Err(e))) => Err(JoinError::Copy(e)),
            Err(e) => Err(JoinError::Task(e)),
        }),
{
    match joined {
        Ok((tests, Ok(exe))) => Ok((tests, exe)),
        Ok((_, Err(e))) => Err(JoinError::Copy(e)),
        Err(e) => Err(JoinError::Task(e)),
    }
}

/// The stages follow one another in this order while all goes well; a failure ends the run; and an end stays.
pub proof fn the_stages_follow_one_another(stage: Stage)
    ensures
        Stage::FindPackage.successor(true) == Stage::FindTests,
        Stage::FindTests.successor(true) == Stage::CopyAndSort,
        Stage::CopyAndSort.successor(true) == Stage::Produce,
        Stage::Produce.successor(true) == Stage::Run,
        Stage::Run.successor(true) == Stage::Done,
        !(stage is Done) ==> stage.successor(false) == Stage::Failed,
        Stage::Done.successor(false) == Stage::Done,
        Stage::Done.successor(true) == Stage::Done,
        Stage::Failed.successor(true) == Stage::Failed,
{
}

/// The stage that is reached is reached step by step.
pub proof fn stages_are_taken_one_by_one(stage: Stage, went_well: Seq<bool>, ok: bool)
    ensures
        stage.reached(went_well.push(ok)) == stage.reached(went_well).successor(ok),
        stage.reached(Seq::empty()) == stage,
{
    assert(went_well.push(ok).drop_last() =~= went_well);
}

} // verus!
