use vstd::prelude::*;
use crate::cookies::CookieSet;
use crate::error::PinterestLoginError;

verus! {

/// The step of a login attempt that is to be performed next.
#[derive(Debug, Clone, Copy, PartialEq, Eq, Structural)]
pub enum Stage {
    /// Launch the browser session.
    Launch,
    /// Start the task that drains the session's event stream.
    SpawnDrain,
    /// Open the page at the login URL.
    OpenPage,
    /// Let the login bot fill the form.
    FillForm,
    /// Let the login bot submit the form.
    SubmitForm,
    /// Let the login bot check that the login succeeded.
    CheckLogin,
    /// Read the session's cookies.
    ReadCookies,
    /// Cancel the draining task.
    CancelDrain,
    /// Nothing is left to do.
    Finished,
}

/// What came of the step that was performed.
pub enum StepOutcome {
    /// The step succeeded.
    Done,
    /// The cookies were read (an outcome of `Stage::ReadCookies`; elsewhere it
    /// counts as `Done`).
    Cookies(CookieSet),
    /// The step failed.
    Failed(PinterestLoginError),
}

/// The state of one login attempt: which step comes next, whether the
/// draining task runs or ran, the first failure and the cookies read.
pub struct LoginAttempt {
    pub stage: Stage,
    pub drain_started: bool,
    pub failure: Option<PinterestLoginError>,
    pub cookies: Option<CookieSet>,
}

/// Steps between starting the draining task and cancelling it.
pub open spec fn is_working(st: Stage) -> bool {
    match st {
        Stage::OpenPage | Stage::FillForm | Stage::SubmitForm | Stage::CheckLogin
        | Stage::ReadCookies => true,
        _ => false,
    }
}

/// The step that follows a working step that succeeded.
pub open spec fn after(st: Stage) -> Stage {
    match st {
        Stage::OpenPage => Stage::FillForm,
        Stage::FillForm => Stage::SubmitForm,
        Stage::SubmitForm => Stage::CheckLogin,
        Stage::CheckLogin => Stage::ReadCookies,
        _ => Stage::CancelDrain,
    }
}

/// The attempt before anything was done.
pub open spec fn initial() -> LoginAttempt {
    LoginAttempt { stage: Stage::Launch, drain_started: false, failure: None, cookies: None }
}

/// The state after the current step came out as `o`. A failure before the
/// draining task runs ends the attempt at once; a failure after it goes to
/// the cancellation, which happens whatever its own outcome. Reading the
/// cookies may report none.
pub open spec fn next(s: LoginAttempt, o: StepOutcome) -> LoginAttempt {
    match s.stage {
        Stage::Launch | Stage::SpawnDrain => match o {
            StepOutcome::Failed(e) => LoginAttempt { stage: Stage::Finished, failure: Some(e), ..s },
            _ => if s.stage == Stage::Launch {
                LoginAttempt { stage: Stage::SpawnDrain, ..s }
            } else {
                LoginAttempt { stage: Stage::OpenPage, drain_started: true, ..s }
            },
        },
        Stage::CancelDrain => LoginAttempt { stage: Stage::Finished, ..s },
        Stage::Finished => s,
        _ => match o {
            StepOutcome::Failed(e) => LoginAttempt { stage: Stage::CancelDrain, failure: Some(e), ..s },
            StepOutcome::Cookies(c) => if s.stage == Stage::ReadCookies {
                LoginAttempt { stage: Stage::CancelDrain, cookies: Some(c), ..s }
            } else {
                LoginAttempt { stage: after(s.stage), ..s }
            },
            StepOutcome::Done => if s.stage == Stage::ReadCookies {
                LoginAttempt { stage: Stage::CancelDrain, ..s }
            } else {
                LoginAttempt { stage: after(s.stage), ..s }
            },
        },
    }
}

} // verus!
verus! {

/// Steps performed from state `s` as the outcomes `outs` come in, until the
/// attempt is finished or the outcomes run out.
pub open spec fn trace(s: LoginAttempt, outs: Seq<StepOutcome>) -> Seq<Stage>
    decreases outs.len(),
{
    if s.stage == Stage::Finished || outs.len() == 0 {
        Seq::empty()
    } else {
        seq![s.stage] + trace(next(s, outs[0]), outs.drop_first())
    }
}

/// The state reached from `s` as the outcomes `outs` come in.
pub open spec fn run(s: LoginAttempt, outs: Seq<StepOutcome>) -> LoginAttempt
    decreases outs.len(),
{
    if s.stage == Stage::Finished || outs.len() == 0 {
        s
    } else {
        run(next(s, outs[0]), outs.drop_first())
    }
}

/// How often a sequence of steps cancels the draining task.
pub open spec fn cancel_count(t: Seq<Stage>) -> nat
    decreases t.len(),
{
    if t.len() == 0 {
        0
    } else {
        (if t[0] == Stage::CancelDrain { 1nat } else { 0nat }) + cancel_count(t.drop_first())
    }
}

/// What the attempt has come to: nothing yet, its first failure, or the
/// cookies it read (none, where reading them reported none).
pub open spec fn result_of(s: LoginAttempt) -> Option<Result<Map<Seq<char>, Seq<char>>, PinterestLoginError>> {
    if s.stage != Stage::Finished {
        None
    } else {
        match s.failure {
            Some(e) => Some(Err(e)),
            None => match s.cookies {
                Some(c) => Some(Ok(c@)),
                None => Some(Ok(Map::empty())),
            },
        }
    }
}

impl LoginAttempt {
    /// How the fields fit the stage: the draining task runs from its start
    /// until the attempt is finished; cookies are held only when nothing failed.
    pub open spec fn wf(&self) -> bool {
        &&& (self.stage == Stage::Launch || self.stage == Stage::SpawnDrain) ==> !self.drain_started
            && self.failure is None && self.cookies is None
        &&& is_working(self.stage) ==> self.drain_started && self.failure is None && self.cookies is None
        &&& self.stage == Stage::CancelDrain ==> self.drain_started
        &&& self.failure is Some ==> self.cookies is None
        &&& self.cookies matches Some(c) ==> c.wf()
    }
}

/// The successive states of an attempt keep its fields consistent.
proof fn lemma_next_wf(s: LoginAttempt, o: StepOutcome)
    requires
        s.wf(),
        o matches StepOutcome::Cookies(c) ==> c.wf(),
    ensures
        next(s, o).wf(),
{
}

/// Cancellations still owed by state `s`.
pub open spec fn owed(s: LoginAttempt) -> nat {
    if s.drain_started && s.stage != Stage::Finished { 1 } else { 0 }
}

/// Each cookie set among the outcomes is well formed.
pub open spec fn outcomes_wf(outs: Seq<StepOutcome>) -> bool {
    forall|i: int| 0 <= i < outs.len() ==> (#[trigger] outs[i] matches StepOutcome::Cookies(c) ==> c.wf())
}

proof fn lemma_run(s: LoginAttempt, outs: Seq<StepOutcome>)
    requires
        s.wf(),
        outcomes_wf(outs),
    ensures
        run(s, outs).stage == Stage::Finished ==> cancel_count(trace(s, outs)) == owed(s) + (if run(
            s,
            outs,
        ).drain_started && !s.drain_started { 1nat } else { 0nat }),
        cancel_count(trace(s, outs)) <= 1,
        s.drain_started ==> run(s, outs).drain_started,
        s.failure is Some ==> run(s, outs).failure == s.failure,
    decreases outs.len(),
{
    if s.stage == Stage::Finished || outs.len() == 0 {
        assert(cancel_count(Seq::<Stage>::empty()) == 0);
    } else {
        let s2 = next(s, outs[0]);
        let t = trace(s, outs);
        assert(t.drop_first() =~= trace(s2, outs.drop_first()));
        assert(outcomes_wf(outs.drop_first())) by {
            assert forall|i: int| 0 <= i < outs.drop_first().len() implies (#[trigger] outs.drop_first()[i] matches StepOutcome::Cookies(c) ==> c.wf()) by {
                assert(outs.drop_first()[i] == outs[i + 1]);
            }
        }
        assert(outs[0] matches StepOutcome::Cookies(c) ==> c.wf());
        lemma_next_wf(s, outs[0]);
        lemma_run(s2, outs.drop_first());
    }
}

} // verus!
verus! {

/// The steps of an attempt in which every step succeeds.
pub open spec fn all_steps() -> Seq<Stage> {
    seq![
        Stage::Launch,
        Stage::SpawnDrain,
        Stage::OpenPage,
        Stage::FillForm,
        Stage::SubmitForm,
        Stage::CheckLogin,
        Stage::ReadCookies,
        Stage::CancelDrain,
    ]
}

/// The position of a step in `all_steps`.
pub open spec fn position(st: Stage) -> int {
    match st {
        Stage::Launch => 0,
        Stage::SpawnDrain => 1,
        Stage::OpenPage => 2,
        Stage::FillForm => 3,
        Stage::SubmitForm => 4,
        Stage::CheckLogin => 5,
        Stage::ReadCookies => 6,
        Stage::CancelDrain => 7,
        Stage::Finished => 8,
    }
}

/// The draining task is cancelled exactly once in every attempt that started
/// it, whichever step failed, and never in one that did not start it.
pub proof fn lemma_drain_cancelled_once(outs: Seq<StepOutcome>)
    requires
        outcomes_wf(outs),
        run(initial(), outs).stage == Stage::Finished,
    ensures
        cancel_count(trace(initial(), outs)) == (if run(initial(), outs).drain_started { 1nat } else { 0nat }),
{
    lemma_run(initial(), outs);
}

/// A failing step ends the attempt with its error: after the draining task
/// started, the task is cancelled and nothing else is done; before that,
/// nothing else is done at all.
pub proof fn lemma_failure_ends_attempt(s: LoginAttempt, e: PinterestLoginError, outs: Seq<StepOutcome>)
    requires
        s.wf(),
        s.stage != Stage::CancelDrain,
        s.stage != Stage::Finished,
    ensures
        is_working(s.stage) && outs.len() > 0 ==> trace(next(s, StepOutcome::Failed(e)), outs) == seq![Stage::CancelDrain],
        !is_working(s.stage) ==> trace(next(s, StepOutcome::Failed(e)), outs).len() == 0,
        is_working(s.stage) && outs.len() > 0 || !is_working(s.stage) ==> result_of(
            run(next(s, StepOutcome::Failed(e)), outs),
        ) == Some(Err::<Map<Seq<char>, Seq<char>>, PinterestLoginError>(e)),
{
    let s2 = next(s, StepOutcome::Failed(e));
    if is_working(s.stage) && outs.len() > 0 {
        let s3 = next(s2, outs[0]);
        assert(s3.stage == Stage::Finished);
        assert(trace(s3, outs.drop_first()) =~= Seq::<Stage>::empty());
        assert(trace(s2, outs) =~= seq![Stage::CancelDrain]);
        assert(run(s3, outs.drop_first()) == s3);
        assert(run(s2, outs) == s3);
    } else if !is_working(s.stage) {
        assert(run(s2, outs) == s2);
    }
}

/// An attempt that ends in success went through every step in order, each
/// succeeding: in particular the login check passed before the cookies were read.
pub proof fn lemma_success_took_every_step(outs: Seq<StepOutcome>)
    requires
        outcomes_wf(outs),
        result_of(run(initial(), outs)) matches Some(Ok(_)),
    ensures
        trace(initial(), outs) == all_steps(),
{
    lemma_success_from(initial(), outs);
}

proof fn lemma_success_from(s: LoginAttempt, outs: Seq<StepOutcome>)
    requires
        s.wf(),
        s.failure is None,
        s.stage != Stage::Finished,
        outcomes_wf(outs),
        result_of(run(s, outs)) matches Some(Ok(_)),
    ensures
        trace(s, outs) == all_steps().subrange(position(s.stage), 8),
    decreases outs.len(),
{
    if outs.len() == 0 {
    } else {
        let s2 = next(s, outs[0]);
        let rest = outs.drop_first();
        assert(outcomes_wf(rest)) by {
            assert forall|i: int| 0 <= i < rest.len() implies (#[trigger] rest[i] matches StepOutcome::Cookies(c) ==> c.wf()) by {
                assert(rest[i] == outs[i + 1]);
            }
        }
        assert(outs[0] matches StepOutcome::Cookies(c) ==> c.wf());
        lemma_next_wf(s, outs[0]);
        lemma_run(s2, rest);
        if s2.stage == Stage::Finished {
            assert(trace(s2, rest) =~= Seq::<Stage>::empty());
            assert(trace(s, outs) =~= all_steps().subrange(position(s.stage), 8));
        } else {
            lemma_success_from(s2, rest);
            assert(trace(s, outs) =~= all_steps().subrange(position(s.stage), 8));
        }
    }
}

} // verus!
verus! {

impl LoginAttempt {
    /// A login attempt before anything was done: the browser is to be launched.
    pub fn new() -> (r: Self)
        ensures
            r == initial(),
            r.wf(),
    {
        LoginAttempt { stage: Stage::Launch, drain_started: false, failure: None, cookies: None }
    }

    /// Records what came of the current step and moves to the next one.
    pub fn advance(&mut self, outcome: StepOutcome)
        requires
            outcome matches StepOutcome::Cookies(c) ==> c.wf(),
        ensures
            *final(self) == next(*old(self), outcome),
            old(self).wf() ==> final(self).wf(),
    {
        proof {
            if self.wf() {
                lemma_next_wf(*self, outcome);
            }
        }
        match self.stage {
            Stage::Launch | Stage::SpawnDrain => match outcome {
                StepOutcome::Failed(e) => {
                    self.stage = Stage::Finished;
                    self.failure = Some(e);
                },
                _ => {
                    if self.stage == Stage::Launch {
                        self.stage = Stage::SpawnDrain;
                    } else {
                        self.stage = Stage::OpenPage;
                        self.drain_started = true;
                    }
                },
            },
            Stage::CancelDrain => {
                self.stage = Stage::Finished;
            },
            Stage::Finished => {},
            _ => match outcome {
                StepOutcome::Failed(e) => {
                    self.stage = Stage::CancelDrain;
                    self.failure = Some(e);
                },
                StepOutcome::Cookies(c) => {
                    if self.stage == Stage::ReadCookies {
                        self.stage = Stage::CancelDrain;
                        self.cookies = Some(c);
                    } else {
                        self.stage = step_after(self.stage);
                    }
                },
                StepOutcome::Done => {
                    if self.stage == Stage::ReadCookies {
                        self.stage = Stage::CancelDrain;
                    } else {
                        self.stage = step_after(self.stage);
                    }
                },
            },
        }
    }

    /// What the attempt came to, once it is finished: its first failure, or
    /// the cookies it read (an empty set where reading them reported none).
    pub fn finish(self) -> (r: Option<Result<CookieSet, PinterestLoginError>>)
        ensures
            r is None <==> result_of(self) is None,
            r matches Some(Err(e)) ==> result_of(self) == Some(
                Err::<Map<Seq<char>, Seq<char>>, PinterestLoginError>(e),
            ),
            r matches Some(Ok(c)) ==> (self.wf() ==> c.wf()) && result_of(self) == Some(
                Ok::<Map<Seq<char>, Seq<char>>, PinterestLoginError>(c@),
            ),
    {
        if self.stage != Stage::Finished {
            return None;
        }
        match self.failure {
            Some(e) => Some(Err(e)),
            None => match self.cookies {
                Some(c) => Some(Ok(c)),
                None => Some(Ok(CookieSet::new())),
            },
        }
    }
}

/// The step that follows a working step that succeeded.
fn step_after(st: Stage) -> (r: Stage)
    ensures
        r == after(st),
{
    match st {
        Stage::OpenPage => Stage::FillForm,
        Stage::FillForm => Stage::SubmitForm,
        Stage::SubmitForm => Stage::CheckLogin,
        Stage::CheckLogin => Stage::ReadCookies,
        _ => Stage::CancelDrain,
    }
}

} // verus!
