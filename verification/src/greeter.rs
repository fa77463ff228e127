//! What a newly connected user is asked to do before taking part.

use vstd::prelude::*;

verus! {

/// One step of onboarding a new user.
#[derive(Clone, Copy, Debug, PartialEq, Eq, Structural)]
pub enum OnboardingTask {
    /// Subscribe the user to updates of the sign-up list.
    SubscribeToSignupList,
}

/// The onboarding steps, in the order they are done.
#[derive(Clone, Debug)]
pub struct OnboardingChecklist(Vec<OnboardingTask>);

impl View for OnboardingChecklist {
    type V = Seq<OnboardingTask>;

    closed spec fn view(&self) -> Seq<OnboardingTask> {
        self.0@
    }
}

/// The checklist every new user gets.
pub open spec fn standard_checklist() -> Seq<OnboardingTask> {
    seq![OnboardingTask::SubscribeToSignupList]
}

impl OnboardingChecklist {
    /// The checklist every new user gets: subscribe to the sign-up list.
    pub fn new() -> (res: Self)
        ensures
            res@ == standard_checklist(),
    {
        let mut tasks: Vec<OnboardingTask> = Vec::new();
        tasks.push(OnboardingTask::SubscribeToSignupList);
        proof {
            assert(tasks@ =~= standard_checklist());
        }
        OnboardingChecklist(tasks)
    }

    /// The steps, in order.
    pub fn into_tasks(self) -> (res: Vec<OnboardingTask>)
        ensures
            res@ == self@,
    {
        self.0
    }
}

} // verus!
