use crate::readout::readout_text;
use crate::timing::{millis_of, span_of, RenderTime};
use instant::Instant;
use vstd::prelude::*;

verus! {

/// A goal as the contracts see it.
pub struct GoalView {
    pub name: Seq<char>,
    pub quantity: int,
    pub started: int,
    pub complete: int,
}

/// A goal entered by the user. Only the name is ever set; the counters start
/// and stay at zero.
#[derive(Debug)]
pub struct Goal {
    pub name: String,
    pub quantity: i64,
    pub started: i64,
    pub complete: i64,
}

impl Goal {
    /// The goal as the contracts see it.
    pub open spec fn model(&self) -> GoalView {
        GoalView {
            name: self.name@,
            quantity: self.quantity as int,
            started: self.started as int,
            complete: self.complete as int,
        }
    }
}

impl PartialEq for Goal {
    fn eq(&self, other: &Goal) -> (r: bool)
        ensures
            r == (self.model() == other.model()),
    {
        self.name == other.name && self.quantity == other.quantity && self.started
            == other.started && self.complete == other.complete
    }
}

impl vstd::std_specs::cmp::PartialEqSpecImpl for Goal {
    open spec fn obeys_eq_spec() -> bool {
        true
    }

    open spec fn eq_spec(&self, other: &Goal) -> bool {
        self.model() == other.model()
    }
}

/// The goal that a submission of `name` creates.
pub open spec fn new_goal(name: Seq<char>) -> GoalView {
    GoalView { name, quantity: 0, started: 0, complete: 0 }
}

/// The goal list after the goal `name` is created.
pub open spec fn with_goal(goals: Seq<GoalView>, name: Seq<char>) -> Seq<GoalView> {
    goals.push(new_goal(name))
}

impl Goal {
    /// A fresh goal of the given name.
    pub fn new(name: String) -> (r: Goal)
        ensures
            r.model() == new_goal(name@),
    {
        Goal { name, quantity: 0, started: 0, complete: 0 }
    }
}

/// What the goal list component reacts to.
pub enum Msg {
    CreateGoal(String),
}

/// The goal list component: the goals in the order they were created, and
/// the timing of the render under way.
pub struct App {
    pub goals: Vec<Goal>,
    pub render_time: RenderTime,
}

impl App {
    /// The goals, in order.
    pub open spec fn goals_view(&self) -> Seq<GoalView> {
        self.goals@.map_values(|g: Goal| g.model())
    }

    /// An empty goal list, with no render under way.
    pub fn create() -> (r: App)
        ensures
            r.goals_view() == Seq::<GoalView>::empty(),
            r.render_time.last_view is None,
    {
        let r = App { goals: Vec::new(), render_time: RenderTime::new() };
        assert(r.goals_view() =~= Seq::<GoalView>::empty());
        r
    }

    /// Handles a message: `CreateGoal(name)` appends a fresh goal of that
    /// name. Returns whether the view must be drawn again, which it always
    /// must.
    pub fn update(&mut self, msg: Msg) -> (r: bool)
        ensures
            r,
            final(self).render_time == old(self).render_time,
            match msg {
                Msg::CreateGoal(name) => final(self).goals_view() == with_goal(
                    old(self).goals_view(),
                    name@,
                ),
            },
    {
        match msg {
            Msg::CreateGoal(name) => {
                let ghost name_view = name@;
                self.goals.push(Goal::new(name));
                assert(self.goals_view() =~= with_goal(old(self).goals_view(), name_view));
                true
            },
        }
    }

    /// Called as a view begins: records its start unless one is recorded.
    pub fn begin_view(&mut self)
        ensures
            final(self).goals == old(self).goals,
            final(self).render_time.last_view is Some,
            old(self).render_time.last_view is Some ==> final(self).render_time == old(
                self,
            ).render_time,
    {
        self.render_time.begin_view();
    }

    /// Called as a render completes, after a view has begun: the readout of
    /// the whole milliseconds from the recorded start to a clock reading
    /// taken now. The start is consumed.
    pub fn rendered(&mut self) -> (r: String)
        requires
            old(self).render_time.last_view is Some,
        ensures
            final(self).goals == old(self).goals,
            final(self).render_time.last_view is None,
            exists|now: Instant|
                r@ == readout_text(
                    millis_of(span_of(old(self).render_time.last_view->Some_0, now)),
                ),
    {
        self.render_time.finish_render()
    }
}

} // verus!
