use crate::goals::{new_goal, with_goal, App, GoalView, Msg};
use vstd::prelude::*;

verus! {

/// The text field in which a goal's name is typed.
pub struct InputField {
    pub value: String,
}

/// The key that submits the text field.
pub open spec fn submit_key() -> Seq<char> {
    "Enter"@
}

/// Goal list and field text after a key is pressed in the field: the submit
/// key creates a goal of the field's text and clears the field; any other key
/// changes nothing.
pub open spec fn keypress_step(goals: Seq<GoalView>, field: Seq<char>, key: Seq<char>) -> (
    Seq<GoalView>,
    Seq<char>,
) {
    if key == submit_key() {
        (with_goal(goals, field), Seq::empty())
    } else {
        (goals, field)
    }
}

/// Goal list and field text after the create button is clicked: a goal of
/// the field's text is created and the field is cleared.
pub open spec fn click_step(goals: Seq<GoalView>, field: Seq<char>) -> (
    Seq<GoalView>,
    Seq<char>,
) {
    (with_goal(goals, field), Seq::empty())
}

/// The goal list after the given names are submitted in turn.
pub open spec fn after_submissions(goals: Seq<GoalView>, names: Seq<Seq<char>>) -> Seq<GoalView>
    decreases names.len(),
{
    if names.len() == 0 {
        goals
    } else {
        click_step(after_submissions(goals, names.drop_last()), names.last()).0
    }
}

impl InputField {
    /// A field holding `value`.
    pub fn new(value: String) -> (r: InputField)
        ensures
            r.value@ == value@,
    {
        InputField { value }
    }

    /// Reads the field's text and clears it.
    pub fn take_value(&mut self) -> (r: String)
        ensures
            r@ == old(self).value@,
            final(self).value@ == Seq::<char>::empty(),
    {
        let mut r = String::new();
        core::mem::swap(&mut r, &mut self.value);
        r
    }
}

/// Whether `key` is the key that submits the field.
pub fn is_submit_key(key: &str) -> (r: bool)
    ensures
        r == (key@ == submit_key()),
{
    String::from_str(key) == String::from_str("Enter")
}

/// The message for a key pressed in the field: the submit key takes the
/// field's text into a `CreateGoal`, clearing the field; any other key gives
/// no message and leaves the field alone.
pub fn keypress_message(key: &str, field: &mut InputField) -> (r: Option<Msg>)
    ensures
        key@ == submit_key() ==> (r matches Some(Msg::CreateGoal(name)) && name@ == old(
            field,
        ).value@),
        key@ == submit_key() ==> final(field).value@ == Seq::<char>::empty(),
        key@ != submit_key() ==> r is None && *final(field) == *old(field),
{
    if is_submit_key(key) {
        Some(Msg::CreateGoal(field.take_value()))
    } else {
        None
    }
}

/// The message for a click of the create button: the field's text goes into
/// a `CreateGoal` and the field is cleared.
pub fn click_message(field: &mut InputField) -> (r: Msg)
    ensures
        r matches Msg::CreateGoal(name) && name@ == old(field).value@,
        final(field).value@ == Seq::<char>::empty(),
{
    Msg::CreateGoal(field.take_value())
}

impl App {
    /// A key pressed in the field, carried through to the goal list. Returns
    /// whether the view must be drawn again.
    pub fn submit_keypress(&mut self, key: &str, field: &mut InputField) -> (r: bool)
        ensures
            (final(self).goals_view(), final(field).value@) == keypress_step(
                old(self).goals_view(),
                old(field).value@,
                key@,
            ),
            final(self).render_time == old(self).render_time,
            r == (key@ == submit_key()),
    {
        match keypress_message(key, field) {
            Some(msg) => self.update(msg),
            None => false,
        }
    }

    /// A click of the create button, carried through to the goal list.
    /// Returns whether the view must be drawn again, which it always must.
    pub fn submit_click(&mut self, field: &mut InputField) -> (r: bool)
        ensures
            (final(self).goals_view(), final(field).value@) == click_step(
                old(self).goals_view(),
                old(field).value@,
            ),
            final(self).render_time == old(self).render_time,
            r,
    {
        let msg = click_message(field);
        self.update(msg)
    }
}

/// Submitting a non-empty text, by the submit key or by the button, adds
/// exactly one goal to the list, and that goal bears the submitted text.
pub proof fn lemma_submission_appends_one(goals: Seq<GoalView>, field: Seq<char>)
    requires
        field.len() > 0,
    ensures
        keypress_step(goals, field, submit_key()).0.len() == goals.len() + 1,
        keypress_step(goals, field, submit_key()).0.last().name == field,
        keypress_step(goals, field, submit_key()).0.subrange(0, goals.len() as int) == goals,
        click_step(goals, field).0.len() == goals.len() + 1,
        click_step(goals, field).0.last().name == field,
        click_step(goals, field).0.subrange(0, goals.len() as int) == goals,
{
    assert(with_goal(goals, field).subrange(0, goals.len() as int) =~= goals);
}

/// A key other than the submit key changes neither the goal list nor the
/// field.
pub proof fn lemma_other_key_changes_nothing(
    goals: Seq<GoalView>,
    field: Seq<char>,
    key: Seq<char>,
)
    requires
        key != submit_key(),
    ensures
        keypress_step(goals, field, key) == (goals, field),
{
}

/// After a submission, by the submit key or by the button, the field is
/// empty.
pub proof fn lemma_field_empty_after_submission(goals: Seq<GoalView>, field: Seq<char>)
    ensures
        keypress_step(goals, field, submit_key()).1 == Seq::<char>::empty(),
        click_step(goals, field).1 == Seq::<char>::empty(),
{
}

/// The goal list keeps the order of submission: after names are submitted in
/// turn, the earlier goals stand unchanged at the front, followed by one
/// fresh goal for each name, in the order the names came.
pub proof fn lemma_submission_order(goals: Seq<GoalView>, names: Seq<Seq<char>>)
    ensures
        after_submissions(goals, names).len() == goals.len() + names.len(),
        after_submissions(goals, names).subrange(0, goals.len() as int) == goals,
        forall|i: int|
            0 <= i < names.len() ==> #[trigger] after_submissions(goals, names)[goals.len() + i]
                == new_goal(names[i]),
    decreases names.len(),
{
    if names.len() > 0 {
        let prev = names.drop_last();
        lemma_submission_order(goals, prev);
        let r = after_submissions(goals, names);
        assert(r == after_submissions(goals, prev).push(new_goal(names.last())));
        assert(r.subrange(0, goals.len() as int) =~= goals) by {
            assert(after_submissions(goals, prev).subrange(0, goals.len() as int) == goals);
            assert forall|j: int| 0 <= j < goals.len() implies r.subrange(
                0,
                goals.len() as int,
            )[j] == goals[j] by {
                assert(after_submissions(goals, prev).subrange(0, goals.len() as int)[j]
                    == goals[j]);
            }
        }
        assert forall|i: int| 0 <= i < names.len() implies #[trigger] r[goals.len() + i]
            == new_goal(names[i]) by {
            if i < prev.len() {
                assert(prev[i] == names[i]);
                assert(after_submissions(goals, prev)[goals.len() + i] == new_goal(
                    prev[i],
                ));
            }
        }
    }
}

} // verus!
