//! Goal tracking: the goal list component's state and transitions, the
//! render-timing readout, and the settings of the static asset server.

mod goals;
mod input;
mod readout;
mod server;
mod timing;

pub use goals::{new_goal, with_goal, App, Goal, GoalView, Msg};
pub use input::{
    after_submissions, click_message, click_step, is_submit_key, keypress_message, keypress_step,
    lemma_field_empty_after_submission, lemma_other_key_changes_nothing,
    lemma_submission_appends_one, lemma_submission_order, submit_key, InputField,
};
pub use readout::{
    decimal, digit_char, lemma_readout_non_negative, push_decimal, readout_text, render_time_text,
};
pub use server::{SiteConfig, PORT};
pub use timing::{millis_of, span_of, RenderTime};
