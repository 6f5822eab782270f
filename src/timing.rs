use crate::readout::{readout_text, render_time_text};
use instant::Instant;
use vstd::prelude::*;

verus! {

#[verifier::external_type_specification]
#[verifier::external_body]
pub struct ExInstant(Instant);

/// Relies on `instant::Instant::now`: a reading of the monotonic clock.
/// Nothing is known of the value read.
#[verifier::external_body]
fn clock_now() -> (r: Instant) {
    Instant::now()
}

/// The time from `earlier` to `later`, as `Instant::saturating_duration_since`
/// computes it.
pub uninterp spec fn span_of(earlier: Instant, later: Instant) -> instant::Duration;

/// The whole milliseconds of a duration, as `Duration::as_millis` computes it.
pub uninterp spec fn millis_of(d: instant::Duration) -> nat;

/// Relies on `instant::Instant::saturating_duration_since`: the time from
/// `earlier` to `later`, zero where `later` comes first. It never panics, and
/// depends on its two arguments alone.
#[verifier::external_body]
fn time_between(earlier: &Instant, later: &Instant) -> (r: instant::Duration)
    ensures
        r == span_of(*earlier, *later),
{
    later.saturating_duration_since(*earlier)
}

/// Relies on `Duration::as_millis`: the whole milliseconds of a duration,
/// which depend on the duration alone.
#[verifier::external_body]
fn whole_millis(d: &instant::Duration) -> (r: u128)
    ensures
        r as nat == millis_of(*d),
{
    d.as_millis()
}

/// When the render under way began: set when a view starts, taken when the
/// render completes.
pub struct RenderTime {
    pub last_view: Option<Instant>,
}

impl RenderTime {
    /// No render under way.
    pub fn new() -> (r: RenderTime)
        ensures
            r.last_view is None,
    {
        RenderTime { last_view: None }
    }

    /// Records the start of a view, unless one is already recorded.
    pub fn begin_view(&mut self)
        ensures
            final(self).last_view is Some,
            old(self).last_view is Some ==> *final(self) == *old(self),
    {
        if self.last_view.is_none() {
            self.last_view = Some(clock_now());
        }
    }

    /// Completes a render, after a view has begun: takes the recorded start,
    /// reads the clock, and returns the readout of the whole milliseconds
    /// between the two.
    pub fn finish_render(&mut self) -> (r: String)
        requires
            old(self).last_view is Some,
        ensures
            final(self).last_view is None,
            exists|now: Instant|
                r@ == readout_text(millis_of(span_of(old(self).last_view->Some_0, now))),
    {
        let start = self.last_view.take().unwrap();
        let now = clock_now();
        let ms = whole_millis(&time_between(&start, &now));
        let text = render_time_text(ms);
        assert(text@ == readout_text(millis_of(span_of(start, now))));
        text
    }
}

} // verus!
