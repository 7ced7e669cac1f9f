//! What the user sees once the effects of the chat widget are performed, and what holds of it.

use crate::chat_widget::{
    effects_view, keep_waiting_item, tick_interval, wait_inline_banner, AppEvent, ChatWidget,
    EffectView, InlineBanner, InlineBannerView, ItemAction, RateLimitRefreshOrigin, ThreadId,
    WidgetEffect,
};
use crate::clock::{
    clock_millis_spec, system_clock_read, unix_clock_showed, Span,
};
use crate::countdown::{
    countdown_text, law_countdown_reads_back, law_remaining_seconds_are_whole, read_on,
    remaining_seconds,
};
use vstd::prelude::*;

verus! {

/// What stands above the input field.
pub enum ShownBanner {
    Nothing,
    /// The banner that the widget has set.
    Widget(InlineBannerView),
    /// The banner of the account, if it has one.
    Account,
}

/// The part of the screen, and of its timers, that quota waits touch.
#[verifier::ext_equal]
pub struct Pane {
    pub countdown: Option<Seq<char>>,
    pub banner: ShownBanner,
    pub next_tick: Option<Span>,
}

impl Pane {
    /// The pane before any wait.
    pub open spec fn initial() -> Pane {
        Pane { countdown: None, banner: ShownBanner::Account, next_tick: None }
    }

    /// The pane once an effect is performed.
    pub open spec fn after(self, effect: EffectView) -> Pane {
        match effect {
            EffectView::SetNextTick(next_tick) => Pane { next_tick, ..self },
            EffectView::SetStatusResumeCountdown(countdown) => Pane { countdown, ..self },
            EffectView::SetInlineBanner(Some(banner)) => Pane {
                banner: ShownBanner::Widget(banner),
                ..self
            },
            EffectView::SetInlineBanner(None) => Pane { banner: ShownBanner::Nothing, ..self },
            EffectView::RestoreBackendBanner => Pane { banner: ShownBanner::Account, ..self },
            _ => self,
        }
    }

    /// The pane once effects are performed one after the other.
    pub open spec fn after_all(self, effects: Seq<EffectView>) -> Pane
        decreases effects.len(),
    {
        if effects.len() == 0 {
            self
        } else {
            self.after(effects.first()).after_all(effects.drop_first())
        }
    }

    /// The pane shows the state of the widget: a countdown that ticks every second exactly
    /// while a turn waits, the banner of the wait until the user puts it away, and the banner
    /// of the account at any other time.
    pub open spec fn shows(self, widget: ChatWidget) -> bool {
        &&& self.countdown is Some <==> widget.is_waiting()
        &&& self.next_tick == if widget.is_waiting() {
            Some(Span { secs: 1, nanos: 0 })
        } else {
            None
        }
        &&& self.banner is Account <==> !widget.is_waiting()
        &&& self.banner is Widget <==> widget.is_waiting()
            && !widget.usage_limit_wait_banner_dismissed
        &&& widget.usage_limit_wait_banner_dismissed ==> widget.is_waiting()
    }
}

proof fn lemma_after_one_more(pane: Pane, effect: EffectView, rest: Seq<EffectView>)
    ensures
        pane.after_all(seq![effect] + rest) == pane.after(effect).after_all(rest),
{
    assert((seq![effect] + rest).drop_first() =~= rest);
}

proof fn lemma_after_two_lists(pane: Pane, first: Seq<EffectView>, second: Seq<EffectView>)
    ensures
        pane.after_all(first + second) == pane.after_all(first).after_all(second),
    decreases first.len(),
{
    if first.len() == 0 {
        assert(first + second =~= second);
    } else {
        assert((first + second).drop_first() =~= first.drop_first() + second);
        lemma_after_two_lists(pane.after(first.first()), first.drop_first(), second);
    }
}

/// Effects that none of the pane is touched by.
spec fn off_pane(effects: Seq<EffectView>) -> bool {
    forall|i: int|
        0 <= i < effects.len() ==> ((#[trigger] effects[i]) is ResetStatusTimer
            || effects[i] is ClearStatusTimerOrigin || effects[i] is SendAppEvent
            || effects[i] is RequestRedraw)
}

proof fn lemma_off_pane(pane: Pane, effects: Seq<EffectView>)
    requires
        off_pane(effects),
    ensures
        pane.after_all(effects) == pane,
    decreases effects.len(),
{
    if effects.len() > 0 {
        assert(pane.after(effects[0]) == pane);
        lemma_off_pane(pane, effects.drop_first());
    }
}

proof fn lemma_refresh(
    pane: Pane,
    widget: ChatWidget,
    backend_banner: InlineBannerView,
    now_ms: i64,
)
    ensures
        ({
            let seen = pane.after_all(widget.refresh_effects(backend_banner, now_ms));
            &&& seen.next_tick == pane.next_tick
            &&& match widget.usage_limit_wait_retry_at_ms {
                Some(retry_at_ms) => {
                    &&& seen.countdown == Some(
                        countdown_text(remaining_seconds(retry_at_ms, now_ms)),
                    )
                    &&& seen.banner == if widget.usage_limit_wait_banner_dismissed {
                        ShownBanner::Nothing
                    } else {
                        ShownBanner::Widget(wait_inline_banner(backend_banner, widget.thread_id))
                    }
                },
                None => seen.countdown is None && seen.banner is Account,
            }
        }),
{
    reveal_with_fuel(Pane::after_all, 5);
}

proof fn lemma_update(
    pane: Pane,
    widget: ChatWidget,
    retry_at_ms: Option<i64>,
    backend_banner: InlineBannerView,
    now_ms: i64,
)
    ensures
        ({
            let seen = pane.after_all(
                widget.update_effects(retry_at_ms, backend_banner, now_ms),
            );
            let ticking = Pane {
                next_tick: if retry_at_ms is Some {
                    Some(tick_interval())
                } else {
                    None
                },
                ..pane
            };
            seen == if retry_at_ms is None && !widget.is_waiting() {
                ticking
            } else {
                ticking.after_all(
                    widget.updated(retry_at_ms).refresh_effects(backend_banner, now_ms),
                )
            }
        }),
{
    let effects = widget.update_effects(retry_at_ms, backend_banner, now_ms);
    let shown = if retry_at_ms is None && !widget.is_waiting() {
        seq![]
    } else {
        widget.updated(retry_at_ms).refresh_effects(backend_banner, now_ms)
    };
    let middle = effects.subrange(1, effects.len() - shown.len());
    assert(off_pane(middle));
    assert(effects =~= seq![effects[0]] + (middle + shown));
    lemma_after_one_more(pane, effects[0], middle + shown);
    lemma_after_two_lists(pane.after(effects[0]), middle, shown);
    lemma_off_pane(pane.after(effects[0]), middle);
}

/// Before any wait, the pane shows the state of the widget.
pub proof fn law_initial_pane_shows_widget(widget: ChatWidget)
    requires
        !widget.is_waiting(),
        !widget.usage_limit_wait_banner_dismissed,
    ensures
        Pane::initial().shows(widget),
{
}

/// Hearing of a wait, of another time to retry or of the end of the wait keeps the pane
/// showing the state of the widget.
pub proof fn law_update_keeps_pane(
    pane: Pane,
    widget: ChatWidget,
    retry_at_ms: Option<i64>,
    backend_banner: InlineBannerView,
    now_ms: i64,
)
    requires
        pane.shows(widget),
    ensures
        pane.after_all(widget.update_effects(retry_at_ms, backend_banner, now_ms)).shows(
            widget.updated(retry_at_ms),
        ),
{
    lemma_update(pane, widget, retry_at_ms, backend_banner, now_ms);
    let ticking = pane.after(
        EffectView::SetNextTick(
            if retry_at_ms is Some {
                Some(tick_interval())
            } else {
                None
            },
        ),
    );
    lemma_refresh(ticking, widget.updated(retry_at_ms), backend_banner, now_ms);
}

/// Putting the banner away keeps the pane showing the state of the widget.
pub proof fn law_dismissal_keeps_pane(pane: Pane, widget: ChatWidget)
    requires
        pane.shows(widget),
    ensures
        pane.after_all(widget.dismiss_effects()).shows(widget.dismissed()),
{
    reveal_with_fuel(Pane::after_all, 3);
}

/// A tick keeps the pane showing the state of the widget.
pub proof fn law_tick_keeps_pane(pane: Pane, widget: ChatWidget, now_ms: i64)
    requires
        pane.shows(widget),
    ensures
        pane.after_all(widget.tick_effects(now_ms)).shows(widget),
{
    reveal_with_fuel(Pane::after_all, 4);
}

/// A refresh keeps the pane showing the state of the widget.
pub proof fn law_refresh_keeps_pane(
    pane: Pane,
    widget: ChatWidget,
    backend_banner: InlineBannerView,
    now_ms: i64,
)
    requires
        pane.shows(widget),
    ensures
        pane.after_all(widget.refresh_effects(backend_banner, now_ms)).shows(widget),
{
    lemma_refresh(pane, widget, backend_banner, now_ms);
}

/// Once the last wait has ended, the pane is as it was before any wait.
pub proof fn law_end_of_wait_clears_pane(
    pane: Pane,
    widget: ChatWidget,
    backend_banner: InlineBannerView,
    now_ms: i64,
)
    requires
        pane.shows(widget),
    ensures
        pane.after_all(widget.update_effects(None, backend_banner, now_ms)) == Pane::initial(),
{
    law_update_keeps_pane(pane, widget, None, backend_banner, now_ms);
}

/// Putting the banner away hides it and leaves the deadline, the countdown and the tick of the
/// wait untouched.
pub proof fn law_dismissal_leaves_deadline_and_tick(pane: Pane, widget: ChatWidget)
    ensures
        ({
            let seen = pane.after_all(widget.dismiss_effects());
            &&& widget.dismissed().usage_limit_wait_retry_at_ms
                == widget.usage_limit_wait_retry_at_ms
            &&& seen.countdown == pane.countdown
            &&& seen.next_tick == pane.next_tick
            &&& widget.is_waiting() ==> seen.banner is Nothing
            &&& !widget.is_waiting() ==> seen == pane && widget.dismissed() == widget
        }),
{
    reveal_with_fuel(Pane::after_all, 3);
}

/// A banner that was put away stays away while the time to retry stays the same, and comes back
/// with another one.
pub proof fn law_dismissal_lasts_as_long_as_deadline(
    pane: Pane,
    widget: ChatWidget,
    retry_at_ms: i64,
    backend_banner: InlineBannerView,
    now_ms: i64,
)
    requires
        widget.is_waiting(),
    ensures
        ({
            let away = widget.dismissed();
            let seen = pane.after_all(
                away.update_effects(Some(retry_at_ms), backend_banner, now_ms),
            );
            if widget.usage_limit_wait_retry_at_ms == Some(retry_at_ms) {
                seen.banner is Nothing && away.updated(Some(retry_at_ms)) == away
            } else {
                seen.banner == ShownBanner::Widget(
                    wait_inline_banner(backend_banner, widget.thread_id),
                )
            }
        }),
{
    let away = widget.dismissed();
    lemma_update(pane, away, Some(retry_at_ms), backend_banner, now_ms);
    let ticking = pane.after(EffectView::SetNextTick(Some(tick_interval())));
    lemma_refresh(ticking, away.updated(Some(retry_at_ms)), backend_banner, now_ms);
}

/// A tick changes the countdown and its own timer, never the banner, so that the selection of
/// the user stays.
pub proof fn law_tick_leaves_banner(pane: Pane, widget: ChatWidget, now_ms: i64)
    ensures
        pane.after_all(widget.tick_effects(now_ms)).banner == pane.banner,
        forall|i: int|
            0 <= i < widget.tick_effects(now_ms).len() ==> !((#[trigger] widget.tick_effects(
                now_ms,
            )[i]) is SetInlineBanner || widget.tick_effects(now_ms)[i] is RestoreBackendBanner),
{
    reveal_with_fuel(Pane::after_all, 4);
}

/// A refresh of what is shown already changes nothing.
pub proof fn law_refresh_is_idempotent(
    pane: Pane,
    widget: ChatWidget,
    backend_banner: InlineBannerView,
    now_ms: i64,
)
    ensures
        ({
            let effects = widget.refresh_effects(backend_banner, now_ms);
            pane.after_all(effects).after_all(effects) == pane.after_all(effects)
        }),
{
    let effects = widget.refresh_effects(backend_banner, now_ms);
    lemma_refresh(pane, widget, backend_banner, now_ms);
    lemma_refresh(pane.after_all(effects), widget, backend_banner, now_ms);
}

/// Hearing that no turn waits when none did asks for nothing but that no tick come.
pub proof fn law_idle_update_shows_nothing(
    widget: ChatWidget,
    backend_banner: InlineBannerView,
    now_ms: i64,
)
    requires
        !widget.is_waiting(),
    ensures
        widget.updated(None) == widget,
        widget.update_effects(None, backend_banner, now_ms) == seq![EffectView::SetNextTick(None)],
{
    assert(widget.update_effects(None, backend_banner, now_ms)
        =~= seq![EffectView::SetNextTick(None)]);
}

/// The account is asked for its recovery choices as a wait begins, and not again until the next
/// wait; the working clock starts anew as a wait ends, and at no other time.
pub proof fn law_wait_boundaries(
    widget: ChatWidget,
    retry_at_ms: Option<i64>,
    backend_banner: InlineBannerView,
    now_ms: i64,
)
    ensures
        ({
            let effects = widget.update_effects(retry_at_ms, backend_banner, now_ms);
            let begins = !widget.is_waiting() && retry_at_ms is Some;
            let ends = widget.is_waiting() && retry_at_ms is None;
            &&& (exists|i: int| 0 <= i < effects.len() && (#[trigger] effects[i]) is SendAppEvent)
                <==> begins && widget.has_chatgpt_account
            &&& (exists|i: int| 0 <= i < effects.len() && (#[trigger] effects[i]) is ResetStatusTimer)
                <==> ends
            &&& forall|i: int, j: int|
                0 <= i < effects.len() && 0 <= j < effects.len() && (#[trigger] effects[i]) is SendAppEvent
                    && (#[trigger] effects[j]) is SendAppEvent ==> i == j
        }),
{
    let effects = widget.update_effects(retry_at_ms, backend_banner, now_ms);
    let begins = !widget.is_waiting() && retry_at_ms is Some;
    let ends = widget.is_waiting() && retry_at_ms is None;
    if begins && widget.has_chatgpt_account {
        assert(effects[1] is SendAppEvent);
    }
    if ends {
        assert(effects[1] is ResetStatusTimer);
    }
}

/// The banner of a wait keeps every item of the account in its place, ends with the one that
/// puts it away, and never goes without a description.
pub proof fn law_wait_banner_offers_all_choices(
    backend_banner: InlineBannerView,
    thread_id: Option<ThreadId>,
)
    ensures
        ({
            let banner = wait_inline_banner(backend_banner, thread_id);
            &&& banner.actions.drop_last() == backend_banner.actions
            &&& banner.actions.last() == keep_waiting_item(thread_id)
            &&& banner.description.len() > 0
        }),
{
    reveal_strlit(
        "Upgrade your subscription to continue sooner, or wait for your usage limit to reset. Your turn will resume automatically.",
    );
    reveal_strlit("Your turn will automatically continue when the usage limit resets.");
    assert(wait_inline_banner(backend_banner, thread_id).actions.drop_last()
        =~= backend_banner.actions);
}

/// The banner of a wait describes an upgrade exactly when some item of the account, at whatever
/// index, is named "Upgrade". Without one it says what the account says, or that the turn continues
/// by itself where the account says nothing.
pub proof fn law_wait_banner_describes_upgrade(
    backend_banner: InlineBannerView,
    thread_id: Option<ThreadId>,
)
    ensures
        ({
            let items = backend_banner.actions;
            let description = wait_inline_banner(backend_banner, thread_id).description;
            &&& forall|i: int|
                0 <= i < items.len() && (#[trigger] items[i]).name == "Upgrade"@ ==> description
                    == "Upgrade your subscription to continue sooner, or wait for your usage limit to reset. Your turn will resume automatically."@
            &&& (forall|i: int| 0 <= i < items.len() ==> (#[trigger] items[i]).name != "Upgrade"@)
                ==> description == if backend_banner.description.len() == 0 {
                "Your turn will automatically continue when the usage limit resets."@
            } else {
                backend_banner.description
            }
        }),
{
}

/// The banner of a wait has its own title and view, stays until it is put away, and can be seen and
/// used while the turn runs. At every index of the account's items it has the same item; behind
/// them it has one more, which tells the application to put away the banner of this thread.
pub proof fn law_wait_banner_by_index(backend_banner: InlineBannerView, thread_id: Option<ThreadId>)
    ensures
        ({
            let banner = wait_inline_banner(backend_banner, thread_id);
            let items = backend_banner.actions;
            &&& banner.title == "Usage limit reached (Auto-continue is enabled)"@
            &&& banner.view_id == Some("usage-limit-auto-resume"@)
            &&& banner.dismissal is Persistent
            &&& banner.visible_while_task_running
            &&& banner.interactive_while_task_running
            &&& banner.gap_below
            &&& banner.actions.len() == items.len() + 1
            &&& forall|i: int| 0 <= i < items.len() ==> #[trigger] banner.actions[i] == items[i]
            &&& banner.actions[items.len() as int].name == "Keep waiting"@
            &&& banner.actions[items.len() as int].actions.len() == 1
            &&& banner.actions[items.len() as int].actions[0] == ItemAction::Send(
                AppEvent::DismissUsageLimitWaitBanner { thread_id },
            )
        }),
{
}

/// A refresh during a wait sets the countdown for the time left, then sets the banner of the wait, or
/// takes it away if the user has put it away, and then asks for a redraw. Without a wait it takes
/// the countdown and the banner away and restores that of the account before it asks for a redraw.
pub proof fn law_refresh_effects_in_order(
    widget: ChatWidget,
    backend_banner: InlineBannerView,
    now_ms: i64,
)
    ensures
        ({
            let effects = widget.refresh_effects(backend_banner, now_ms);
            match widget.usage_limit_wait_retry_at_ms {
                Some(retry_at_ms) => {
                    &&& effects.len() == 3
                    &&& effects[0] == EffectView::SetStatusResumeCountdown(
                        Some(countdown_text(remaining_seconds(retry_at_ms, now_ms))),
                    )
                    &&& widget.usage_limit_wait_banner_dismissed ==> effects[1]
                        == EffectView::SetInlineBanner(None)
                    &&& !widget.usage_limit_wait_banner_dismissed ==> effects[1]
                        == EffectView::SetInlineBanner(
                        Some(wait_inline_banner(backend_banner, widget.thread_id)),
                    )
                    &&& effects[2] == EffectView::RequestRedraw
                },
                None => {
                    &&& effects.len() == 4
                    &&& effects[0] == EffectView::SetStatusResumeCountdown(None)
                    &&& effects[1] == EffectView::SetInlineBanner(None)
                    &&& effects[2] == EffectView::RestoreBackendBanner
                    &&& effects[3] == EffectView::RequestRedraw
                },
            }
        }),
{
}

/// A tick during a wait lets the next one come after a second, sets the countdown for the time left
/// and asks for a redraw. Without a wait it stops the ticking and does nothing else.
pub proof fn law_tick_effects_in_order(widget: ChatWidget, now_ms: i64)
    ensures
        ({
            let effects = widget.tick_effects(now_ms);
            match widget.usage_limit_wait_retry_at_ms {
                Some(retry_at_ms) => {
                    &&& effects.len() == 3
                    &&& effects[0] == EffectView::SetNextTick(Some(Span { secs: 1, nanos: 0 }))
                    &&& effects[1] == EffectView::SetStatusResumeCountdown(
                        Some(countdown_text(remaining_seconds(retry_at_ms, now_ms))),
                    )
                    &&& effects[2] == EffectView::RequestRedraw
                },
                None => effects.len() == 1 && effects[0] == EffectView::SetNextTick(None),
            }
        }),
{
}

/// The countdown that is set at a time the clock showed, by a tick or by a refresh, reads back as the
/// whole seconds from that time, in milliseconds since the Unix epoch, to the retry.
pub proof fn law_countdown_is_set_by_the_clock(
    widget: ChatWidget,
    retry_at_ms: i64,
    backend_banner: InlineBannerView,
    now_ms: i64,
)
    requires
        widget.usage_limit_wait_retry_at_ms == Some(retry_at_ms),
        unix_clock_showed(now_ms),
    ensures
        exists|elapsed: Option<Span>| #[trigger]
            system_clock_read(elapsed) && ({
                let shown_ms = match elapsed {
                    Some(span) => {
                        let millis = span.secs * 1_000 + span.nanos / 1_000_000;
                        if millis <= 9_223_372_036_854_775_807 {
                            millis
                        } else {
                            9_223_372_036_854_775_807
                        }
                    },
                    None => 0,
                };
                let left = retry_at_ms - shown_ms;
                let set_by_tick = widget.tick_effects(now_ms)[1];
                let set_by_refresh = widget.refresh_effects(backend_banner, now_ms)[0];
                &&& set_by_tick matches EffectView::SetStatusResumeCountdown(Some(text))
                &&& set_by_refresh == set_by_tick
                &&& {
                    let seconds = read_on((0, 0), text).0;
                    &&& left <= 0 ==> seconds == 0
                    &&& left >= 0 ==> seconds * 1_000 <= left < (seconds + 1) * 1_000
                }
            }),
{
    let elapsed = choose|elapsed: Option<Span>| #[trigger]
        system_clock_read(elapsed) && (elapsed matches Some(span) ==> span.wf()) && now_ms
            == clock_millis_spec(elapsed);
    assert(system_clock_read(elapsed));
    law_countdown_reads_back(remaining_seconds(retry_at_ms, now_ms));
    law_remaining_seconds_are_whole(retry_at_ms, now_ms);
}

/// Putting the banner away during a wait takes it from the screen and asks for a redraw, and marks it
/// as put away. Without a wait it does nothing. Nothing else of the widget changes.
pub proof fn law_dismissal_effects_in_order(widget: ChatWidget)
    ensures
        ({
            let effects = widget.dismiss_effects();
            let away = widget.dismissed();
            &&& widget.usage_limit_wait_retry_at_ms is Some ==> {
                &&& effects.len() == 2
                &&& effects[0] == EffectView::SetInlineBanner(None)
                &&& effects[1] == EffectView::RequestRedraw
                &&& away.usage_limit_wait_banner_dismissed
            }
            &&& widget.usage_limit_wait_retry_at_ms is None ==> effects.len() == 0 && away == widget
            &&& away.usage_limit_wait_retry_at_ms == widget.usage_limit_wait_retry_at_ms
            &&& away.has_chatgpt_account == widget.has_chatgpt_account
            &&& away.thread_id == widget.thread_id
        }),
{
}

/// A widget that hears of a retry time holds it; its banner is put away only if it was and the time
/// is the same; and nothing else of it changes.
pub proof fn law_update_holds_retry_time(widget: ChatWidget, retry_at_ms: Option<i64>)
    ensures
        ({
            let after = widget.updated(retry_at_ms);
            &&& after.usage_limit_wait_retry_at_ms == retry_at_ms
            &&& after.usage_limit_wait_banner_dismissed <==> (
            widget.usage_limit_wait_banner_dismissed && widget.usage_limit_wait_retry_at_ms
                == retry_at_ms)
            &&& after.has_chatgpt_account == widget.has_chatgpt_account
            &&& after.thread_id == widget.thread_id
        }),
{
}

/// Hearing of a wait sets the next tick first: after a second during a wait, none without. As a wait
/// ends, the working clock is set to zero and loses its origin next; as one begins with an account,
/// the recovery choices are asked for next. Then follows, unless there is no wait and was none, just
/// what a refresh of the updated widget asks for.
pub proof fn law_update_effects_in_order(
    widget: ChatWidget,
    retry_at_ms: Option<i64>,
    backend_banner: InlineBannerView,
    now_ms: i64,
)
    ensures
        ({
            let effects = widget.update_effects(retry_at_ms, backend_banner, now_ms);
            let refresh = widget.updated(retry_at_ms).refresh_effects(backend_banner, now_ms);
            let waited = widget.usage_limit_wait_retry_at_ms is Some;
            let waits = retry_at_ms is Some;
            &&& waits ==> effects[0] == EffectView::SetNextTick(Some(Span { secs: 1, nanos: 0 }))
            &&& !waits ==> effects[0] == EffectView::SetNextTick(None)
            &&& !waited && !waits ==> effects.len() == 1
            &&& waited && !waits ==> {
                &&& effects[1] == EffectView::ResetStatusTimer(Span { secs: 0, nanos: 0 })
                &&& effects[2] == EffectView::ClearStatusTimerOrigin
                &&& effects.skip(3) == refresh
            }
            &&& !waited && waits && widget.has_chatgpt_account ==> {
                &&& effects[1] == EffectView::SendAppEvent(
                    AppEvent::RefreshRateLimits { origin: RateLimitRefreshOrigin::Recovery },
                )
                &&& effects.skip(2) == refresh
            }
            &&& waits && (waited || !widget.has_chatgpt_account) ==> effects.skip(1) == refresh
        }),
{
    let effects = widget.update_effects(retry_at_ms, backend_banner, now_ms);
    let refresh = widget.updated(retry_at_ms).refresh_effects(backend_banner, now_ms);
    let waited = widget.usage_limit_wait_retry_at_ms is Some;
    if waited && retry_at_ms is None {
        assert(effects.skip(3) =~= refresh);
    } else if !waited && retry_at_ms is Some && widget.has_chatgpt_account {
        assert(effects.skip(2) =~= refresh);
    } else if retry_at_ms is Some {
        assert(effects.skip(1) =~= refresh);
    }
}

/// The model of a list of effects has, at every index, the effect of that index with all that it
/// carries.
pub proof fn law_effects_model_by_index(effects: Seq<WidgetEffect>, i: int)
    requires
        0 <= i < effects.len(),
    ensures
        effects_view(effects).len() == effects.len(),
        match effects[i] {
            WidgetEffect::SetNextTick(after) => effects_view(effects)[i] == EffectView::SetNextTick(
                after,
            ),
            WidgetEffect::ResetStatusTimer(elapsed) => effects_view(effects)[i]
                == EffectView::ResetStatusTimer(elapsed),
            WidgetEffect::ClearStatusTimerOrigin => effects_view(effects)[i]
                == EffectView::ClearStatusTimerOrigin,
            WidgetEffect::SendAppEvent(event) => effects_view(effects)[i]
                == EffectView::SendAppEvent(event),
            WidgetEffect::SetStatusResumeCountdown(Some(text)) => effects_view(effects)[i]
                == EffectView::SetStatusResumeCountdown(Some(text@)),
            WidgetEffect::SetStatusResumeCountdown(None) => effects_view(effects)[i]
                == EffectView::SetStatusResumeCountdown(None),
            WidgetEffect::SetInlineBanner(Some(banner)) => effects_view(effects)[i]
                == EffectView::SetInlineBanner(Some(banner@)),
            WidgetEffect::SetInlineBanner(None) => effects_view(effects)[i]
                == EffectView::SetInlineBanner(None),
            WidgetEffect::RestoreBackendBanner => effects_view(effects)[i]
                == EffectView::RestoreBackendBanner,
            WidgetEffect::RequestRedraw => effects_view(effects)[i] == EffectView::RequestRedraw,
        },
{
}

/// The model of a banner above the input field holds each of its fields, and each item of it.
pub proof fn law_inline_banner_model_holds_every_field(banner: InlineBanner)
    ensures
        banner@.title == banner.title@,
        banner@.description == banner.description@,
        banner@.actions.len() == banner.actions@.len(),
        forall|i: int|
            0 <= i < banner.actions@.len() ==> {
                &&& (#[trigger] banner@.actions[i]).name == banner.actions@[i].name@
                &&& banner@.actions[i].actions == banner.actions@[i].actions@
            },
        banner@.dismissal == banner.dismissal,
        banner@.view_id is Some <==> banner.view_id is Some,
        banner.view_id matches Some(id) ==> banner@.view_id == Some(id@),
        banner@.visible_while_task_running == banner.visible_while_task_running,
        banner@.interactive_while_task_running == banner.interactive_while_task_running,
        banner@.gap_below == banner.gap_below,
{
}

} // verus!
