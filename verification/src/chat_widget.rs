//! The countdown and the banner that are shown while a turn waits for its quota to reset.
//!
//! The widget decides; what it wants done to the screen, to its timers and to the rest of the
//! application comes back as a list of effects, which the caller performs in order.

use crate::backend_banner::same_text;
use crate::clock::{unix_clock_showed, unix_now_ms, Span};
use crate::countdown::{countdown_text, format_remaining_time_at, remaining_seconds};
use vstd::prelude::*;

verus! {

pub const USAGE_LIMIT_WAIT_VIEW_ID: &'static str = "usage-limit-auto-resume";

/// The identity of a conversation.
#[derive(Clone, Copy, Debug, PartialEq, Eq, Structural)]
pub struct ThreadId {
    pub id: u128,
}

/// Why the rate limits of the account are read again.
#[derive(Clone, Copy, Debug, PartialEq, Eq, Structural)]
pub enum RateLimitRefreshOrigin {
    /// To offer recovery choices.
    Recovery,
}

/// What the widget tells the application.
#[derive(Clone, Copy, Debug, PartialEq, Eq)]
pub enum AppEvent {
    RefreshRateLimits { origin: RateLimitRefreshOrigin },
    DismissUsageLimitWaitBanner { thread_id: Option<ThreadId> },
}

/// What happens when an item is chosen.
#[derive(Clone, Copy, Debug, PartialEq, Eq)]
pub enum ItemAction {
    /// The application is told.
    Send(AppEvent),
    /// Something that the application knows by this number.
    Host(u64),
}

/// An item that the user can choose.
#[derive(Debug, PartialEq, Eq)]
pub struct SelectionItem {
    pub name: String,
    pub actions: Vec<ItemAction>,
}

/// The model of an item.
pub struct ItemView {
    pub name: Seq<char>,
    pub actions: Seq<ItemAction>,
}

impl View for SelectionItem {
    type V = ItemView;

    open spec fn view(&self) -> ItemView {
        ItemView { name: self.name@, actions: self.actions@ }
    }
}

/// Whether the user can put a banner away.
#[derive(Clone, Copy, Debug, PartialEq, Eq, Structural)]
pub enum BannerDismissal {
    Persistent,
    Dismissible,
}

/// A banner above the input field.
#[derive(Debug, PartialEq, Eq)]
pub struct InlineBanner {
    pub title: String,
    pub description: String,
    pub actions: Vec<SelectionItem>,
    pub dismissal: BannerDismissal,
    pub view_id: Option<&'static str>,
    pub visible_while_task_running: bool,
    pub interactive_while_task_running: bool,
    pub gap_below: bool,
}

/// The model of a banner above the input field.
#[verifier::ext_equal]
pub struct InlineBannerView {
    pub title: Seq<char>,
    pub description: Seq<char>,
    pub actions: Seq<ItemView>,
    pub dismissal: BannerDismissal,
    pub view_id: Option<Seq<char>>,
    pub visible_while_task_running: bool,
    pub interactive_while_task_running: bool,
    pub gap_below: bool,
}

impl View for InlineBanner {
    type V = InlineBannerView;

    open spec fn view(&self) -> InlineBannerView {
        InlineBannerView {
            title: self.title@,
            description: self.description@,
            actions: self.actions@.map_values(|item: SelectionItem| item@),
            dismissal: self.dismissal,
            view_id: match self.view_id {
                Some(id) => Some(id@),
                None => None,
            },
            visible_while_task_running: self.visible_while_task_running,
            interactive_while_task_running: self.interactive_while_task_running,
            gap_below: self.gap_below,
        }
    }
}

/// What the widget wants done.
#[derive(Debug, PartialEq, Eq)]
pub enum WidgetEffect {
    /// Let the next tick come after this long, or not at all.
    SetNextTick(Option<Span>),
    /// Let the status line have worked for this long.
    ResetStatusTimer(Span),
    /// Let the status line measure from no particular moment.
    ClearStatusTimerOrigin,
    SendAppEvent(AppEvent),
    SetStatusResumeCountdown(Option<String>),
    SetInlineBanner(Option<InlineBanner>),
    /// Show the banner of the account again, if there is one.
    RestoreBackendBanner,
    RequestRedraw,
}

/// The model of an effect.
pub enum EffectView {
    SetNextTick(Option<Span>),
    ResetStatusTimer(Span),
    ClearStatusTimerOrigin,
    SendAppEvent(AppEvent),
    SetStatusResumeCountdown(Option<Seq<char>>),
    SetInlineBanner(Option<InlineBannerView>),
    RestoreBackendBanner,
    RequestRedraw,
}

impl View for WidgetEffect {
    type V = EffectView;

    open spec fn view(&self) -> EffectView {
        match self {
            WidgetEffect::SetNextTick(after) => EffectView::SetNextTick(*after),
            WidgetEffect::ResetStatusTimer(elapsed) => EffectView::ResetStatusTimer(*elapsed),
            WidgetEffect::ClearStatusTimerOrigin => EffectView::ClearStatusTimerOrigin,
            WidgetEffect::SendAppEvent(event) => EffectView::SendAppEvent(*event),
            WidgetEffect::SetStatusResumeCountdown(text) => EffectView::SetStatusResumeCountdown(
                match text {
                    Some(text) => Some(text@),
                    None => None,
                },
            ),
            WidgetEffect::SetInlineBanner(banner) => EffectView::SetInlineBanner(
                match banner {
                    Some(banner) => Some(banner@),
                    None => None,
                },
            ),
            WidgetEffect::RestoreBackendBanner => EffectView::RestoreBackendBanner,
            WidgetEffect::RequestRedraw => EffectView::RequestRedraw,
        }
    }
}

/// The model of a list of effects.
pub open spec fn effects_view(effects: Seq<WidgetEffect>) -> Seq<EffectView> {
    effects.map_values(|effect: WidgetEffect| effect@)
}

/// The part of a chat widget that shows quota waits.
#[derive(Clone, Copy, Debug, PartialEq, Eq, Structural)]
pub struct ChatWidget {
    /// When the waiting turn retries, in milliseconds since the Unix epoch; `None` when no
    /// turn waits.
    pub usage_limit_wait_retry_at_ms: Option<i64>,
    /// The user has put the banner of this wait away.
    pub usage_limit_wait_banner_dismissed: bool,
    pub has_chatgpt_account: bool,
    pub thread_id: Option<ThreadId>,
}

/// The time between two ticks of a countdown.
pub open spec fn tick_interval() -> Span {
    Span { secs: 1, nanos: 0 }
}

/// The item that puts the banner of a wait away.
pub open spec fn keep_waiting_item(thread_id: Option<ThreadId>) -> ItemView {
    ItemView {
        name: "Keep waiting"@,
        actions: seq![ItemAction::Send(AppEvent::DismissUsageLimitWaitBanner { thread_id })],
    }
}

/// Some item offers an upgrade.
pub open spec fn offers_upgrade(items: Seq<ItemView>) -> bool {
    exists|i: int| 0 <= i < items.len() && (#[trigger] items[i]).name == "Upgrade"@
}

/// What the banner of a wait says below its title.
pub open spec fn wait_description(backend_banner: InlineBannerView) -> Seq<char> {
    if offers_upgrade(backend_banner.actions) {
        "Upgrade your subscription to continue sooner, or wait for your usage limit to reset. Your turn will resume automatically."@
    } else if backend_banner.description.len() == 0 {
        "Your turn will automatically continue when the usage limit resets."@
    } else {
        backend_banner.description
    }
}

/// The banner of a wait, made from the recovery choices of the account.
pub open spec fn wait_inline_banner(
    backend_banner: InlineBannerView,
    thread_id: Option<ThreadId>,
) -> InlineBannerView {
    InlineBannerView {
        title: "Usage limit reached (Auto-continue is enabled)"@,
        description: wait_description(backend_banner),
        actions: backend_banner.actions.push(keep_waiting_item(thread_id)),
        dismissal: BannerDismissal::Persistent,
        view_id: Some(USAGE_LIMIT_WAIT_VIEW_ID@),
        visible_while_task_running: true,
        interactive_while_task_running: true,
        gap_below: true,
    }
}

/// Makes the banner of a wait from the recovery choices of the account.
fn make_wait_inline_banner(backend_banner: InlineBanner, thread_id: Option<ThreadId>) -> (banner:
    InlineBanner)
    ensures
        banner@ == wait_inline_banner(backend_banner@, thread_id),
{
    let ghost before = backend_banner@;
    let mut banner = backend_banner;
    let mut upgrade = false;
    let mut i: usize = 0;
    while i < banner.actions.len() && !upgrade
        invariant
            before == banner@,
            i <= banner.actions.len(),
            upgrade ==> offers_upgrade(before.actions),
            !upgrade ==> forall|j: int|
                0 <= j < i ==> (#[trigger] before.actions[j]).name != "Upgrade"@,
        decreases banner.actions.len() - i,
    {
        assert(before.actions[i as int] == banner.actions[i as int]@);
        if same_text(&banner.actions[i].name, "Upgrade") {
            upgrade = true;
        }
        i = i + 1;
    }
    assert(upgrade == offers_upgrade(before.actions));
    banner.title = "Usage limit reached (Auto-continue is enabled)".to_owned();
    if upgrade {
        banner.description =
        "Upgrade your subscription to continue sooner, or wait for your usage limit to reset. Your turn will resume automatically.".to_owned();
    } else if banner.description.as_str().is_empty() {
        banner.description =
        "Your turn will automatically continue when the usage limit resets.".to_owned();
    }
    let keep_waiting = SelectionItem {
        name: "Keep waiting".to_owned(),
        actions: vec![ItemAction::Send(AppEvent::DismissUsageLimitWaitBanner { thread_id })],
    };
    assert(keep_waiting@.actions =~= keep_waiting_item(thread_id).actions);
    banner.actions.push(keep_waiting);
    banner.dismissal = BannerDismissal::Persistent;
    banner.view_id = Some(USAGE_LIMIT_WAIT_VIEW_ID);
    banner.visible_while_task_running = true;
    banner.interactive_while_task_running = true;
    banner.gap_below = true;
    assert(banner@ =~= wait_inline_banner(before, thread_id)) by {
        assert(banner@.actions =~= before.actions.push(keep_waiting_item(thread_id)));
    }
    banner
}

impl ChatWidget {
    /// A turn waits.
    pub open spec fn is_waiting(self) -> bool {
        self.usage_limit_wait_retry_at_ms is Some
    }

    /// What shows the current state of a wait at `now_ms`, or of there being none.
    pub open spec fn refresh_effects(
        self,
        backend_banner: InlineBannerView,
        now_ms: i64,
    ) -> Seq<EffectView> {
        match self.usage_limit_wait_retry_at_ms {
            Some(retry_at_ms) => seq![
                EffectView::SetStatusResumeCountdown(
                    Some(countdown_text(remaining_seconds(retry_at_ms, now_ms))),
                ),
                EffectView::SetInlineBanner(
                    if self.usage_limit_wait_banner_dismissed {
                        None
                    } else {
                        Some(wait_inline_banner(backend_banner, self.thread_id))
                    },
                ),
                EffectView::RequestRedraw,
            ],
            None => seq![
                EffectView::SetStatusResumeCountdown(None),
                EffectView::SetInlineBanner(None),
                EffectView::RestoreBackendBanner,
                EffectView::RequestRedraw,
            ],
        }
    }

    /// The widget once it has heard that a turn waits until `retry_at_ms`, or that none does.
    /// A banner that was put away comes back with any other time.
    pub open spec fn updated(self, retry_at_ms: Option<i64>) -> ChatWidget {
        ChatWidget {
            usage_limit_wait_retry_at_ms: retry_at_ms,
            usage_limit_wait_banner_dismissed: self.usage_limit_wait_banner_dismissed
                && self.usage_limit_wait_retry_at_ms == retry_at_ms,
            ..self
        }
    }

    /// What follows from hearing that a turn waits until `retry_at_ms`, or that none does.
    pub open spec fn update_effects(
        self,
        retry_at_ms: Option<i64>,
        backend_banner: InlineBannerView,
        now_ms: i64,
    ) -> Seq<EffectView> {
        let tick = seq![
            EffectView::SetNextTick(
                if retry_at_ms is Some {
                    Some(tick_interval())
                } else {
                    None
                },
            ),
        ];
        let timer = if self.is_waiting() && retry_at_ms is None {
            seq![
                EffectView::ResetStatusTimer(Span { secs: 0, nanos: 0 }),
                EffectView::ClearStatusTimerOrigin,
            ]
        } else {
            seq![]
        };
        let account = if !self.is_waiting() && retry_at_ms is Some && self.has_chatgpt_account {
            seq![
                EffectView::SendAppEvent(
                    AppEvent::RefreshRateLimits { origin: RateLimitRefreshOrigin::Recovery },
                ),
            ]
        } else {
            seq![]
        };
        let shown = if retry_at_ms is None && !self.is_waiting() {
            seq![]
        } else {
            self.updated(retry_at_ms).refresh_effects(backend_banner, now_ms)
        };
        tick + timer + account + shown
    }

    /// The widget once its banner has been put away, which it can only be during a wait.
    pub open spec fn dismissed(self) -> ChatWidget {
        ChatWidget {
            usage_limit_wait_banner_dismissed: self.usage_limit_wait_banner_dismissed
                || self.is_waiting(),
            ..self
        }
    }

    /// What follows from putting the banner of a wait away.
    pub open spec fn dismiss_effects(self) -> Seq<EffectView> {
        if self.is_waiting() {
            seq![EffectView::SetInlineBanner(None), EffectView::RequestRedraw]
        } else {
            seq![]
        }
    }

    /// What follows from a tick at `now_ms`.
    pub open spec fn tick_effects(self, now_ms: i64) -> Seq<EffectView> {
        match self.usage_limit_wait_retry_at_ms {
            Some(retry_at_ms) => seq![
                EffectView::SetNextTick(Some(tick_interval())),
                EffectView::SetStatusResumeCountdown(
                    Some(countdown_text(remaining_seconds(retry_at_ms, now_ms))),
                ),
                EffectView::RequestRedraw,
            ],
            None => seq![EffectView::SetNextTick(None)],
        }
    }

    /// Hears at `now_ms` that a turn waits until `retry_at_ms`, or that none does.
    /// `backend_banner` holds the recovery choices of the account.
    pub fn update_usage_limit_wait_at(
        &mut self,
        retry_at_ms: Option<i64>,
        backend_banner: InlineBanner,
        now_ms: i64,
    ) -> (effects: Vec<WidgetEffect>)
        ensures
            *final(self) == old(self).updated(retry_at_ms),
            effects_view(effects@) == old(self).update_effects(
                retry_at_ms,
                backend_banner@,
                now_ms,
            ),
    {
        let ghost before = *self;
        let ghost backend = backend_banner@;
        let mut effects: Vec<WidgetEffect> = Vec::new();
        let was_waiting = self.usage_limit_wait_retry_at_ms.is_some();
        if self.usage_limit_wait_retry_at_ms != retry_at_ms {
            self.usage_limit_wait_banner_dismissed = false;
        }
        self.usage_limit_wait_retry_at_ms = retry_at_ms;
        effects.push(
            WidgetEffect::SetNextTick(
                match retry_at_ms {
                    Some(_) => Some(Span::from_secs(1)),
                    None => None,
                },
            ),
        );
        if was_waiting && retry_at_ms.is_none() {
            // The end of a quota wait comes just before the sampling retry begins. Discard the
            // elapsed wait so that the visible working clock starts with that retry.
            effects.push(WidgetEffect::ResetStatusTimer(Span::zero()));
            effects.push(WidgetEffect::ClearStatusTimerOrigin);
        }
        if !was_waiting && retry_at_ms.is_some() && self.has_chatgpt_account {
            // The turn stays alive, so the usual report of a rate limit does not ask for the
            // recovery choices of the account. Ask for them here.
            effects.push(
                WidgetEffect::SendAppEvent(
                    AppEvent::RefreshRateLimits { origin: RateLimitRefreshOrigin::Recovery },
                ),
            );
        }
        let ghost prefix = effects@;
        if retry_at_ms.is_none() && !was_waiting {
            assert(effects_view(effects@) =~= before.update_effects(retry_at_ms, backend, now_ms));
            return effects;
        }
        let mut shown = self.refresh_usage_limit_wait_banner_at(backend_banner, now_ms);
        let ghost shown_view = effects_view(shown@);
        effects.append(&mut shown);
        assert(effects_view(effects@) =~= effects_view(prefix) + shown_view);
        assert(effects_view(effects@) =~= before.update_effects(retry_at_ms, backend, now_ms));
        effects
    }

    /// Hears that a turn waits until `retry_at_ms`, or that none does, at the time that the
    /// system clock was read at.
    pub fn update_usage_limit_wait(
        &mut self,
        retry_at_ms: Option<i64>,
        backend_banner: InlineBanner,
    ) -> (effects: Vec<WidgetEffect>)
        ensures
            *final(self) == old(self).updated(retry_at_ms),
            exists|now_ms: i64|
                now_ms >= 0 && unix_clock_showed(now_ms) && effects_view(effects@) == #[trigger] old(self).update_effects(
                    retry_at_ms,
                    backend_banner@,
                    now_ms,
                ),
    {
        let now_ms: i64 = unix_now_ms();
        self.update_usage_limit_wait_at(retry_at_ms, backend_banner, now_ms)
    }

    /// Puts the banner of a wait away, leaving the deadline and the tick untouched.
    pub fn dismiss_usage_limit_wait_banner(&mut self) -> (effects: Vec<WidgetEffect>)
        ensures
            *final(self) == old(self).dismissed(),
            effects_view(effects@) == old(self).dismiss_effects(),
    {
        let mut effects: Vec<WidgetEffect> = Vec::new();
        if self.usage_limit_wait_retry_at_ms.is_none() {
            assert(effects_view(effects@) =~= old(self).dismiss_effects());
            return effects;
        }
        self.usage_limit_wait_banner_dismissed = true;
        effects.push(WidgetEffect::SetInlineBanner(None));
        effects.push(WidgetEffect::RequestRedraw);
        assert(effects_view(effects@) =~= old(self).dismiss_effects());
        effects
    }

    /// Brings the countdown up to `now_ms`. The banner stays as it is: building its menu anew
    /// would reset the selection every second, so that the user might choose another item
    /// than the one meant.
    pub fn refresh_usage_limit_wait_for_time_tick_at(&self, now_ms: i64) -> (effects: Vec<
        WidgetEffect,
    >)
        ensures
            effects_view(effects@) == self.tick_effects(now_ms),
    {
        let mut effects: Vec<WidgetEffect> = Vec::new();
        match self.usage_limit_wait_retry_at_ms {
            Some(retry_at_ms) => {
                effects.push(WidgetEffect::SetNextTick(Some(Span::from_secs(1))));
                effects.push(
                    WidgetEffect::SetStatusResumeCountdown(
                        Some(format_remaining_time_at(retry_at_ms, now_ms)),
                    ),
                );
                effects.push(WidgetEffect::RequestRedraw);
            },
            None => {
                effects.push(WidgetEffect::SetNextTick(None));
            },
        }
        assert(effects_view(effects@) =~= self.tick_effects(now_ms));
        effects
    }

    /// Brings the countdown up to the time that the system clock was read at.
    pub fn refresh_usage_limit_wait_for_time_tick(&self) -> (effects: Vec<WidgetEffect>)
        ensures
            exists|now_ms: i64|
                now_ms >= 0 && unix_clock_showed(now_ms) && effects_view(effects@) == #[trigger] self.tick_effects(now_ms),
    {
        let now_ms: i64 = unix_now_ms();
        self.refresh_usage_limit_wait_for_time_tick_at(now_ms)
    }

    /// Shows the current state of a wait at `now_ms`, or of there being none.
    /// `backend_banner` holds the recovery choices of the account.
    pub fn refresh_usage_limit_wait_banner_at(
        &self,
        backend_banner: InlineBanner,
        now_ms: i64,
    ) -> (effects: Vec<WidgetEffect>)
        ensures
            effects_view(effects@) == self.refresh_effects(backend_banner@, now_ms),
    {
        let ghost backend = backend_banner@;
        let mut effects: Vec<WidgetEffect> = Vec::new();
        match self.usage_limit_wait_retry_at_ms {
            Some(retry_at_ms) => {
                effects.push(
                    WidgetEffect::SetStatusResumeCountdown(
                        Some(format_remaining_time_at(retry_at_ms, now_ms)),
                    ),
                );
                if self.usage_limit_wait_banner_dismissed {
                    effects.push(WidgetEffect::SetInlineBanner(None));
                } else {
                    effects.push(
                        WidgetEffect::SetInlineBanner(
                            Some(make_wait_inline_banner(backend_banner, self.thread_id)),
                        ),
                    );
                }
            },
            None => {
                effects.push(WidgetEffect::SetStatusResumeCountdown(None));
                effects.push(WidgetEffect::SetInlineBanner(None));
                effects.push(WidgetEffect::RestoreBackendBanner);
            },
        }
        effects.push(WidgetEffect::RequestRedraw);
        assert(effects_view(effects@) =~= self.refresh_effects(backend, now_ms));
        effects
    }

    /// Shows the current state of a wait, or of there being none, at the time that the system
    /// clock was read at.
    pub fn refresh_usage_limit_wait_banner(&self, backend_banner: InlineBanner) -> (effects: Vec<
        WidgetEffect,
    >)
        ensures
            exists|now_ms: i64|
                now_ms >= 0 && unix_clock_showed(now_ms) && effects_view(effects@) == #[trigger] self.refresh_effects(
                    backend_banner@,
                    now_ms,
                ),
    {
        let now_ms: i64 = unix_now_ms();
        self.refresh_usage_limit_wait_banner_at(backend_banner, now_ms)
    }
}

} // verus!
