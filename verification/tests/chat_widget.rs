use usage_limit_wait::chat_widget::{
    AppEvent, BannerDismissal, ChatWidget, InlineBanner, ItemAction, RateLimitRefreshOrigin,
    SelectionItem, ThreadId, WidgetEffect, USAGE_LIMIT_WAIT_VIEW_ID,
};
use usage_limit_wait::clock::Span;

const THREAD: Option<ThreadId> = Some(ThreadId { id: 7 });

fn widget() -> ChatWidget {
    ChatWidget {
        usage_limit_wait_retry_at_ms: None,
        usage_limit_wait_banner_dismissed: false,
        has_chatgpt_account: true,
        thread_id: THREAD,
    }
}

fn item(name: &str, actions: Vec<ItemAction>) -> SelectionItem {
    SelectionItem { name: name.to_string(), actions }
}

fn account_banner(description: &str, name: &str) -> InlineBanner {
    InlineBanner {
        title: "Account".to_string(),
        description: description.to_string(),
        actions: vec![item(name, vec![ItemAction::Host(3)])],
        dismissal: BannerDismissal::Dismissible,
        view_id: None,
        visible_while_task_running: false,
        interactive_while_task_running: false,
        gap_below: false,
    }
}

fn wait_banner(description: &str, name: &str) -> InlineBanner {
    InlineBanner {
        title: "Usage limit reached (Auto-continue is enabled)".to_string(),
        description: description.to_string(),
        actions: vec![
            item(name, vec![ItemAction::Host(3)]),
            item(
                "Keep waiting",
                vec![ItemAction::Send(AppEvent::DismissUsageLimitWaitBanner { thread_id: THREAD })],
            ),
        ],
        dismissal: BannerDismissal::Persistent,
        view_id: Some("usage-limit-auto-resume"),
        visible_while_task_running: true,
        interactive_while_task_running: true,
        gap_below: true,
    }
}

fn countdown(text: &str) -> WidgetEffect {
    WidgetEffect::SetStatusResumeCountdown(Some(text.to_string()))
}

const SECOND: Span = Span { secs: 1, nanos: 0 };

#[test]
fn wait_that_begins_is_shown_and_asks_for_recovery_choices() {
    let mut widget = widget();
    let effects = widget.update_usage_limit_wait_at(Some(61_000), account_banner("More", "Open"), 0);
    assert_eq!(
        effects,
        vec![
            WidgetEffect::SetNextTick(Some(SECOND)),
            WidgetEffect::SendAppEvent(AppEvent::RefreshRateLimits {
                origin: RateLimitRefreshOrigin::Recovery,
            }),
            countdown("1m 01s"),
            WidgetEffect::SetInlineBanner(Some(wait_banner("More", "Open"))),
            WidgetEffect::RequestRedraw,
        ],
    );
    assert_eq!(widget.usage_limit_wait_retry_at_ms, Some(61_000));
    assert_eq!(USAGE_LIMIT_WAIT_VIEW_ID, "usage-limit-auto-resume");
}

#[test]
fn recovery_choices_are_asked_for_once_a_wait_and_only_of_an_account() {
    let asks = |effects: &Vec<WidgetEffect>| {
        effects.iter().filter(|effect| matches!(effect, WidgetEffect::SendAppEvent(_))).count()
    };
    let mut widget = widget();
    let begun = widget.update_usage_limit_wait_at(Some(10), account_banner("", "Open"), 0);
    assert_eq!(asks(&begun), 1);
    let moved = widget.update_usage_limit_wait_at(Some(20), account_banner("", "Open"), 0);
    assert_eq!(asks(&moved), 0);
    let ended = widget.update_usage_limit_wait_at(None, account_banner("", "Open"), 0);
    assert_eq!(asks(&ended), 0);
    widget.has_chatgpt_account = false;
    let without = widget.update_usage_limit_wait_at(Some(10), account_banner("", "Open"), 0);
    assert_eq!(asks(&without), 0);
}

#[test]
fn wait_that_ends_clears_the_pane_and_starts_the_clock_anew() {
    let mut widget = widget();
    widget.update_usage_limit_wait_at(Some(61_000), account_banner("", "Open"), 0);
    widget.dismiss_usage_limit_wait_banner();
    let effects = widget.update_usage_limit_wait_at(None, account_banner("", "Open"), 0);
    assert_eq!(
        effects,
        vec![
            WidgetEffect::SetNextTick(None),
            WidgetEffect::ResetStatusTimer(Span { secs: 0, nanos: 0 }),
            WidgetEffect::ClearStatusTimerOrigin,
            WidgetEffect::SetStatusResumeCountdown(None),
            WidgetEffect::SetInlineBanner(None),
            WidgetEffect::RestoreBackendBanner,
            WidgetEffect::RequestRedraw,
        ],
    );
    assert!(!widget.usage_limit_wait_banner_dismissed);
}

#[test]
fn hearing_of_no_wait_when_idle_shows_nothing() {
    let mut idle = widget();
    let effects = idle.update_usage_limit_wait_at(None, account_banner("", "Open"), 0);
    assert_eq!(effects, vec![WidgetEffect::SetNextTick(None)]);
    assert_eq!(idle, widget());
}

#[test]
fn dismissal_hides_the_banner_and_leaves_deadline_and_tick() {
    let mut widget = widget();
    widget.update_usage_limit_wait_at(Some(61_000), account_banner("", "Open"), 0);
    let effects = widget.dismiss_usage_limit_wait_banner();
    assert_eq!(effects, vec![WidgetEffect::SetInlineBanner(None), WidgetEffect::RequestRedraw]);
    assert_eq!(widget.usage_limit_wait_retry_at_ms, Some(61_000));
    assert!(widget.usage_limit_wait_banner_dismissed);
}

#[test]
fn dismissal_without_a_wait_does_nothing() {
    let mut idle = widget();
    assert_eq!(idle.dismiss_usage_limit_wait_banner(), vec![]);
    assert_eq!(idle, widget());
}

#[test]
fn dismissal_lasts_until_the_deadline_changes() {
    let mut widget = widget();
    widget.update_usage_limit_wait_at(Some(61_000), account_banner("", "Open"), 0);
    widget.dismiss_usage_limit_wait_banner();
    let same = widget.update_usage_limit_wait_at(Some(61_000), account_banner("", "Open"), 1_000);
    assert_eq!(
        same,
        vec![
            WidgetEffect::SetNextTick(Some(SECOND)),
            countdown("1m 00s"),
            WidgetEffect::SetInlineBanner(None),
            WidgetEffect::RequestRedraw,
        ],
    );
    let other = widget.update_usage_limit_wait_at(Some(62_000), account_banner("a", "Open"), 1_000);
    assert_eq!(other[2], WidgetEffect::SetInlineBanner(Some(wait_banner("a", "Open"))));
    assert!(!widget.usage_limit_wait_banner_dismissed);
}

#[test]
fn tick_brings_the_countdown_up_to_date_and_nothing_else() {
    let mut widget = widget();
    widget.update_usage_limit_wait_at(Some(4_322_000), account_banner("", "Open"), 1_000);
    assert_eq!(
        widget.refresh_usage_limit_wait_for_time_tick_at(2_000),
        vec![
            WidgetEffect::SetNextTick(Some(SECOND)),
            countdown("1h 12m 00s"),
            WidgetEffect::RequestRedraw,
        ],
    );
}

#[test]
fn tick_without_a_wait_stops_ticking() {
    assert_eq!(
        widget().refresh_usage_limit_wait_for_time_tick_at(0),
        vec![WidgetEffect::SetNextTick(None)],
    );
    assert_eq!(
        widget().refresh_usage_limit_wait_for_time_tick(),
        vec![WidgetEffect::SetNextTick(None)],
    );
}

#[test]
fn banner_describes_the_choices_it_offers() {
    let mut widget = widget();
    widget.usage_limit_wait_retry_at_ms = Some(5_000);
    let shown = |description: &str, name: &str| {
        widget.refresh_usage_limit_wait_banner_at(account_banner(description, name), 0).remove(1)
    };
    let upgrade = "Upgrade your subscription to continue sooner, or wait for your usage limit to reset. Your turn will resume automatically.";
    let plain = "Your turn will automatically continue when the usage limit resets.";
    for (description, name, expected) in [
        ("Account copy", "Upgrade", upgrade),
        ("", "Upgrade", upgrade),
        ("", "Open", plain),
        ("Account copy", "Open", "Account copy"),
        (" ", "upgrade", " "),
    ] {
        assert_eq!(
            shown(description, name),
            WidgetEffect::SetInlineBanner(Some(wait_banner(expected, name))),
        );
    }
}

#[test]
fn refresh_without_a_wait_restores_the_account_banner() {
    let effects = vec![
        WidgetEffect::SetStatusResumeCountdown(None),
        WidgetEffect::SetInlineBanner(None),
        WidgetEffect::RestoreBackendBanner,
        WidgetEffect::RequestRedraw,
    ];
    assert_eq!(widget().refresh_usage_limit_wait_banner_at(account_banner("", "Open"), 0), effects);
    assert_eq!(widget().refresh_usage_limit_wait_banner(account_banner("", "Open")), effects);
}

#[test]
fn countdown_by_the_system_clock_has_run_out_for_a_past_deadline() {
    let mut widget = widget();
    let effects = widget.update_usage_limit_wait(Some(1_000), account_banner("", "Open"));
    assert_eq!(effects[2], countdown("0m 00s"));
    assert_eq!(
        widget.refresh_usage_limit_wait_for_time_tick()[1],
        countdown("0m 00s"),
    );
    assert_eq!(
        widget.refresh_usage_limit_wait_banner(account_banner("", "Open"))[0],
        countdown("0m 00s"),
    );
}
