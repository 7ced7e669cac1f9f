use usage_limit_wait::backend_banner::{
    BackendBanner, BackendBannerCta, BannerPresentation, PlanType, LUNA_RESERVE_BANNER,
    LUNA_RESERVE_RECOVERY_VIEW_ID,
};

fn cta(action: &str, label: &str) -> BackendBannerCta {
    BackendBannerCta { action: action.to_string(), label: label.to_string() }
}

fn banner() -> BackendBanner {
    BackendBanner {
        banner_type: "workspace_member_credits_depleted".to_string(),
        title: "Out of credits".to_string(),
        description: "Ask your owner.".to_string(),
        ctas: vec![cta("notify_owner", "Notify owner"), cta("learn_more", "Learn more")],
        reset_at: Some(1_700_000_000),
        model_slug: Some("model-a".to_string()),
        blocked_model_slug: Some("model-b".to_string()),
        fallback_model_slugs: vec!["model-c".to_string()],
        presentation: BannerPresentation::Dismissible,
        request_url: Some("https://example.com".to_string()),
        account_id: "account".to_string(),
        plan_type: Some(PlanType::Workspace("team".to_string())),
    }
}

fn admitted(change: impl Fn(&mut BackendBanner)) -> bool {
    let mut content = banner();
    change(&mut content);
    let expected = content.clone();
    match BackendBanner::parse(Some(content)) {
        Some(parsed) => {
            assert_eq!(parsed, expected);
            true
        }
        None => false,
    }
}

fn fallback(plan: PlanType, action: &str, label: &str) -> BackendBanner {
    BackendBanner {
        banner_type: "usage_limit_recovery_fallback".to_string(),
        title: String::new(),
        description: String::new(),
        ctas: vec![cta(action, label)],
        reset_at: None,
        model_slug: None,
        blocked_model_slug: None,
        fallback_model_slugs: Vec::new(),
        presentation: BannerPresentation::Inline,
        request_url: None,
        account_id: String::new(),
        plan_type: Some(plan),
    }
}

#[test]
fn personal_plans_that_can_grow_are_offered_an_upgrade() {
    for plan in [PlanType::Free, PlanType::Go, PlanType::Plus, PlanType::ProLite] {
        assert_eq!(
            BackendBanner::recovery_fallback_for_plan(plan.clone()),
            Some(fallback(plan, "open_pricing_dialog", "Upgrade")),
        );
    }
}

#[test]
fn workspace_plans_are_offered_a_larger_limit() {
    let plan = PlanType::Workspace("business".to_string());
    assert!(plan.is_workspace_account());
    assert_eq!(
        BackendBanner::recovery_fallback_for_plan(plan.clone()),
        Some(fallback(plan, "request_increase", "Request increase")),
    );
}

#[test]
fn other_plans_have_no_recovery_choice() {
    for plan in [PlanType::Pro, PlanType::Unknown, PlanType::Other("trial".to_string())] {
        assert!(!plan.is_workspace_account());
        assert_eq!(BackendBanner::recovery_fallback_for_plan(plan), None);
    }
}

#[test]
fn recovery_choice_is_shown_unchanged_during_a_wait() {
    for plan in [PlanType::Plus, PlanType::Workspace("edu".to_string())] {
        let banner = BackendBanner::recovery_fallback_for_plan(plan).unwrap();
        assert_eq!(banner.for_usage_limit_wait(), banner);
    }
}

#[test]
fn undecoded_payload_is_refused() {
    assert_eq!(BackendBanner::parse(None), None);
}

#[test]
fn supported_payload_is_admitted_whole() {
    assert!(admitted(|_| {}));
    assert!(banner().is_supported());
    let once = BackendBanner::parse(Some(banner()));
    assert_eq!(BackendBanner::parse(once.clone()), once);
}

#[test]
fn title_is_bounded() {
    assert!(admitted(|b| b.title = "t".repeat(1024)));
    assert!(!admitted(|b| b.title = "t".repeat(1025)));
    assert!(admitted(|b| b.title = "\u{e9}".repeat(512)));
    assert!(!admitted(|b| b.title = "\u{e9}".repeat(513)));
    assert!(!admitted(|b| b.title = String::new()));
    assert!(!admitted(|b| b.title = " \u{3000}\n".to_string()));
    assert!(admitted(|b| b.title = "a\nb\nc\n".to_string()));
    assert!(!admitted(|b| b.title = "a\nb\nc\nd".to_string()));
}

#[test]
fn description_is_bounded() {
    assert!(admitted(|b| b.description = String::new()));
    assert!(admitted(|b| b.description = "d".repeat(4096)));
    assert!(!admitted(|b| b.description = "d".repeat(4097)));
    assert!(admitted(|b| b.description = "d\r\n".repeat(12)));
    assert!(!admitted(|b| b.description = "d\r\n".repeat(12) + "d"));
}

#[test]
fn calls_to_action_are_bounded() {
    assert!(admitted(|b| b.ctas = (0..8).map(|_| cta("a", "b")).collect()));
    assert!(!admitted(|b| b.ctas = (0..9).map(|_| cta("a", "b")).collect()));
    assert!(admitted(|b| b.ctas = Vec::new()));
}

#[test]
fn slugs_are_checked() {
    assert!(admitted(|b| b.blocked_model_slug = None));
    for (slug, valid) in [
        ("model".to_string(), true),
        ("m".repeat(256), true),
        ("m".repeat(257), false),
        (String::new(), false),
        (" \t".to_string(), false),
        ("model\n".to_string(), false),
        ("mo\u{7f}del".to_string(), false),
        ("mo\u{a0}del".to_string(), true),
    ] {
        assert_eq!(admitted(|b| b.blocked_model_slug = Some(slug.clone())), valid);
        assert_eq!(admitted(|b| b.fallback_model_slugs.push(slug.clone())), valid);
        assert!(admitted(|b| b.model_slug = Some(slug.clone())));
    }
    assert!(admitted(|b| b.fallback_model_slugs = Vec::new()));
    assert!(admitted(|b| b.fallback_model_slugs = vec!["m".to_string(); 16]));
    assert!(!admitted(|b| b.fallback_model_slugs = vec!["m".to_string(); 17]));
}

#[test]
fn owner_requests_become_increase_requests_during_a_wait() {
    let mut content = banner();
    content.ctas.push(cta("contact_owner", "Contact owner"));
    let mut expected = content.clone();
    expected.ctas = vec![
        cta("request_increase", "Request increase"),
        cta("learn_more", "Learn more"),
        cta("request_increase", "Request increase"),
    ];
    expected.description = "Your turn will automatically continue when the usage limit resets. Request a limit increase to continue sooner.".to_string();
    let shown = content.for_usage_limit_wait();
    assert_eq!(shown, expected);
    assert_eq!(shown.for_usage_limit_wait(), shown);
    assert!(shown.is_supported());
}

#[test]
fn other_banners_are_shown_unchanged_during_a_wait() {
    let mut without_owner = banner();
    without_owner.ctas = vec![cta("learn_more", "Learn more")];
    assert_eq!(without_owner.for_usage_limit_wait(), without_owner);
    let mut other_type = banner();
    other_type.banner_type = "credits_depleted".to_string();
    assert_eq!(other_type.for_usage_limit_wait(), other_type);
}

#[test]
fn banners_are_inline_by_default() {
    assert_eq!(BannerPresentation::default(), BannerPresentation::Inline);
}

#[test]
fn reserve_banner_goes_by_its_names() {
    assert_eq!(LUNA_RESERVE_BANNER, "luna_reserve");
    assert_eq!(LUNA_RESERVE_RECOVERY_VIEW_ID, "luna-reserve-recovery");
}
