//! The banner that the account backend supplies: which copy is shown, and which recovery
//! choices it offers.
//!
//! The backend owns eligibility, copy, actions, and ordered model fallback instructions.

use crate::text::{
    blank, byte_len, contains_control_code, count_lines, has_control_code, is_blank,
    is_control_code, is_white_space, lemma_bytes_bounded, lemma_single_line, line_count, utf8_len,
};
use vstd::prelude::*;
use vstd::utf8::encode_utf8;

verus! {

pub const LUNA_RESERVE_BANNER: &'static str = "luna_reserve";

pub const LUNA_RESERVE_RECOVERY_VIEW_ID: &'static str = "luna-reserve-recovery";

/// The plan of an account. Plans without a variant of their own go by their name.
#[derive(Debug, PartialEq, Eq)]
pub enum PlanType {
    Free,
    Go,
    Plus,
    ProLite,
    Pro,
    Unknown,
    /// Any other plan of a workspace account.
    Workspace(String),
    /// Any other plan.
    Other(String),
}

/// The model of a plan.
pub enum PlanView {
    Free,
    Go,
    Plus,
    ProLite,
    Pro,
    Unknown,
    Workspace(Seq<char>),
    Other(Seq<char>),
}

impl View for PlanType {
    type V = PlanView;

    open spec fn view(&self) -> PlanView {
        match self {
            PlanType::Free => PlanView::Free,
            PlanType::Go => PlanView::Go,
            PlanType::Plus => PlanView::Plus,
            PlanType::ProLite => PlanView::ProLite,
            PlanType::Pro => PlanView::Pro,
            PlanType::Unknown => PlanView::Unknown,
            PlanType::Workspace(name) => PlanView::Workspace(name@),
            PlanType::Other(name) => PlanView::Other(name@),
        }
    }
}

impl Clone for PlanType {
    fn clone(&self) -> (plan: Self)
        ensures
            plan@ == self@,
    {
        match self {
            PlanType::Free => PlanType::Free,
            PlanType::Go => PlanType::Go,
            PlanType::Plus => PlanType::Plus,
            PlanType::ProLite => PlanType::ProLite,
            PlanType::Pro => PlanType::Pro,
            PlanType::Unknown => PlanType::Unknown,
            PlanType::Workspace(name) => PlanType::Workspace(name.clone()),
            PlanType::Other(name) => PlanType::Other(name.clone()),
        }
    }
}

impl PlanType {
    /// Whether the plan is that of a workspace account.
    pub fn is_workspace_account(&self) -> (yes: bool)
        ensures
            yes == (self@ is Workspace),
    {
        match self {
            PlanType::Workspace(_) => true,
            _ => false,
        }
    }
}

/// How a banner is put on the screen.
#[derive(Clone, Copy, Debug, PartialEq, Eq, Structural)]
pub enum BannerPresentation {
    Inline,
    Dismissible,
}

impl Default for BannerPresentation {
    fn default() -> (presentation: Self)
        ensures
            presentation is Inline,
    {
        BannerPresentation::Inline
    }
}

/// A call to action: what it does and what it says.
#[derive(Debug, PartialEq, Eq)]
pub struct BackendBannerCta {
    pub action: String,
    pub label: String,
}

/// The model of a call to action.
pub struct CtaView {
    pub action: Seq<char>,
    pub label: Seq<char>,
}

impl View for BackendBannerCta {
    type V = CtaView;

    open spec fn view(&self) -> CtaView {
        CtaView { action: self.action@, label: self.label@ }
    }
}

impl Clone for BackendBannerCta {
    fn clone(&self) -> (cta: Self)
        ensures
            cta@ == self@,
    {
        BackendBannerCta { action: self.action.clone(), label: self.label.clone() }
    }
}

/// A banner as the backend describes it.
#[derive(Debug, PartialEq, Eq)]
pub struct BackendBanner {
    pub banner_type: String,
    pub title: String,
    pub description: String,
    pub ctas: Vec<BackendBannerCta>,
    pub reset_at: Option<i64>,
    pub model_slug: Option<String>,
    pub blocked_model_slug: Option<String>,
    pub fallback_model_slugs: Vec<String>,
    pub presentation: BannerPresentation,
    pub request_url: Option<String>,
    pub account_id: String,
    pub plan_type: Option<PlanType>,
}

/// The model of a banner.
#[verifier::ext_equal]
pub struct BannerView {
    pub banner_type: Seq<char>,
    pub title: Seq<char>,
    pub description: Seq<char>,
    pub ctas: Seq<CtaView>,
    pub reset_at: Option<i64>,
    pub model_slug: Option<Seq<char>>,
    pub blocked_model_slug: Option<Seq<char>>,
    pub fallback_model_slugs: Seq<Seq<char>>,
    pub presentation: BannerPresentation,
    pub request_url: Option<Seq<char>>,
    pub account_id: Seq<char>,
    pub plan_type: Option<PlanView>,
}

/// The model of text that may be missing.
pub open spec fn optional_text(text: Option<String>) -> Option<Seq<char>> {
    match text {
        Some(text) => Some(text@),
        None => None,
    }
}

impl View for BackendBanner {
    type V = BannerView;

    open spec fn view(&self) -> BannerView {
        BannerView {
            banner_type: self.banner_type@,
            title: self.title@,
            description: self.description@,
            ctas: self.ctas@.map_values(|cta: BackendBannerCta| cta@),
            reset_at: self.reset_at,
            model_slug: optional_text(self.model_slug),
            blocked_model_slug: optional_text(self.blocked_model_slug),
            fallback_model_slugs: self.fallback_model_slugs@.map_values(|slug: String| slug@),
            presentation: self.presentation,
            request_url: optional_text(self.request_url),
            account_id: self.account_id@,
            plan_type: match self.plan_type {
                Some(plan) => Some(plan@),
                None => None,
            },
        }
    }
}

fn clone_optional_text(text: &Option<String>) -> (copy: Option<String>)
    ensures
        optional_text(copy) == optional_text(*text),
{
    match text {
        Some(text) => Some(text.clone()),
        None => None,
    }
}

impl Clone for BackendBanner {
    fn clone(&self) -> (banner: Self)
        ensures
            banner@ == self@,
    {
        let ctas = self.ctas.clone();
        let fallback_model_slugs = self.fallback_model_slugs.clone();
        let plan_type = match &self.plan_type {
            Some(plan) => Some(plan.clone()),
            None => None,
        };
        let banner = BackendBanner {
            banner_type: self.banner_type.clone(),
            title: self.title.clone(),
            description: self.description.clone(),
            ctas,
            reset_at: self.reset_at,
            model_slug: clone_optional_text(&self.model_slug),
            blocked_model_slug: clone_optional_text(&self.blocked_model_slug),
            fallback_model_slugs,
            presentation: self.presentation,
            request_url: clone_optional_text(&self.request_url),
            account_id: self.account_id.clone(),
            plan_type,
        };
        assert(banner@.ctas =~= self@.ctas);
        assert(banner@.fallback_model_slugs =~= self@.fallback_model_slugs);
        banner
    }
}

/// The call to action that asks for a larger limit.
pub open spec fn request_increase_cta() -> CtaView {
    CtaView { action: "request_increase"@, label: "Request increase"@ }
}

/// The call to action that leads to a larger plan.
pub open spec fn upgrade_cta() -> CtaView {
    CtaView { action: "open_pricing_dialog"@, label: "Upgrade"@ }
}

/// The recovery choice of a plan, if there is one: upgrade a personal plan that can grow,
/// ask the workspace for more.
pub open spec fn recovery_choice(plan: PlanView) -> Option<CtaView> {
    match plan {
        PlanView::Free | PlanView::Go | PlanView::Plus | PlanView::ProLite => Some(upgrade_cta()),
        PlanView::Workspace(_) => Some(request_increase_cta()),
        PlanView::Pro | PlanView::Unknown | PlanView::Other(_) => None,
    }
}

/// The banner that offers one recovery choice of a plan and says nothing else.
pub open spec fn recovery_banner(plan: PlanView, cta: CtaView) -> BannerView {
    BannerView {
        banner_type: "usage_limit_recovery_fallback"@,
        title: seq![],
        description: seq![],
        ctas: seq![cta],
        reset_at: None,
        model_slug: None,
        blocked_model_slug: None,
        fallback_model_slugs: seq![],
        presentation: BannerPresentation::Inline,
        request_url: None,
        account_id: seq![],
        plan_type: Some(plan),
    }
}

/// A model slug that can be shown and used: some text of at most 256 bytes without control
/// codes.
pub open spec fn valid_slug(slug: Seq<char>) -> bool {
    &&& !blank(slug)
    &&& byte_len(slug) <= 256
    &&& !has_control_code(slug)
}

/// The content of the banner is supported, and bounded in each direction.
pub open spec fn supported(banner: BannerView) -> bool {
    &&& !blank(banner.title)
    &&& byte_len(banner.title) <= 1024
    &&& line_count(banner.title) <= 3
    &&& byte_len(banner.description) <= 4096
    &&& line_count(banner.description) <= 12
    &&& banner.ctas.len() <= 8
    &&& banner.blocked_model_slug matches Some(slug) ==> valid_slug(slug)
    &&& banner.fallback_model_slugs.len() <= 16
    &&& forall|i: int|
        0 <= i < banner.fallback_model_slugs.len() ==> valid_slug(
            #[trigger] banner.fallback_model_slugs[i],
        )
}

/// What is admitted of a decoded payload: the whole of it, if its content is supported.
pub open spec fn admitted(decoded: Option<BackendBanner>) -> Option<BackendBanner> {
    match decoded {
        Some(content) => if supported(content@) { Some(content) } else { None },
        None => None,
    }
}

/// The call to action turns to the owner of the workspace.
pub open spec fn turns_to_owner(cta: CtaView) -> bool {
    cta.action == "notify_owner"@ || cta.action == "contact_owner"@
}

/// Some call to action of the banner turns to the owner of the workspace.
pub open spec fn some_turn_to_owner(ctas: Seq<CtaView>) -> bool {
    exists|i: int| 0 <= i < ctas.len() && turns_to_owner(#[trigger] ctas[i])
}

/// The calls to action, with each that turns to the owner asking for a larger limit instead.
pub open spec fn with_request_increase(ctas: Seq<CtaView>) -> Seq<CtaView> {
    ctas.map_values(
        |cta: CtaView|
            if turns_to_owner(cta) {
                request_increase_cta()
            } else {
                cta
            },
    )
}

/// The banner as it is shown during a quota wait: one that tells a workspace member to turn
/// to the owner for credits asks for a larger limit instead, and any other is unchanged.
pub open spec fn wait_banner(banner: BannerView) -> BannerView {
    if banner.banner_type == "workspace_member_credits_depleted"@ && some_turn_to_owner(
        banner.ctas,
    ) {
        BannerView {
            ctas: with_request_increase(banner.ctas),
            description: "Your turn will automatically continue when the usage limit resets. Request a limit increase to continue sooner."@,
            ..banner
        }
    } else {
        banner
    }
}

/// Whether the text is the same as `other`.
pub(crate) fn same_text(text: &String, other: &str) -> (yes: bool)
    ensures
        yes == (text@ == other@),
{
    *text == other.to_owned()
}

/// Whether a model slug can be shown and used.
fn is_valid_slug(slug: &str) -> (yes: bool)
    ensures
        yes == valid_slug(slug@),
{
    !is_blank(slug) && utf8_len(slug) <= 256 && !contains_control_code(slug)
}

impl BackendBanner {
    /// Supplies the recovery choice of a plan when a quota wait has no visible account banner.
    pub fn recovery_fallback_for_plan(plan_type: PlanType) -> (banner: Option<Self>)
        ensures
            match recovery_choice(plan_type@) {
                Some(cta) => banner is Some && banner->0@ == recovery_banner(plan_type@, cta),
                None => banner is None,
            },
    {
        let (action, label): (&'static str, &'static str) = match &plan_type {
            PlanType::Free | PlanType::Go | PlanType::Plus | PlanType::ProLite => (
                "open_pricing_dialog",
                "Upgrade",
            ),
            plan if plan.is_workspace_account() => ("request_increase", "Request increase"),
            _ => return None,
        };
        let cta = BackendBannerCta { action: action.to_owned(), label: label.to_owned() };
        let ghost plan = plan_type@;
        let banner = BackendBanner {
            banner_type: "usage_limit_recovery_fallback".to_owned(),
            title: String::new(),
            description: String::new(),
            ctas: vec![cta],
            reset_at: None,
            model_slug: None,
            blocked_model_slug: None,
            fallback_model_slugs: Vec::new(),
            presentation: BannerPresentation::Inline,
            request_url: None,
            account_id: String::new(),
            plan_type: Some(plan_type),
        };
        assert(banner@ =~= recovery_banner(plan, recovery_choice(plan)->0));
        Some(banner)
    }

    /// Whether the content of the banner is supported, and bounded in each direction.
    pub fn is_supported(&self) -> (yes: bool)
        ensures
            yes == supported(self@),
    {
        let ghost view = self@;
        let blocked_slug_is_valid = match &self.blocked_model_slug {
            Some(slug) => is_valid_slug(slug),
            None => true,
        };
        if !(utf8_len(&self.title) <= 1024 && utf8_len(&self.description) <= 4096
            && self.ctas.len() <= 8 && !is_blank(&self.title) && count_lines(&self.title) <= 3
            && count_lines(&self.description) <= 12 && blocked_slug_is_valid
            && self.fallback_model_slugs.len() <= 16) {
            return false;
        }
        let mut i: usize = 0;
        while i < self.fallback_model_slugs.len()
            invariant
                view == self@,
                i <= self.fallback_model_slugs.len(),
                forall|j: int| 0 <= j < i ==> valid_slug(#[trigger] view.fallback_model_slugs[j]),
            decreases self.fallback_model_slugs.len() - i,
        {
            let slug = &self.fallback_model_slugs[i];
            assert(view.fallback_model_slugs[i as int] == slug@);
            if !is_valid_slug(slug) {
                return false;
            }
            i = i + 1;
        }
        true
    }

    /// Admits a decoded payload (`None` when it could not be decoded) only with supported,
    /// bounded content.
    pub fn parse(decoded: Option<Self>) -> (banner: Option<Self>)
        ensures
            banner == admitted(decoded),
    {
        match decoded {
            Some(content) => if content.is_supported() { Some(content) } else { None },
            None => None,
        }
    }

    /// The usual report of a usage limit turns a member's credits request into a request for
    /// a larger limit. The same choice is offered while the turn waits to resume by itself.
    pub fn for_usage_limit_wait(&self) -> (banner: Self)
        ensures
            banner@ == wait_banner(self@),
    {
        let mut banner = self.clone();
        if same_text(&banner.banner_type, "workspace_member_credits_depleted") {
            let mut ctas: Vec<BackendBannerCta> = Vec::new();
            let mut request_increase = false;
            let mut i: usize = 0;
            while i < banner.ctas.len()
                invariant
                    i <= banner.ctas.len(),
                    ctas.len() == i,
                    forall|j: int|
                        0 <= j < i ==> (#[trigger] ctas[j])@ == with_request_increase(banner@.ctas)[j],
                    request_increase == exists|j: int|
                        0 <= j < i && turns_to_owner(#[trigger] banner@.ctas[j]),
                decreases banner.ctas.len() - i,
            {
                let cta = &banner.ctas[i];
                assert(banner@.ctas[i as int] == cta@);
                if same_text(&cta.action, "notify_owner") || same_text(&cta.action, "contact_owner") {
                    ctas.push(
                        BackendBannerCta {
                            action: "request_increase".to_owned(),
                            label: "Request increase".to_owned(),
                        },
                    );
                    request_increase = true;
                } else {
                    ctas.push(cta.clone());
                }
                i = i + 1;
            }
            let ghost before = banner@;
            if request_increase {
                banner.ctas = ctas;
                banner.description =
                "Your turn will automatically continue when the usage limit resets. Request a limit increase to continue sooner.".to_owned();
                assert(banner@.ctas =~= with_request_increase(before.ctas));
            }
            assert(banner@ =~= wait_banner(before));
        }
        banner
    }
}

/// A banner that was admitted is admitted again, as it is.
pub proof fn law_admission_is_final(decoded: Option<BackendBanner>)
    ensures
        admitted(admitted(decoded)) == admitted(decoded),
        admitted(decoded) matches Some(banner) ==> decoded == Some(banner) && supported(banner@),
{
}

proof fn lemma_request_increase_differs()
    ensures
        !turns_to_owner(request_increase_cta()),
        !turns_to_owner(upgrade_cta()),
{
    reveal_strlit("request_increase");
    reveal_strlit("open_pricing_dialog");
    reveal_strlit("notify_owner");
    reveal_strlit("contact_owner");
    assert("request_increase"@.len() == 16);
    assert("open_pricing_dialog"@.len() == 19);
    assert("notify_owner"@.len() == 12);
    assert("contact_owner"@.len() == 13);
}

/// No member of a workspace whose credits are used up is told to turn to the owner while a
/// turn waits.
pub proof fn law_wait_banner_leaves_owner_alone(banner: BannerView)
    requires
        banner.banner_type == "workspace_member_credits_depleted"@,
    ensures
        !some_turn_to_owner(wait_banner(banner).ctas),
{
    lemma_request_increase_differs();
    let ctas = wait_banner(banner).ctas;
    if some_turn_to_owner(ctas) {
        let i = choose|i: int| 0 <= i < ctas.len() && turns_to_owner(#[trigger] ctas[i]);
        assert(some_turn_to_owner(banner.ctas));
        assert(ctas[i] == with_request_increase(banner.ctas)[i]);
        assert(turns_to_owner(banner.ctas[i]) || ctas[i] == banner.ctas[i]);
    }
}

/// Preparing a banner for a quota wait a second time changes nothing.
pub proof fn law_wait_banner_is_idempotent(banner: BannerView)
    ensures
        wait_banner(wait_banner(banner)) == wait_banner(banner),
{
    if banner.banner_type == "workspace_member_credits_depleted"@ {
        law_wait_banner_leaves_owner_alone(banner);
    }
}

/// A quota wait changes a banner in its description and in the calls to action that turn to
/// the owner, and nowhere else: the others stay, in place, and so does everything that
/// identifies the banner.
pub proof fn law_wait_banner_changes_little(banner: BannerView)
    ensures
        ({
            let shown = wait_banner(banner);
            &&& shown == (BannerView {
                ctas: shown.ctas,
                description: shown.description,
                ..banner
            })
            &&& shown.ctas.len() == banner.ctas.len()
            &&& forall|i: int|
                0 <= i < banner.ctas.len() && !turns_to_owner(banner.ctas[i])
                    ==> #[trigger] shown.ctas[i] == banner.ctas[i]
            &&& shown.ctas == banner.ctas ==> shown == banner
        }),
{
    lemma_request_increase_differs();
    let shown = wait_banner(banner);
    if shown.ctas == banner.ctas && some_turn_to_owner(banner.ctas) {
        let i = choose|i: int| 0 <= i < banner.ctas.len() && turns_to_owner(#[trigger] banner.ctas[i]);
        assert(shown.ctas[i] == banner.ctas[i]);
        assert(with_request_increase(banner.ctas)[i] == request_increase_cta());
    }
}

/// The recovery choice of a plan is shown as it is during a quota wait.
pub proof fn law_recovery_banner_is_ready_for_wait(plan: PlanView)
    requires
        recovery_choice(plan) is Some,
    ensures
        ({
            let banner = recovery_banner(plan, recovery_choice(plan)->0);
            wait_banner(banner) == banner
        }),
{
    reveal_strlit("usage_limit_recovery_fallback");
    reveal_strlit("workspace_member_credits_depleted");
    assert("usage_limit_recovery_fallback"@.len() == 29);
    assert("workspace_member_credits_depleted"@.len() == 33);
}

/// Preparing a banner for a quota wait keeps its content supported.
pub proof fn law_wait_banner_stays_supported(banner: BannerView)
    requires
        supported(banner),
    ensures
        supported(wait_banner(banner)),
{
    reveal_strlit(
        "Your turn will automatically continue when the usage limit resets. Request a limit increase to continue sooner.",
    );
    let text = "Your turn will automatically continue when the usage limit resets. Request a limit increase to continue sooner."@;
    lemma_bytes_bounded(text);
    assert forall|i: int| 0 <= i < text.len() implies #[trigger] text[i] != '\n' by {}
    lemma_single_line(text);
}

/// A payload is admitted by its bounds alone: the title has a character other than white space, at
/// most 1024 bytes and three lines; the description at most 4096 bytes and twelve lines; there are
/// at most eight calls to action and sixteen fallback models; and each slug among the blocked and
/// fallback models has a character other than white space, at most 256 bytes and no control code.
/// Whatever meets these is admitted as it is, and nothing else is.
pub proof fn law_admission_is_by_bounds_alone(banner: BackendBanner)
    ensures
        ({
            let title = banner.title@;
            let description = banner.description@;
            let within_bounds = {
                &&& exists|i: int| 0 <= i < title.len() && !is_white_space(#[trigger] title[i])
                &&& encode_utf8(title).len() <= 1024
                &&& line_count(title) <= 3
                &&& encode_utf8(description).len() <= 4096
                &&& line_count(description) <= 12
                &&& banner.ctas@.len() <= 8
                &&& banner.fallback_model_slugs@.len() <= 16
                &&& banner.blocked_model_slug matches Some(slug) ==> {
                    &&& exists|i: int| 0 <= i < slug@.len() && !is_white_space(#[trigger] slug@[i])
                    &&& encode_utf8(slug@).len() <= 256
                    &&& forall|i: int| 0 <= i < slug@.len() ==> !is_control_code(#[trigger] slug@[i])
                }
                &&& forall|k: int|
                    0 <= k < banner.fallback_model_slugs@.len() ==> {
                        let slug = (#[trigger] banner.fallback_model_slugs@[k])@;
                        &&& exists|i: int| 0 <= i < slug.len() && !is_white_space(#[trigger] slug[i])
                        &&& encode_utf8(slug).len() <= 256
                        &&& forall|i: int| 0 <= i < slug.len() ==> !is_control_code(#[trigger] slug[i])
                    }
            };
            &&& admitted(Some(banner)) == if within_bounds {
                Some(banner)
            } else {
                None
            }
            &&& supported(banner@) == within_bounds
            &&& admitted(None) is None
        }),
{
    let slugs = banner@.fallback_model_slugs;
    assert(forall|k: int|
        0 <= k < slugs.len() ==> #[trigger] slugs[k] == banner.fallback_model_slugs@[k]@);
    if supported(banner@) {
        assert forall|k: int| 0 <= k < banner.fallback_model_slugs@.len() implies valid_slug(
            (#[trigger] banner.fallback_model_slugs@[k])@,
        ) by {
            assert(valid_slug(slugs[k]));
        }
    }
}

/// Admission looks at the bounded fields and at no other: banners that agree in those are admitted
/// or refused together, whatever their presentation, their type, their reset time, their model,
/// their address, their account and their plan.
pub proof fn law_admission_ignores_other_fields(a: BannerView, b: BannerView)
    requires
        a.title == b.title,
        a.description == b.description,
        a.ctas.len() == b.ctas.len(),
        a.blocked_model_slug == b.blocked_model_slug,
        a.fallback_model_slugs == b.fallback_model_slugs,
    ensures
        supported(a) <==> supported(b),
{
}

/// A supported banner stays supported when it is cut: a shorter list of calls to action, fewer
/// fallback models, no blocked model, and no description are all within the bounds too.
pub proof fn law_less_content_stays_supported(banner: BannerView, ctas: int, slugs: int)
    requires
        supported(banner),
        0 <= ctas <= banner.ctas.len(),
        0 <= slugs <= banner.fallback_model_slugs.len(),
    ensures
        supported(
            (BannerView {
                description: seq![],
                ctas: banner.ctas.take(ctas),
                blocked_model_slug: None,
                fallback_model_slugs: banner.fallback_model_slugs.take(slugs),
                ..banner
            }),
        ),
{
    lemma_bytes_bounded(Seq::<char>::empty());
    lemma_single_line(Seq::<char>::empty());
}

/// The model of a banner holds each of its fields.
pub proof fn law_banner_model_holds_every_field(banner: BackendBanner)
    ensures
        banner@.banner_type == banner.banner_type@,
        banner@.title == banner.title@,
        banner@.description == banner.description@,
        banner@.ctas.len() == banner.ctas@.len(),
        forall|i: int|
            0 <= i < banner.ctas@.len() ==> {
                &&& (#[trigger] banner@.ctas[i]).action == banner.ctas@[i].action@
                &&& banner@.ctas[i].label == banner.ctas@[i].label@
            },
        banner@.reset_at == banner.reset_at,
        banner@.model_slug is Some <==> banner.model_slug is Some,
        banner.model_slug matches Some(slug) ==> banner@.model_slug == Some(slug@),
        banner@.blocked_model_slug is Some <==> banner.blocked_model_slug is Some,
        banner.blocked_model_slug matches Some(slug) ==> banner@.blocked_model_slug == Some(slug@),
        banner@.fallback_model_slugs.len() == banner.fallback_model_slugs@.len(),
        forall|i: int|
            0 <= i < banner.fallback_model_slugs@.len() ==> #[trigger] banner@.fallback_model_slugs[i]
                == banner.fallback_model_slugs@[i]@,
        banner@.presentation == banner.presentation,
        banner@.request_url is Some <==> banner.request_url is Some,
        banner.request_url matches Some(url) ==> banner@.request_url == Some(url@),
        banner@.account_id == banner.account_id@,
        banner@.plan_type is Some <==> banner.plan_type is Some,
        banner.plan_type matches Some(plan) ==> banner@.plan_type == Some(plan@),
{
}

/// The model of a plan tells every plan from every other.
pub proof fn law_plan_model_tells_plans_apart(plan: PlanType)
    ensures
        plan is Free <==> plan@ is Free,
        plan is Go <==> plan@ is Go,
        plan is Plus <==> plan@ is Plus,
        plan is ProLite <==> plan@ is ProLite,
        plan is Pro <==> plan@ is Pro,
        plan is Unknown <==> plan@ is Unknown,
        plan is Workspace <==> plan@ is Workspace,
        plan is Other <==> plan@ is Other,
        plan matches PlanType::Workspace(name) ==> plan@ == PlanView::Workspace(name@),
        plan matches PlanType::Other(name) ==> plan@ == PlanView::Other(name@),
{
}

/// Free, Go, Plus and Pro Lite plans are offered the pricing dialog as an upgrade, workspace plans a
/// request for a larger limit, and every other plan nothing.
pub proof fn law_recovery_choice_of_each_plan(plan: PlanView)
    ensures
        plan is Free || plan is Go || plan is Plus || plan is ProLite ==> recovery_choice(plan)
            == Some(CtaView { action: "open_pricing_dialog"@, label: "Upgrade"@ }),
        plan is Workspace ==> recovery_choice(plan) == Some(
            CtaView { action: "request_increase"@, label: "Request increase"@ },
        ),
        plan is Pro || plan is Unknown || plan is Other ==> recovery_choice(plan) is None,
{
}

/// A recovery banner offers its one choice inline, names its plan, and says nothing else.
pub proof fn law_recovery_banner_offers_one_choice(plan: PlanView, cta: CtaView)
    ensures
        ({
            let banner = recovery_banner(plan, cta);
            &&& banner.banner_type == "usage_limit_recovery_fallback"@
            &&& banner.ctas.len() == 1
            &&& banner.ctas[0] == cta
            &&& banner.plan_type == Some(plan)
            &&& banner.presentation is Inline
            &&& banner.title.len() == 0
            &&& banner.description.len() == 0
            &&& banner.fallback_model_slugs.len() == 0
            &&& banner.account_id.len() == 0
            &&& banner.reset_at is None
            &&& banner.model_slug is None
            &&& banner.blocked_model_slug is None
            &&& banner.request_url is None
        }),
{
}

/// During a wait, a banner about the used-up credits of a workspace member has, at every index where
/// its call to action was to notify or to contact the owner, one that requests an increase, and at
/// every other index the one that it had. It says that the turn continues by itself and that an
/// increase can be requested, if there was any such index.
pub proof fn law_owner_requests_become_increase_requests(banner: BannerView, i: int)
    requires
        banner.banner_type == "workspace_member_credits_depleted"@,
        0 <= i < banner.ctas.len(),
    ensures
        ({
            let shown = wait_banner(banner);
            let cta = banner.ctas[i];
            &&& shown.ctas.len() == banner.ctas.len()
            &&& if cta.action == "notify_owner"@ || cta.action == "contact_owner"@ {
                &&& shown.ctas[i].action == "request_increase"@
                &&& shown.ctas[i].label == "Request increase"@
                &&& shown.description
                    == "Your turn will automatically continue when the usage limit resets. Request a limit increase to continue sooner."@
            } else {
                shown.ctas[i] == cta
            }
        }),
{
    if turns_to_owner(banner.ctas[i]) {
        assert(some_turn_to_owner(banner.ctas));
    }
}

/// A wait leaves a banner as it is when it is about anything but the used-up credits of a workspace
/// member, and when it has no call to action that notifies or contacts the owner. It never changes
/// anything but the description and the calls to action.
pub proof fn law_other_banners_are_left_alone(banner: BannerView)
    ensures
        ({
            let shown = wait_banner(banner);
            &&& banner.banner_type != "workspace_member_credits_depleted"@ ==> shown == banner
            &&& (forall|i: int|
                0 <= i < banner.ctas.len() ==> (#[trigger] banner.ctas[i]).action != "notify_owner"@
                    && banner.ctas[i].action != "contact_owner"@) ==> shown == banner
            &&& shown.banner_type == banner.banner_type
            &&& shown.title == banner.title
            &&& shown.reset_at == banner.reset_at
            &&& shown.model_slug == banner.model_slug
            &&& shown.blocked_model_slug == banner.blocked_model_slug
            &&& shown.fallback_model_slugs == banner.fallback_model_slugs
            &&& shown.presentation == banner.presentation
            &&& shown.request_url == banner.request_url
            &&& shown.account_id == banner.account_id
            &&& shown.plan_type == banner.plan_type
        }),
{
}

} // verus!
