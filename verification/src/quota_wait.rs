//! Cancellable quota waits for an active sampling turn.
//!
//! The caller performs the actions, retains the request history, and reports back what
//! happened; this module decides how long to wait, what to announce and in which order.

use crate::clock::{chrono_timestamp_millis, chrono_to_std, chrono_utc_now, Span, UtcInstant};
use crate::countdown::remaining_seconds;
use vstd::prelude::*;

verus! {

/// Seconds to wait beyond the advertised reset, for delayed backend quota updates.
pub const RESET_MARGIN_SECS: u64 = 5;

/// How long a turn waits, and when it will retry.
#[derive(Clone, Copy, Debug, PartialEq, Eq, Structural)]
pub struct WaitPlan {
    pub wait_duration: Span,
    /// Milliseconds since the Unix epoch.
    pub retry_at_ms: i64,
}

/// Nanoseconds to wait at `now` for a reset at `resets_at`: the time that is left, if any,
/// and the margin.
pub open spec fn wait_nanos(resets_at: UtcInstant, now: UtcInstant) -> int {
    let left = resets_at.nanos_since(now);
    (if left > 0 { left } else { 0 }) + RESET_MARGIN_SECS * 1_000_000_000
}

impl WaitPlan {
    /// The plan is the one for a reset at `resets_at`, made at `now`.
    pub open spec fn is_for(self, resets_at: UtcInstant, now: UtcInstant) -> bool {
        &&& self.wait_duration.wf()
        &&& self.wait_duration.total_nanos() == wait_nanos(resets_at, now)
        &&& self.retry_at_ms == now.unix_millis() + wait_nanos(resets_at, now) / 1_000_000
    }
}

/// A point in time `wait_ms` milliseconds after `now_ms`, or the last one that there is.
fn saturating_deadline(now_ms: i64, wait_ms: u128) -> (deadline_ms: i64)
    ensures
        deadline_ms == if wait_ms <= i64::MAX && now_ms + wait_ms <= i64::MAX {
            now_ms + wait_ms
        } else if wait_ms > i64::MAX && now_ms < 0 {
            now_ms + i64::MAX
        } else {
            i64::MAX as int
        },
{
    let wait_ms: i64 = if wait_ms <= i64::MAX as u128 { wait_ms as i64 } else { i64::MAX };
    if now_ms > 0 && wait_ms > i64::MAX - now_ms {
        i64::MAX
    } else {
        now_ms + wait_ms
    }
}

/// Plans the wait for a reset at `resets_at`, as of `now`. A stale reset still waits out the
/// margin, which prevents a tight loop of quota errors.
pub fn plan_wait(resets_at: UtcInstant, now: UtcInstant) -> (plan: WaitPlan)
    requires
        resets_at.wf(),
        now.wf(),
    ensures
        plan.is_for(resets_at, now),
{
    let left: Span = match chrono_to_std(resets_at.signed_duration_since(now)) {
        Ok(span) => span,
        Err(_) => Span::zero(),
    };
    let wait_duration = left.saturating_add(Span::from_secs(RESET_MARGIN_SECS));
    let retry_at_ms: i64 = saturating_deadline(
        chrono_timestamp_millis(now),
        wait_duration.as_millis(),
    );
    WaitPlan { wait_duration, retry_at_ms }
}

/// The announcement that a wait has begun.
#[derive(Clone, Copy, Debug, PartialEq, Eq)]
pub struct UsageLimitWaitEvent {
    /// When the turn will retry, in milliseconds since the Unix epoch.
    pub retry_at_ms: i64,
}

/// What a session tells its clients about a wait.
#[derive(Clone, Copy, Debug, PartialEq, Eq)]
pub enum EventMsg {
    UsageLimitWaitStarted(UsageLimitWaitEvent),
    UsageLimitWaitEnded,
}

/// Why a wait gave up its turn.
#[derive(Clone, Copy, Debug, PartialEq, Eq)]
pub enum CodexErr {
    TurnAborted,
}

/// What ended the sleep of a waiting turn.
#[derive(Clone, Copy, Debug, PartialEq, Eq)]
pub enum Wake {
    Cancelled,
    Elapsed,
}

/// The sources of a wake-up that are ready at one moment decide it: cancellation goes first.
pub open spec fn select_wake_spec(cancelled: bool, elapsed: bool) -> Option<Wake> {
    if cancelled {
        Some(Wake::Cancelled)
    } else if elapsed {
        Some(Wake::Elapsed)
    } else {
        None
    }
}

/// Picks the wake-up of a sleeping turn. A turn that was cancelled is woken as cancelled even
/// when its sleep is over at the same moment; with neither ready it sleeps on.
pub fn select_wake(cancelled: bool, elapsed: bool) -> (wake: Option<Wake>)
    ensures
        wake == select_wake_spec(cancelled, elapsed),
{
    if cancelled {
        Some(Wake::Cancelled)
    } else if elapsed {
        Some(Wake::Elapsed)
    } else {
        None
    }
}

/// What a wait returns to its turn.
pub open spec fn wait_result_spec(wake: Wake) -> Result<(), CodexErr> {
    match wake {
        Wake::Cancelled => Err(CodexErr::TurnAborted),
        Wake::Elapsed => Ok(()),
    }
}

/// What the caller of a wait does next.
#[derive(Clone, Copy, Debug, PartialEq, Eq)]
pub enum WaitAction {
    /// Send the event to the clients, then report `WaitInput::EventSent`.
    Send(EventMsg),
    /// Sleep this long unless the turn is cancelled, then report `WaitInput::Woke`.
    Sleep(Span),
    /// Hand the result to the turn: it retries after `Ok`.
    Return(Result<(), CodexErr>),
}

/// What the caller of a wait reports.
#[derive(Clone, Copy, Debug, PartialEq, Eq)]
pub enum WaitInput {
    EventSent,
    Woke(Wake),
}

/// How far a wait has come.
#[derive(Clone, Copy, Debug, PartialEq, Eq)]
pub enum WaitPhase {
    /// The start is being announced; the turn will then sleep this long.
    Starting { wait_duration: Span },
    Sleeping,
    /// The end is being announced; the turn will then be handed the result.
    Ending { result: Result<(), CodexErr> },
    Finished,
}

/// The phase after `input`, and the action that `input` calls for. An input that the phase
/// does not wait for changes nothing.
pub open spec fn step_spec(phase: WaitPhase, input: WaitInput) -> (WaitPhase, Option<WaitAction>) {
    match (phase, input) {
        (WaitPhase::Starting { wait_duration }, WaitInput::EventSent) => (
            WaitPhase::Sleeping,
            Some(WaitAction::Sleep(wait_duration)),
        ),
        (WaitPhase::Sleeping, WaitInput::Woke(wake)) => (
            WaitPhase::Ending { result: wait_result_spec(wake) },
            Some(WaitAction::Send(EventMsg::UsageLimitWaitEnded)),
        ),
        (WaitPhase::Ending { result }, WaitInput::EventSent) => (
            WaitPhase::Finished,
            Some(WaitAction::Return(result)),
        ),
        _ => (phase, None),
    }
}

/// The UTC clock was read and showed this instant. Only a call that reads the clock establishes
/// this.
pub closed spec fn utc_clock_read(now: UtcInstant) -> bool {
    call_ensures(chrono_utc_now, (), now)
}

impl WaitPhase {
    /// The first phase and the first action of a wait that follows `plan`.
    pub open spec fn begin_spec(plan: WaitPlan) -> (WaitPhase, WaitAction) {
        (
            WaitPhase::Starting { wait_duration: plan.wait_duration },
            WaitAction::Send(
                EventMsg::UsageLimitWaitStarted(
                    UsageLimitWaitEvent { retry_at_ms: plan.retry_at_ms },
                ),
            ),
        )
    }

    /// Begins the wait that follows `plan`.
    pub fn begin_with(plan: WaitPlan) -> (begun: (WaitPhase, WaitAction))
        ensures
            begun == WaitPhase::begin_spec(plan),
    {
        let event = UsageLimitWaitEvent { retry_at_ms: plan.retry_at_ms };
        (
            WaitPhase::Starting { wait_duration: plan.wait_duration },
            WaitAction::Send(EventMsg::UsageLimitWaitStarted(event)),
        )
    }

    /// Begins the wait for a reset at `resets_at`, as of the current time. The plan is the one
    /// for the time that the clock was read at.
    pub fn begin(resets_at: UtcInstant) -> (begun: (WaitPhase, WaitAction))
        requires
            resets_at.wf(),
        ensures
            exists|plan: WaitPlan, now: UtcInstant|
                #![trigger plan.is_for(resets_at, now)]
                utc_clock_read(now) && now.wf() && now.is_ordinary() && now.secs >= 0
                    && plan.is_for(resets_at, now) && begun == WaitPhase::begin_spec(plan),
    {
        let now = chrono_utc_now();
        let plan = plan_wait(resets_at, now);
        assert(plan.is_for(resets_at, now));
        WaitPhase::begin_with(plan)
    }

    /// Moves on by what the caller reports, and tells it what to do next. An input that the
    /// phase does not wait for is answered with `None`.
    pub fn step(&mut self, input: WaitInput) -> (action: Option<WaitAction>)
        ensures
            (*final(self), action) == step_spec(*old(self), input),
    {
        match (*self, input) {
            (WaitPhase::Starting { wait_duration }, WaitInput::EventSent) => {
                *self = WaitPhase::Sleeping;
                Some(WaitAction::Sleep(wait_duration))
            },
            (WaitPhase::Sleeping, WaitInput::Woke(wake)) => {
                let result = match wake {
                    Wake::Cancelled => Err(CodexErr::TurnAborted),
                    Wake::Elapsed => Ok(()),
                };
                *self = WaitPhase::Ending { result };
                Some(WaitAction::Send(EventMsg::UsageLimitWaitEnded))
            },
            (WaitPhase::Ending { result }, WaitInput::EventSent) => {
                *self = WaitPhase::Finished;
                Some(WaitAction::Return(result))
            },
            _ => None,
        }
    }
}

/// The actions that a wait in `phase` calls for as it is fed `inputs`, one after the other.
pub open spec fn actions_from(phase: WaitPhase, inputs: Seq<WaitInput>) -> Seq<WaitAction>
    decreases inputs.len(),
{
    if inputs.len() == 0 {
        seq![]
    } else {
        let (next, action) = step_spec(phase, inputs.first());
        let rest = actions_from(next, inputs.drop_first());
        match action {
            Some(action) => seq![action] + rest,
            None => rest,
        }
    }
}

/// All actions of a wait that follows `plan` and is fed `inputs`, from its beginning on.
pub open spec fn wait_actions(plan: WaitPlan, inputs: Seq<WaitInput>) -> Seq<WaitAction> {
    let (phase, action) = WaitPhase::begin_spec(plan);
    seq![action] + actions_from(phase, inputs)
}

/// The actions of a whole wait whose sleep ends with `wake`: announce the start, sleep,
/// announce the end, return.
pub open spec fn wait_script(plan: WaitPlan, wake: Wake) -> Seq<WaitAction> {
    seq![
        WaitPhase::begin_spec(plan).1,
        WaitAction::Sleep(plan.wait_duration),
        WaitAction::Send(EventMsg::UsageLimitWaitEnded),
        WaitAction::Return(wait_result_spec(wake)),
    ]
}

proof fn lemma_actions_when_finished(inputs: Seq<WaitInput>)
    ensures
        actions_from(WaitPhase::Finished, inputs) =~= seq![],
    decreases inputs.len(),
{
    if inputs.len() > 0 {
        lemma_actions_when_finished(inputs.drop_first());
    }
}

proof fn lemma_actions_when_ending(result: Result<(), CodexErr>, inputs: Seq<WaitInput>)
    ensures
        actions_from(WaitPhase::Ending { result }, inputs) == Seq::<WaitAction>::empty() || actions_from(
            WaitPhase::Ending { result },
            inputs,
        ) == seq![WaitAction::Return(result)],
    decreases inputs.len(),
{
    if inputs.len() > 0 {
        if inputs.first() is EventSent {
            lemma_actions_when_finished(inputs.drop_first());
        } else {
            lemma_actions_when_ending(result, inputs.drop_first());
        }
    }
}

/// The wake-up that a sleeping wait acts on when it is fed `inputs`: the first one reported.
pub open spec fn first_wake(inputs: Seq<WaitInput>) -> Option<Wake>
    decreases inputs.len(),
{
    if inputs.len() == 0 {
        None
    } else {
        match inputs.first() {
            WaitInput::Woke(wake) => Some(wake),
            WaitInput::EventSent => first_wake(inputs.drop_first()),
        }
    }
}

proof fn lemma_actions_when_sleeping(inputs: Seq<WaitInput>)
    ensures
        ({
            let actions = actions_from(WaitPhase::Sleeping, inputs);
            match first_wake(inputs) {
                Some(wake) => {
                    ||| actions == seq![WaitAction::Send(EventMsg::UsageLimitWaitEnded)]
                    ||| actions == seq![
                        WaitAction::Send(EventMsg::UsageLimitWaitEnded),
                        WaitAction::Return(wait_result_spec(wake)),
                    ]
                },
                None => actions == Seq::<WaitAction>::empty(),
            }
        }),
    decreases inputs.len(),
{
    if inputs.len() > 0 {
        match inputs.first() {
            WaitInput::Woke(wake) => lemma_actions_when_ending(
                wait_result_spec(wake),
                inputs.drop_first(),
            ),
            WaitInput::EventSent => lemma_actions_when_sleeping(inputs.drop_first()),
        }
    }
}

/// The inputs that follow the first report of a sent event.
pub open spec fn after_first_sent(inputs: Seq<WaitInput>) -> Seq<WaitInput>
    decreases inputs.len(),
{
    if inputs.len() == 0 {
        inputs
    } else if inputs.first() is EventSent {
        inputs.drop_first()
    } else {
        after_first_sent(inputs.drop_first())
    }
}

proof fn lemma_actions_when_starting(wait_duration: Span, inputs: Seq<WaitInput>)
    ensures
        ({
            let actions = actions_from(WaitPhase::Starting { wait_duration }, inputs);
            ||| actions == Seq::<WaitAction>::empty()
            ||| actions == seq![WaitAction::Sleep(wait_duration)] + actions_from(
                WaitPhase::Sleeping,
                after_first_sent(inputs),
            )
        }),
    decreases inputs.len(),
{
    if inputs.len() > 0 && !(inputs.first() is EventSent) {
        lemma_actions_when_starting(wait_duration, inputs.drop_first());
    }
}

/// Whatever the caller reports, and in whatever order, a wait acts in one order only: it
/// announces its start with the retry time, sleeps for its planned duration, announces its
/// end, and returns. It may stop short, and then has done a first part of that. The result is
/// that of the first wake-up reported after the start was announced.
pub proof fn law_wait_acts_in_order(plan: WaitPlan, inputs: Seq<WaitInput>)
    ensures
        ({
            let actions = wait_actions(plan, inputs);
            let wake = match first_wake(after_first_sent(inputs)) {
                Some(wake) => wake,
                None => Wake::Elapsed,
            };
            &&& 1 <= actions.len() <= 4
            &&& actions == wait_script(plan, wake).take(actions.len() as int)
            &&& actions.len() > 2 ==> first_wake(after_first_sent(inputs)) is Some
        }),
{
    let (phase, action) = WaitPhase::begin_spec(plan);
    lemma_actions_when_starting(plan.wait_duration, inputs);
    lemma_actions_when_sleeping(after_first_sent(inputs));
    let wake = match first_wake(after_first_sent(inputs)) {
        Some(wake) => wake,
        None => Wake::Elapsed,
    };
    let actions = wait_actions(plan, inputs);
    assert(actions =~= wait_script(plan, wake).take(actions.len() as int));
}

/// A wait never returns, interrupted or not, before it has announced an end that matches its
/// one announced start.
pub proof fn law_end_is_announced_before_return(plan: WaitPlan, inputs: Seq<WaitInput>, i: int)
    requires
        0 <= i < wait_actions(plan, inputs).len(),
        wait_actions(plan, inputs)[i] is Return,
    ensures
        ({
            let sent = wait_actions(plan, inputs).take(i).filter(|action: WaitAction| action is Send);
            sent == seq![
                WaitAction::Send(
                    EventMsg::UsageLimitWaitStarted(
                        UsageLimitWaitEvent { retry_at_ms: plan.retry_at_ms },
                    ),
                ),
                WaitAction::Send(EventMsg::UsageLimitWaitEnded),
            ]
        }),
{
    law_wait_acts_in_order(plan, inputs);
    let actions = wait_actions(plan, inputs);
    let is_send = |action: WaitAction| action is Send;
    assert(i == 3);
    let before = actions.take(3);
    assert(before.drop_last() =~= actions.take(2));
    assert(actions.take(2).drop_last() =~= actions.take(1));
    assert(actions.take(1).drop_last() =~= actions.take(0));
    reveal_with_fuel(Seq::filter, 4);
    assert(actions.take(0).filter(is_send) =~= seq![]);
    assert(actions.take(1).filter(is_send) =~= seq![actions[0]]);
    assert(actions.take(2).filter(is_send) =~= seq![actions[0]]);
    assert(actions.take(3).filter(is_send) =~= seq![actions[0], actions[2]]);
}

/// A wait that is fed the reports it asks for runs to its end.
pub proof fn law_wait_runs_to_its_end(plan: WaitPlan, wake: Wake)
    ensures
        wait_actions(
            plan,
            seq![WaitInput::EventSent, WaitInput::Woke(wake), WaitInput::EventSent],
        ) == wait_script(plan, wake),
{
    let inputs = seq![WaitInput::EventSent, WaitInput::Woke(wake), WaitInput::EventSent];
    assert(inputs.drop_first() =~= seq![WaitInput::Woke(wake), WaitInput::EventSent]);
    assert(inputs.drop_first().drop_first() =~= seq![WaitInput::EventSent]);
    assert(inputs.drop_first().drop_first().drop_first() =~= seq![]);
    reveal_with_fuel(actions_from, 4);
    assert(wait_actions(plan, inputs) =~= wait_script(plan, wake));
}

/// A turn is aborted only by a cancellation, and a cancelled turn is not retried: the result
/// is `TurnAborted` exactly when cancellation was ready as the turn woke.
pub proof fn law_cancellation_aborts(cancelled: bool, elapsed: bool)
    requires
        cancelled || elapsed,
    ensures
        select_wake_spec(cancelled, elapsed) matches Some(wake) && (wait_result_spec(wake) == Err::<
            (),
            CodexErr,
        >(CodexErr::TurnAborted) <==> cancelled),
{
}

/// Every wait lasts at least the margin, and its retry time lies at least that far ahead.
pub proof fn law_wait_is_never_shorter_than_margin(
    plan: WaitPlan,
    resets_at: UtcInstant,
    now: UtcInstant,
)
    requires
        plan.is_for(resets_at, now),
    ensures
        plan.wait_duration.secs >= RESET_MARGIN_SECS,
        plan.retry_at_ms >= now.unix_millis() + 5_000,
{
}

/// A reset that has passed is waited for with the margin alone.
pub proof fn law_stale_reset_waits_margin(
    plan: WaitPlan,
    resets_at: UtcInstant,
    now: UtcInstant,
)
    requires
        plan.is_for(resets_at, now),
        resets_at.nanos_since(now) <= 0,
    ensures
        plan.wait_duration == (Span { secs: RESET_MARGIN_SECS, nanos: 0 }),
        plan.retry_at_ms == now.unix_millis() + 5_000,
{
}

/// A reset that lies ahead is waited for until the margin has passed after it, and the retry
/// time names that moment to within a millisecond. A leap second between the two instants
/// counts as a second of its own.
pub proof fn law_wait_outlasts_reset(plan: WaitPlan, resets_at: UtcInstant, now: UtcInstant)
    requires
        plan.is_for(resets_at, now),
        resets_at.nanos_since(now) >= 0,
    ensures
        ({
            let leap = resets_at.leap_seconds_since(now);
            let margin = RESET_MARGIN_SECS + leap;
            &&& now.unix_nanos() + plan.wait_duration.total_nanos() == resets_at.unix_nanos()
                + margin * 1_000_000_000
            &&& resets_at.unix_millis() + margin * 1_000 - 1 <= plan.retry_at_ms
            &&& plan.retry_at_ms <= resets_at.unix_millis() + margin * 1_000
        }),
{
}

/// Of two resets, the one that lies further ahead is never waited for less.
pub proof fn law_later_reset_waits_no_less(
    sooner: UtcInstant,
    later: UtcInstant,
    now: UtcInstant,
    sooner_plan: WaitPlan,
    later_plan: WaitPlan,
)
    requires
        sooner.nanos_since(now) <= later.nanos_since(now),
        sooner_plan.is_for(sooner, now),
        later_plan.is_for(later, now),
    ensures
        sooner_plan.wait_duration.total_nanos() <= later_plan.wait_duration.total_nanos(),
        sooner_plan.retry_at_ms <= later_plan.retry_at_ms,
{
}

/// As a wait begins, the countdown to its retry shows the whole seconds of the wait.
pub proof fn law_countdown_begins_with_wait(plan: WaitPlan, resets_at: UtcInstant, now: UtcInstant)
    requires
        resets_at.wf(),
        now.wf(),
        plan.is_for(resets_at, now),
    ensures
        remaining_seconds(plan.retry_at_ms, now.unix_millis() as i64) == plan.wait_duration.secs,
{
}

/// The countdown of a wait does not run out before the reset that is waited for.
pub proof fn law_countdown_outlasts_reset(
    plan: WaitPlan,
    resets_at: UtcInstant,
    now: UtcInstant,
    shown_at_ms: i64,
)
    requires
        plan.is_for(resets_at, now),
        resets_at.nanos_since(now) >= 0,
        remaining_seconds(plan.retry_at_ms, shown_at_ms) == 0,
    ensures
        shown_at_ms > resets_at.unix_millis(),
{
    law_wait_outlasts_reset(plan, resets_at, now);
}

/// A reading of the UTC clock is what `chrono_utc_now` returned, hence a valid instant at or after
/// the Unix epoch and outside leap seconds.
pub(crate) proof fn law_utc_reading_came_from_the_clock(now: UtcInstant)
    requires
        utc_clock_read(now),
    ensures
        call_ensures(chrono_utc_now, (), now),
        now.nanos < 1_000_000_000,
        now.secs >= 0,
{
}

/// A wait that was begun at `now` for a reset at `resets_at` sleeps for the time that is left, if
/// any, and five seconds more; it announces as its retry time the moment at which that sleep ends,
/// in milliseconds. So the sleep, counted from `now`, never ends before the reset has passed by
/// five seconds.
pub proof fn law_begun_wait_sleeps_past_reset(
    plan: WaitPlan,
    resets_at: UtcInstant,
    now: UtcInstant,
    begun: (WaitPhase, WaitAction),
)
    requires
        plan.is_for(resets_at, now),
        begun == WaitPhase::begin_spec(plan),
    ensures
        ({
            &&& begun.0 matches WaitPhase::Starting { wait_duration }
            &&& begun.1 matches WaitAction::Send(EventMsg::UsageLimitWaitStarted(event))
            &&& {
                let sleep = wait_duration.secs * 1_000_000_000 + wait_duration.nanos;
                let left = resets_at.nanos_since(now);
                &&& wait_duration.nanos < 1_000_000_000
                &&& left > 0 ==> sleep == left + 5_000_000_000
                &&& left <= 0 ==> sleep == 5_000_000_000
                &&& event.retry_at_ms == now.unix_millis() + sleep / 1_000_000
                &&& resets_at.nanos < 1_000_000_000 && now.nanos < 1_000_000_000 ==> now.secs
                    * 1_000_000_000 + now.nanos + sleep >= resets_at.secs * 1_000_000_000
                    + resets_at.nanos + 5_000_000_000
            }
        }),
{
}

/// Two plans for the same reset, made at the same time, are the same.
pub proof fn law_plan_is_determined(
    a: WaitPlan,
    b: WaitPlan,
    resets_at: UtcInstant,
    now: UtcInstant,
)
    requires
        a.is_for(resets_at, now),
        b.is_for(resets_at, now),
    ensures
        a == b,
{
}

/// A sleeping turn is woken as cancelled whenever cancellation is ready, as rested when only its
/// sleep is over, and not at all otherwise; cancellation alone makes the wait give up its turn.
pub proof fn law_wake_and_result(cancelled: bool, elapsed: bool)
    ensures
        select_wake_spec(cancelled, elapsed) == Some(Wake::Cancelled) <==> cancelled,
        select_wake_spec(cancelled, elapsed) == Some(Wake::Elapsed) <==> !cancelled && elapsed,
        select_wake_spec(cancelled, elapsed) is None <==> !cancelled && !elapsed,
        wait_result_spec(Wake::Cancelled) == Err::<(), CodexErr>(CodexErr::TurnAborted),
        wait_result_spec(Wake::Elapsed) == Ok::<(), CodexErr>(()),
{
}

/// Each action of a wait has its place, whatever the caller reports: first the announcement of the
/// retry time, then the planned sleep, then the announcement of the end, then the result, and
/// nothing after it. The result is `TurnAborted` exactly when the wake-up that was acted on was
/// a cancellation.
pub proof fn law_each_action_has_its_place(plan: WaitPlan, inputs: Seq<WaitInput>, i: int)
    requires
        0 <= i < wait_actions(plan, inputs).len(),
    ensures
        ({
            let action = wait_actions(plan, inputs)[i];
            &&& i <= 3
            &&& i == 0 ==> action == WaitAction::Send(
                EventMsg::UsageLimitWaitStarted(
                    UsageLimitWaitEvent { retry_at_ms: plan.retry_at_ms },
                ),
            )
            &&& i == 1 ==> action == WaitAction::Sleep(plan.wait_duration)
            &&& i == 2 ==> action == WaitAction::Send(EventMsg::UsageLimitWaitEnded)
            &&& i == 3 ==> match first_wake(after_first_sent(inputs)) {
                Some(Wake::Cancelled) => action == WaitAction::Return(Err(CodexErr::TurnAborted)),
                Some(Wake::Elapsed) => action == WaitAction::Return(Ok(())),
                None => false,
            }
        }),
{
    law_wait_acts_in_order(plan, inputs);
    let wake = match first_wake(after_first_sent(inputs)) {
        Some(wake) => wake,
        None => Wake::Elapsed,
    };
    assert(wait_actions(plan, inputs)[i] == wait_script(plan, wake)[i]);
}

/// Each phase waits for one kind of report. That report moves it on and calls for one action; any
/// other leaves it where it is and calls for none.
pub proof fn law_phase_moves_on_its_report_only(phase: WaitPhase, input: WaitInput)
    ensures
        ({
            let (next, action) = step_spec(phase, input);
            match phase {
                WaitPhase::Starting { wait_duration } => if input == WaitInput::EventSent {
                    next == WaitPhase::Sleeping && action == Some(WaitAction::Sleep(wait_duration))
                } else {
                    next == phase && action is None
                },
                WaitPhase::Sleeping => match input {
                    WaitInput::EventSent => next == phase && action is None,
                    WaitInput::Woke(wake) => {
                        &&& action == Some(WaitAction::Send(EventMsg::UsageLimitWaitEnded))
                        &&& next matches WaitPhase::Ending { result }
                        &&& result == Ok::<(), CodexErr>(()) <==> wake == Wake::Elapsed
                        &&& result == Err::<(), CodexErr>(CodexErr::TurnAborted) <==> wake
                            == Wake::Cancelled
                    },
                },
                WaitPhase::Ending { result } => if input == WaitInput::EventSent {
                    next == WaitPhase::Finished && action == Some(WaitAction::Return(result))
                } else {
                    next == phase && action is None
                },
                WaitPhase::Finished => next == phase && action is None,
            }
        }),
{
}

} // verus!
