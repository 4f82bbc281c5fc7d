//! One launch attempt, stage by stage.
//!
//! The stages run strictly in order: the add-on host's synchronisation (when
//! enabled), the check that the game executable exists, the two login
//! requests, and the start of the game (directly, or through the injector).
//! The first failure ends the attempt; no stage is retried here. The caller
//! performs each action and reports its outcome, with a reading of a
//! monotonic clock in nanoseconds.

use vstd::prelude::*;
use crate::digest::{duration_text, format_duration};
use crate::launch::{
    LaunchConfig, GameLaunchMetrics, env_views, game_executable, game_executable_of, launch_arguments,
    launch_arguments_of, launch_environment, launch_environment_of,
};
use crate::login::{
    extract_sid, extract_stored, landing_url, landing_url_of, login_form_body, login_form_of,
    otp_text, sid_value_is, stored_match, sid_match, stored_value_is, submission_url,
    submission_url_of, LANDING_TIMEOUT_SECS, SUBMISSION_TIMEOUT_SECS,
};
use crate::text::{concat, decimal, push_decimal};

verus! {

broadcast use vstd::string::group_string_axioms;

/// Why an HTTP exchange failed.
pub enum HttpFailure {
    /// The request could not be sent or answered; the transport's message.
    Send(String),
    /// The reply's body could not be read; the reason.
    Read(String),
    /// The reply's status was not a success.
    Status(u16),
}

/// Where an attempt stands.
#[derive(PartialEq, Eq, Structural, Clone, Copy, Debug)]
pub enum Stage {
    AddonSync,
    PathCheck,
    StoredFetch,
    LoginSubmit,
    ArgsPrepared,
    GameStart,
    Injection,
    Done,
    Failed,
}

/// The outcome of the last action.
pub enum LaunchEvent {
    AddonSynced { result: Result<(), String>, now_ns: u64 },
    PathChecked { exists: bool, now_ns: u64 },
    LandingFetched { body: Result<String, HttpFailure>, now_ns: u64 },
    LoginAnswered { body: Result<String, HttpFailure>, now_ns: u64 },
    TimeReported { now_ns: u64 },
    GameStarted { process: Result<u32, String>, now_ns: u64 },
    Injected { result: Result<(), String>, now_ns: u64 },
}

/// What to do next.
pub enum LaunchAction {
    /// Bring the add-on host's installation and assets up to date.
    SyncAddon,
    /// Check that the game executable exists.
    CheckGamePath { executable: String },
    /// GET the login landing page.
    FetchLanding { url: String, user_agent: String, timeout_secs: u64 },
    /// POST the url-encoded login form.
    SubmitLogin {
        url: String,
        referer: String,
        user_agent: String,
        body: String,
        timeout_secs: u64,
    },
    /// The game's command line is ready: report the clock's reading.
    ReportTime,
    /// Start the game directly with this command line and these extra
    /// environment variables.
    StartGame { executable: String, arguments: String, environment: Vec<(String, String)> },
    /// Start the game through the injector with this command line and these
    /// extra environment variables.
    Inject { arguments: String, environment: Vec<(String, String)> },
    /// The attempt is over: a summary with the stage timings, or the error.
    Finish(Result<String, String>),
    /// The event did not fit the stage; nothing to do.
    Ignore,
}

/// One launch attempt.
pub struct Launch {
    pub config: LaunchConfig,
    pub user_agent: String,
    pub stage: Stage,
    pub started_ns: u64,
    pub stage_started_ns: u64,
    pub stored_started_ns: u64,
    /// The game's command line, once the session id is known.
    pub arguments: String,
    /// One line per finished stage: its name and how long it took.
    pub metrics: Vec<String>,
    pub timings: GameLaunchMetrics,
}

/// The time from `from` to `now`, or zero if the clock reads earlier.
pub open spec fn elapsed_of(from: u64, now: u64) -> u64 {
    if now >= from {
        (now - from) as u64
    } else {
        0
    }
}

fn elapsed(from: u64, now: u64) -> (r: u64)
    ensures
        r == elapsed_of(from, now),
{
    if now >= from {
        now - from
    } else {
        0
    }
}

/// A metrics line: the stage's name and its duration.
pub open spec fn metric_line(label: Seq<char>, nanos: u64) -> Seq<char> {
    label + ": "@ + duration_text(nanos as nat)
}

fn metric(label: &str, nanos: u64) -> (r: String)
    ensures
        r@ == metric_line(label@, nanos),
{
    let mut r = String::from_str(label);
    r.append(": ");
    let d = format_duration(nanos);
    r.append(d.as_str());
    r
}

/// Lines joined by line breaks.
pub open spec fn joined_lines(lines: Seq<String>) -> Seq<char>
    decreases lines.len(),
{
    if lines.len() == 0 {
        seq![]
    } else if lines.len() == 1 {
        lines[0]@
    } else {
        joined_lines(lines.drop_last()) + "\n"@ + lines.last()@
    }
}

/// The success summary over the metrics lines.
pub open spec fn summary_of(lines: Seq<String>) -> Seq<char> {
    "Game launched successfully. Performance metrics:\n"@ + joined_lines(lines)
}

fn summary(lines: &Vec<String>) -> (r: String)
    ensures
        r@ == summary_of(lines@),
{
    let mut r = String::from_str("Game launched successfully. Performance metrics:\n");
    let ghost head = r@;
    let mut i: usize = 0;
    while i < lines.len()
        invariant
            i <= lines@.len(),
            head == "Game launched successfully. Performance metrics:\n"@,
            r@ == head + joined_lines(lines@.take(i as int)),
        decreases lines@.len() - i,
    {
        if i > 0 {
            r.append("\n");
        }
        r.append(lines[i].as_str());
        proof {
            let t = lines@.take(i + 1);
            assert(t.drop_last() =~= lines@.take(i as int));
            if i == 0 {
                assert(lines@.take(0).len() == 0);
            }
        }
        i = i + 1;
    }
    assert(lines@.take(lines@.len() as int) =~= lines@);
    r
}

/// The error of the session stage, as the attempt reports it.
pub open spec fn session_error(m: Seq<char>) -> Seq<char> {
    "Failed to get session ID: "@ + m
}

/// What a failed landing-page fetch reports.
pub open spec fn landing_failure_of(f: HttpFailure) -> Seq<char> {
    match f {
        HttpFailure::Send(e) => "Failed to get stored value: "@ + e@,
        HttpFailure::Read(e) => "Failed to read response: "@ + e@,
        HttpFailure::Status(code) => "Failed to get stored value: HTTP status "@ + decimal(code as nat),
    }
}

/// What a failed login submission reports.
pub open spec fn login_failure_of(f: HttpFailure) -> Seq<char> {
    match f {
        HttpFailure::Send(e) => "Failed to send login request: "@ + e@,
        HttpFailure::Read(e) => "Failed to read response: "@ + e@,
        HttpFailure::Status(code) => "Failed to send login request: HTTP status "@ + decimal(code as nat),
    }
}

/// Whether `action` ends the attempt with an error reading `m`.
pub open spec fn fails_with(action: LaunchAction, m: Seq<char>) -> bool {
    action matches LaunchAction::Finish(Err(e)) && e@ == m
}

/// `m1` is `m0` with one more line: `label` and `nanos`.
pub open spec fn adds_metric(m0: Seq<String>, m1: Seq<String>, label: Seq<char>, nanos: u64) -> bool {
    &&& m1.len() == m0.len() + 1
    &&& m1.take(m0.len() as int) == m0
    &&& m1.last()@ == metric_line(label, nanos)
}

/// One step of an attempt: from `s0`, on `event`, to `s1` with action `r`.
pub open spec fn launch_transition(s0: Launch, event: LaunchEvent, s1: Launch, r: LaunchAction) -> bool {
    &&& s1.config == s0.config
    &&& s1.user_agent == s0.user_agent
    &&& s1.started_ns == s0.started_ns
    &&& s1.stage == Stage::Failed ==> s1.metrics@.len() == s0.metrics@.len()
    &&& r is Ignore ==> s1.stage == s0.stage
    &&& s0.stage == Stage::Done || s0.stage == Stage::Failed ==> r is Ignore
    &&& match (s0.stage, event) {
        (Stage::AddonSync, LaunchEvent::AddonSynced { result: Ok(_), now_ns }) => {
            &&& s1.stage == Stage::PathCheck
            &&& adds_metric(
                s0.metrics@,
                s1.metrics@,
                "Dalamud setup"@,
                elapsed_of(s0.stage_started_ns, now_ns),
            )
            &&& s1.stage_started_ns == now_ns
            &&& r matches LaunchAction::CheckGamePath { executable } && executable@
                == game_executable_of(s0.config.game_path@, s0.config.dx11)
        },
        (Stage::AddonSync, LaunchEvent::AddonSynced { result: Err(e), .. }) => {
            &&& s1.stage == Stage::Failed
            &&& fails_with(r, "Dalamud setup failed: "@ + e@)
        },
        (Stage::PathCheck, LaunchEvent::PathChecked { exists, now_ns }) => if exists {
            &&& s1.stage == Stage::StoredFetch
            &&& adds_metric(
                s0.metrics@,
                s1.metrics@,
                "Path preparation"@,
                elapsed_of(s0.stage_started_ns, now_ns),
            )
            &&& s1.stage_started_ns == now_ns
            &&& s1.stored_started_ns == now_ns
            &&& r matches LaunchAction::FetchLanding { url, user_agent, timeout_secs }
                && url@ == landing_url_of(s0.config.is_steam) && user_agent
                == s0.user_agent && timeout_secs == LANDING_TIMEOUT_SECS
        } else {
            &&& s1.stage == Stage::Failed
            &&& fails_with(
                r,
                "Game executable not found at "@ + game_executable_of(
                    s0.config.game_path@,
                    s0.config.dx11,
                ),
            )
        },
        (Stage::StoredFetch, LaunchEvent::LandingFetched { body: Err(f), .. }) => {
            &&& s1.stage == Stage::Failed
            &&& fails_with(r, session_error(landing_failure_of(f)))
        },
        (Stage::StoredFetch, LaunchEvent::LandingFetched { body: Ok(b), now_ns }) => if exists|
            i: int,
            j: int,
            k: int,
        | stored_match(b@, i, j, k) {
            &&& s1.stage == Stage::LoginSubmit
            &&& s1.metrics == s0.metrics
            &&& s1.stored_started_ns == s0.stored_started_ns
            &&& s1.stage_started_ns == now_ns
            &&& r matches LaunchAction::SubmitLogin {
                url,
                referer,
                user_agent,
                body,
                timeout_secs,
            } && url@ == submission_url_of() && referer@ == landing_url_of(
                s0.config.is_steam,
            ) && user_agent == s0.user_agent && timeout_secs
                == SUBMISSION_TIMEOUT_SECS && exists|v: Seq<char>|
                stored_value_is(b@, v) && body@ == login_form_of(
                    v,
                    s0.config.username@,
                    s0.config.password@,
                    otp_text(s0.config.otp),
                )
        } else {
            &&& s1.stage == Stage::Failed
            &&& fails_with(r, session_error("Could not find _STORED_ value"@))
        },
        (Stage::LoginSubmit, LaunchEvent::LoginAnswered { body: Err(f), .. }) => {
            &&& s1.stage == Stage::Failed
            &&& fails_with(r, session_error(login_failure_of(f)))
        },
        (Stage::LoginSubmit, LaunchEvent::LoginAnswered { body: Ok(b), now_ns }) => if exists|
            i: int,
            e: int,
        | sid_match(b@, i, e) {
            &&& s1.stage == Stage::ArgsPrepared
            &&& adds_metric(
                s0.metrics@,
                s1.metrics@,
                "Session ID retrieval"@,
                elapsed_of(s0.stored_started_ns, now_ns),
            )
            &&& s1.stage_started_ns == now_ns
            &&& r is ReportTime
            &&& exists|sid: Seq<char>|
                sid_value_is(b@, sid) && s1.arguments@ == launch_arguments_of(
                    s0.config.expansion_level as nat,
                    sid,
                    s0.config.region as nat,
                    s0.config.language as nat,
                )
        } else {
            &&& s1.stage == Stage::Failed
            &&& fails_with(r, session_error("Failed to extract session ID"@))
        },
        (Stage::ArgsPrepared, LaunchEvent::TimeReported { now_ns }) => {
            &&& adds_metric(
                s0.metrics@,
                s1.metrics@,
                "Arguments preparation"@,
                elapsed_of(s0.stage_started_ns, now_ns),
            )
            &&& s1.stage_started_ns == now_ns
            &&& if s0.config.enable_dalamud {
                &&& s1.stage == Stage::Injection
                &&& r matches LaunchAction::Inject { arguments, environment } && arguments@
                    == s0.arguments@ && env_views(environment@) == launch_environment_of(
                    s0.config.is_steam,
                )
            } else {
                &&& s1.stage == Stage::GameStart
                &&& r matches LaunchAction::StartGame { executable, arguments, environment }
                    && executable@ == game_executable_of(s0.config.game_path@, s0.config.dx11)
                    && arguments@ == s0.arguments@ && env_views(environment@)
                    == launch_environment_of(s0.config.is_steam)
            }
        },
        (Stage::GameStart, LaunchEvent::GameStarted { process: Ok(_), now_ns }) => {
            &&& s1.stage == Stage::Done
            &&& s1.metrics@.len() == s0.metrics@.len() + 2
            &&& s1.metrics@.take(s0.metrics@.len() as int) == s0.metrics@
            &&& s1.metrics@[s0.metrics@.len() as int]@ == metric_line(
                "Game process creation"@,
                elapsed_of(s0.stage_started_ns, now_ns),
            )
            &&& s1.metrics@.last()@ == metric_line(
                "Total launch time"@,
                elapsed_of(s0.started_ns, now_ns),
            )
            &&& r matches LaunchAction::Finish(Ok(s)) && s@ == summary_of(
                s1.metrics@,
            )
        },
        (Stage::GameStart, LaunchEvent::GameStarted { process: Err(e), .. }) => {
            &&& s1.stage == Stage::Failed
            &&& fails_with(r, "Failed to launch game: "@ + e@)
        },
        (Stage::Injection, LaunchEvent::Injected { result: Ok(_), now_ns }) => {
            &&& s1.stage == Stage::Done
            &&& s1.metrics@.len() == s0.metrics@.len() + 2
            &&& s1.metrics@.take(s0.metrics@.len() as int) == s0.metrics@
            &&& s1.metrics@[s0.metrics@.len() as int]@ == metric_line(
                "Dalamud injection and launch"@,
                elapsed_of(s0.stage_started_ns, now_ns),
            )
            &&& s1.metrics@.last()@ == metric_line(
                "Total launch time"@,
                elapsed_of(s0.started_ns, now_ns),
            )
            &&& r matches LaunchAction::Finish(Ok(s)) && s@ == summary_of(
                s1.metrics@,
            )
        },
        (Stage::Injection, LaunchEvent::Injected { result: Err(e), .. }) => {
            &&& s1.stage == Stage::Failed
            &&& fails_with(r, "Failed to launch game with Dalamud: "@ + e@)
        },
        _ => r is Ignore,
    }
}

/// The position of a stage in an attempt; `Done` and `Failed` end it.
pub open spec fn stage_rank(s: Stage) -> nat {
    match s {
        Stage::AddonSync => 0,
        Stage::PathCheck => 1,
        Stage::StoredFetch => 2,
        Stage::LoginSubmit => 3,
        Stage::ArgsPrepared => 4,
        Stage::GameStart => 5,
        Stage::Injection => 5,
        Stage::Done => 6,
        Stage::Failed => 6,
    }
}

/// The stages of an attempt run strictly in order: every step that does
/// something moves to a later stage, so no stage is entered twice, and a
/// finished attempt ignores every event. The game's command line is made
/// only from a login reply that carries a session id, and the game is
/// started (directly or through the injector) only after that.
pub proof fn lemma_stages_advance(s0: Launch, event: LaunchEvent, s1: Launch, r: LaunchAction)
    requires
        launch_transition(s0, event, s1, r),
    ensures
        r is Ignore ==> s1.stage == s0.stage,
        !(r is Ignore) ==> stage_rank(s1.stage) > stage_rank(s0.stage),
        stage_rank(s0.stage) == 6 ==> r is Ignore,
        r is StartGame || r is Inject ==> s0.stage == Stage::ArgsPrepared,
        s1.stage == Stage::ArgsPrepared && s0.stage != Stage::ArgsPrepared ==> s0.stage
            == Stage::LoginSubmit && (event matches LaunchEvent::LoginAnswered { body: Ok(b), .. }
            && exists|i: int, e: int| sid_match(b@, i, e)),
{
}

/// Whether `line` is the metrics line of `label` for some duration.
pub open spec fn is_metric(line: String, label: Seq<char>) -> bool {
    exists|nanos: u64| line@ == metric_line(label, nanos)
}

/// A direct launch (add-on host disabled) that gets through every stage
/// ends with a success summary of five timing lines: path preparation,
/// session id retrieval, arguments preparation, game process creation and
/// the total.
pub proof fn lemma_direct_summary(
    s0: Launch,
    e1: LaunchEvent,
    s1: Launch,
    r1: LaunchAction,
    e2: LaunchEvent,
    s2: Launch,
    r2: LaunchAction,
    e3: LaunchEvent,
    s3: Launch,
    r3: LaunchAction,
    e4: LaunchEvent,
    s4: Launch,
    r4: LaunchAction,
    e5: LaunchEvent,
    s5: Launch,
    r5: LaunchAction,
)
    requires
        s0.stage == Stage::PathCheck,
        s0.metrics@.len() == 0,
        launch_transition(s0, e1, s1, r1),
        launch_transition(s1, e2, s2, r2),
        launch_transition(s2, e3, s3, r3),
        launch_transition(s3, e4, s4, r4),
        launch_transition(s4, e5, s5, r5),
        s1.stage == Stage::StoredFetch,
        s2.stage == Stage::LoginSubmit,
        s3.stage == Stage::ArgsPrepared,
        s4.stage == Stage::GameStart,
        s5.stage == Stage::Done,
    ensures
        r5 matches LaunchAction::Finish(Ok(summary)) && summary@ == summary_of(s5.metrics@),
        s5.metrics@.len() == 5,
        is_metric(s5.metrics@[0], "Path preparation"@),
        is_metric(s5.metrics@[1], "Session ID retrieval"@),
        is_metric(s5.metrics@[2], "Arguments preparation"@),
        is_metric(s5.metrics@[3], "Game process creation"@),
        is_metric(s5.metrics@[4], "Total launch time"@),
{
    assert(s5.metrics@.take(3) == s4.metrics@);
    assert(s4.metrics@.take(2) == s3.metrics@);
    assert(s3.metrics@.take(1) == s1.metrics@);
    assert(s5.metrics@[0] == s5.metrics@.take(3)[0]);
    assert(s5.metrics@[1] == s5.metrics@.take(3)[1]);
    assert(s4.metrics@[0] == s4.metrics@.take(2)[0]);
    assert(s3.metrics@[0] == s3.metrics@.take(1)[0]);
}

impl Launch {
    /// Starts an attempt at time `now_ns`: with the add-on host's
    /// synchronisation where it is enabled, else with the path check.
    pub fn start(config: LaunchConfig, user_agent: String, now_ns: u64) -> (r: (Launch, LaunchAction))
        ensures
            r.0.config == config,
            r.0.user_agent == user_agent,
            r.0.started_ns == now_ns,
            r.0.metrics@.len() == 0,
            config.enable_dalamud ==> r.0.stage == Stage::AddonSync && r.1 is SyncAddon,
            !config.enable_dalamud ==> r.0.stage == Stage::PathCheck && (r.1 matches LaunchAction::CheckGamePath { executable }
                && executable@ == game_executable_of(config.game_path@, config.dx11)),
    {
        let action = if config.enable_dalamud {
            LaunchAction::SyncAddon
        } else {
            LaunchAction::CheckGamePath {
                executable: game_executable(config.game_path.as_str(), config.dx11),
            }
        };
        let stage = if config.enable_dalamud {
            Stage::AddonSync
        } else {
            Stage::PathCheck
        };
        let launch = Launch {
            config,
            user_agent,
            stage,
            started_ns: now_ns,
            stage_started_ns: now_ns,
            stored_started_ns: now_ns,
            arguments: String::new(),
            metrics: Vec::new(),
            timings: GameLaunchMetrics { login_time_ms: 0, sid_fetch_time_ms: 0, game_start_time_ms: 0 },
        };
        (launch, action)
    }

    fn fail(&mut self, message: String) -> (r: LaunchAction)
        ensures
            final(self).stage == Stage::Failed,
            final(self).config == old(self).config,
            final(self).user_agent == old(self).user_agent,
            final(self).metrics == old(self).metrics,
            final(self).started_ns == old(self).started_ns,
            fails_with(r, message@),
    {
        self.stage = Stage::Failed;
        LaunchAction::Finish(Err(message))
    }

    fn succeed(&mut self, label: &str, now_ns: u64) -> (r: LaunchAction)
        ensures
            final(self).stage == Stage::Done,
            final(self).config == old(self).config,
            final(self).user_agent == old(self).user_agent,
            final(self).started_ns == old(self).started_ns,
            final(self).metrics@.len() == old(self).metrics@.len() + 2,
            final(self).metrics@.take(old(self).metrics@.len() as int) == old(self).metrics@,
            final(self).metrics@[old(self).metrics@.len() as int]@ == metric_line(
                label@,
                elapsed_of(old(self).stage_started_ns, now_ns),
            ),
            final(self).metrics@.last()@ == metric_line(
                "Total launch time"@,
                elapsed_of(old(self).started_ns, now_ns),
            ),
            r matches LaunchAction::Finish(Ok(s)) && s@ == summary_of(final(self).metrics@),
    {
        let took = elapsed(self.stage_started_ns, now_ns);
        self.timings.game_start_time_ms = took / 1_000_000;
        self.metrics.push(metric(label, took));
        self.metrics.push(metric("Total launch time", elapsed(self.started_ns, now_ns)));
        self.stage = Stage::Done;
        assert(self.metrics@.take(old(self).metrics@.len() as int) =~= old(self).metrics@);
        LaunchAction::Finish(Ok(summary(&self.metrics)))
    }

    /// Takes the outcome of the last action and says what to do next.
    pub fn next(&mut self, event: LaunchEvent) -> (r: LaunchAction)
        ensures
            launch_transition(*old(self), event, *final(self), r),
    {
        match event {
            LaunchEvent::AddonSynced { result, now_ns } => {
                if self.stage != Stage::AddonSync {
                    return LaunchAction::Ignore;
                }
                match result {
                    Ok(_) => {
                        let took = elapsed(self.stage_started_ns, now_ns);
                        self.metrics.push(metric("Dalamud setup", took));
                        assert(self.metrics@.take(old(self).metrics@.len() as int) =~= old(self).metrics@);
                        self.stage = Stage::PathCheck;
                        self.stage_started_ns = now_ns;
                        LaunchAction::CheckGamePath {
                            executable: game_executable(
                                self.config.game_path.as_str(),
                                self.config.dx11,
                            ),
                        }
                    },
                    Err(e) => self.fail(concat("Dalamud setup failed: ", e.as_str())),
                }
            },
            LaunchEvent::PathChecked { exists, now_ns } => {
                if self.stage != Stage::PathCheck {
                    return LaunchAction::Ignore;
                }
                let exe = game_executable(self.config.game_path.as_str(), self.config.dx11);
                if exists {
                    let took = elapsed(self.stage_started_ns, now_ns);
                    self.metrics.push(metric("Path preparation", took));
                    assert(self.metrics@.take(old(self).metrics@.len() as int) =~= old(self).metrics@);
                    self.stage = Stage::StoredFetch;
                    self.stage_started_ns = now_ns;
                    self.stored_started_ns = now_ns;
                    LaunchAction::FetchLanding {
                        url: landing_url(self.config.is_steam),
                        user_agent: self.user_agent.clone(),
                        timeout_secs: LANDING_TIMEOUT_SECS,
                    }
                } else {
                    self.fail(concat("Game executable not found at ", exe.as_str()))
                }
            },
            LaunchEvent::LandingFetched { body, now_ns } => {
                if self.stage != Stage::StoredFetch {
                    return LaunchAction::Ignore;
                }
                match body {
                    Err(HttpFailure::Send(e)) => {
                        let m = concat("Failed to get stored value: ", e.as_str());
                        self.fail(concat("Failed to get session ID: ", m.as_str()))
                    },
                    Err(HttpFailure::Read(e)) => {
                        let m = concat("Failed to read response: ", e.as_str());
                        self.fail(concat("Failed to get session ID: ", m.as_str()))
                    },
                    Err(HttpFailure::Status(code)) => {
                        let mut m = String::from_str("Failed to get stored value: HTTP status ");
                        push_decimal(&mut m, code as u128);
                        self.fail(concat("Failed to get session ID: ", m.as_str()))
                    },
                    Ok(b) => match extract_stored(b.as_str()) {
                        Some(stored) => {
                            self.timings.login_time_ms = elapsed(self.stored_started_ns, now_ns)
                                / 1_000_000;
                            self.stage = Stage::LoginSubmit;
                            self.stage_started_ns = now_ns;
                            let body = login_form_body(
                                stored.as_str(),
                                self.config.username.as_str(),
                                self.config.password.as_str(),
                                &self.config.otp,
                            );
                            LaunchAction::SubmitLogin {
                                url: submission_url(),
                                referer: landing_url(self.config.is_steam),
                                user_agent: self.user_agent.clone(),
                                body,
                                timeout_secs: SUBMISSION_TIMEOUT_SECS,
                            }
                        },
                        None => self.fail(
                            concat("Failed to get session ID: ", "Could not find _STORED_ value"),
                        ),
                    },
                }
            },
            LaunchEvent::LoginAnswered { body, now_ns } => {
                if self.stage != Stage::LoginSubmit {
                    return LaunchAction::Ignore;
                }
                match body {
                    Err(HttpFailure::Send(e)) => {
                        let m = concat("Failed to send login request: ", e.as_str());
                        self.fail(concat("Failed to get session ID: ", m.as_str()))
                    },
                    Err(HttpFailure::Read(e)) => {
                        let m = concat("Failed to read response: ", e.as_str());
                        self.fail(concat("Failed to get session ID: ", m.as_str()))
                    },
                    Err(HttpFailure::Status(code)) => {
                        let mut m = String::from_str("Failed to send login request: HTTP status ");
                        push_decimal(&mut m, code as u128);
                        self.fail(concat("Failed to get session ID: ", m.as_str()))
                    },
                    Ok(b) => match extract_sid(b.as_str()) {
                        Some(sid) => {
                            self.timings.sid_fetch_time_ms = elapsed(self.stage_started_ns, now_ns)
                                / 1_000_000;
                            let took = elapsed(self.stored_started_ns, now_ns);
                            self.metrics.push(metric("Session ID retrieval", took));
                            assert(self.metrics@.take(old(self).metrics@.len() as int) =~= old(self).metrics@);
                            self.arguments = launch_arguments(&self.config, sid.as_str());
                            self.stage_started_ns = now_ns;
                            self.stage = Stage::ArgsPrepared;
                            LaunchAction::ReportTime
                        },
                        None => self.fail(
                            concat("Failed to get session ID: ", "Failed to extract session ID"),
                        ),
                    },
                }
            },
            LaunchEvent::TimeReported { now_ns } => {
                if self.stage != Stage::ArgsPrepared {
                    return LaunchAction::Ignore;
                }
                let took = elapsed(self.stage_started_ns, now_ns);
                self.metrics.push(metric("Arguments preparation", took));
                assert(self.metrics@.take(old(self).metrics@.len() as int) =~= old(self).metrics@);
                self.stage_started_ns = now_ns;
                let arguments = self.arguments.clone();
                let environment = launch_environment(self.config.is_steam);
                if self.config.enable_dalamud {
                    self.stage = Stage::Injection;
                    LaunchAction::Inject { arguments, environment }
                } else {
                    self.stage = Stage::GameStart;
                    LaunchAction::StartGame {
                        executable: game_executable(self.config.game_path.as_str(), self.config.dx11),
                        arguments,
                        environment,
                    }
                }
            },
            LaunchEvent::GameStarted { process, now_ns } => {
                if self.stage != Stage::GameStart {
                    return LaunchAction::Ignore;
                }
                match process {
                    Ok(_) => self.succeed("Game process creation", now_ns),
                    Err(e) => self.fail(concat("Failed to launch game: ", e.as_str())),
                }
            },
            LaunchEvent::Injected { result, now_ns } => {
                if self.stage != Stage::Injection {
                    return LaunchAction::Ignore;
                }
                match result {
                    Ok(_) => self.succeed("Dalamud injection and launch", now_ns),
                    Err(e) => self.fail(concat("Failed to launch game with Dalamud: ", e.as_str())),
                }
            },
        }
    }
}

} // verus!
