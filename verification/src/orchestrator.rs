//! The injection orchestrator: one request, driven from submission to a
//! terminal outcome.
//!
//! An [`InjectionRun`] is a state machine, like [`crate::fetch::FetchTask`]:
//! the shell performs each [`RunAction`] it hands out (an existence check, a
//! fetch, a process lookup, a remote load, a helper subprocess) inside one
//! background task, reports the observation as a [`RunEvent`], and mirrors
//! the machine's status line into the shared [`crate::session::Session`]
//! after every step. The machine decides everything: when the payload must
//! be downloaded, when the manual-map helper must be fetched first, which
//! injection technique acts, and what the terminal message says.

use vstd::prelude::*;
use crate::fetch::FetchError;
use crate::session::{
    has_success_prefix, lemma_not_success_prefix, lemma_terminal_message_shape, Terminal,
};
use crate::strategy::InjectionStrategy;
use crate::text::{
    concat2, concat3, remove_newlines, remove_newlines_spec, rewrap_words, split_words_spec,
    wrap_words_spec,
};

verus! {

/// Why an injection failed.
pub enum InjectError {
    /// No running process matched the target's executable name.
    ProcessNotFound { process: String },
    /// The OS's remote module load reported this error.
    LoadFailed { error: String },
    /// The manual-map helper child process could not be started.
    SpawnFailed { error: String },
    /// The manual-map helper was absent and could not be fetched.
    HelperUnavailable { cause: FetchError },
}

impl InjectError {
    /// The human-readable wording of this failure.
    pub open spec fn text_spec(&self) -> Seq<char> {
        match self {
            InjectError::ProcessNotFound { process } => "Process '"@ + process@ + "' not found."@,
            InjectError::LoadFailed { error } => "Failed to inject: "@ + error@,
            InjectError::SpawnFailed { error } => "Failed to execute injector: "@ + error@,
            InjectError::HelperUnavailable { cause } => "Failed to download manual map injector: "@
                + cause.text_spec(),
        }
    }

    /// Renders the failure. The wording never wears the success prefix, so
    /// it can serve as a terminal failure message as it stands.
    pub fn text(&self) -> (r: String)
        ensures
            r@ == self.text_spec(),
            !has_success_prefix(r@),
    {
        let r = match self {
            InjectError::ProcessNotFound { process } => {
                concat3("Process '", process.as_str(), "' not found.")
            },
            InjectError::LoadFailed { error } => concat2("Failed to inject: ", error.as_str()),
            InjectError::SpawnFailed { error } => {
                concat2("Failed to execute injector: ", error.as_str())
            },
            InjectError::HelperUnavailable { cause } => {
                let cause_text = cause.text();
                concat2("Failed to download manual map injector: ", cause_text.as_str())
            },
        };
        proof {
            self.lemma_text_not_success();
        }
        r
    }

    /// No failure wording starts with `"SUCCESS: "`.
    pub proof fn lemma_text_not_success(&self)
        ensures
            !has_success_prefix(self.text_spec()),
    {
        reveal_strlit("Process '");
        reveal_strlit("Failed to inject: ");
        reveal_strlit("Failed to execute injector: ");
        reveal_strlit("Failed to download manual map injector: ");
        lemma_not_success_prefix(self.text_spec());
    }
}

/// Everything one injection request needs to know.
pub struct RunConfig {
    /// Display name of the payload (names the success message).
    pub name: String,
    /// The payload's file name on the content endpoints.
    pub remote_file: String,
    /// The payload's local cache path.
    pub payload_path: String,
    /// Executable name of the target process.
    pub target_process: String,
    /// The manual-map helper's file name on the content endpoints.
    pub helper_file: String,
    /// The manual-map helper's local cache path.
    pub helper_path: String,
    /// The injection technique this run uses.
    pub strategy: InjectionStrategy,
    /// Whether the cosmetic pacing delays are bypassed.
    pub skip_delay: bool,
}

impl RunConfig {
    /// Seconds the shell holds between status transitions, purely for
    /// perceived-progress pacing; fully bypassed by the skip flag.
    pub fn pacing_delay_secs(&self) -> (r: u64)
        ensures
            self.skip_delay ==> r == 0,
            !self.skip_delay ==> r == 1,
    {
        if self.skip_delay {
            0
        } else {
            1
        }
    }
}

/// Where a run stands, i.e. which observation it waits for.
#[derive(Clone, Copy, Debug, PartialEq, Eq, Structural)]
pub enum RunPhase {
    /// Waiting to learn whether the payload is already cached.
    CheckingPayload,
    /// Waiting for the payload fetch to end.
    Downloading,
    /// Waiting to learn whether the manual-map helper is already cached.
    CheckingHelper,
    /// Waiting for the helper fetch to end.
    FetchingHelper,
    /// Waiting for the target process lookup.
    Locating,
    /// Waiting for the remote library load to end.
    Loading,
    /// Waiting for the helper child process to exit.
    RunningHelper,
    /// The run is over; the outcome is recorded.
    Finished,
}

/// How the manual-map helper child process came out.
pub enum HelperOutcome {
    /// The child ran to completion; `success` mirrors a zero exit status.
    Exited { success: bool, stdout: String, stderr: String },
    /// The child could not be started at all.
    SpawnFailed { error: String },
}

/// What the shell observed after performing the last action.
pub enum RunEvent {
    /// Whether the payload file already exists locally.
    PayloadChecked { present: bool },
    /// How the payload fetch ended.
    PayloadFetched { result: Result<(), FetchError> },
    /// Whether the helper binary already exists locally.
    HelperChecked { present: bool },
    /// How the helper fetch ended.
    HelperFetched { result: Result<(), FetchError> },
    /// Whether a process with the target's executable name is running now.
    TargetLocated { found: bool },
    /// How the remote library load ended; `error` is the OS's wording.
    LoadFinished { error: Option<String> },
    /// How the helper child process came out.
    HelperFinished { outcome: HelperOutcome },
}

/// What the shell is asked to do next.
pub enum RunAction {
    /// Check whether `path` exists on disk.
    CheckPayload { path: String },
    /// Fetch `remote` from the content endpoints to `dest`.
    FetchPayload { remote: String, dest: String },
    /// Check whether `path` exists on disk.
    CheckHelper { path: String },
    /// Fetch `remote` from the content endpoints to `dest`.
    FetchHelper { remote: String, dest: String },
    /// Look for a running process named `process`.
    LocateTarget { process: String },
    /// Load the library at `payload` into the located process, through the
    /// OS's standard remote-load facility.
    LoadPayload { process: String, payload: String },
    /// Spawn the helper executable at `helper` with `args` and wait for it.
    RunHelper { helper: String, args: Vec<String> },
    /// The run is over; publish the outcome.
    Finish,
}

/// One injection request being driven to its terminal outcome.
pub struct InjectionRun {
    /// The request.
    pub cfg: RunConfig,
    /// Where the run stands.
    pub phase: RunPhase,
    /// The human-readable status of the current step.
    pub status: String,
    /// The terminal outcome, once the run is over.
    pub outcome: Option<Terminal>,
}

/// The event kinds a run can accept in each phase.
pub open spec fn run_event_fits(phase: RunPhase, ev: RunEvent) -> bool {
    match phase {
        RunPhase::CheckingPayload => ev is PayloadChecked,
        RunPhase::Downloading => ev is PayloadFetched,
        RunPhase::CheckingHelper => ev is HelperChecked,
        RunPhase::FetchingHelper => ev is HelperFetched,
        RunPhase::Locating => ev is TargetLocated,
        RunPhase::Loading => ev is LoadFinished,
        RunPhase::RunningHelper => ev is HelperFinished,
        RunPhase::Finished => false,
    }
}

impl InjectionRun {
    /// The phases reserved to each technique, and the outcome recorded
    /// exactly when the run is over — and then well-formed.
    pub open spec fn wf(&self) -> bool {
        &&& (self.phase is Finished <==> self.outcome is Some)
        &&& (self.outcome matches Some(t) ==> t.wf())
        &&& ((self.phase is Locating || self.phase is Loading)
            ==> self.cfg.strategy is Standard)
        &&& ((self.phase is CheckingHelper || self.phase is FetchingHelper
            || self.phase is RunningHelper) ==> self.cfg.strategy is ManualMap)
    }
}

/// The run moves into its injection stage: a standard run looks the target
/// process up, a manual-map run turns to the helper binary.
pub open spec fn enters_inject_stage(cfg: RunConfig, r1: InjectionRun, act: RunAction) -> bool {
    &&& r1.status@ == "Injecting..."@
    &&& r1.outcome is None
    &&& match cfg.strategy {
        InjectionStrategy::Standard => {
            &&& r1.phase is Locating
            &&& act matches RunAction::LocateTarget { process } && process@ == cfg.target_process@
        },
        InjectionStrategy::ManualMap => {
            &&& r1.phase is CheckingHelper
            &&& act matches RunAction::CheckHelper { path } && path@ == cfg.helper_path@
        },
    }
}

/// The run launches the helper child process on target and payload.
pub open spec fn launches_helper(cfg: RunConfig, r1: InjectionRun, act: RunAction) -> bool {
    &&& r1.phase is RunningHelper
    &&& r1.status@ == "Injecting with manual map injector..."@
    &&& r1.outcome is None
    &&& act matches RunAction::RunHelper { helper, args }
        && helper@ == cfg.helper_path@
        && args@.len() == 2
        && args@[0]@ == cfg.target_process@
        && args@[1]@ == cfg.payload_path@
}

/// The run ends in failure: the message is recorded, mirrored into the
/// status line, and nothing further is asked of the shell.
pub open spec fn finishes_failure(r1: InjectionRun, act: RunAction, msg: Seq<char>) -> bool {
    &&& r1.phase is Finished
    &&& r1.outcome matches Some(Terminal::Failure { message }) && message@ == msg
    &&& r1.status@ == msg
    &&& act is Finish
}

/// The run ends in success for the payload named `name`.
pub open spec fn finishes_success(r1: InjectionRun, act: RunAction, name: Seq<char>) -> bool {
    &&& r1.phase is Finished
    &&& r1.outcome matches Some(Terminal::Success { name: n }) && n@ == name
    &&& r1.status@ == "Injection successful."@
    &&& act is Finish
}

/// The status line shown while the payload downloads.
pub open spec fn downloading_status(cfg: RunConfig) -> Seq<char> {
    match cfg.strategy {
        InjectionStrategy::Standard => "Downloading..."@,
        InjectionStrategy::ManualMap => "Downloading "@ + cfg.name@ + "..."@,
    }
}

/// The terminal wording when the payload itself cannot be fetched.
pub open spec fn payload_fetch_failure_text(cfg: RunConfig, e: FetchError) -> Seq<char> {
    match cfg.strategy {
        InjectionStrategy::Standard => "Failed to inject: "@ + e.text_spec(),
        InjectionStrategy::ManualMap => "Failed to download: "@ + e.text_spec(),
    }
}

/// The full transition table of the orchestrator: from run `r0` on event
/// `ev`, the machine moves to `r1` and requests `act`.
pub open spec fn run_transition(r0: InjectionRun, ev: RunEvent, r1: InjectionRun, act: RunAction) -> bool {
    &&& r1.cfg == r0.cfg
    &&& match (r0.phase, ev) {
        (RunPhase::CheckingPayload, RunEvent::PayloadChecked { present }) => {
            if present {
                // The cache hit skips the Downloading phase entirely.
                enters_inject_stage(r0.cfg, r1, act)
            } else {
                &&& r1.phase is Downloading
                &&& r1.outcome is None
                &&& r1.status@ == downloading_status(r0.cfg)
                &&& act matches RunAction::FetchPayload { remote, dest }
                    && remote@ == r0.cfg.remote_file@
                    && dest@ == r0.cfg.payload_path@
            }
        },
        (RunPhase::Downloading, RunEvent::PayloadFetched { result }) => {
            match result {
                Ok(()) => enters_inject_stage(r0.cfg, r1, act),
                Err(e) => finishes_failure(r1, act, payload_fetch_failure_text(r0.cfg, e)),
            }
        },
        (RunPhase::CheckingHelper, RunEvent::HelperChecked { present }) => {
            if present {
                launches_helper(r0.cfg, r1, act)
            } else {
                // The helper is fetched lazily, over the same endpoints.
                &&& r1.phase is FetchingHelper
                &&& r1.outcome is None
                &&& r1.status@ == "Downloading manual map injector..."@
                &&& act matches RunAction::FetchHelper { remote, dest }
                    && remote@ == r0.cfg.helper_file@
                    && dest@ == r0.cfg.helper_path@
            }
        },
        (RunPhase::FetchingHelper, RunEvent::HelperFetched { result }) => {
            match result {
                Ok(()) => launches_helper(r0.cfg, r1, act),
                Err(e) => finishes_failure(
                    r1,
                    act,
                    (InjectError::HelperUnavailable { cause: e }).text_spec(),
                ),
            }
        },
        (RunPhase::Locating, RunEvent::TargetLocated { found }) => {
            if found {
                &&& r1.phase is Loading
                &&& r1.outcome is None
                &&& r1.status@ == r0.status@
                &&& act matches RunAction::LoadPayload { process, payload }
                    && process@ == r0.cfg.target_process@
                    && payload@ == r0.cfg.payload_path@
            } else {
                finishes_failure(
                    r1,
                    act,
                    "Process '"@ + r0.cfg.target_process@ + "' not found."@,
                )
            }
        },
        (RunPhase::Loading, RunEvent::LoadFinished { error }) => {
            match error {
                None => finishes_success(r1, act, r0.cfg.name@),
                Some(e) => finishes_failure(r1, act, "Failed to inject: "@ + e@),
            }
        },
        (RunPhase::RunningHelper, RunEvent::HelperFinished { outcome }) => {
            match outcome {
                HelperOutcome::Exited { success, stdout, stderr } => {
                    if success {
                        finishes_success(r1, act, r0.cfg.name@)
                    } else {
                        // Newlines in the child's stderr are collapsed so the
                        // message reads as one line.
                        finishes_failure(
                            r1,
                            act,
                            "Failed to inject: "@ + remove_newlines_spec(stderr@),
                        )
                    }
                },
                HelperOutcome::SpawnFailed { error } => finishes_failure(
                    r1,
                    act,
                    "Failed to execute injector: "@ + error@,
                ),
            }
        },
        _ => false,
    }
}

impl InjectionRun {
    /// Accepts a request: the run begins by asking whether the payload is
    /// already cached, so the Downloading phase is entered only when it is
    /// absent.
    pub fn start(cfg: RunConfig) -> (r: (InjectionRun, RunAction))
        ensures
            r.0.cfg == cfg,
            r.0.phase is CheckingPayload,
            r.0.status@ == "Starting injection..."@,
            r.0.outcome is None,
            r.0.wf(),
            r.1 matches RunAction::CheckPayload { path } && path@ == cfg.payload_path@,
    {
        let path = cfg.payload_path.clone();
        let run = InjectionRun {
            cfg,
            phase: RunPhase::CheckingPayload,
            status: "Starting injection...".to_owned(),
            outcome: None,
        };
        (run, RunAction::CheckPayload { path })
    }

    /// Feeds the machine what the shell observed; returns what to do next.
    pub fn step(&mut self, ev: RunEvent) -> (act: RunAction)
        requires
            old(self).wf(),
            run_event_fits(old(self).phase, ev),
        ensures
            run_transition(*old(self), ev, *final(self), act),
            final(self).wf(),
    {
        match ev {
            RunEvent::PayloadChecked { present } => {
                if present {
                    self.enter_inject_stage()
                } else {
                    self.phase = RunPhase::Downloading;
                    self.status = match self.cfg.strategy {
                        InjectionStrategy::Standard => "Downloading...".to_owned(),
                        InjectionStrategy::ManualMap => {
                            concat3("Downloading ", self.cfg.name.as_str(), "...")
                        },
                    };
                    RunAction::FetchPayload {
                        remote: self.cfg.remote_file.clone(),
                        dest: self.cfg.payload_path.clone(),
                    }
                }
            },
            RunEvent::PayloadFetched { result } => {
                match result {
                    Ok(()) => self.enter_inject_stage(),
                    Err(e) => {
                        let cause = e.text();
                        let msg = match self.cfg.strategy {
                            InjectionStrategy::Standard => {
                                concat2("Failed to inject: ", cause.as_str())
                            },
                            InjectionStrategy::ManualMap => {
                                concat2("Failed to download: ", cause.as_str())
                            },
                        };
                        proof {
                            reveal_strlit("Failed to inject: ");
                            reveal_strlit("Failed to download: ");
                            lemma_not_success_prefix(msg@);
                        }
                        self.finish_failure(msg)
                    },
                }
            },
            RunEvent::HelperChecked { present } => {
                if present {
                    self.launch_helper()
                } else {
                    self.phase = RunPhase::FetchingHelper;
                    self.status = "Downloading manual map injector...".to_owned();
                    RunAction::FetchHelper {
                        remote: self.cfg.helper_file.clone(),
                        dest: self.cfg.helper_path.clone(),
                    }
                }
            },
            RunEvent::HelperFetched { result } => {
                match result {
                    Ok(()) => self.launch_helper(),
                    Err(e) => {
                        let msg = (InjectError::HelperUnavailable { cause: e }).text();
                        self.finish_failure(msg)
                    },
                }
            },
            RunEvent::TargetLocated { found } => {
                if found {
                    self.phase = RunPhase::Loading;
                    RunAction::LoadPayload {
                        process: self.cfg.target_process.clone(),
                        payload: self.cfg.payload_path.clone(),
                    }
                } else {
                    let msg = (InjectError::ProcessNotFound {
                        process: self.cfg.target_process.clone(),
                    }).text();
                    self.finish_failure(msg)
                }
            },
            RunEvent::LoadFinished { error } => {
                match error {
                    None => self.finish_success(),
                    Some(e) => {
                        let msg = (InjectError::LoadFailed { error: e }).text();
                        self.finish_failure(msg)
                    },
                }
            },
            RunEvent::HelperFinished { outcome } => {
                match outcome {
                    HelperOutcome::Exited { success, stdout: _, stderr } => {
                        if success {
                            self.finish_success()
                        } else {
                            let collapsed = remove_newlines(stderr.as_str());
                            let msg = (InjectError::LoadFailed { error: collapsed }).text();
                            self.finish_failure(msg)
                        }
                    },
                    HelperOutcome::SpawnFailed { error } => {
                        let msg = (InjectError::SpawnFailed { error }).text();
                        self.finish_failure(msg)
                    },
                }
            },
        }
    }

    /// Moves into the injection stage of the run's technique.
    fn enter_inject_stage(&mut self) -> (act: RunAction)
        ensures
            enters_inject_stage(old(self).cfg, *final(self), act),
            final(self).cfg == old(self).cfg,
            final(self).wf(),
    {
        self.status = "Injecting...".to_owned();
        self.outcome = None;
        match self.cfg.strategy {
            InjectionStrategy::Standard => {
                self.phase = RunPhase::Locating;
                RunAction::LocateTarget { process: self.cfg.target_process.clone() }
            },
            InjectionStrategy::ManualMap => {
                self.phase = RunPhase::CheckingHelper;
                RunAction::CheckHelper { path: self.cfg.helper_path.clone() }
            },
        }
    }

    /// Launches the helper child process.
    fn launch_helper(&mut self) -> (act: RunAction)
        requires
            old(self).cfg.strategy is ManualMap,
        ensures
            launches_helper(old(self).cfg, *final(self), act),
            final(self).cfg == old(self).cfg,
            final(self).wf(),
    {
        self.phase = RunPhase::RunningHelper;
        self.status = "Injecting with manual map injector...".to_owned();
        self.outcome = None;
        let mut args: Vec<String> = Vec::new();
        args.push(self.cfg.target_process.clone());
        args.push(self.cfg.payload_path.clone());
        RunAction::RunHelper { helper: self.cfg.helper_path.clone(), args }
    }

    /// Records a failure outcome and ends the run.
    fn finish_failure(&mut self, msg: String) -> (act: RunAction)
        requires
            !has_success_prefix(msg@),
        ensures
            finishes_failure(*final(self), act, msg@),
            final(self).cfg == old(self).cfg,
            final(self).wf(),
    {
        self.status = msg.clone();
        self.outcome = Some(Terminal::failure(msg));
        self.phase = RunPhase::Finished;
        RunAction::Finish
    }

    /// Records the success outcome and ends the run.
    fn finish_success(&mut self) -> (act: RunAction)
        ensures
            finishes_success(*final(self), act, old(self).cfg.name@),
            final(self).cfg == old(self).cfg,
            final(self).wf(),
    {
        self.status = "Injection successful.".to_owned();
        self.outcome = Some(Terminal::success(self.cfg.name.as_str()));
        self.phase = RunPhase::Finished;
        RunAction::Finish
    }

    /// What the shell mirrors into the shared session after each step.
    pub fn current_status(&self) -> (r: String)
        ensures
            r@ == self.status@,
    {
        self.status.clone()
    }

    /// Whether the run is over.
    pub fn finished(&self) -> (r: bool)
        ensures
            r == (self.phase is Finished),
    {
        match self.phase {
            RunPhase::Finished => true,
            _ => false,
        }
    }

    /// The terminal outcome of a finished run.
    pub fn take_outcome(&mut self) -> (r: Option<Terminal>)
        ensures
            r == old(self).outcome,
            final(self).cfg == old(self).cfg,
            final(self).phase == old(self).phase,
            old(self).wf() ==> (old(self).outcome matches Some(t) ==> t.wf()),
    {
        self.outcome.take()
    }
}

/// How a direct standard injection attempt came out.
pub enum LoadAttempt {
    /// No running process matched the target name.
    NotFound,
    /// The remote load reported this error.
    Failed { error: String },
    /// The payload was loaded.
    Loaded,
}

/// The one-shot channel message of a direct (drag-and-drop) standard
/// injection: success names the payload's file, failures say why and can
/// never be mistaken for a success.
pub fn standard_inject_message(
    target_process: &str,
    payload_file: &str,
    attempt: LoadAttempt,
) -> (r: Result<String, String>)
    ensures
        attempt is Loaded ==> (r matches Ok(m) && m@ == "SUCCESS: "@ + payload_file@),
        attempt is NotFound ==> (r matches Err(m)
            && m@ == "Process '"@ + target_process@ + "' not found."@),
        attempt matches LoadAttempt::Failed { error } ==> (r matches Err(m)
            && m@ == "Failed to inject: "@ + error@),
        r matches Err(m) ==> !has_success_prefix(m@),
{
    match attempt {
        LoadAttempt::Loaded => Ok(concat2("SUCCESS: ", payload_file)),
        LoadAttempt::NotFound => {
            Err((InjectError::ProcessNotFound { process: target_process.to_owned() }).text())
        },
        LoadAttempt::Failed { error } => Err((InjectError::LoadFailed { error }).text()),
    }
}

/// The channel message of a direct manual-map injection: a zero exit status
/// wins; a failing helper's stderr is re-wrapped at seven words per line,
/// purely for readability on the status surface — the classification is the
/// `Ok`/`Err` tag, which the reformatting never touches.
pub fn manual_map_inject_message(
    payload_file: &str,
    outcome: HelperOutcome,
) -> (r: Result<String, String>)
    ensures
        outcome matches HelperOutcome::Exited { success: true, .. } ==> (r matches Ok(m)
            && m@ == "SUCCESS: "@ + payload_file@),
        outcome matches HelperOutcome::Exited { success: false, stderr, .. } ==> (r matches Err(m)
            && m@ == wrap_words_spec(split_words_spec(stderr@), 7)),
        outcome matches HelperOutcome::SpawnFailed { error } ==> (r matches Err(m)
            && m@ == "Failed to execute injector: "@ + error@),
{
    match outcome {
        HelperOutcome::Exited { success, stdout: _, stderr } => {
            if success {
                Ok(concat2("SUCCESS: ", payload_file))
            } else {
                Err(rewrap_words(stderr.as_str(), 7))
            }
        },
        HelperOutcome::SpawnFailed { error } => {
            Err((InjectError::SpawnFailed { error }).text())
        },
    }
}

/// Law: the Downloading phase is entered only when the payload's cache file
/// is absent; a cached payload goes straight to the injection stage.
pub proof fn lemma_cached_payload_skips_download(
    r0: InjectionRun,
    ev: RunEvent,
    r1: InjectionRun,
    act: RunAction,
)
    requires
        r0.phase is CheckingPayload,
        ev matches RunEvent::PayloadChecked { present: true },
        run_transition(r0, ev, r1, act),
    ensures
        !(r1.phase is Downloading),
        !(act is FetchPayload),
{
}

/// Law: when the manual-map helper is absent and its fetch fails, the run
/// ends in failure with the helper-unavailable wording and no helper
/// subprocess is ever requested.
pub proof fn lemma_helper_fetch_failure_spawns_nothing(
    r0: InjectionRun,
    e: FetchError,
    r1: InjectionRun,
    act: RunAction,
)
    requires
        r0.phase is FetchingHelper,
        run_transition(r0, RunEvent::HelperFetched { result: Err(e) }, r1, act),
    ensures
        r1.phase is Finished,
        r1.outcome matches Some(Terminal::Failure { message })
            && message@ == (InjectError::HelperUnavailable { cause: e }).text_spec(),
        !(act is RunHelper),
{
}

/// Law: whatever outcome a run records, an observer can classify its text
/// by the success prefix alone — the shape every terminal message of the
/// orchestrator keeps.
pub proof fn lemma_run_outcome_shape(r: InjectionRun)
    requires
        r.wf(),
    ensures
        r.outcome matches Some(t) ==> (has_success_prefix(t.text_spec()) <==> t is Success),
{
    match r.outcome {
        Some(t) => lemma_terminal_message_shape(t),
        None => {},
    }
}

/// Law: a finished run admits no further transition.
pub proof fn lemma_finished_is_terminal(r0: InjectionRun, ev: RunEvent, r1: InjectionRun, act: RunAction)
    requires
        r0.phase is Finished,
    ensures
        !run_transition(r0, ev, r1, act),
{
}

} // verus!
