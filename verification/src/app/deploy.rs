//! Deployment actions as a step machine: the application decides, the host
//! writes files and runs commands and reports back.

use vstd::prelude::*;
use crate::app::{App, AppView};
use crate::lability::deployment::{DeploymentStatus, DeploymentView, StatusView};
use crate::lability::powershell::{self, remove_lab_command, start_lab_command, stop_lab_command, PsResult};
use crate::text::{self, split_lines};

verus! {

/// What a deployment action in progress waits for.
#[derive(Debug, Clone, Copy, PartialEq, Eq, Structural)]
pub enum Stage {
    /// Nothing: the action is over.
    Idle,
    /// Generating the files: waits for them to be written.
    GenerateWrite,
    /// Starting the lab: waits for the files to be written.
    StartWrite,
    /// Starting the lab: waits for the start command to run.
    StartRun,
    /// Stopping the lab: waits for the stop command to run.
    StopRun,
    /// Deleting the lab: waits for the remove command to run.
    DeleteRun,
    /// Resetting the lab: waits for the remove command, then starts the lab.
    ResetDeleteRun,
}

/// What the host has to do next for a deployment action.
#[derive(Debug, Clone)]
pub enum Effect {
    /// Write the `.psd1` and `.ps1` files of the lab configuration into the
    /// output directory, and report `Event::FilesWritten`.
    WriteConfigFiles,
    /// Run `command` in PowerShell (interactively, so that it may prompt,
    /// when `interactive` holds), and report `Event::PowerShellRan`.
    RunPowerShell { command: String, interactive: bool },
    /// Nothing more: the action is over.
    Finished,
}

/// What the host reports back after carrying out an effect.
#[derive(Debug)]
pub enum Event {
    /// The paths of the written `.psd1` and `.ps1` files, or why writing failed.
    FilesWritten(Result<(String, String), String>),
    /// The outcome of the command, or why PowerShell could not be launched.
    PowerShellRan(Result<PsResult, String>),
}

/// The stage a deployment action has reached and what the host does next.
#[derive(Debug, Clone)]
pub struct Step {
    pub stage: Stage,
    pub effect: Effect,
}

/// Abstract value of an [`Effect`].
pub enum EffectView {
    WriteConfigFiles,
    RunPowerShell(Seq<char>, bool),
    Finished,
}

/// Abstract value of a [`Step`].
pub struct StepView {
    pub stage: Stage,
    pub effect: EffectView,
}

/// Abstract value of an [`Event`]: paths or error for written files; output,
/// error output and success, or error, for a command.
pub enum EventView {
    FilesWritten(Result<(Seq<char>, Seq<char>), Seq<char>>),
    PowerShellRan(Result<(Seq<char>, Seq<char>, bool), Seq<char>>),
}

impl View for Step {
    type V = StepView;

    open spec fn view(&self) -> StepView {
        StepView {
            stage: self.stage,
            effect: match self.effect {
                Effect::WriteConfigFiles => EffectView::WriteConfigFiles,
                Effect::RunPowerShell { command, interactive } => EffectView::RunPowerShell(command@, interactive),
                Effect::Finished => EffectView::Finished,
            },
        }
    }
}

impl View for Event {
    type V = EventView;

    open spec fn view(&self) -> EventView {
        match self {
            Event::FilesWritten(Ok((a, b))) => EventView::FilesWritten(Ok((a@, b@))),
            Event::FilesWritten(Err(e)) => EventView::FilesWritten(Err(e@)),
            Event::PowerShellRan(Ok(r)) => EventView::PowerShellRan(Ok((r.stdout@, r.stderr@, r.success))),
            Event::PowerShellRan(Err(e)) => EventView::PowerShellRan(Err(e@)),
        }
    }
}

/// The step that ends an action.
pub open spec fn finished() -> StepView {
    StepView { stage: Stage::Idle, effect: EffectView::Finished }
}

/// The log line that announces file generation.
pub open spec fn generating_line() -> Seq<char> {
    "[INFO] Generating configuration files …"@
}

/// The log line that announces removal of the lab.
pub open spec fn removing_line() -> Seq<char> {
    "[INFO] Removing lab …"@
}

/// Each line of a command's error output, marked as an error.
pub open spec fn error_lines(err: Seq<char>) -> Seq<Seq<char>> {
    text::lines(err).map_values(|l: Seq<char>| "[ERROR] "@ + l)
}

impl AppView {
    /// This state with `lines` appended to the deployment log.
    pub open spec fn log(self, lines: Seq<Seq<char>>) -> AppView {
        AppView {
            deployment: DeploymentView { log_lines: self.deployment.log_lines + lines, ..self.deployment },
            ..self
        }
    }

    /// This state with the deployment status set to `s`.
    pub open spec fn with_status(self, s: StatusView) -> AppView {
        AppView { deployment: DeploymentView { status: s, ..self.deployment }, ..self }
    }

    /// The start of file generation.
    pub open spec fn begin_generate(self) -> (AppView, StepView) {
        (
            self.log(seq![generating_line()]),
            StepView { stage: Stage::GenerateWrite, effect: EffectView::WriteConfigFiles },
        )
    }

    /// The start of starting the lab.
    pub open spec fn begin_start(self) -> (AppView, StepView) {
        (
            self.with_status(StatusView::InProgress).log(seq![generating_line()]),
            StepView { stage: Stage::StartWrite, effect: EffectView::WriteConfigFiles },
        )
    }

    /// The command that removes the lab, run without prompts.
    pub open spec fn remove_effect(self) -> EffectView {
        EffectView::RunPowerShell(powershell::remove_lab_text(self.lab_config.environment_name), false)
    }

    /// The start of the highlighted deployment action.
    pub open spec fn begin_action(self) -> (AppView, StepView) {
        if self.selected_action == 0 {
            self.begin_generate()
        } else if self.selected_action == 1 {
            self.begin_start()
        } else if self.selected_action == 2 {
            (
                self.log(seq!["[INFO] Stopping lab VMs …"@]),
                StepView {
                    stage: Stage::StopRun,
                    effect: EffectView::RunPowerShell(
                        powershell::stop_lab_text(self.lab_config.environment_name),
                        false,
                    ),
                },
            )
        } else if self.selected_action == 3 {
            (
                self.log(seq!["[INFO] Resetting lab …"@, removing_line()]),
                StepView { stage: Stage::ResetDeleteRun, effect: self.remove_effect() },
            )
        } else if self.selected_action == 4 {
            (self.log(seq![removing_line()]), StepView { stage: Stage::DeleteRun, effect: self.remove_effect() })
        } else {
            (self, finished())
        }
    }

    /// This state after a failure to launch PowerShell.
    pub open spec fn launch_failed(self, e: Seq<char>) -> AppView {
        self.log(seq!["[ERROR] Could not launch PowerShell: "@ + e]).with_status(
            StatusView::Failed("Launch error: "@ + e),
        )
    }

    /// This state after a command ran: on success the status becomes `done`
    /// and `ok_line` is logged; on failure each line of the error output is
    /// logged and the status fails with `failure`.
    pub open spec fn command_done(
        self,
        res: Result<(Seq<char>, Seq<char>, bool), Seq<char>>,
        done: StatusView,
        ok_line: Seq<char>,
        failure: Seq<char>,
    ) -> AppView {
        match res {
            Ok((out, err, ok)) => if ok {
                self.with_status(done).log(seq![ok_line])
            } else {
                self.log(error_lines(err)).with_status(StatusView::Failed(failure))
            },
            Err(e) => self.launch_failed(e),
        }
    }

    /// This state after the remove command ran.
    pub open spec fn delete_done(self, res: Result<(Seq<char>, Seq<char>, bool), Seq<char>>) -> AppView {
        self.command_done(res, StatusView::NotStarted, "[OK] Lab removed."@, "Delete command failed"@)
    }

    /// The next state and step once the host reports `event` at `stage`.
    pub open spec fn advance(self, stage: Stage, event: EventView) -> (AppView, StepView) {
        match (stage, event) {
            (Stage::GenerateWrite, EventView::FilesWritten(res)) => match res {
                Ok((psd1, ps1)) => (self.log(seq!["[OK] "@ + psd1, "[OK] "@ + ps1]), finished()),
                Err(e) => (self.log(seq!["[ERROR] Could not generate files: "@ + e]), finished()),
            },
            (Stage::StartWrite, EventView::FilesWritten(res)) => match res {
                Ok((psd1, ps1)) => (
                    self.log(seq!["[OK] "@ + psd1, "[OK] "@ + ps1, "[INFO] Starting lab configuration …"@]),
                    StepView {
                        stage: Stage::StartRun,
                        effect: EffectView::RunPowerShell(
                            powershell::start_lab_text(self.lab_config.environment_name, self.lab_output_dir),
                            true,
                        ),
                    },
                ),
                Err(e) => (
                    self.log(seq!["[ERROR] Could not generate files: "@ + e]).with_status(
                        StatusView::Failed("File generation error: "@ + e),
                    ),
                    finished(),
                ),
            },
            (Stage::StartRun, EventView::PowerShellRan(res)) => (
                match res {
                    Ok((out, err, ok)) => self.log(text::lines(out)).command_done(
                        res,
                        StatusView::Completed,
                        "[OK] Lab started successfully."@,
                        "PowerShell reported an error"@,
                    ),
                    Err(e) => self.launch_failed(e),
                },
                finished(),
            ),
            (Stage::StopRun, EventView::PowerShellRan(res)) => (
                self.command_done(res, StatusView::Stopped, "[OK] Lab stopped."@, "Stop command failed"@),
                finished(),
            ),
            (Stage::DeleteRun, EventView::PowerShellRan(res)) => (self.delete_done(res), finished()),
            (Stage::ResetDeleteRun, EventView::PowerShellRan(res)) => self.delete_done(res).begin_start(),
            _ => (self, finished()),
        }
    }
}

/// How each deployment action begins. Reset begins exactly as Delete
/// does, with the lab's remove command; Stop runs the stop command; both run
/// without prompts. Generate and Start first have the files written, and
/// only Start marks the deployment in progress. Beginning an action changes
/// nothing but the deployment record; an index past the last action does
/// nothing at all.
pub proof fn lemma_action_first_steps(a: AppView)
    ensures
        (AppView { selected_action: 3, ..a }).begin_action().1.effect == (AppView {
            selected_action: 4,
            ..a
        }).begin_action().1.effect,
        (AppView { selected_action: 4, ..a }).begin_action().1.effect == EffectView::RunPowerShell(
            "Import-Module Lability; Remove-LabConfiguration -EnvironmentPath '"@ + a.lab_config.environment_name
                + "' -Verbose"@,
            false,
        ),
        (AppView { selected_action: 2, ..a }).begin_action().1.effect == EffectView::RunPowerShell(
            "Get-VM | Where-Object { $_.Name -like '"@ + a.lab_config.environment_name + "*' } | Stop-VM -Force"@,
            false,
        ),
        (AppView { selected_action: 0, ..a }).begin_action().1 == (StepView {
            stage: Stage::GenerateWrite,
            effect: EffectView::WriteConfigFiles,
        }),
        (AppView { selected_action: 1, ..a }).begin_action().1 == (StepView {
            stage: Stage::StartWrite,
            effect: EffectView::WriteConfigFiles,
        }),
        (AppView { selected_action: 1, ..a }).begin_action().0.deployment.status == StatusView::InProgress,
        a.selected_action != 1 ==> a.begin_action().0.deployment.status == a.deployment.status,
        a.begin_action().0 == (AppView { deployment: a.begin_action().0.deployment, ..a }),
        a.begin_action().0.deployment.environment_name == a.deployment.environment_name,
        a.selected_action >= 5 ==> a.begin_action().0 == a && a.begin_action().1.effect == EffectView::Finished,
{
}

/// Once the lab's files are written, Start runs the start command for the
/// lab's name and output directory, interactively (so that it may prompt
/// for credentials); if they could not be written the deployment fails and
/// nothing runs.
pub proof fn lemma_start_runs_after_files(a: AppView, psd1: Seq<char>, ps1: Seq<char>, e: Seq<char>)
    ensures
        a.advance(Stage::StartWrite, EventView::FilesWritten(Ok((psd1, ps1)))).1 == (StepView {
            stage: Stage::StartRun,
            effect: EffectView::RunPowerShell(
                "$ErrorActionPreference = 'Stop'; Import-Module Lability; Set-Location '"@ + a.lab_output_dir
                    + "'; & '.\\"@ + a.lab_config.environment_name
                    + ".ps1'; Start-LabConfiguration -ConfigurationData '.\\"@ + a.lab_config.environment_name
                    + ".psd1' -Path '.\\"@ + a.lab_config.environment_name + "' -Verbose"@,
                true,
            ),
        }),
        a.advance(Stage::StartWrite, EventView::FilesWritten(Err(e))).1.effect == EffectView::Finished,
        a.advance(Stage::StartWrite, EventView::FilesWritten(Err(e))).0.deployment.status is Failed,
{
}

/// After its removal step, Reset goes on exactly as Delete followed by
/// Start: the state is the one Delete leaves, with the deployment in
/// progress and the generation line logged, and the next step writes the
/// files.
pub proof fn lemma_reset_is_delete_then_start(
    a: AppView,
    res: Result<(Seq<char>, Seq<char>, bool), Seq<char>>,
)
    ensures
        ({
            let deleted = a.advance(Stage::DeleteRun, EventView::PowerShellRan(res)).0;
            let reset = a.advance(Stage::ResetDeleteRun, EventView::PowerShellRan(res));
            &&& reset.1 == (StepView { stage: Stage::StartWrite, effect: EffectView::WriteConfigFiles })
            &&& reset.0 == (AppView {
                deployment: DeploymentView {
                    status: StatusView::InProgress,
                    log_lines: deleted.deployment.log_lines.push(
                        "[INFO] Generating configuration files …"@,
                    ),
                    ..deleted.deployment
                },
                ..deleted
            })
        }),
{
    let deleted = a.advance(Stage::DeleteRun, EventView::PowerShellRan(res)).0;
    assert(deleted.deployment.log_lines + seq![generating_line()] =~= deleted.deployment.log_lines.push(
        "[INFO] Generating configuration files …"@,
    ));
}

/// `a` with deployment status `status` and `lines` appended to the log.
pub open spec fn after_deploying(a: AppView, status: StatusView, lines: Seq<Seq<char>>) -> AppView {
    AppView {
        deployment: DeploymentView {
            status: status,
            log_lines: a.deployment.log_lines + lines,
            ..a.deployment
        },
        ..a
    }
}

/// What each reported outcome does: written files are logged (`[OK]` with
/// their paths) or the failure is logged, and starting fails; a command's
/// success sets the action's final status and logs its message, its failure
/// logs each line of its error output as `[ERROR]` and fails the deployment
/// with the action's reason; Start also logs each line of the command's
/// output first; a launch failure fails with `Launch error`. Only the
/// deployment record changes, and the action is over, except after the
/// files of Start, which go on to the start command. At an idle stage
/// nothing happens.
pub proof fn lemma_action_outcomes(
    a: AppView,
    out: Seq<char>,
    err: Seq<char>,
    e: Seq<char>,
    psd1: Seq<char>,
    ps1: Seq<char>,
    ev: EventView,
)
    ensures
        ({
            let errs = text::lines(err).map_values(|l: Seq<char>| "[ERROR] "@ + l);
            let st = a.deployment.status;
            let done = StepView { stage: Stage::Idle, effect: EffectView::Finished };
            &&& a.advance(Stage::GenerateWrite, EventView::FilesWritten(Ok((psd1, ps1)))) == (
            after_deploying(a, st, seq!["[OK] "@ + psd1, "[OK] "@ + ps1]),
            done)
            &&& a.advance(Stage::GenerateWrite, EventView::FilesWritten(Err(e))) == (
            after_deploying(a, st, seq!["[ERROR] Could not generate files: "@ + e]),
            done)
            &&& a.advance(Stage::StartWrite, EventView::FilesWritten(Ok((psd1, ps1)))).0 == after_deploying(
                a,
                st,
                seq!["[OK] "@ + psd1, "[OK] "@ + ps1, "[INFO] Starting lab configuration …"@],
            )
            &&& a.advance(Stage::StartWrite, EventView::FilesWritten(Err(e))) == (after_deploying(
                a,
                StatusView::Failed("File generation error: "@ + e),
                seq!["[ERROR] Could not generate files: "@ + e],
            ), done)
            &&& a.advance(Stage::StartRun, EventView::PowerShellRan(Ok((out, err, true)))) == (after_deploying(
                a,
                StatusView::Completed,
                text::lines(out) + seq!["[OK] Lab started successfully."@],
            ), done)
            &&& a.advance(Stage::StartRun, EventView::PowerShellRan(Ok((out, err, false)))) == (after_deploying(
                a,
                StatusView::Failed("PowerShell reported an error"@),
                text::lines(out) + errs,
            ), done)
            &&& a.advance(Stage::StopRun, EventView::PowerShellRan(Ok((out, err, true)))) == (
            after_deploying(a, StatusView::Stopped, seq!["[OK] Lab stopped."@]),
            done)
            &&& a.advance(Stage::StopRun, EventView::PowerShellRan(Ok((out, err, false)))) == (
            after_deploying(a, StatusView::Failed("Stop command failed"@), errs),
            done)
            &&& a.advance(Stage::DeleteRun, EventView::PowerShellRan(Ok((out, err, true)))) == (
            after_deploying(a, StatusView::NotStarted, seq!["[OK] Lab removed."@]),
            done)
            &&& a.advance(Stage::DeleteRun, EventView::PowerShellRan(Ok((out, err, false)))) == (
            after_deploying(a, StatusView::Failed("Delete command failed"@), errs),
            done)
            &&& forall|stage: Stage|
                (stage == Stage::StartRun || stage == Stage::StopRun || stage == Stage::DeleteRun) ==> #[trigger]
                a.advance(stage, EventView::PowerShellRan(Err(e))) == (after_deploying(
                    a,
                    StatusView::Failed("Launch error: "@ + e),
                    seq!["[ERROR] Could not launch PowerShell: "@ + e],
                ), done)
            &&& a.advance(Stage::Idle, ev) == (a, done)
        }),
{
    let st = a.deployment.status;
    let errs = text::lines(err).map_values(|l: Seq<char>| "[ERROR] "@ + l);
    assert(error_lines(err) =~= errs);
    let l = a.deployment.log_lines;
    assert(a.log(seq!["[OK] "@ + psd1, "[OK] "@ + ps1]) =~= after_deploying(a, st, seq!["[OK] "@ + psd1, "[OK] "@ + ps1]));
    assert(a.log(seq!["[ERROR] Could not generate files: "@ + e]) =~= after_deploying(a, st, seq!["[ERROR] Could not generate files: "@ + e]));
    assert(a.log(seq!["[OK] "@ + psd1, "[OK] "@ + ps1, "[INFO] Starting lab configuration …"@]) =~= after_deploying(
        a,
        st,
        seq!["[OK] "@ + psd1, "[OK] "@ + ps1, "[INFO] Starting lab configuration …"@],
    ));
    assert(a.log(seq!["[ERROR] Could not generate files: "@ + e]).with_status(StatusView::Failed("File generation error: "@ + e))
        =~= after_deploying(a, StatusView::Failed("File generation error: "@ + e), seq!["[ERROR] Could not generate files: "@ + e]));
    assert((l + text::lines(out)) + seq!["[OK] Lab started successfully."@] =~= l + (text::lines(out) + seq!["[OK] Lab started successfully."@]));
    assert((l + text::lines(out)) + errs =~= l + (text::lines(out) + errs));
    assert(a.log(text::lines(out)).with_status(StatusView::Completed).log(seq!["[OK] Lab started successfully."@]) =~= after_deploying(
        a,
        StatusView::Completed,
        text::lines(out) + seq!["[OK] Lab started successfully."@],
    ));
    assert(a.log(text::lines(out)).log(errs).with_status(StatusView::Failed("PowerShell reported an error"@)) =~= after_deploying(
        a,
        StatusView::Failed("PowerShell reported an error"@),
        text::lines(out) + errs,
    ));
    assert(a.with_status(StatusView::Stopped).log(seq!["[OK] Lab stopped."@]) =~= after_deploying(a, StatusView::Stopped, seq!["[OK] Lab stopped."@]));
    assert(a.log(errs).with_status(StatusView::Failed("Stop command failed"@)) =~= after_deploying(a, StatusView::Failed("Stop command failed"@), errs));
    assert(a.with_status(StatusView::NotStarted).log(seq!["[OK] Lab removed."@]) =~= after_deploying(a, StatusView::NotStarted, seq!["[OK] Lab removed."@]));
    assert(a.log(errs).with_status(StatusView::Failed("Delete command failed"@)) =~= after_deploying(a, StatusView::Failed("Delete command failed"@), errs));
    assert(a.launch_failed(e) =~= after_deploying(a, StatusView::Failed("Launch error: "@ + e), seq!["[ERROR] Could not launch PowerShell: "@ + e]));
}

/// What each deployment action logs as it begins.
pub proof fn lemma_action_first_logs(a: AppView)
    ensures
        (AppView { selected_action: 0, ..a }).begin_action().0 == after_deploying(
            AppView { selected_action: 0, ..a },
            a.deployment.status,
            seq!["[INFO] Generating configuration files …"@],
        ),
        (AppView { selected_action: 1, ..a }).begin_action().0 == after_deploying(
            AppView { selected_action: 1, ..a },
            StatusView::InProgress,
            seq!["[INFO] Generating configuration files …"@],
        ),
        (AppView { selected_action: 2, ..a }).begin_action().0 == after_deploying(
            AppView { selected_action: 2, ..a },
            a.deployment.status,
            seq!["[INFO] Stopping lab VMs …"@],
        ),
        (AppView { selected_action: 3, ..a }).begin_action().0 == after_deploying(
            AppView { selected_action: 3, ..a },
            a.deployment.status,
            seq!["[INFO] Resetting lab …"@, "[INFO] Removing lab …"@],
        ),
        (AppView { selected_action: 4, ..a }).begin_action().0 == after_deploying(
            AppView { selected_action: 4, ..a },
            a.deployment.status,
            seq!["[INFO] Removing lab …"@],
        ),
{
    let b0 = AppView { selected_action: 0, ..a };
    let b1 = AppView { selected_action: 1, ..a };
    let b2 = AppView { selected_action: 2, ..a };
    let b3 = AppView { selected_action: 3, ..a };
    let b4 = AppView { selected_action: 4, ..a };
    assert(b0.begin_action().0 =~= after_deploying(b0, a.deployment.status, seq![generating_line()]));
    assert(b1.begin_action().0 =~= after_deploying(b1, StatusView::InProgress, seq![generating_line()]));
    assert(b2.begin_action().0 =~= after_deploying(b2, a.deployment.status, seq!["[INFO] Stopping lab VMs …"@]));
    assert(b3.begin_action().0 =~= after_deploying(b3, a.deployment.status, seq!["[INFO] Resetting lab …"@, removing_line()]));
    assert(b4.begin_action().0 =~= after_deploying(b4, a.deployment.status, seq![removing_line()]));
}

impl App {
    /// Appends `line` to the deployment log.
    fn log(&mut self, line: String)
        ensures
            final(self)@ == old(self)@.log(seq![line@]),
    {
        self.deployment.add_log(line);
        proof {
            assert(final(self)@.deployment.log_lines =~= old(self)@.deployment.log_lines + seq![line@]);
        }
    }

    /// Appends `prefix` followed by `s` to the deployment log.
    fn log_prefixed(&mut self, prefix: &str, s: &str)
        ensures
            final(self)@ == old(self)@.log(seq![prefix@ + s@]),
    {
        let mut line = String::from_str(prefix);
        line.append(s);
        self.log(line);
    }

    /// Appends each of `lines`, behind `prefix`, to the deployment log.
    fn log_all(&mut self, prefix: &str, lines: &Vec<String>)
        ensures
            final(self)@ == old(self)@.log(text::strs_view(lines@).map_values(|l: Seq<char>| prefix@ + l)),
    {
        let ghost all = text::strs_view(lines@).map_values(|l: Seq<char>| prefix@ + l);
        let n = lines.len();
        let mut i: usize = 0;
        while i < n
            invariant
                n == lines@.len(),
                i <= n,
                all == text::strs_view(lines@).map_values(|l: Seq<char>| prefix@ + l),
                self@ == old(self)@.log(all.take(i as int)),
            decreases n - i,
        {
            let ghost before = self@;
            self.log_prefixed(prefix, lines[i].as_str());
            proof {
                assert(all.take(i + 1) =~= all.take(i as int).push(all[i as int]));
                assert(self@.deployment.log_lines =~= old(self)@.deployment.log_lines + all.take(i + 1));
                assert(self@ =~= old(self)@.log(all.take(i + 1)));
            }
            i = i + 1;
        }
        proof {
            assert(all.take(n as int) =~= all);
        }
    }

    /// Sets the deployment status.
    fn set_status(&mut self, status: DeploymentStatus)
        ensures
            final(self)@ == old(self)@.with_status(status@),
    {
        self.deployment.status = status;
    }

    /// Records a failure to launch PowerShell.
    fn record_launch_failure(&mut self, e: &String)
        ensures
            final(self)@ == old(self)@.launch_failed(e@),
    {
        self.log_prefixed("[ERROR] Could not launch PowerShell: ", e.as_str());
        let mut reason = String::from_str("Launch error: ");
        reason.append(e.as_str());
        self.set_status(DeploymentStatus::Failed(reason));
    }

    /// Records the outcome of a command (see `AppView::command_done`).
    fn record_command(
        &mut self,
        res: &Result<PsResult, String>,
        done: DeploymentStatus,
        ok_line: &str,
        failure: &str,
    )
        ensures
            final(self)@ == old(self)@.command_done(
                match res {
                    Ok(r) => Ok((r.stdout@, r.stderr@, r.success)),
                    Err(e) => Err(e@),
                },
                done@,
                ok_line@,
                failure@,
            ),
    {
        match res {
            Ok(result) => {
                if result.success {
                    self.set_status(done);
                    self.log(String::from_str(ok_line));
                } else {
                    let errs = split_lines(result.stderr.as_str());
                    self.log_all("[ERROR] ", &errs);
                    self.set_status(DeploymentStatus::Failed(String::from_str(failure)));
                }
            },
            Err(e) => self.record_launch_failure(e),
        }
    }

    /// Begins generating the `.psd1` and `.ps1` files without deploying: the
    /// host writes them (`Effect::WriteConfigFiles`) and reports back through
    /// `advance`.
    pub fn generate_config_files(&mut self) -> (r: Step)
        ensures
            final(self)@ == old(self)@.begin_generate().0,
            r@ == old(self)@.begin_generate().1,
            old(self)@.wf() ==> final(self)@.wf(),
    {
        self.log(String::from_str("[INFO] Generating configuration files …"));
        Step { stage: Stage::GenerateWrite, effect: Effect::WriteConfigFiles }
    }

    /// Begins starting the lab: the files are written first.
    fn begin_start(&mut self) -> (r: Step)
        ensures
            final(self)@ == old(self)@.begin_start().0,
            r@ == old(self)@.begin_start().1,
    {
        self.set_status(DeploymentStatus::InProgress);
        self.log(String::from_str("[INFO] Generating configuration files …"));
        Step { stage: Stage::StartWrite, effect: Effect::WriteConfigFiles }
    }

    /// The step that runs the remove command of the lab.
    fn remove_step(&self, stage: Stage) -> (r: Step)
        ensures
            r@ == (StepView { stage, effect: self@.remove_effect() }),
    {
        let command = remove_lab_command(self.lab_config.environment_name.as_str());
        Step { stage, effect: Effect::RunPowerShell { command, interactive: false } }
    }

    /// Begins the highlighted deployment action (generate, start, stop,
    /// reset or delete) and returns what the host must do first.
    pub fn run_deployment_action(&mut self) -> (r: Step)
        ensures
            final(self)@ == old(self)@.begin_action().0,
            r@ == old(self)@.begin_action().1,
            old(self)@.wf() ==> final(self)@.wf(),
    {
        if self.selected_action == 0 {
            self.generate_config_files()
        } else if self.selected_action == 1 {
            self.begin_start()
        } else if self.selected_action == 2 {
            self.log(String::from_str("[INFO] Stopping lab VMs …"));
            let command = stop_lab_command(self.lab_config.environment_name.as_str());
            Step { stage: Stage::StopRun, effect: Effect::RunPowerShell { command, interactive: false } }
        } else if self.selected_action == 3 {
            self.log(String::from_str("[INFO] Resetting lab …"));
            self.log(String::from_str("[INFO] Removing lab …"));
            proof {
                assert(self@ =~= old(self)@.log(seq!["[INFO] Resetting lab …"@, removing_line()]));
            }
            self.remove_step(Stage::ResetDeleteRun)
        } else if self.selected_action == 4 {
            self.log(String::from_str("[INFO] Removing lab …"));
            self.remove_step(Stage::DeleteRun)
        } else {
            Step { stage: Stage::Idle, effect: Effect::Finished }
        }
    }

    /// Carries a deployment action on once the host reports `event` for the
    /// effect it was asked for at `stage`; an event that does not answer the
    /// stage changes nothing and ends the action.
    pub fn advance(&mut self, stage: Stage, event: Event) -> (r: Step)
        ensures
            final(self)@ == old(self)@.advance(stage, event@).0,
            r@ == old(self)@.advance(stage, event@).1,
            old(self)@.wf() ==> final(self)@.wf(),
    {
        match (stage, event) {
            (Stage::GenerateWrite, Event::FilesWritten(res)) => {
                match res {
                    Ok((psd1, ps1)) => {
                        self.log_prefixed("[OK] ", psd1.as_str());
                        self.log_prefixed("[OK] ", ps1.as_str());
                        proof {
                            assert(self@ =~= old(self)@.log(seq!["[OK] "@ + psd1@, "[OK] "@ + ps1@]));
                        }
                    },
                    Err(e) => {
                        self.log_prefixed("[ERROR] Could not generate files: ", e.as_str());
                    },
                }
                Step { stage: Stage::Idle, effect: Effect::Finished }
            },
            (Stage::StartWrite, Event::FilesWritten(res)) => {
                match res {
                    Ok((psd1, ps1)) => {
                        self.log_prefixed("[OK] ", psd1.as_str());
                        self.log_prefixed("[OK] ", ps1.as_str());
                        self.log(String::from_str("[INFO] Starting lab configuration …"));
                        proof {
                            assert(self@ =~= old(self)@.log(
                                seq!["[OK] "@ + psd1@, "[OK] "@ + ps1@, "[INFO] Starting lab configuration …"@],
                            ));
                        }
                        let command = start_lab_command(
                            self.lab_config.environment_name.as_str(),
                            self.lab_output_dir.as_str(),
                        );
                        Step { stage: Stage::StartRun, effect: Effect::RunPowerShell { command, interactive: true } }
                    },
                    Err(e) => {
                        self.log_prefixed("[ERROR] Could not generate files: ", e.as_str());
                        let mut reason = String::from_str("File generation error: ");
                        reason.append(e.as_str());
                        self.set_status(DeploymentStatus::Failed(reason));
                        Step { stage: Stage::Idle, effect: Effect::Finished }
                    },
                }
            },
            (Stage::StartRun, Event::PowerShellRan(res)) => {
                match &res {
                    Ok(result) => {
                        let outs = split_lines(result.stdout.as_str());
                        self.log_all("", &outs);
                        proof {
                            reveal_strlit("");
                            assert(text::strs_view(outs@).map_values(|l: Seq<char>| ""@ + l) =~= text::lines(
                                result.stdout@,
                            ));
                        }
                        self.record_command(
                            &res,
                            DeploymentStatus::Completed,
                            "[OK] Lab started successfully.",
                            "PowerShell reported an error",
                        );
                    },
                    Err(e) => self.record_launch_failure(e),
                }
                Step { stage: Stage::Idle, effect: Effect::Finished }
            },
            (Stage::StopRun, Event::PowerShellRan(res)) => {
                self.record_command(&res, DeploymentStatus::Stopped, "[OK] Lab stopped.", "Stop command failed");
                Step { stage: Stage::Idle, effect: Effect::Finished }
            },
            (Stage::DeleteRun, Event::PowerShellRan(res)) => {
                self.record_command(&res, DeploymentStatus::NotStarted, "[OK] Lab removed.", "Delete command failed");
                Step { stage: Stage::Idle, effect: Effect::Finished }
            },
            (Stage::ResetDeleteRun, Event::PowerShellRan(res)) => {
                self.record_command(&res, DeploymentStatus::NotStarted, "[OK] Lab removed.", "Delete command failed");
                self.begin_start()
            },
            _ => Step { stage: Stage::Idle, effect: Effect::Finished },
        }
    }
}

} // verus!
