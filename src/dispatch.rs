use vstd::prelude::*;

use crate::config::{CompleteConfig, Config};

verus! {

/// The two subcommands.
#[derive(Debug, Clone, Copy, PartialEq, Eq)]
pub enum Command {
    /// Post standard input as a note on the configured issue.
    Send,
    /// Run the setup wizard.
    Configure,
}

/// What the program does after reading the stored configuration.
#[derive(Debug, PartialEq, Eq)]
pub enum Plan {
    /// Post a note with this configuration.
    Send(CompleteConfig),
    /// Tell the user the configuration is incomplete and exit with failure,
    /// without any request.
    ReportIncomplete,
    /// Ask whether the existing complete configuration may be replaced.
    AskOverwrite,
    /// Run the setup wizard.
    RunWizard,
    /// Exit successfully, storing nothing.
    Finish,
}

/// The model of a plan.
pub enum PlanModel {
    Send { instance: Seq<char>, token: Seq<char>, project: u32, issue: u32 },
    ReportIncomplete,
    AskOverwrite,
    RunWizard,
    Finish,
}

impl View for Plan {
    type V = PlanModel;

    open spec fn view(&self) -> PlanModel {
        match self {
            Plan::Send(c) => PlanModel::Send {
                instance: c.gl_instance@,
                token: c.gl_token@,
                project: c.project,
                issue: c.issue,
            },
            Plan::ReportIncomplete => PlanModel::ReportIncomplete,
            Plan::AskOverwrite => PlanModel::AskOverwrite,
            Plan::RunWizard => PlanModel::RunWizard,
            Plan::Finish => PlanModel::Finish,
        }
    }
}

/// The plan for `command` on the stored configuration `cfg`.
pub open spec fn plan_for(command: Command, cfg: Config) -> PlanModel {
    match command {
        Command::Send => if cfg.is_complete() {
            PlanModel::Send {
                instance: cfg.gl_instance.unwrap()@,
                token: cfg.gl_token.unwrap()@,
                project: cfg.project.unwrap(),
                issue: cfg.issue.unwrap(),
            }
        } else {
            PlanModel::ReportIncomplete
        },
        Command::Configure => if cfg.is_complete() {
            PlanModel::AskOverwrite
        } else {
            PlanModel::RunWizard
        },
    }
}

/// The plan once the user has answered whether to replace the configuration.
pub open spec fn plan_after_answer(replace: bool) -> PlanModel {
    if replace {
        PlanModel::RunWizard
    } else {
        PlanModel::Finish
    }
}

/// Routes a subcommand on the stored configuration.
pub fn dispatch(command: Command, cfg: Config) -> (r: Plan)
    ensures
        r@ == plan_for(command, cfg),
{
    let complete = cfg.is_complete_exec();
    match command {
        Command::Send => match cfg.try_into() {
            Ok(c) => Plan::Send(c),
            Err(()) => Plan::ReportIncomplete,
        },
        Command::Configure => if complete {
            Plan::AskOverwrite
        } else {
            Plan::RunWizard
        },
    }
}

/// The plan once the user has answered whether to replace an existing
/// complete configuration.
pub fn overwrite_answer(replace: bool) -> (r: Plan)
    ensures
        r@ == plan_after_answer(replace),
{
    if replace {
        Plan::RunWizard
    } else {
        Plan::Finish
    }
}

/// Declining to replace a complete configuration ends the program without
/// running the wizard, so nothing is stored.
pub proof fn lemma_declined_overwrite_stores_nothing(cfg: Config)
    requires
        cfg.is_complete(),
    ensures
        plan_for(Command::Configure, cfg) == PlanModel::AskOverwrite,
        plan_after_answer(false) == PlanModel::Finish,
{
}

/// A send on an incomplete configuration plans no request.
pub proof fn lemma_incomplete_send_makes_no_request(cfg: Config)
    requires
        !cfg.is_complete(),
    ensures
        plan_for(Command::Send, cfg) == PlanModel::ReportIncomplete,
{
}

} // verus!
