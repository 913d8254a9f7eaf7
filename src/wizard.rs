use vstd::prelude::*;

use crate::api::{issue_url, issue_url_of, projects_url, projects_url_of};
use crate::config::CompleteConfig;
use crate::issue_id::{issue_id_of, parse_issue_id};

verus! {

/// A project of the tracker, as listed for the user to choose from.
#[derive(Debug, Clone, PartialEq, Eq)]
pub struct Project {
    pub id: u32,
    pub name: String,
}

/// An issue of the tracker, as shown for the user to confirm.
#[derive(Debug, Clone, PartialEq, Eq)]
pub struct Issue {
    pub title: String,
}

impl View for Project {
    type V = (u32, Seq<char>);

    open spec fn view(&self) -> (u32, Seq<char>) {
        (self.id, self.name@)
    }
}

/// The identifier and name of each project.
pub open spec fn projects_view(ps: Seq<Project>) -> Seq<(u32, Seq<char>)> {
    ps.map_values(|p: Project| p@)
}

/// The name of each project.
pub open spec fn titles_of(ps: Seq<(u32, Seq<char>)>) -> Seq<Seq<char>> {
    ps.map_values(|p: (u32, Seq<char>)| p.1)
}

/// The question that asks the user to confirm the issue titled `title`.
pub open spec fn confirm_message_of(title: Seq<char>) -> Seq<char> {
    "Select the issue: \""@ + title + "\"?"@
}

/// Where the setup wizard stands. Answers are kept until the last step;
/// nothing is stored before it.
#[derive(Debug, PartialEq, Eq)]
pub enum Stage {
    /// Waiting for the instance hostname.
    AskInstance,
    /// Waiting for the access token.
    AskToken { instance: String },
    /// Waiting for the project list.
    ListProjects { instance: String, token: String },
    /// Waiting for the user to pick one of `projects`.
    ChooseProject { instance: String, token: String, projects: Vec<Project> },
    /// Waiting for an issue identifier.
    AskIssue { instance: String, token: String, project: u32 },
    /// Waiting for the issue named by `issue`.
    FetchIssue { instance: String, token: String, project: u32, issue: u32 },
    /// Waiting for the user to confirm issue `issue`.
    ConfirmIssue { instance: String, token: String, project: u32, issue: u32 },
    /// The configuration has been handed out to be stored.
    Finished,
    /// The wizard stopped on an error.
    Failed,
}

/// What the user or the tracker answered.
#[derive(Debug, PartialEq, Eq)]
pub enum Event {
    /// The text typed at a prompt.
    Text(String),
    /// The tracker's project list.
    Projects(Vec<Project>),
    /// The position, in the list offered, of the project the user picked.
    Chosen(usize),
    /// The issue the tracker returned.
    Fetched(Issue),
    /// The answer to a yes/no question.
    Confirmed(bool),
    /// The tracker answered a request with this status outside the success range.
    RequestFailed(u16),
}

/// Why the wizard stopped.
#[derive(Debug, Clone, Copy, PartialEq, Eq)]
pub enum WizardError {
    /// The project list could not be had.
    ProjectsUnavailable { status: u16 },
    /// The tracker lists no project to choose from.
    NoProjects,
    /// The issue with this identifier could not be had.
    IssueUnavailable { issue: u32, status: u16 },
    /// An answer that the current step does not wait for.
    UnexpectedEvent,
}

/// What the wizard asks to be done next.
#[derive(Debug, PartialEq, Eq)]
pub enum Action {
    /// Ask for the instance hostname (free text).
    PromptInstance,
    /// Ask for the access token (masked).
    PromptToken,
    /// Fetch the project list.
    FetchProjects { url: String, token: String },
    /// Let the user pick one project; `titles` are offered in this order.
    PromptProject { titles: Vec<String> },
    /// Ask for an issue identifier.
    PromptIssue,
    /// Fetch one issue.
    FetchIssue { url: String, token: String },
    /// Ask the user a yes/no question.
    PromptConfirm { message: String },
    /// Store this configuration; the wizard is done.
    Store(CompleteConfig),
    /// Stop with this error.
    Fail(WizardError),
}

/// The model of a wizard stage.
pub enum StageModel {
    AskInstance,
    AskToken { instance: Seq<char> },
    ListProjects { instance: Seq<char>, token: Seq<char> },
    ChooseProject { instance: Seq<char>, token: Seq<char>, projects: Seq<(u32, Seq<char>)> },
    AskIssue { instance: Seq<char>, token: Seq<char>, project: u32 },
    FetchIssue { instance: Seq<char>, token: Seq<char>, project: u32, issue: u32 },
    ConfirmIssue { instance: Seq<char>, token: Seq<char>, project: u32, issue: u32 },
    Finished,
    Failed,
}

/// The model of an event.
pub enum EventModel {
    Text(Seq<char>),
    Projects(Seq<(u32, Seq<char>)>),
    Chosen(nat),
    Fetched(Seq<char>),
    Confirmed(bool),
    RequestFailed(u16),
}

/// The model of an action.
pub enum ActionModel {
    PromptInstance,
    PromptToken,
    FetchProjects { url: Seq<char>, token: Seq<char> },
    PromptProject { titles: Seq<Seq<char>> },
    PromptIssue,
    FetchIssue { url: Seq<char>, token: Seq<char> },
    PromptConfirm { message: Seq<char> },
    Store { instance: Seq<char>, token: Seq<char>, project: u32, issue: u32 },
    Fail(WizardError),
}

impl View for Stage {
    type V = StageModel;

    open spec fn view(&self) -> StageModel {
        match self {
            Stage::AskInstance => StageModel::AskInstance,
            Stage::AskToken { instance } => StageModel::AskToken { instance: instance@ },
            Stage::ListProjects { instance, token } => StageModel::ListProjects {
                instance: instance@,
                token: token@,
            },
            Stage::ChooseProject { instance, token, projects } => StageModel::ChooseProject {
                instance: instance@,
                token: token@,
                projects: projects_view(projects@),
            },
            Stage::AskIssue { instance, token, project } => StageModel::AskIssue {
                instance: instance@,
                token: token@,
                project: *project,
            },
            Stage::FetchIssue { instance, token, project, issue } => StageModel::FetchIssue {
                instance: instance@,
                token: token@,
                project: *project,
                issue: *issue,
            },
            Stage::ConfirmIssue { instance, token, project, issue } => StageModel::ConfirmIssue {
                instance: instance@,
                token: token@,
                project: *project,
                issue: *issue,
            },
            Stage::Finished => StageModel::Finished,
            Stage::Failed => StageModel::Failed,
        }
    }
}

impl View for Event {
    type V = EventModel;

    open spec fn view(&self) -> EventModel {
        match self {
            Event::Text(t) => EventModel::Text(t@),
            Event::Projects(ps) => EventModel::Projects(projects_view(ps@)),
            Event::Chosen(k) => EventModel::Chosen(*k as nat),
            Event::Fetched(issue) => EventModel::Fetched(issue.title@),
            Event::Confirmed(yes) => EventModel::Confirmed(*yes),
            Event::RequestFailed(status) => EventModel::RequestFailed(*status),
        }
    }
}

impl View for Action {
    type V = ActionModel;

    open spec fn view(&self) -> ActionModel {
        match self {
            Action::PromptInstance => ActionModel::PromptInstance,
            Action::PromptToken => ActionModel::PromptToken,
            Action::FetchProjects { url, token } => ActionModel::FetchProjects {
                url: url@,
                token: token@,
            },
            Action::PromptProject { titles } => ActionModel::PromptProject {
                titles: titles@.map_values(|t: String| t@),
            },
            Action::PromptIssue => ActionModel::PromptIssue,
            Action::FetchIssue { url, token } => ActionModel::FetchIssue { url: url@, token: token@ },
            Action::PromptConfirm { message } => ActionModel::PromptConfirm { message: message@ },
            Action::Store(c) => ActionModel::Store {
                instance: c.gl_instance@,
                token: c.gl_token@,
                project: c.project,
                issue: c.issue,
            },
            Action::Fail(e) => ActionModel::Fail(*e),
        }
    }
}

/// One step of the wizard: the stage it moves to and the action it asks for.
pub open spec fn next(s: StageModel, e: EventModel) -> (StageModel, ActionModel) {
    match (s, e) {
        (StageModel::AskInstance, EventModel::Text(instance)) => (
            StageModel::AskToken { instance },
            ActionModel::PromptToken,
        ),
        (StageModel::AskToken { instance }, EventModel::Text(token)) => (
            StageModel::ListProjects { instance, token },
            ActionModel::FetchProjects { url: projects_url_of(instance), token },
        ),
        (StageModel::ListProjects { instance, token }, EventModel::Projects(projects)) => {
            if projects.len() == 0 {
                (StageModel::Failed, ActionModel::Fail(WizardError::NoProjects))
            } else {
                (
                    StageModel::ChooseProject { instance, token, projects },
                    ActionModel::PromptProject { titles: titles_of(projects) },
                )
            }
        },
        (StageModel::ListProjects { .. }, EventModel::RequestFailed(status)) => (
            StageModel::Failed,
            ActionModel::Fail(WizardError::ProjectsUnavailable { status }),
        ),
        (StageModel::ChooseProject { instance, token, projects }, EventModel::Chosen(k)) => {
            if k < projects.len() {
                (
                    StageModel::AskIssue { instance, token, project: projects[k as int].0 },
                    ActionModel::PromptIssue,
                )
            } else {
                (
                    StageModel::ChooseProject { instance, token, projects },
                    ActionModel::PromptProject { titles: titles_of(projects) },
                )
            }
        },
        (StageModel::AskIssue { instance, token, project }, EventModel::Text(typed)) => {
            match issue_id_of(typed) {
                Some(issue) => (
                    StageModel::FetchIssue { instance, token, project, issue },
                    ActionModel::FetchIssue { url: issue_url_of(instance, project, issue), token },
                ),
                None => (StageModel::AskIssue { instance, token, project }, ActionModel::PromptIssue),
            }
        },
        (StageModel::FetchIssue { instance, token, project, issue }, EventModel::Fetched(title)) => (
            StageModel::ConfirmIssue { instance, token, project, issue },
            ActionModel::PromptConfirm { message: confirm_message_of(title) },
        ),
        (StageModel::FetchIssue { issue, .. }, EventModel::RequestFailed(status)) => (
            StageModel::Failed,
            ActionModel::Fail(WizardError::IssueUnavailable { issue, status }),
        ),
        (StageModel::ConfirmIssue { instance, token, project, issue }, EventModel::Confirmed(yes)) => {
            if yes {
                (StageModel::Finished, ActionModel::Store { instance, token, project, issue })
            } else {
                (StageModel::AskIssue { instance, token, project }, ActionModel::PromptIssue)
            }
        },
        _ => (StageModel::Failed, ActionModel::Fail(WizardError::UnexpectedEvent)),
    }
}

/// The first stage of the wizard and the prompt it opens with.
pub fn start() -> (r: (Stage, Action))
    ensures
        r.0@ == StageModel::AskInstance,
        r.1@ == ActionModel::PromptInstance,
{
    (Stage::AskInstance, Action::PromptInstance)
}

/// The question that asks the user to confirm the issue titled `title`.
pub fn confirm_message(title: &str) -> (r: String)
    ensures
        r@ == confirm_message_of(title@),
{
    let mut r = String::from_str("Select the issue: \"");
    r.append(title);
    r.append("\"?");
    r
}

/// The names of `projects`, in order, as offered to the user.
pub fn project_titles(projects: &Vec<Project>) -> (r: Vec<String>)
    ensures
        r@.map_values(|t: String| t@) == titles_of(projects_view(projects@)),
{
    let mut r: Vec<String> = Vec::new();
    let mut i: usize = 0;
    while i < projects.len()
        invariant
            i <= projects.len(),
            r@.len() == i,
            forall|j: int| 0 <= j < i ==> (#[trigger] r@[j])@ == projects@[j].name@,
        decreases projects.len() - i,
    {
        r.push(projects[i].name.clone());
        i = i + 1;
    }
    assert(r@.map_values(|t: String| t@) == titles_of(projects_view(projects@)));
    r
}

/// Moves the wizard on by one answer.
pub fn step(stage: Stage, event: Event) -> (r: (Stage, Action))
    ensures
        (r.0@, r.1@) == next(stage@, event@),
{
    match (stage, event) {
        (Stage::AskInstance, Event::Text(instance)) => (
            Stage::AskToken { instance },
            Action::PromptToken,
        ),
        (Stage::AskToken { instance }, Event::Text(token)) => {
            let url = projects_url(instance.as_str());
            let sent = token.clone();
            (Stage::ListProjects { instance, token }, Action::FetchProjects { url, token: sent })
        },
        (Stage::ListProjects { instance, token }, Event::Projects(projects)) => {
            if projects.len() == 0 {
                (Stage::Failed, Action::Fail(WizardError::NoProjects))
            } else {
                let titles = project_titles(&projects);
                (Stage::ChooseProject { instance, token, projects }, Action::PromptProject { titles })
            }
        },
        (Stage::ListProjects { .. }, Event::RequestFailed(status)) => (
            Stage::Failed,
            Action::Fail(WizardError::ProjectsUnavailable { status }),
        ),
        (Stage::ChooseProject { instance, token, projects }, Event::Chosen(k)) => {
            if k < projects.len() {
                let project = projects[k].id;
                (Stage::AskIssue { instance, token, project }, Action::PromptIssue)
            } else {
                let titles = project_titles(&projects);
                (Stage::ChooseProject { instance, token, projects }, Action::PromptProject { titles })
            }
        },
        (Stage::AskIssue { instance, token, project }, Event::Text(typed)) => {
            match parse_issue_id(typed.as_str()) {
                Some(issue) => {
                    let url = issue_url(instance.as_str(), project, issue);
                    let sent = token.clone();
                    (
                        Stage::FetchIssue { instance, token, project, issue },
                        Action::FetchIssue { url, token: sent },
                    )
                },
                None => (Stage::AskIssue { instance, token, project }, Action::PromptIssue),
            }
        },
        (Stage::FetchIssue { instance, token, project, issue }, Event::Fetched(found)) => {
            let message = confirm_message(found.title.as_str());
            (
                Stage::ConfirmIssue { instance, token, project, issue },
                Action::PromptConfirm { message },
            )
        },
        (Stage::FetchIssue { issue, .. }, Event::RequestFailed(status)) => (
            Stage::Failed,
            Action::Fail(WizardError::IssueUnavailable { issue, status }),
        ),
        (Stage::ConfirmIssue { instance, token, project, issue }, Event::Confirmed(yes)) => {
            if yes {
                let chosen = CompleteConfig { gl_instance: instance, gl_token: token, project, issue };
                (Stage::Finished, Action::Store(chosen))
            } else {
                (Stage::AskIssue { instance, token, project }, Action::PromptIssue)
            }
        },
        _ => (Stage::Failed, Action::Fail(WizardError::UnexpectedEvent)),
    }
}

/// An issue identifier that does not parse is refused at the prompt: the
/// wizard asks again and requests nothing.
pub proof fn lemma_unparsable_issue_id_fetches_nothing(
    instance: Seq<char>,
    token: Seq<char>,
    project: u32,
    typed: Seq<char>,
)
    requires
        issue_id_of(typed) is None,
    ensures
        next(StageModel::AskIssue { instance, token, project }, EventModel::Text(typed)) == (
            StageModel::AskIssue { instance, token, project },
            ActionModel::PromptIssue,
        ),
{
}

/// A run of the wizard that is answered with an instance, a token, a
/// non-empty project list, the position of one project, an issue identifier
/// that parses, the issue and a confirmation stores exactly those answers:
/// the picked project's identifier and the typed issue identifier.
pub proof fn lemma_wizard_stores_answers(
    instance: Seq<char>,
    token: Seq<char>,
    projects: Seq<(u32, Seq<char>)>,
    k: nat,
    typed: Seq<char>,
    title: Seq<char>,
)
    requires
        k < projects.len(),
        issue_id_of(typed) is Some,
    ensures
        ({
            let s1 = next(StageModel::AskInstance, EventModel::Text(instance));
            let s2 = next(s1.0, EventModel::Text(token));
            let s3 = next(s2.0, EventModel::Projects(projects));
            let s4 = next(s3.0, EventModel::Chosen(k));
            let s5 = next(s4.0, EventModel::Text(typed));
            let s6 = next(s5.0, EventModel::Fetched(title));
            let s7 = next(s6.0, EventModel::Confirmed(true));
            &&& s5.1 == ActionModel::FetchIssue {
                url: issue_url_of(instance, projects[k as int].0, issue_id_of(typed).unwrap()),
                token,
            }
            &&& s7.0 == StageModel::Finished
            &&& s7.1 == ActionModel::Store {
                instance,
                token,
                project: projects[k as int].0,
                issue: issue_id_of(typed).unwrap(),
            }
        }),
{
}

/// Answering "no" to the issue shown asks for another identifier and keeps
/// every earlier answer.
pub proof fn lemma_rejected_issue_asks_again(
    instance: Seq<char>,
    token: Seq<char>,
    project: u32,
    issue: u32,
)
    ensures
        next(
            StageModel::ConfirmIssue { instance, token, project, issue },
            EventModel::Confirmed(false),
        ) == (StageModel::AskIssue { instance, token, project }, ActionModel::PromptIssue),
{
}

} // verus!
