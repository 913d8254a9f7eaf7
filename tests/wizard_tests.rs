use lb::config::{CompleteConfig, Config};
use lb::dispatch::{dispatch, overwrite_answer, Command, Plan};
use lb::wizard::{
    confirm_message, project_titles, start, step, Action, Event, Issue, Project, Stage, WizardError,
};

fn two_projects() -> Vec<Project> {
    vec![
        Project { id: 1, name: "A".to_string() },
        Project { id: 2, name: "B".to_string() },
    ]
}

fn text(s: &str) -> Event {
    Event::Text(s.to_string())
}

fn at_project_choice(projects: Vec<Project>) -> (Stage, Action) {
    let (s, _) = start();
    let (s, _) = step(s, text("gitlab.example.com"));
    let (s, _) = step(s, text("tok123"));
    step(s, Event::Projects(projects))
}

#[test]
fn wizard_opens_with_instance_prompt() {
    assert_eq!(start(), (Stage::AskInstance, Action::PromptInstance));
}

#[test]
fn selecting_second_project_stores_its_id() {
    let (s, a) = at_project_choice(two_projects());
    assert_eq!(a, Action::PromptProject { titles: vec!["A".to_string(), "B".to_string()] });
    let (s, a) = step(s, Event::Chosen(1));
    assert_eq!(a, Action::PromptIssue);
    let (s, _) = step(s, text("8"));
    let (s, _) = step(s, Event::Fetched(Issue { title: "T".to_string() }));
    let (s, a) = step(s, Event::Confirmed(true));
    assert_eq!(s, Stage::Finished);
    match a {
        Action::Store(c) => {
            assert_eq!(c.project, 2);
            assert_eq!(Config::from_complete(c).project, Some(2));
        }
        other => panic!("unexpected action {:?}", other),
    }
}

#[test]
fn non_numeric_issue_id_is_refused_without_fetch() {
    let (s, _) = at_project_choice(two_projects());
    let (s, _) = step(s, Event::Chosen(0));
    let (s, a) = step(s, text("abc"));
    assert_eq!(a, Action::PromptIssue);
    assert_eq!(
        s,
        Stage::AskIssue {
            instance: "gitlab.example.com".to_string(),
            token: "tok123".to_string(),
            project: 1,
        }
    );
}

#[test]
fn end_to_end_configure_from_empty_config() {
    assert_eq!(dispatch(Command::Configure, Config::empty()), Plan::RunWizard);
    let (s, a) = start();
    assert_eq!(a, Action::PromptInstance);
    let (s, a) = step(s, text("gitlab.example.com"));
    assert_eq!(a, Action::PromptToken);
    let (s, a) = step(s, text("tok123"));
    assert_eq!(
        a,
        Action::FetchProjects {
            url: "https://gitlab.example.com/api/v4/projects".to_string(),
            token: "tok123".to_string(),
        }
    );
    let (s, _) = step(s, Event::Projects(vec![Project { id: 7, name: "P".to_string() }]));
    let (s, _) = step(s, Event::Chosen(0));
    let (s, a) = step(s, text("42"));
    assert_eq!(
        a,
        Action::FetchIssue {
            url: "https://gitlab.example.com/api/v4/projects/7/issues/42".to_string(),
            token: "tok123".to_string(),
        }
    );
    let (s, a) = step(s, Event::Fetched(Issue { title: "Title".to_string() }));
    assert_eq!(a, Action::PromptConfirm { message: "Select the issue: \"Title\"?".to_string() });
    let (_, a) = step(s, Event::Confirmed(true));
    let stored = match a {
        Action::Store(c) => Config::from_complete(c),
        other => panic!("unexpected action {:?}", other),
    };
    assert_eq!(
        stored,
        Config {
            gl_instance: Some("gitlab.example.com".to_string()),
            gl_token: Some("tok123".to_string()),
            project: Some(7),
            issue: Some(42),
        }
    );
}

#[test]
fn declining_issue_asks_for_another() {
    let (s, _) = at_project_choice(two_projects());
    let (s, _) = step(s, Event::Chosen(0));
    let (s, _) = step(s, text("5"));
    let (s, _) = step(s, Event::Fetched(Issue { title: "Wrong".to_string() }));
    let (s, a) = step(s, Event::Confirmed(false));
    assert_eq!(a, Action::PromptIssue);
    let (s, _) = step(s, text("6"));
    let (s, _) = step(s, Event::Fetched(Issue { title: "Right".to_string() }));
    let (_, a) = step(s, Event::Confirmed(true));
    assert_eq!(
        a,
        Action::Store(CompleteConfig {
            gl_instance: "gitlab.example.com".to_string(),
            gl_token: "tok123".to_string(),
            project: 1,
            issue: 6,
        })
    );
}

#[test]
fn project_list_failure_stops_wizard() {
    let (s, _) = start();
    let (s, _) = step(s, text("h"));
    let (s, _) = step(s, text("t"));
    let (s, a) = step(s, Event::RequestFailed(401));
    assert_eq!(s, Stage::Failed);
    assert_eq!(a, Action::Fail(WizardError::ProjectsUnavailable { status: 401 }));
}

#[test]
fn empty_project_list_stops_wizard() {
    let (s, a) = at_project_choice(Vec::new());
    assert_eq!(s, Stage::Failed);
    assert_eq!(a, Action::Fail(WizardError::NoProjects));
}

#[test]
fn issue_fetch_failure_names_the_issue() {
    let (s, _) = at_project_choice(two_projects());
    let (s, _) = step(s, Event::Chosen(1));
    let (s, _) = step(s, text("42"));
    let (s, a) = step(s, Event::RequestFailed(404));
    assert_eq!(s, Stage::Failed);
    assert_eq!(a, Action::Fail(WizardError::IssueUnavailable { issue: 42, status: 404 }));
}

#[test]
fn choice_out_of_range_offers_list_again() {
    let (s, _) = at_project_choice(two_projects());
    let (s, a) = step(s, Event::Chosen(2));
    assert_eq!(a, Action::PromptProject { titles: vec!["A".to_string(), "B".to_string()] });
    assert!(matches!(s, Stage::ChooseProject { .. }));
}

#[test]
fn unexpected_answer_stops_wizard() {
    let (s, _) = start();
    let (s, a) = step(s, Event::Confirmed(true));
    assert_eq!(s, Stage::Failed);
    assert_eq!(a, Action::Fail(WizardError::UnexpectedEvent));
}

#[test]
fn confirm_question_quotes_title() {
    assert_eq!(confirm_message("Fix \"x\""), "Select the issue: \"Fix \"x\"\"?");
}

#[test]
fn titles_follow_project_order() {
    assert_eq!(project_titles(&two_projects()), vec!["A".to_string(), "B".to_string()]);
}

fn complete() -> Config {
    Config {
        gl_instance: Some("h".to_string()),
        gl_token: Some("t".to_string()),
        project: Some(3),
        issue: Some(4),
    }
}

#[test]
fn configure_on_complete_config_asks_first() {
    assert_eq!(dispatch(Command::Configure, complete()), Plan::AskOverwrite);
    assert_eq!(overwrite_answer(false), Plan::Finish);
    assert_eq!(overwrite_answer(true), Plan::RunWizard);
}

#[test]
fn send_on_incomplete_config_reports() {
    let mut c = complete();
    c.issue = None;
    assert_eq!(dispatch(Command::Send, c), Plan::ReportIncomplete);
}

#[test]
fn send_on_complete_config_plans_note() {
    assert_eq!(
        dispatch(Command::Send, complete()),
        Plan::Send(CompleteConfig {
            gl_instance: "h".to_string(),
            gl_token: "t".to_string(),
            project: 3,
            issue: 4,
        })
    );
}
