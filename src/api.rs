use vstd::prelude::*;

use crate::text::{decimal, json_escaped, push_decimal, push_json_escaped};

verus! {

/// The header that carries the private access token on every request.
pub const TOKEN_HEADER: &'static str = "PRIVATE-TOKEN";

/// The address of the projects collection of `instance`.
pub open spec fn projects_url_of(instance: Seq<char>) -> Seq<char> {
    "https://"@ + instance + "/api/v4/projects"@
}

/// The address of one issue, by project and issue identifier.
pub open spec fn issue_url_of(instance: Seq<char>, project: u32, issue: u32) -> Seq<char> {
    projects_url_of(instance) + "/"@ + decimal(project as nat) + "/issues/"@ + decimal(
        issue as nat,
    )
}

/// The address of the notes collection of one issue.
pub open spec fn notes_url_of(instance: Seq<char>, project: u32, issue: u32) -> Seq<char> {
    issue_url_of(instance, project, issue) + "/notes"@
}

/// The JSON document `{"body":"<text>"}` that creates a note holding `text`.
pub open spec fn note_json(text: Seq<char>) -> Seq<char> {
    "{\"body\":\""@ + json_escaped(text) + "\"}"@
}

/// A response status in the success range.
pub open spec fn status_ok(status: u16) -> bool {
    200 <= status < 300
}

/// The address that lists the projects of `instance`.
pub fn projects_url(instance: &str) -> (r: String)
    ensures
        r@ == projects_url_of(instance@),
{
    let mut r = String::from_str("https://");
    r.append(instance);
    r.append("/api/v4/projects");
    r
}

/// The address of issue `issue` of project `project`.
pub fn issue_url(instance: &str, project: u32, issue: u32) -> (r: String)
    ensures
        r@ == issue_url_of(instance@, project, issue),
{
    let mut r = projects_url(instance);
    r.append("/");
    push_decimal(&mut r, project);
    r.append("/issues/");
    push_decimal(&mut r, issue);
    r
}

/// The address to which a note on issue `issue` of project `project` is posted.
pub fn notes_url(instance: &str, project: u32, issue: u32) -> (r: String)
    ensures
        r@ == notes_url_of(instance@, project, issue),
{
    let mut r = issue_url(instance, project, issue);
    r.append("/notes");
    r
}

/// The request body that creates a note holding `text`.
pub fn note_payload(text: &str) -> (r: String)
    ensures
        r@ == note_json(text@),
{
    let mut r = String::from_str("{\"body\":\"");
    push_json_escaped(&mut r, text);
    r.append("\"}");
    r
}

/// Whether a response status is in the success range.
pub fn is_success(status: u16) -> (r: bool)
    ensures
        r == status_ok(status),
{
    200 <= status && status < 300
}

} // verus!
