use vstd::prelude::*;

verus! {

/// The stored configuration record. Any subset of its fields may be absent.
#[derive(Debug, Clone, PartialEq, Eq, Default)]
pub struct Config {
    pub gl_instance: Option<String>,
    pub gl_token: Option<String>,
    pub project: Option<u32>,
    pub issue: Option<u32>,
}

/// A configuration with every field present: what a note can be sent with.
#[derive(Debug, Clone, PartialEq, Eq)]
pub struct CompleteConfig {
    pub gl_instance: String,
    pub gl_token: String,
    pub project: u32,
    pub issue: u32,
}

/// The text of an optional string field.
pub open spec fn text_of(s: Option<String>) -> Option<Seq<char>> {
    match s {
        Some(t) => Some(t@),
        None => None,
    }
}

impl Config {
    /// Every one of the four fields is present.
    pub open spec fn is_complete(&self) -> bool {
        &&& self.gl_instance.is_some()
        &&& self.gl_token.is_some()
        &&& self.project.is_some()
        &&& self.issue.is_some()
    }

    /// `c` holds exactly the fields of this record.
    pub open spec fn completes_to(&self, c: CompleteConfig) -> bool {
        &&& text_of(self.gl_instance) == Some(c.gl_instance@)
        &&& text_of(self.gl_token) == Some(c.gl_token@)
        &&& self.project == Some(c.project)
        &&& self.issue == Some(c.issue)
    }

    /// Whether every one of the four fields is present.
    pub fn is_complete_exec(&self) -> (r: bool)
        ensures
            r == self.is_complete(),
    {
        self.gl_instance.is_some() && self.gl_token.is_some() && self.project.is_some()
            && self.issue.is_some()
    }

    /// The empty record, as used when nothing has been stored yet.
    pub fn empty() -> (r: Config)
        ensures
            r.gl_instance.is_none(),
            r.gl_token.is_none(),
            r.project.is_none(),
            r.issue.is_none(),
    {
        Config { gl_instance: None, gl_token: None, project: None, issue: None }
    }

    /// Promotes the record to a complete configuration, or reports (with no
    /// further detail) that some field is absent.
    pub fn try_into(self) -> (r: Result<CompleteConfig, ()>)
        ensures
            r.is_ok() <==> self.is_complete(),
            r matches Ok(c) ==> self.completes_to(c),
    {
        let gl_instance = match self.gl_instance {
            Some(s) => s,
            None => return Err(()),
        };
        let gl_token = match self.gl_token {
            Some(s) => s,
            None => return Err(()),
        };
        let project = match self.project {
            Some(p) => p,
            None => return Err(()),
        };
        let issue = match self.issue {
            Some(i) => i,
            None => return Err(()),
        };
        Ok(CompleteConfig { gl_instance, gl_token, project, issue })
    }

    /// The record that holds the four fields of `c`.
    pub open spec fn record_of(c: CompleteConfig) -> Config {
        Config {
            gl_instance: Some(c.gl_instance),
            gl_token: Some(c.gl_token),
            project: Some(c.project),
            issue: Some(c.issue),
        }
    }

    /// The record that stores a complete configuration.
    pub fn from_complete(c: CompleteConfig) -> (r: Config)
        ensures
            r == Config::record_of(c),
    {
        Config {
            gl_instance: Some(c.gl_instance),
            gl_token: Some(c.gl_token),
            project: Some(c.project),
            issue: Some(c.issue),
        }
    }
}

/// Storing a complete configuration and validating the stored record gives
/// back a configuration with the same four fields.
pub proof fn lemma_stored_complete_validates(c: CompleteConfig, d: CompleteConfig)
    requires
        Config::record_of(c).completes_to(d),
    ensures
        Config::record_of(c).is_complete(),
        d.gl_instance@ == c.gl_instance@,
        d.gl_token@ == c.gl_token@,
        d.project == c.project,
        d.issue == c.issue,
{
}

} // verus!
