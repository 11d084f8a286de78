//! The kinds of failure, and what each kind means for the client.

use vstd::prelude::*;

verus! {

/// Which of the eight failure conditions an error stands for, apart from its payload.
#[derive(Clone, Copy, Debug, PartialEq, Eq, Structural)]
pub enum ErrorKind {
    Badge,
    Client,
    Git,
    Internal,
    Io,
    Parse,
    Serial,
    BranchNotFound,
}

/// The page that is rendered for a failure.
#[derive(Clone, Copy, Debug, PartialEq, Eq, Structural)]
pub enum Template {
    /// The page that says the repository has no master branch.
    P404NoMaster,
    /// The generic error page.
    P500,
}

/// Status of the response that tells the client about a missing master branch.
pub const NOT_FOUND: u16 = 404;

/// Status of the response to every other failure.
pub const INTERNAL_SERVER_ERROR: u16 = 500;

impl ErrorKind {
    /// The name under which the kind shows up in diagnostics.
    pub open spec fn spec_name(self) -> Seq<char> {
        match self {
            ErrorKind::Badge => "Badge"@,
            ErrorKind::Client => "Client"@,
            ErrorKind::Git => "Git"@,
            ErrorKind::Internal => "Internal"@,
            ErrorKind::Io => "Io"@,
            ErrorKind::Parse => "Parse"@,
            ErrorKind::Serial => "Serial"@,
            ErrorKind::BranchNotFound => "BranchNotFound"@,
        }
    }

    /// The status a client sees: 404 for a missing master branch, 500 for all else.
    pub open spec fn spec_status(self) -> u16 {
        if self == ErrorKind::BranchNotFound {
            NOT_FOUND
        } else {
            INTERNAL_SERVER_ERROR
        }
    }

    /// The page a client sees: the one of its own for a missing master branch,
    /// the generic one for all else.
    pub open spec fn spec_template(self) -> Template {
        if self == ErrorKind::BranchNotFound {
            Template::P404NoMaster
        } else {
            Template::P500
        }
    }

    pub fn name(self) -> (s: &'static str)
        ensures
            s@ == self.spec_name(),
    {
        match self {
            ErrorKind::Badge => "Badge",
            ErrorKind::Client => "Client",
            ErrorKind::Git => "Git",
            ErrorKind::Internal => "Internal",
            ErrorKind::Io => "Io",
            ErrorKind::Parse => "Parse",
            ErrorKind::Serial => "Serial",
            ErrorKind::BranchNotFound => "BranchNotFound",
        }
    }

    #[verifier::when_used_as_spec(spec_status)]
    pub fn status(self) -> (code: u16)
        ensures
            code == self.spec_status(),
    {
        match self {
            ErrorKind::BranchNotFound => NOT_FOUND,
            _ => INTERNAL_SERVER_ERROR,
        }
    }

    #[verifier::when_used_as_spec(spec_template)]
    pub fn template(self) -> (page: Template)
        ensures
            page == self.spec_template(),
    {
        match self {
            ErrorKind::BranchNotFound => Template::P404NoMaster,
            _ => Template::P500,
        }
    }
}

} // verus!
