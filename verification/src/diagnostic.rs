//! The text an error is known by on the server's side. It names the kind and,
//! in brackets, what the failure says of itself; no client ever gets to see it.

use std::fmt::Display;
use vstd::prelude::*;
use vstd::std_specs::convert::FromSpec;
use vstd::string::*;
use crate::error::ServiceError;
use crate::kind::ErrorKind;

verus! {

/// What a missing master branch says of itself.
pub const NO_MASTER_BRANCH: &'static str = "Repo doesn't have master branch";

/// The name of the kind, then the detail in round brackets.
pub open spec fn framed(kind: ErrorKind, detail: Seq<char>) -> Seq<char> {
    kind.spec_name() + "("@ + detail + ")"@
}

/// `text` is what `failure` writes of itself when it is displayed.
pub open spec fn displays_as<T: Display>(failure: &T, text: Seq<char>) -> bool {
    exists|s: String| #[trigger] to_string_from_display_ensures::<T>(failure, s) && s@ == text
}

/// Puts the name of `kind` in front of `detail` in round brackets.
pub fn render(kind: ErrorKind, detail: &str) -> (text: String)
    ensures
        text@ == framed(kind, detail@),
{
    let mut text = String::from_str(kind.name());
    text.append("(");
    text.append(detail);
    text.append(")");
    text
}

impl ServiceError {
    /// `detail` is what the error says beyond its kind: the reason a badge was
    /// turned down, the own text of a failure from another subsystem, a fixed
    /// sentence for a missing master branch, and nothing for an internal
    /// failure.
    pub open spec fn has_detail(&self, detail: Seq<char>) -> bool {
        match self {
            ServiceError::Badge(reason) => detail == reason@,
            ServiceError::Client(e) => displays_as(e, detail),
            ServiceError::Git(e) => displays_as(e, detail),
            ServiceError::Internal => detail == Seq::<char>::empty(),
            ServiceError::Io(e) => displays_as(e, detail),
            ServiceError::Parse(e) => displays_as(e, detail),
            ServiceError::Serial(e) => displays_as(e, detail),
            ServiceError::BranchNotFound => detail == NO_MASTER_BRANCH@,
        }
    }

    /// `text` is the name of the error's kind with the error's detail in round
    /// brackets behind it.
    pub open spec fn formats_as(&self, text: Seq<char>) -> bool {
        exists|detail: Seq<char>| #[trigger]
            self.has_detail(detail) && text == framed(self.kind(), detail)
    }

    /// What the error says beyond its kind.
    pub fn detail(&self) -> (detail: String)
        ensures
            self.has_detail(detail@),
    {
        match self {
            ServiceError::Badge(reason) => reason.clone(),
            ServiceError::Client(e) => e.to_string(),
            ServiceError::Git(e) => e.to_string(),
            ServiceError::Internal => String::new(),
            ServiceError::Io(e) => e.to_string(),
            ServiceError::Parse(e) => e.to_string(),
            ServiceError::Serial(e) => e.to_string(),
            ServiceError::BranchNotFound => String::from_str(NO_MASTER_BRANCH),
        }
    }

    /// The text for the server's diagnostics: the name of the kind, then the
    /// detail in round brackets. It is never empty and starts with that name.
    pub fn to_string(&self) -> (text: String)
        ensures
            self.formats_as(text@),
            text@.len() > 0,
            self.kind().spec_name().is_prefix_of(text@),
    {
        let detail = self.detail();
        let text = render(self.kind(), detail.as_str());
        proof {
            lemma_text_starts_with_kind(*self, text@);
        }
        text
    }
}

/// A framed text is longer than its detail by the name and the two brackets,
/// and the name stands at its start.
pub proof fn lemma_framed_starts_with_name(kind: ErrorKind, detail: Seq<char>)
    ensures
        framed(kind, detail).len() == kind.spec_name().len() + detail.len() + 2,
        kind.spec_name().is_prefix_of(framed(kind, detail)),
{
    reveal_strlit("(");
    reveal_strlit(")");
    let name = kind.spec_name();
    let text = framed(kind, detail);
    assert(text.subrange(0, name.len() as int) =~= name);
}

/// Whatever an error formats to is not empty and starts with the name of the
/// error's kind.
pub proof fn lemma_text_starts_with_kind(error: ServiceError, text: Seq<char>)
    requires
        error.formats_as(text),
    ensures
        text.len() > 0,
        error.kind().spec_name().is_prefix_of(text),
{
    let detail = choose|detail: Seq<char>| #[trigger]
        error.has_detail(detail) && text == framed(error.kind(), detail);
    lemma_framed_starts_with_name(error.kind(), detail);
}

/// A failure of another subsystem, once adapted, formats to a text that is not
/// empty and starts with the name of the variant it was adapted into: `Client`
/// for a failed HTTP call, `Git` for a repository failure, `Io` for a file
/// access, `Parse` for a string that is no number, `Serial` for JSON.
pub proof fn lemma_adapted_failure_names_its_kind(
    client: reqwest::Error,
    git: git2::Error,
    io: std::io::Error,
    parse: std::num::ParseIntError,
    serial: serde_json::Error,
    text: Seq<char>,
)
    ensures
        <ServiceError as FromSpec<reqwest::Error>>::from_spec(client).formats_as(text)
            ==> text.len() > 0 && "Client"@.is_prefix_of(text),
        <ServiceError as FromSpec<git2::Error>>::from_spec(git).formats_as(text)
            ==> text.len() > 0 && "Git"@.is_prefix_of(text),
        <ServiceError as FromSpec<std::io::Error>>::from_spec(io).formats_as(text)
            ==> text.len() > 0 && "Io"@.is_prefix_of(text),
        <ServiceError as FromSpec<std::num::ParseIntError>>::from_spec(parse).formats_as(text)
            ==> text.len() > 0 && "Parse"@.is_prefix_of(text),
        <ServiceError as FromSpec<serde_json::Error>>::from_spec(serial).formats_as(text)
            ==> text.len() > 0 && "Serial"@.is_prefix_of(text),
{
    if ServiceError::Client(client).formats_as(text) {
        lemma_text_starts_with_kind(ServiceError::Client(client), text);
    }
    if ServiceError::Git(git).formats_as(text) {
        lemma_text_starts_with_kind(ServiceError::Git(git), text);
    }
    if ServiceError::Io(io).formats_as(text) {
        lemma_text_starts_with_kind(ServiceError::Io(io), text);
    }
    if ServiceError::Parse(parse).formats_as(text) {
        lemma_text_starts_with_kind(ServiceError::Parse(parse), text);
    }
    if ServiceError::Serial(serial).formats_as(text) {
        lemma_text_starts_with_kind(ServiceError::Serial(serial), text);
    }
}

} // verus!
