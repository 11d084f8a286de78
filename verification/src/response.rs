//! From a failure to the response a client gets. Only two pages exist: one for
//! a repository without master branch, sent with status 404, and a generic one
//! for everything else, sent with status 500. What the failure says of itself
//! stays on the server.

use actix_web::http::StatusCode;
use actix_web::HttpResponse;
use vstd::prelude::*;
use crate::error::ServiceError;
use crate::kind::{Template, INTERNAL_SERVER_ERROR, NOT_FOUND};
use crate::state::ProcessState;

verus! {

/// The content type of both pages.
pub const CONTENT_TYPE: &'static str = "text/html";

/// `actix_web::HttpResponse`, a response on its way out. Its status, headers
/// and body are spoken of through `http_status`, `http_content_type` and
/// `http_body`.
#[verifier::external_type_specification]
#[verifier::external_body]
#[verifier::reject_recursive_types(B)]
pub struct ExHttpResponse<B>(actix_web::HttpResponse<B>);

/// `actix_web::body::BoxBody`, the body of a response that was built.
#[verifier::external_type_specification]
#[verifier::external_body]
pub struct ExBoxBody(actix_web::body::BoxBody);

/// The status code of a response: what `HttpResponse::status` gives, as a number.
pub uninterp spec fn http_status(response: HttpResponse) -> u16;

/// The text of the `content-type` header of a response that has one.
pub uninterp spec fn http_content_type(response: HttpResponse) -> Seq<char>;

/// The bytes of the body of a response whose body is held in memory.
pub uninterp spec fn http_body(response: HttpResponse) -> Seq<u8>;

/// Text that can stand in a header and be read back as text: printable ASCII.
pub open spec fn is_header_text(text: Seq<char>) -> bool {
    forall|i: int| 0 <= i < text.len() ==> 32 <= (#[trigger] text[i]) as u32 <= 126
}

/// What a template is handed besides the buffer it writes to.
pub struct PageRequest<'a> {
    /// The page to render.
    pub template: Template,
    /// The version text to show on it.
    pub version_info: &'a str,
    /// The number of repositories to show on it.
    pub repo_count: usize,
}

/// `HttpResponse::build` with the status of that number, then `content_type`
/// and `body` on the builder. A number from 100 to 999 is a status code, and
/// printable ASCII is a header value, so the builder holds no error and `body`
/// hands out the response it has built: with that status, with `content_type`
/// as its `content-type` header and with `body` as its body.
#[verifier::external_body]
fn build_response(status: u16, content_type: &str, body: Vec<u8>) -> (response: HttpResponse)
    requires
        100 <= status <= 999,
        is_header_text(content_type@),
    ensures
        http_status(response) == status,
        http_content_type(response) == content_type@,
        http_body(response) == body@,
{
    let code = StatusCode::from_u16(status).unwrap();
    HttpResponse::build(code).content_type(content_type).body(body)
}

impl ServiceError {
    /// What to render for this error when the version text is `version_info`
    /// and the number of repositories is `repo_count`.
    pub fn page_request_with<'a>(
        &self,
        version_info: &'a str,
        repo_count: usize,
    ) -> (request: PageRequest<'a>)
        ensures
            request.template == self.kind().template(),
            request.version_info@ == version_info@,
            request.repo_count == repo_count,
    {
        PageRequest { template: self.kind().template(), version_info, repo_count }
    }

    /// What to render for this error, with the version text of `state` and the
    /// number of repositories that one read of its counter gave.
    pub fn page_request<'a>(&self, state: &ProcessState<'a>) -> (request: PageRequest<'a>)
        ensures
            request.template == self.kind().template(),
            request.version_info@ == state.version(),
    {
        let repo_count = state.repo_count();
        self.page_request_with(state.version_info(), repo_count)
    }

    /// The response to the client, around the page `body` that was rendered for
    /// this error: 404 where a repository has no master branch, 500 for every
    /// other failure, and HTML either way.
    pub fn error_response(&self, body: Vec<u8>) -> (response: HttpResponse)
        ensures
            self is BranchNotFound ==> http_status(response) == 404,
            !(self is BranchNotFound) ==> http_status(response) == 500,
            http_status(response) == self.kind().status(),
            http_content_type(response) == "text/html"@,
            http_body(response) == body@,
    {
        proof {
            reveal_strlit("text/html");
        }
        build_response(self.kind().status(), CONTENT_TYPE, body)
    }
}

/// A client can tell a missing master branch from any other failure, and
/// nothing else: that one failure has a status and a page of its own, and all
/// others share one status and one page, whatever they carry.
pub proof fn lemma_client_sees_two_answers(a: ServiceError, b: ServiceError)
    ensures
        a is BranchNotFound <==> a.kind().status() == NOT_FOUND,
        !(a is BranchNotFound) <==> a.kind().status() == INTERNAL_SERVER_ERROR,
        a is BranchNotFound <==> a.kind().template() == Template::P404NoMaster,
        !(a is BranchNotFound) <==> a.kind().template() == Template::P500,
        !(a is BranchNotFound) && !(b is BranchNotFound) ==> a.kind().status() == b.kind().status()
            && a.kind().template() == b.kind().template(),
{
}

} // verus!
