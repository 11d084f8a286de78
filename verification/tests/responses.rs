use actix_web::body::MessageBody;
use actix_web::HttpResponse;
use service_errors::error::ServiceError;
use service_errors::kind::Template;
use service_errors::response::{PageRequest, CONTENT_TYPE};
use service_errors::state::ProcessState;
use std::sync::atomic::{AtomicUsize, Ordering};

fn p404_no_master(out: &mut Vec<u8>, version_info: &str, repo_count: usize) {
    let page = format!(
        "<html><h1>no master branch</h1><footer>{} / {} repositories</footer></html>",
        version_info, repo_count
    );
    out.extend_from_slice(page.as_bytes());
}

fn p500(out: &mut Vec<u8>, version_info: &str, repo_count: usize) {
    let page = format!(
        "<html><h1>something went wrong</h1><footer>{} / {} repositories</footer></html>",
        version_info, repo_count
    );
    out.extend_from_slice(page.as_bytes());
}

fn render_page(request: &PageRequest) -> Vec<u8> {
    let mut buf = Vec::new();
    match request.template {
        Template::P404NoMaster => {
            p404_no_master(&mut buf, request.version_info, request.repo_count)
        }
        Template::P500 => p500(&mut buf, request.version_info, request.repo_count),
    }
    buf
}

fn respond(error: &ServiceError, state: &ProcessState) -> HttpResponse {
    let request = error.page_request(state);
    error.error_response(render_page(&request))
}

fn content_type_of(response: &HttpResponse) -> String {
    match response.headers().get("content-type") {
        Some(value) => String::from(value.to_str().unwrap()),
        None => panic!("the response has no content type"),
    }
}

fn body_of(response: HttpResponse) -> String {
    match response.into_body().try_into_bytes() {
        Ok(bytes) => String::from_utf8(bytes.to_vec()).unwrap(),
        Err(_) => panic!("the body is not held in memory"),
    }
}

fn all_but_missing_branch() -> Vec<ServiceError> {
    let parse = match "".parse::<i64>() {
        Ok(_) => unreachable!(),
        Err(e) => e,
    };
    let json = match serde_json::from_str::<serde_json::Value>("nul") {
        Ok(_) => unreachable!(),
        Err(e) => e,
    };
    let client = match reqwest::Client::new().get("http://").build() {
        Ok(_) => unreachable!(),
        Err(e) => e,
    };
    vec![
        ServiceError::Badge(String::from("bad format")),
        ServiceError::Client(client),
        ServiceError::Git(git2::Error::from_str("no such repository")),
        ServiceError::Internal,
        ServiceError::Io(std::io::Error::from(std::io::ErrorKind::PermissionDenied)),
        ServiceError::Parse(parse),
        ServiceError::Serial(json),
    ]
}

#[test]
fn process_state_hands_back_what_it_was_given() {
    let counter = AtomicUsize::new(42);
    let state = ProcessState::new("0.9.1-3-gabcdef", &counter);
    assert_eq!(state.version_info(), "0.9.1-3-gabcdef");
    assert_eq!(state.repo_count(), 42);
}

#[test]
fn process_state_reads_the_counter_anew() {
    let counter = AtomicUsize::new(0);
    let state = ProcessState::new("1.0.0", &counter);
    assert_eq!(state.repo_count(), 0);
    counter.fetch_add(3, Ordering::Relaxed);
    assert_eq!(state.repo_count(), 3);
    counter.store(usize::MAX, Ordering::Relaxed);
    assert_eq!(state.repo_count(), usize::MAX);
}

#[test]
fn page_request_with_takes_the_values_given() {
    let request = ServiceError::BranchNotFound.page_request_with("1.2.3", 7);
    assert_eq!(request.template, Template::P404NoMaster);
    assert_eq!(request.version_info, "1.2.3");
    assert_eq!(request.repo_count, 7);
    let request = ServiceError::Internal.page_request_with("", 0);
    assert_eq!(request.template, Template::P500);
    assert_eq!(request.version_info, "");
    assert_eq!(request.repo_count, 0);
}

#[test]
fn page_request_reads_the_state_at_call_time() {
    let counter = AtomicUsize::new(7);
    let state = ProcessState::new("1.2.3", &counter);
    let first = ServiceError::BranchNotFound.page_request(&state);
    assert_eq!(first.template, Template::P404NoMaster);
    assert_eq!(first.version_info, "1.2.3");
    assert_eq!(first.repo_count, 7);
    counter.store(8, Ordering::Relaxed);
    let second = ServiceError::BranchNotFound.page_request(&state);
    assert_eq!(second.repo_count, 8);
    assert_eq!(first.repo_count, 7);
}

#[test]
fn every_other_failure_asks_for_the_generic_page() {
    let counter = AtomicUsize::new(1);
    let state = ProcessState::new("v", &counter);
    for error in all_but_missing_branch() {
        let request = error.page_request(&state);
        assert_eq!(request.template, Template::P500);
        assert_eq!(request.version_info, "v");
        assert_eq!(request.repo_count, 1);
    }
}

#[test]
fn missing_branch_is_answered_with_404() {
    let response = ServiceError::BranchNotFound.error_response(b"<p>no master</p>".to_vec());
    assert_eq!(response.status().as_u16(), 404);
    assert_eq!(response.status(), actix_web::http::StatusCode::NOT_FOUND);
    assert_eq!(content_type_of(&response), "text/html");
    assert_eq!(body_of(response), "<p>no master</p>");
}

#[test]
fn every_other_failure_is_answered_with_500() {
    for error in all_but_missing_branch() {
        let response = error.error_response(b"<p>oops</p>".to_vec());
        assert_eq!(response.status().as_u16(), 500);
        assert_eq!(content_type_of(&response), "text/html");
        assert_eq!(body_of(response), "<p>oops</p>");
    }
}

#[test]
fn content_type_is_html() {
    assert_eq!(CONTENT_TYPE, "text/html");
    let response = ServiceError::Internal.error_response(Vec::new());
    assert_eq!(content_type_of(&response), CONTENT_TYPE);
    let response = ServiceError::BranchNotFound.error_response(Vec::new());
    assert_eq!(content_type_of(&response), CONTENT_TYPE);
}

#[test]
fn response_has_no_other_header() {
    let response = ServiceError::Internal.error_response(vec![1, 2, 3]);
    assert_eq!(response.headers().len(), 1);
    assert!(response.error().is_none());
}

#[test]
fn body_is_handed_on_byte_for_byte() {
    let body: Vec<u8> = vec![0, 255, 10, 13, 60, 62];
    let response = ServiceError::Internal.error_response(body.clone());
    match response.into_body().try_into_bytes() {
        Ok(bytes) => assert_eq!(bytes.to_vec(), body),
        Err(_) => panic!("the body is not held in memory"),
    }
}

#[test]
fn empty_body_stays_empty() {
    let response = ServiceError::BranchNotFound.error_response(Vec::new());
    assert_eq!(response.status().as_u16(), 404);
    assert_eq!(body_of(response), "");
}

#[test]
fn missing_branch_page_shows_process_state() {
    let counter = AtomicUsize::new(1234);
    let state = ProcessState::new("0.11.2", &counter);
    let response = respond(&ServiceError::BranchNotFound, &state);
    assert_eq!(response.status().as_u16(), 404);
    assert_eq!(content_type_of(&response), "text/html");
    let body = body_of(response);
    assert!(body.contains("no master branch"));
    assert!(body.contains("0.11.2"));
    assert!(body.contains("1234 repositories"));
    assert!(!body.contains("something went wrong"));
}

#[test]
fn file_failure_page_hides_the_failure() {
    let counter = AtomicUsize::new(5);
    let state = ProcessState::new("0.11.2", &counter);
    let inner = std::io::Error::new(
        std::io::ErrorKind::NotFound,
        String::from("/var/cache/repos/secret: No such file or directory"),
    );
    let error = ServiceError::from(inner);
    assert!(error.to_string().contains("/var/cache/repos/secret"));
    let response = respond(&error, &state);
    assert_eq!(response.status().as_u16(), 500);
    assert_eq!(content_type_of(&response), "text/html");
    let body = body_of(response);
    assert!(body.contains("something went wrong"));
    assert!(body.contains("0.11.2"));
    assert!(body.contains("5 repositories"));
    assert!(!body.contains("/var/cache/repos/secret"));
    assert!(!body.contains("No such file"));
    assert!(!body.contains("Io("));
}

#[test]
fn failures_other_than_missing_branch_look_alike() {
    let counter = AtomicUsize::new(9);
    let state = ProcessState::new("2.0.0", &counter);
    let expected = body_of(respond(&ServiceError::Internal, &state));
    for error in all_but_missing_branch() {
        let diagnostic = error.to_string();
        let response = respond(&error, &state);
        assert_eq!(response.status().as_u16(), 500);
        let body = body_of(response);
        assert_eq!(body, expected);
        assert!(!body.contains(&diagnostic));
    }
}
