use steel_tester::client::{ClientError, Method, OrchestratorClient, Reply, Request};
use steel_tester::json::Json;
use steel_tester::session::{DecodeFault, Session};
use steel_tester::status::{is_no_content, is_not_found, is_success, NOT_FOUND, NO_CONTENT};

fn answer(status: u16, body: &str) -> Reply {
    Reply::Answer { status, body: Some(body.to_string()) }
}

const SESSION_BODY: &str =
    "{\"id\":\"s-1\",\"created_at\":\"2024-01-01T00:00:00Z\",\"data\":{\"user\":\"test_create\"}}";

fn session_one() -> Session {
    Session {
        id: "s-1".to_string(),
        created_at: Json::Text("2024-01-01T00:00:00Z".to_string()),
        data: Json::Object(vec![("user".to_string(), Json::Text("test_create".to_string()))]),
    }
}

#[test]
fn status_classes() {
    assert!(is_success(200));
    assert!(is_success(204));
    assert!(is_success(299));
    assert!(!is_success(199));
    assert!(!is_success(300));
    assert!(!is_success(404));
    assert!(!is_success(0));
    assert!(is_not_found(404));
    assert!(!is_not_found(400));
    assert!(is_no_content(204));
    assert!(!is_no_content(200));
    assert_eq!(NOT_FOUND, 404);
    assert_eq!(NO_CONTENT, 204);
}

#[test]
fn new_drops_trailing_slashes() {
    assert_eq!(OrchestratorClient::new("http://localhost:8080").base_url(), "http://localhost:8080");
    assert_eq!(OrchestratorClient::new("http://localhost:8080/").base_url(), "http://localhost:8080");
    assert_eq!(OrchestratorClient::new("http://h/api///").base_url(), "http://h/api");
    assert_eq!(OrchestratorClient::new("///").base_url(), "");
    assert_eq!(OrchestratorClient::new("").base_url(), "");
    assert_eq!(OrchestratorClient::new("/a/b").base_url(), "/a/b");
}

#[test]
fn new_counts_characters_not_bytes() {
    assert_eq!(OrchestratorClient::new("http://hôte/é//").base_url(), "http://hôte/é");
}

#[test]
fn create_session_posts_the_payload() {
    let client = OrchestratorClient::new("http://localhost:8080/");
    let request = client.create_session(Json::user_payload("test_create"));
    assert_eq!(
        request,
        Request {
            method: Method::Post,
            url: "http://localhost:8080/sessions".to_string(),
            payload: Some(Json::user_payload("test_create")),
        }
    );
}

#[test]
fn get_and_delete_address_the_session() {
    let client = OrchestratorClient::new("http://localhost:8080");
    assert_eq!(
        client.get_session("abc"),
        Request {
            method: Method::Get,
            url: "http://localhost:8080/sessions/abc".to_string(),
            payload: None,
        }
    );
    assert_eq!(
        client.delete_session("abc"),
        Request {
            method: Method::Delete,
            url: "http://localhost:8080/sessions/abc".to_string(),
            payload: None,
        }
    );
}

#[test]
fn health_and_crash_worker_addresses() {
    let client = OrchestratorClient::new("http://localhost:8080");
    assert_eq!(
        client.health(),
        Request { method: Method::Get, url: "http://localhost:8080/health".to_string(), payload: None }
    );
    assert_eq!(
        client.crash_worker("abc"),
        Request {
            method: Method::Post,
            url: "http://localhost:8080/debug/crash-worker?session_id=abc".to_string(),
            payload: None,
        }
    );
}

#[test]
fn created_reads_a_session() {
    assert_eq!(answer(201, SESSION_BODY).created(), Ok(session_one()));
    assert_eq!(answer(200, SESSION_BODY).created(), Ok(session_one()));
}

#[test]
fn created_reports_a_rejection_with_status_and_body() {
    assert_eq!(
        answer(503, "no worker").created(),
        Err(ClientError::RequestFailed { status: 503, body: "no worker".to_string() })
    );
    assert_eq!(
        Reply::Answer { status: 500, body: None }.created(),
        Err(ClientError::RequestFailed { status: 500, body: String::new() })
    );
}

#[test]
fn created_treats_404_as_a_rejection() {
    assert_eq!(
        answer(404, "nope").created(),
        Err(ClientError::RequestFailed { status: 404, body: "nope".to_string() })
    );
}

#[test]
fn created_reports_transport_failures() {
    assert_eq!(
        Reply::Failed("connection refused".to_string()).created(),
        Err(ClientError::Transport("connection refused".to_string()))
    );
}

#[test]
fn created_reports_each_decode_fault() {
    assert_eq!(answer(200, "oops").created(), Err(ClientError::DecodeFailed(DecodeFault::NotJson)));
    assert_eq!(
        Reply::Answer { status: 200, body: None }.created(),
        Err(ClientError::DecodeFailed(DecodeFault::NotJson))
    );
    assert_eq!(
        answer(200, "[1,2,3]").created(),
        Err(ClientError::DecodeFailed(DecodeFault::NotAnObject))
    );
    assert_eq!(
        answer(200, "{\"created_at\":1,\"data\":2}").created(),
        Err(ClientError::DecodeFailed(DecodeFault::MissingId))
    );
    assert_eq!(
        answer(200, "{\"id\":5,\"created_at\":1,\"data\":2}").created(),
        Err(ClientError::DecodeFailed(DecodeFault::IdNotText))
    );
    assert_eq!(
        answer(200, "{\"id\":\"a\",\"data\":2}").created(),
        Err(ClientError::DecodeFailed(DecodeFault::MissingCreatedAt))
    );
    assert_eq!(
        answer(200, "{\"id\":\"a\",\"created_at\":1}").created(),
        Err(ClientError::DecodeFailed(DecodeFault::MissingData))
    );
}

#[test]
fn decode_keeps_null_and_ignores_other_members() {
    assert_eq!(
        Session::decode("{\"extra\":true,\"data\":null,\"created_at\":null,\"id\":\"\"}"),
        Ok(Session { id: String::new(), created_at: Json::Null, data: Json::Null })
    );
}

#[test]
fn from_json_takes_the_first_member_of_a_name() {
    let doc = Json::Object(vec![
        ("id".to_string(), Json::Text("first".to_string())),
        ("created_at".to_string(), Json::Number("1".to_string())),
        ("id".to_string(), Json::Text("second".to_string())),
        ("data".to_string(), Json::Bool(true)),
        ("data".to_string(), Json::Bool(false)),
    ]);
    assert_eq!(
        Session::from_json(doc),
        Ok(Session {
            id: "first".to_string(),
            created_at: Json::Number("1".to_string()),
            data: Json::Bool(true),
        })
    );
}

#[test]
fn fetched_reads_404_as_not_found() {
    assert_eq!(answer(404, "no such session").fetched(), Err(ClientError::NotFound));
    assert_eq!(answer(404, SESSION_BODY).fetched(), Err(ClientError::NotFound));
    assert_eq!(Reply::Answer { status: 404, body: None }.fetched(), Err(ClientError::NotFound));
}

#[test]
fn fetched_reads_sessions_and_other_failures() {
    assert_eq!(answer(200, SESSION_BODY).fetched(), Ok(session_one()));
    assert_eq!(
        answer(500, "boom").fetched(),
        Err(ClientError::RequestFailed { status: 500, body: "boom".to_string() })
    );
    assert_eq!(answer(200, "{}").fetched(), Err(ClientError::DecodeFailed(DecodeFault::MissingId)));
    assert_eq!(
        Reply::Failed("timed out".to_string()).fetched(),
        Err(ClientError::Transport("timed out".to_string()))
    );
}

#[test]
fn deleted_returns_the_status_as_it_came() {
    assert_eq!(answer(204, "").deleted(), Ok(204));
    assert_eq!(answer(404, "gone").deleted(), Ok(404));
    assert_eq!(Reply::Answer { status: 500, body: None }.deleted(), Ok(500));
    assert_eq!(
        Reply::Failed("connection refused".to_string()).deleted(),
        Err(ClientError::Transport("connection refused".to_string()))
    );
}

#[test]
fn health_returns_the_body_as_it_came() {
    assert_eq!(answer(200, "ok").health(), Ok("ok".to_string()));
    assert_eq!(answer(500, "down").health(), Ok("down".to_string()));
    assert_eq!(
        Reply::Answer { status: 200, body: None }.health(),
        Err(ClientError::Transport("failed to read health response".to_string()))
    );
    assert_eq!(
        Reply::Failed("connection refused".to_string()).health(),
        Err(ClientError::Transport("connection refused".to_string()))
    );
}

#[test]
fn crashed_wants_a_success_status() {
    assert_eq!(answer(200, "").crashed(), Ok(()));
    assert_eq!(Reply::Answer { status: 202, body: None }.crashed(), Ok(()));
    assert_eq!(
        answer(404, "no worker").crashed(),
        Err(ClientError::RequestFailed { status: 404, body: "no worker".to_string() })
    );
    assert_eq!(
        Reply::Failed("reset".to_string()).crashed(),
        Err(ClientError::Transport("reset".to_string()))
    );
}

#[test]
fn error_messages() {
    assert_eq!(ClientError::NotFound.message(), "404");
    assert!(ClientError::NotFound.is_not_found());
    assert!(!ClientError::Transport(String::new()).is_not_found());
    assert_eq!(
        ClientError::Transport("connection refused".to_string()).message(),
        "transport error: connection refused"
    );
    assert_eq!(
        ClientError::RequestFailed { status: 503, body: "busy".to_string() }.message(),
        "request failed with status 503: busy"
    );
    assert_eq!(
        ClientError::DecodeFailed(DecodeFault::MissingId).message(),
        "failed to parse session response: missing field `id`"
    );
    assert_eq!(
        ClientError::TaskFailure("panicked".to_string()).message(),
        "task join error: panicked"
    );
    assert_eq!(DecodeFault::NotJson.message(), "body is not JSON");
    assert_eq!(DecodeFault::NotAnObject.message(), "body is not a JSON object");
    assert_eq!(DecodeFault::IdNotText.message(), "field `id` is not a string");
    assert_eq!(DecodeFault::MissingCreatedAt.message(), "missing field `created_at`");
    assert_eq!(DecodeFault::MissingData.message(), "missing field `data`");
}
