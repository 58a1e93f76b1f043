use minihttp::handler::file_plan;
use minihttp::handler::handle_bytes;
use minihttp::handler::resolve_plan;
use minihttp::handler::HandlerError;
use minihttp::handler::Plan;
use minihttp::request::Method;
use minihttp::response::render;
use minihttp::response::Status;

#[test]
fn fetch_existing_file_returns_its_bytes() {
    let dir = Some(b"/base/".to_vec());
    let plan = handle_bytes(b"GET /files/hello.txt HTTP/1.1\r\n\r\n", &dir);
    match plan {
        Plan::FetchFile(ref target) => {
            assert_eq!(target, &b"/base/hello.txt".to_vec());
        }
        other => panic!("expected a fetch plan, got {:?}", other),
    }
    let response = resolve_plan(plan, Some(b"world".to_vec()));
    assert_eq!(response.status, Status::Success);
    assert_eq!(response.body, b"world".to_vec());
    assert_eq!(
        render(&response),
        b"HTTP/1.1 200 OK\r\nContent-Type: application/octet-stream\r\nContent-Length: 5\r\n\r\nworld"
            .to_vec()
    );
}

#[test]
fn fetch_missing_file_collapses_to_not_found() {
    let dir = Some(b"/base/".to_vec());
    let plan = handle_bytes(b"GET /files/missing.txt HTTP/1.1\r\n\r\n", &dir);
    let response = resolve_plan(plan, None);
    assert_eq!(response.status, Status::NotFound);
    assert_eq!(response.body, Vec::<u8>::new());
    assert_eq!(render(&response), b"HTTP/1.1 404 Not Found\r\n\r\n".to_vec());
}

#[test]
fn store_then_fetch_round_trip() {
    let dir = Some(b"/base/".to_vec());
    let post = handle_bytes(b"POST /files/new.txt HTTP/1.1\r\nContent-Length: 4\r\n\r\ndata", &dir);
    let stored = match post {
        Plan::StoreFile(ref target, ref contents) => {
            assert_eq!(target, &b"/base/new.txt".to_vec());
            assert_eq!(contents, &b"data".to_vec());
            (target.clone(), contents.clone())
        }
        other => panic!("expected a store plan, got {:?}", other),
    };
    let created = resolve_plan(post, None);
    assert_eq!(created.status, Status::Created);
    assert_eq!(render(&created), b"HTTP/1.1 201 OK\r\n\r\n".to_vec());

    let get = handle_bytes(b"GET /files/new.txt HTTP/1.1\r\n\r\n", &dir);
    match get {
        Plan::FetchFile(ref target) => {
            assert_eq!(target, &stored.0);
        }
        other => panic!("expected a fetch plan, got {:?}", other),
    }
    let response = resolve_plan(get, Some(stored.1));
    assert_eq!(response.status, Status::Success);
    assert_eq!(response.body, b"data".to_vec());
}

#[test]
fn store_without_body_stores_nothing() {
    let dir = Some(b"/base/".to_vec());
    let plan = handle_bytes(b"POST /files/empty.txt HTTP/1.1\r\n\r\n", &dir);
    match plan {
        Plan::StoreFile(ref target, ref contents) => {
            assert_eq!(target, &b"/base/empty.txt".to_vec());
            assert_eq!(contents, &Vec::<u8>::new());
        }
        other => panic!("expected a store plan, got {:?}", other),
    }
}

#[test]
fn put_on_files_is_a_server_error() {
    let dir = Some(b"/base/".to_vec());
    let plan = handle_bytes(b"PUT /files/x HTTP/1.1\r\n\r\nbody", &dir);
    match plan {
        Plan::Respond(r) => {
            assert_eq!(r.status, Status::InternalError);
        }
        other => panic!("expected a direct response, got {:?}", other),
    }
}

#[test]
fn missing_directory_is_a_server_error() {
    let plan = handle_bytes(b"GET /files/x HTTP/1.1\r\n\r\n", &None);
    match plan {
        Plan::Respond(r) => {
            assert_eq!(r.status, Status::InternalError);
        }
        other => panic!("expected a direct response, got {:?}", other),
    }
}

#[test]
fn file_plan_signals_each_failure() {
    assert_eq!(
        file_plan(Method::GET, b"x".to_vec(), &None, None),
        Err(HandlerError::MissingDirectory)
    );
    assert_eq!(
        file_plan(Method::PUT, b"x".to_vec(), &Some(b"/base/".to_vec()), None),
        Err(HandlerError::UnsupportedMethod)
    );
}

#[test]
fn identify_signals_missing_header() {
    assert_eq!(
        minihttp::handler::identify_response(&Vec::new()),
        Err(HandlerError::MissingHeader)
    );
}
