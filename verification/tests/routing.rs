use minihttp::handler::handle_bytes;
use minihttp::handler::Plan;
use minihttp::response::render;
use minihttp::response::Status;
use minihttp::router::route;
use minihttp::router::Route;

#[test]
fn route_table_first_match_wins() {
    assert_eq!(route(b"/"), Route::Root);
    assert_eq!(route(b"/echo/hi"), Route::Echo);
    assert_eq!(route(b"/echo/"), Route::Echo);
    assert_eq!(route(b"/user-agent"), Route::Identify);
    assert_eq!(route(b"/user-agent/extra"), Route::Identify);
    assert_eq!(route(b"/files/a.txt"), Route::FileResource);
    assert_eq!(route(b"/nope"), Route::NotFound);
}

#[test]
fn route_prefixes_need_their_slash() {
    assert_eq!(route(b"/echo"), Route::NotFound);
    assert_eq!(route(b"/echoX"), Route::NotFound);
    assert_eq!(route(b"/files"), Route::NotFound);
    assert_eq!(route(b""), Route::NotFound);
}

#[test]
fn echo_returns_the_suffix_verbatim() {
    let plan = handle_bytes(b"GET /echo/abc123 HTTP/1.1\r\n\r\n", &None);
    match plan {
        Plan::Respond(r) => {
            assert_eq!(r.status, Status::Success);
            assert_eq!(r.body, b"abc123".to_vec());
            assert_eq!(
                render(&r),
                b"HTTP/1.1 200 OK\r\nContent-Type: text/plain\r\nContent-Length: 6\r\n\r\nabc123"
                    .to_vec()
            );
        }
        other => panic!("expected a direct response, got {:?}", other),
    }
}

#[test]
fn echo_of_empty_suffix_has_length_zero() {
    let plan = handle_bytes(b"GET /echo/ HTTP/1.1\r\n\r\n", &None);
    match plan {
        Plan::Respond(r) => {
            assert_eq!(
                render(&r),
                b"HTTP/1.1 200 OK\r\nContent-Type: text/plain\r\nContent-Length: 0\r\n\r\n"
                    .to_vec()
            );
        }
        other => panic!("expected a direct response, got {:?}", other),
    }
}

#[test]
fn root_returns_empty_success_for_any_header_set() {
    for input in [
        b"GET / HTTP/1.1\r\n\r\n".to_vec(),
        b"GET / HTTP/1.1\r\nX: y\r\nZ: w\r\n\r\n".to_vec(),
        b"GET / HTTP/1.1\r\nUser-Agent: curl/7.81\r\n\r\n".to_vec(),
    ] {
        let plan = handle_bytes(&input, &None);
        match plan {
            Plan::Respond(r) => {
                assert_eq!(r.status, Status::Success);
                assert_eq!(r.body, Vec::<u8>::new());
                assert_eq!(render(&r), b"HTTP/1.1 200 OK\r\n\r\n".to_vec());
            }
            other => panic!("expected a direct response, got {:?}", other),
        }
    }
}

#[test]
fn unknown_path_is_not_found() {
    let plan = handle_bytes(b"GET /nope HTTP/1.1\r\n\r\n", &None);
    match plan {
        Plan::Respond(r) => {
            assert_eq!(r.status, Status::NotFound);
            assert_eq!(r.body, Vec::<u8>::new());
            assert_eq!(render(&r), b"HTTP/1.1 404 Not Found\r\n\r\n".to_vec());
        }
        other => panic!("expected a direct response, got {:?}", other),
    }
}

#[test]
fn user_agent_value_is_reflected_with_matching_length() {
    let plan = handle_bytes(b"GET /user-agent HTTP/1.1\r\nUser-Agent: curl/7.81\r\n\r\n", &None);
    match plan {
        Plan::Respond(r) => {
            assert_eq!(r.status, Status::Success);
            assert_eq!(r.body, b"curl/7.81".to_vec());
            assert_eq!(
                render(&r),
                b"HTTP/1.1 200 OK\r\nContent-Type: text/plain\r\nContent-Length: 9\r\n\r\ncurl/7.81"
                    .to_vec()
            );
        }
        other => panic!("expected a direct response, got {:?}", other),
    }
}

#[test]
fn missing_user_agent_is_a_server_error() {
    let plan = handle_bytes(b"GET /user-agent HTTP/1.1\r\nHost: x\r\n\r\n", &None);
    match plan {
        Plan::Respond(r) => {
            assert_eq!(r.status, Status::InternalError);
            assert_eq!(render(&r), b"HTTP/1.1 500 Internal Server Error\r\n\r\n".to_vec());
        }
        other => panic!("expected a direct response, got {:?}", other),
    }
}

#[test]
fn duplicate_header_keys_last_one_wins() {
    let plan = handle_bytes(
        b"GET /user-agent HTTP/1.1\r\nUser-Agent: first\r\nUser-Agent: second\r\n\r\n",
        &None,
    );
    match plan {
        Plan::Respond(r) => {
            assert_eq!(r.body, b"second".to_vec());
        }
        other => panic!("expected a direct response, got {:?}", other),
    }
}

#[test]
fn short_start_line_is_a_server_error() {
    let plan = handle_bytes(b"GET /\r\n\r\n", &None);
    match plan {
        Plan::Respond(r) => {
            assert_eq!(r.status, Status::InternalError);
            assert_eq!(render(&r), b"HTTP/1.1 500 Internal Server Error\r\n\r\n".to_vec());
        }
        other => panic!("expected a direct response, got {:?}", other),
    }
}

#[test]
fn empty_read_is_a_server_error() {
    let plan = handle_bytes(b"", &None);
    match plan {
        Plan::Respond(r) => {
            assert_eq!(r.status, Status::InternalError);
        }
        other => panic!("expected a direct response, got {:?}", other),
    }
}

#[test]
fn every_route_yields_exactly_one_response() {
    let dir = Some(b"/base/".to_vec());
    let inputs: Vec<Vec<u8>> = vec![
        b"GET / HTTP/1.1\r\n\r\n".to_vec(),
        b"GET /echo/x HTTP/1.1\r\n\r\n".to_vec(),
        b"GET /user-agent HTTP/1.1\r\nUser-Agent: a\r\n\r\n".to_vec(),
        b"GET /files/x HTTP/1.1\r\n\r\n".to_vec(),
        b"POST /files/x HTTP/1.1\r\n\r\nbody".to_vec(),
        b"GET /nope HTTP/1.1\r\n\r\n".to_vec(),
        b"junk".to_vec(),
    ];
    for input in inputs {
        let plan = minihttp::handler::handle_bytes(&input, &dir);
        let response = minihttp::handler::resolve_plan(plan, None);
        let wire = render(&response);
        assert!(wire.starts_with(b"HTTP/1.1 "));
    }
}

#[test]
fn status_codes_match_their_phrases() {
    assert_eq!(Status::Success.code(), 200);
    assert_eq!(Status::Created.code(), 201);
    assert_eq!(Status::NotFound.code(), 404);
    assert_eq!(Status::InternalError.code(), 500);
}
