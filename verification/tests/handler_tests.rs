use piping_server::server::{Action, Method, PipingServer, ReqHead};

fn req(method: Method, path: &str) -> ReqHead {
    ReqHead {
        method,
        path: path.to_string(),
        query: None,
        host: None,
        x_forwarded_proto: None,
        service_worker: None,
        has_content_range: false,
        content_type: None,
        content_length: None,
        content_disposition: None,
        x_piping: Vec::new(),
    }
}

#[test]
fn get_index_serves_index_page() {
    let mut server = PipingServer::new();
    let action = server.handler(false, &req(Method::Get, "/"), 1);
    assert!(matches!(action, Action::ServeIndex));
}

#[test]
fn head_index_serves_index_page() {
    let mut server = PipingServer::new();
    let action = server.handler(false, &req(Method::Head, "/"), 1);
    assert!(matches!(action, Action::ServeIndex));
}

#[test]
fn get_version_and_help_and_empties() {
    let mut server = PipingServer::new();
    assert!(matches!(server.handler(false, &req(Method::Get, "/version"), 1), Action::ServeVersion));
    assert!(matches!(server.handler(false, &req(Method::Get, "/favicon.ico"), 2), Action::ServeFavicon));
    assert!(matches!(server.handler(false, &req(Method::Get, "/robots.txt"), 3), Action::ServeRobots));
    match server.handler(false, &req(Method::Get, "/help"), 4) {
        Action::ServeHelp { base_url } => assert_eq!(base_url, "http://hostname/"),
        other => panic!("expected ServeHelp, got {}", describe(&other)),
    }
}

#[test]
fn get_noscript_passes_query() {
    let mut server = PipingServer::new();
    let mut r = req(Method::Get, "/noscript");
    r.query = Some("path=abc".to_string());
    match server.handler(false, &r, 1) {
        Action::ServeNoScript { query } => assert_eq!(query.as_deref(), Some("path=abc")),
        other => panic!("expected ServeNoScript, got {}", describe(&other)),
    }
}

#[test]
fn post_index_rejected_reserved() {
    let mut server = PipingServer::new();
    match server.handler(false, &req(Method::Post, "/"), 1) {
        Action::Reject { body } => {
            assert_eq!(body, "[ERROR] Cannot send to the reserved path '/'. (e.g. '/mypath123')\n");
        }
        other => panic!("expected Reject, got {}", describe(&other)),
    }
}

#[test]
fn post_version_rejected_reserved() {
    let mut server = PipingServer::new();
    match server.handler(false, &req(Method::Put, "/version"), 1) {
        Action::Reject { body } => {
            assert_eq!(
                body,
                "[ERROR] Cannot send to the reserved path '/version'. (e.g. '/mypath123')\n"
            );
        }
        other => panic!("expected Reject, got {}", describe(&other)),
    }
}

#[test]
fn options_is_preflight_on_any_path() {
    let mut server = PipingServer::new();
    assert!(matches!(server.handler(false, &req(Method::Options, "/anything"), 1), Action::Preflight));
    assert!(matches!(server.handler(false, &req(Method::Options, "/"), 2), Action::Preflight));
}

#[test]
fn preflight_headers_are_fixed() {
    let (status, headers) = piping_server::server::preflight_head();
    assert_eq!(status, 200);
    let expect = vec![
        ("Access-Control-Allow-Origin", "*"),
        ("Access-Control-Allow-Methods", "GET, HEAD, POST, PUT, OPTIONS"),
        ("Access-Control-Allow-Headers", "Content-Type, Content-Disposition, X-Piping"),
        ("Access-Control-Max-Age", "86400"),
        ("Content-Length", "0"),
    ];
    assert_eq!(headers.len(), expect.len());
    for (got, want) in headers.iter().zip(expect.iter()) {
        assert_eq!(got.0, want.0);
        assert_eq!(got.1, want.1);
    }
}

#[test]
fn sender_response_opens_as_plain_text_stream() {
    let (status, headers) = piping_server::server::sender_response_head();
    assert_eq!(status, 200);
    assert_eq!(headers.len(), 2);
    assert_eq!(headers[0].0, "Content-Type");
    assert_eq!(headers[0].1, "text/plain");
    assert_eq!(headers[1].0, "Access-Control-Allow-Origin");
    assert_eq!(headers[1].1, "*");
}

#[test]
fn unsupported_method_is_405() {
    let mut server = PipingServer::new();
    match server.handler(false, &req(Method::Other("DELETE".to_string()), "/abc"), 1) {
        Action::NotAllowed { body } => assert_eq!(body, "[ERROR] Unsupported method: DELETE.\n"),
        other => panic!("expected NotAllowed, got {}", describe(&other)),
    }
}

#[test]
fn service_worker_get_rejected() {
    let mut server = PipingServer::new();
    let mut r = req(Method::Get, "/abc");
    r.service_worker = Some("script".to_string());
    match server.handler(false, &r, 1) {
        Action::Reject { body } => {
            assert_eq!(body, "[ERROR] Service Worker registration is rejected.\n");
        }
        other => panic!("expected Reject, got {}", describe(&other)),
    }
}

#[test]
fn content_range_rejected() {
    let mut server = PipingServer::new();
    let mut r = req(Method::Post, "/abc");
    r.has_content_range = true;
    match server.handler(false, &r, 1) {
        Action::Reject { body } => {
            assert_eq!(body, "[ERROR] Content-Range is not supported for now in POST\n");
        }
        other => panic!("expected Reject, got {}", describe(&other)),
    }
}

#[test]
fn receiver_first_match() {
    let mut server = PipingServer::new();
    let a = server.handler(false, &req(Method::Get, "/abc"), 1);
    assert!(matches!(a, Action::ParkReceiver));
    match server.handler(false, &req(Method::Post, "/abc"), 2) {
        Action::MatchedAsSender { receiver_id, greeting } => {
            assert_eq!(receiver_id, 1);
            assert_eq!(greeting, "[INFO] 1 receiver(s) has/have been connected.\n");
        }
        other => panic!("expected MatchedAsSender, got {}", describe(&other)),
    }
    // After the match the path is free on both sides again.
    assert!(matches!(server.handler(false, &req(Method::Get, "/abc"), 3), Action::ParkReceiver));
}

#[test]
fn sender_first_match() {
    let mut server = PipingServer::new();
    match server.handler(false, &req(Method::Put, "/abc"), 1) {
        Action::ParkSender { greeting } => {
            assert_eq!(greeting, "[INFO] Waiting for 1 receiver(s)...\n");
        }
        other => panic!("expected ParkSender, got {}", describe(&other)),
    }
    match server.handler(false, &req(Method::Get, "/abc"), 2) {
        Action::MatchedAsReceiver { sender_id, notice } => {
            assert_eq!(sender_id, 1);
            assert_eq!(notice, "[INFO] A receiver was connected.\n");
        }
        other => panic!("expected MatchedAsReceiver, got {}", describe(&other)),
    }
    // After the match the path is free on both sides again.
    match server.handler(false, &req(Method::Post, "/abc"), 3) {
        Action::ParkSender { .. } => {}
        other => panic!("expected ParkSender, got {}", describe(&other)),
    }
}

#[test]
fn duplicate_sender_rejected_first_retained() {
    let mut server = PipingServer::new();
    assert!(matches!(server.handler(false, &req(Method::Post, "/x"), 1), Action::ParkSender { .. }));
    match server.handler(false, &req(Method::Post, "/x"), 2) {
        Action::Reject { body } => {
            assert_eq!(body, "[ERROR] Another sender has been connected on '/x'.\n");
        }
        other => panic!("expected Reject, got {}", describe(&other)),
    }
    // The first sender is still there: a receiver matches it.
    match server.handler(false, &req(Method::Get, "/x"), 3) {
        Action::MatchedAsReceiver { sender_id, .. } => assert_eq!(sender_id, 1),
        other => panic!("expected MatchedAsReceiver, got {}", describe(&other)),
    }
}

#[test]
fn duplicate_receiver_rejected_first_retained() {
    let mut server = PipingServer::new();
    assert!(matches!(server.handler(false, &req(Method::Get, "/y"), 1), Action::ParkReceiver));
    match server.handler(false, &req(Method::Get, "/y"), 2) {
        Action::Reject { body } => {
            assert_eq!(body, "[ERROR] Another receiver has been connected on '/y'.\n");
        }
        other => panic!("expected Reject, got {}", describe(&other)),
    }
    match server.handler(false, &req(Method::Post, "/y"), 3) {
        Action::MatchedAsSender { receiver_id, .. } => assert_eq!(receiver_id, 1),
        other => panic!("expected MatchedAsSender, got {}", describe(&other)),
    }
}

#[test]
fn head_on_user_path_acts_as_receiver() {
    let mut server = PipingServer::new();
    assert!(matches!(server.handler(false, &req(Method::Head, "/h"), 1), Action::ParkReceiver));
}

fn describe(a: &Action) -> &'static str {
    match a {
        Action::ServeIndex => "ServeIndex",
        Action::ServeNoScript { .. } => "ServeNoScript",
        Action::ServeVersion => "ServeVersion",
        Action::ServeHelp { .. } => "ServeHelp",
        Action::ServeFavicon => "ServeFavicon",
        Action::ServeRobots => "ServeRobots",
        Action::Reject { .. } => "Reject",
        Action::Preflight => "Preflight",
        Action::NotAllowed { .. } => "NotAllowed",
        Action::ParkReceiver => "ParkReceiver",
        Action::MatchedAsReceiver { .. } => "MatchedAsReceiver",
        Action::ParkSender { .. } => "ParkSender",
        Action::MatchedAsSender { .. } => "MatchedAsSender",
    }
}
