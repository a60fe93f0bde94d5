use slogger::logger::Slogger;
use slogger::records::{url_from_config, CatcherInfo, LogRecord, RouteInfo, ServerConfig};

fn plain_config() -> ServerConfig {
    ServerConfig {
        log_level: "normal".to_string(),
        ident: "Rocket".to_string(),
        tls: false,
        limits: "form = \"32KiB\"".to_string(),
        keep_alive: 5,
        workers: 16,
        port: 8080,
        address: "0.0.0.0".to_string(),
        profile: "debug".to_string(),
    }
}

fn health_route() -> RouteInfo {
    RouteInfo {
        rank: 0,
        name: Some("health".to_string()),
        format: None,
        uri: "/health".to_string(),
        method: "GET".to_string(),
    }
}

#[test]
fn base_url_uses_http_without_tls() {
    let url = url_from_config(&plain_config());
    assert_eq!(url, "http://0.0.0.0:8080");
}

#[test]
fn base_url_uses_https_with_tls() {
    let mut config = plain_config();
    config.tls = true;
    let url = url_from_config(&config);
    assert_eq!(url, "https://0.0.0.0:8080");
}

#[test]
fn ignition_succeeds() {
    let fairing = Slogger {};
    let result = fairing.on_ignite();
    assert!(matches!(result, Ok(Slogger {})));
}

#[test]
fn subscribes_to_all_hooks() {
    let info = Slogger {}.info();
    assert_eq!(info.name, "Slog Fairing");
    assert!(info.on_ignite);
    assert!(info.on_liftoff);
    assert!(info.on_request);
    assert!(info.on_response);
}

#[test]
fn liftoff_emits_records_in_order() {
    let fairing = Slogger {};
    let routes = vec![health_route()];
    let catchers: Vec<CatcherInfo> = Vec::new();
    let recs = fairing.on_liftoff(&plain_config(), &routes, &catchers);
    assert_eq!(recs.len(), 3);

    match &recs[0] {
        LogRecord::Launched { tls, port, host, workers, profile, .. } => {
            assert!(!tls);
            assert_eq!(*port, 8080);
            assert_eq!(host, "0.0.0.0");
            assert_eq!(*workers, 16);
            assert_eq!(profile, "debug");
        }
        other => panic!("expected a launch record, got label {}", other.label()),
    }
    match &recs[1] {
        LogRecord::RouteRegistered { rank, route, url, method, .. } => {
            assert_eq!(*rank, 0);
            assert_eq!(route.as_deref(), Some("health"));
            assert_eq!(url, "http://0.0.0.0:8080/health");
            assert_eq!(method, "GET");
        }
        other => panic!("expected a route record, got label {}", other.label()),
    }
    match &recs[2] {
        LogRecord::AcceptingConnections { port, host, url } => {
            assert_eq!(*port, 8080);
            assert_eq!(host, "0.0.0.0");
            assert_eq!(url, "http://0.0.0.0:8080");
        }
        other => panic!("expected a listening record, got label {}", other.label()),
    }
}

#[test]
fn liftoff_emits_one_record_per_catcher() {
    let fairing = Slogger {};
    let routes = vec![health_route(), RouteInfo {
        rank: 10,
        name: None,
        format: Some("application/json".to_string()),
        uri: "/data".to_string(),
        method: "POST".to_string(),
    }];
    let catchers = vec![CatcherInfo {
        name: Some("not_found".to_string()),
        code: Some(404),
        base: "/api".to_string(),
    }, CatcherInfo { name: None, code: None, base: "/".to_string() }];
    let recs = fairing.on_liftoff(&plain_config(), &routes, &catchers);
    assert_eq!(recs.len(), 6);

    match &recs[2] {
        LogRecord::RouteRegistered { rank, route, content_type, url, method } => {
            assert_eq!(*rank, 10);
            assert_eq!(*route, None);
            assert_eq!(content_type.as_deref(), Some("application/json"));
            assert_eq!(url, "http://0.0.0.0:8080/data");
            assert_eq!(method, "POST");
        }
        other => panic!("expected a route record, got label {}", other.label()),
    }
    match &recs[3] {
        LogRecord::CatcherRegistered { route, code, path, url } => {
            assert_eq!(route.as_deref(), Some("not_found"));
            assert_eq!(*code, Some(404));
            assert_eq!(path, "/api");
            assert_eq!(url, "http://0.0.0.0:8080/api");
        }
        other => panic!("expected a catcher record, got label {}", other.label()),
    }
    match &recs[4] {
        LogRecord::CatcherRegistered { route, code, path, url } => {
            assert_eq!(*route, None);
            assert_eq!(*code, None);
            assert_eq!(path, "/");
            assert_eq!(url, "http://0.0.0.0:8080/");
        }
        other => panic!("expected a catcher record, got label {}", other.label()),
    }
    assert!(matches!(&recs[5], LogRecord::AcceptingConnections { .. }));
}

#[test]
fn response_record_joins_user_agents() {
    let fairing = Slogger {};
    let agents = vec!["A".to_string(), "B".to_string()];
    let rec = fairing.on_response(&agents, Some("127.0.0.1:50000".to_string()), 200);
    match rec {
        LogRecord::Reqest { user_adent, source_ip, status } => {
            assert_eq!(user_adent, "A; B");
            assert_eq!(source_ip, "127.0.0.1:50000");
            assert_eq!(status, 200);
        }
        other => panic!("expected a response record, got label {}", other.label()),
    }
}

#[test]
fn response_record_without_user_agent_is_empty() {
    let fairing = Slogger {};
    let agents: Vec<String> = Vec::new();
    let rec = fairing.on_response(&agents, Some("10.0.0.1:443".to_string()), 404);
    match rec {
        LogRecord::Reqest { user_adent, status, .. } => {
            assert_eq!(user_adent, "");
            assert_eq!(status, 404);
        }
        other => panic!("expected a response record, got label {}", other.label()),
    }
}

#[test]
fn record_labels_follow_the_schema() {
    let fairing = Slogger {};
    let recs = fairing.on_liftoff(&plain_config(), &vec![health_route()], &vec![CatcherInfo {
        name: None,
        code: Some(500),
        base: "/".to_string(),
    }]);
    assert_eq!(recs[0].label(), "Rocket Launched");
    assert_eq!(recs[1].label(), "Route Registered");
    assert_eq!(recs[2].label(), "Catcher Registered");
    assert_eq!(recs[3].label(), "Accepting Connections");
    let rec = fairing.on_response(&Vec::new(), Some("[::1]:8000".to_string()), 204);
    assert_eq!(rec.label(), "Reqest");
}
