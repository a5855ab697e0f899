use mini_crates::crate_name::sparse_index_path;
use mini_crates::error::AppError;
use mini_crates::gate::{
    admit_request, authorize_publish, continue_request, GateAction, GateEvent, GateState,
    Operation, Pending,
};
use mini_crates::routing::{
    parse_crate_action_path, required_access, route_cargo, search_request, Access, CargoRequest,
    Method,
};

#[test]
fn takes_action_paths_apart() {
    let (name, version, action) = parse_crate_action_path("liberte/1.0.0/download").unwrap();
    assert_eq!((name.as_str(), version.as_str(), action), ("liberte", "1.0.0", "download"));
    assert_eq!(parse_crate_action_path("a/b/yank").unwrap().2, "yank");
    assert_eq!(parse_crate_action_path("a/b/unyank").unwrap().2, "unyank");
    assert!(parse_crate_action_path("//yank").is_some());
    for path in ["", "yank", "a/yank", "a/b/c", "a/b/yank/", "a/b/c/yank", "a/b/Yank"] {
        assert!(parse_crate_action_path(path).is_none(), "{}", path);
    }
}

#[test]
fn routes_actions() {
    let base = "/api/v1/crates/liberte/1.0.0/";
    assert!(matches!(
        route_cargo(Method::Get, &format!("{}download", base)),
        Ok(CargoRequest::Download { name, version }) if name == "liberte" && version == "1.0.0"
    ));
    assert!(matches!(
        route_cargo(Method::Delete, &format!("{}yank", base)),
        Ok(CargoRequest::Yank { name, version }) if name == "liberte" && version == "1.0.0"
    ));
    assert!(matches!(
        route_cargo(Method::Put, &format!("{}unyank", base)),
        Ok(CargoRequest::Unyank { name, version }) if name == "liberte" && version == "1.0.0"
    ));
    for (method, action) in [
        (Method::Put, "download"),
        (Method::Get, "yank"),
        (Method::Put, "yank"),
        (Method::Delete, "unyank"),
        (Method::Other, "download"),
    ] {
        let path = format!("{}{}", base, action);
        assert!(matches!(route_cargo(method, &path), Err(AppError::NotFound)));
    }
}

#[test]
fn routes_index_files() {
    assert!(matches!(
        route_cargo(Method::Get, "/api/v1/crates/ca/rg/cargo"),
        Ok(CargoRequest::SparseIndex { name }) if name == "cargo"
    ));
    assert!(matches!(
        route_cargo(Method::Get, "/api/v1/crates/3/a/abc"),
        Ok(CargoRequest::SparseIndex { name }) if name == "abc"
    ));
    assert!(matches!(route_cargo(Method::Put, "/api/v1/crates/ca/rg/cargo"), Err(AppError::NotFound)));
    assert!(matches!(route_cargo(Method::Get, "/api/v1/ca/rg/cargo"), Err(AppError::NotFound)));
    assert!(matches!(route_cargo(Method::Get, "/api/v1/crates/1/cargo"), Err(AppError::NotFound)));
    assert!(matches!(
        route_cargo(Method::Get, "/api/v1/crates/Ca/rg/Cargo"),
        Err(AppError::BadRequest(_))
    ));
}

#[test]
fn crates_named_like_actions_have_index_files() {
    for name in ["download", "yank", "unyank"] {
        let path = format!("/api/v1/crates/{}", sparse_index_path(name).unwrap());
        assert!(matches!(
            route_cargo(Method::Get, &path),
            Ok(CargoRequest::SparseIndex { name: found }) if found == name
        ));
    }
    assert!(matches!(
        route_cargo(Method::Delete, "/api/v1/crates/ya/nk/yank"),
        Ok(CargoRequest::Yank { name, version }) if name == "ya" && version == "nk"
    ));
    assert!(matches!(
        route_cargo(Method::Get, "/api/v1/crates/do/1.0.0/download"),
        Ok(CargoRequest::Download { name, version }) if name == "do" && version == "1.0.0"
    ));
    assert!(matches!(route_cargo(Method::Get, "/api/v1/crates/ya/n/yank"), Err(AppError::NotFound)));
}

#[test]
fn requests_need_claims() {
    let named = |text: &str| text.to_owned();
    let read = CargoRequest::Download { name: named("a"), version: named("b") };
    assert!(matches!(required_access(&read), Access::Read(name) if name == "a"));
    let index = CargoRequest::SparseIndex { name: named("a") };
    assert!(matches!(required_access(&index), Access::Read(name) if name == "a"));
    let yank = CargoRequest::Yank { name: named("a"), version: named("b") };
    assert!(matches!(required_access(&yank), Access::Publish(name) if name == "a"));
    let unyank = CargoRequest::Unyank { name: named("a"), version: named("b") };
    assert!(matches!(required_access(&unyank), Access::Publish(name) if name == "a"));
}

#[test]
fn searches_have_defaults() {
    let request = search_request(None, None);
    assert_eq!((request.query.as_str(), request.per_page), ("", 10));
    let request = search_request(Some("a".to_owned()), Some(0));
    assert_eq!((request.query.as_str(), request.per_page), ("a", 0));
}

#[test]
fn crate_requests_pass_the_gate() {
    let request = CargoRequest::Yank { name: "a".to_owned(), version: "1.0.0".to_owned() };
    let (state, action) = admit_request(Pending::Crate(request));
    assert!(matches!(action, GateAction::Authenticate));
    let (state, action) = continue_request(state, GateEvent::Authenticated);
    assert!(matches!(action, GateAction::Require(Access::Publish(name)) if name == "a"));
    let (state, action) = continue_request(state, GateEvent::Allowed);
    assert!(matches!(
        action,
        GateAction::Perform(Operation::Crate(CargoRequest::Yank { name, .. })) if name == "a"
    ));
    assert!(matches!(state, GateState::Closed));
}

#[test]
fn the_gate_turns_clients_away() {
    let (state, _) = admit_request(Pending::Search(search_request(None, None)));
    let (state, action) = continue_request(state, GateEvent::AuthenticationFailed);
    assert!(matches!((state, action), (GateState::Closed, GateAction::PassError)));
    let (state, _) = admit_request(Pending::Search(search_request(None, None)));
    let (state, action) = continue_request(state, GateEvent::Authenticated);
    assert!(matches!(action, GateAction::Require(Access::Read(scope)) if scope == "*"));
    let (state, action) = continue_request(state, GateEvent::Denied);
    assert!(matches!((state, action), (GateState::Closed, GateAction::PassError)));
}

#[test]
fn publishes_are_authorized_by_their_name() {
    let (state, _) = admit_request(Pending::Publish { max_tarball_bytes: 10 });
    let (state, action) = continue_request(state, GateEvent::Authenticated);
    assert!(matches!(action, GateAction::ReadBody { limit: 1048586 }));
    let mut body = vec![12, 0, 0, 0];
    body.extend_from_slice(b"{\"name\":\"a\"}");
    let (state, action) = continue_request(state, GateEvent::BodyRead(body.clone()));
    assert!(matches!(action, GateAction::Require(Access::Publish(name)) if name == "a"));
    let (_, action) = continue_request(state, GateEvent::Allowed);
    assert!(matches!(action, GateAction::Perform(Operation::Publish(read)) if read == body));
    let (_, action) = continue_request(GateState::ReadingBody, GateEvent::BodyRead(vec![]));
    assert!(matches!(
        action,
        GateAction::Refuse(AppError::BadRequest(text)) if text == "publish body too short"
    ));
    let (_, action) = continue_request(GateState::ReadingBody, GateEvent::BodyFailed);
    assert!(matches!(
        action,
        GateAction::Refuse(AppError::BadRequest(text)) if text == "failed to read publish body"
    ));
    let (state, action) = authorize_publish(vec![], Err(AppError::NotFound));
    assert!(matches!((state, action), (GateState::Closed, GateAction::Refuse(AppError::NotFound))));
}
