use spatialos_sdk::worker::locator::{
    LocatorParameters, LoginTokenDetails, LoginTokensRequest, LoginTokensResponse,
    PlayerIdentityCredentials, PlayerIdentityTokenRequest, PlayerIdentityTokenResponse,
};

#[test]
fn player_identity_token_request_builder() {
    let request = PlayerIdentityTokenRequest::new(String::from("dev-token"), String::from("player"))
        .with_duration_secs(60)
        .with_display_name(String::from("Name"))
        .with_metadata(String::from("meta"))
        .with_insecure_connection();
    assert_eq!(request.dev_auth_token, "dev-token");
    assert_eq!(request.player_id, "player");
    assert_eq!(request.duration_seconds, Some(60));
    assert_eq!(request.display_name.as_deref(), Some("Name"));
    assert_eq!(request.metadata.as_deref(), Some("meta"));
    assert!(request.use_insecure_connection);

    let plain = PlayerIdentityTokenRequest::new(String::from("a"), String::from("b"));
    assert!(plain.duration_seconds.is_none());
    assert!(plain.display_name.is_none());
    assert!(!plain.use_insecure_connection);
}

#[test]
fn player_identity_token_response_status() {
    let ok = PlayerIdentityTokenResponse::from_status(1, String::new(), String::from("pit"));
    assert_eq!(ok.ok().map(|r| r.player_identity_token), Some(String::from("pit")));
    let err = PlayerIdentityTokenResponse::from_status(5, String::from("timed out"), String::from("pit"));
    assert_eq!(err.err(), Some(String::from("timed out")));
}

#[test]
fn login_tokens_request_and_response() {
    let request = LoginTokensRequest::new(String::from("pit"), String::from("Client"))
        .with_duration_seconds(30)
        .with_insecure_connection();
    assert_eq!(request.player_identity_token, "pit");
    assert_eq!(request.worker_type, "Client");
    assert_eq!(request.duration_seconds, Some(30));
    assert!(request.use_insecure_connection);

    let details = LoginTokenDetails {
        deployment_id: String::from("1"),
        deployment_name: String::from("dep"),
        tags: vec![String::from("dev")],
        login_token: String::from("tok"),
    };
    let ok = LoginTokensResponse::from_status(1, String::new(), vec![details]).ok().unwrap();
    assert_eq!(ok.login_tokens.len(), 1);
    assert_eq!(ok.login_tokens[0].login_token, "tok");
    let err = LoginTokensResponse::from_status(7, String::from("rejected"), Vec::new());
    assert_eq!(err.err(), Some(String::from("rejected")));
}

#[test]
fn locator_parameters_builder() {
    let credentials = PlayerIdentityCredentials::new(String::from("pit"), String::from("login"));
    let params = LocatorParameters::new(credentials);
    assert!(!params.use_insecure_connection);
    let params = params.with_insecure_connection();
    assert!(params.use_insecure_connection);
}
