use shell_supervisor::connection::{
    attach_params, generate_daemon_client_args, generate_main_url, is_app_updated, release_params,
    release_params_around, ConnectionParams, MissingOverride, HOST_VAR, PORT_VAR, TOKEN_VAR,
    UNRECORDED_VERSION, VERSION_FILE,
};
use shell_supervisor::token::TokenError;

fn text(s: &str) -> Option<String> {
    Some(s.to_string())
}

#[test]
fn release_parameters_are_loopback_and_the_fixed_port() {
    let params = generate_daemon_client_args().expect("the random source is available");
    assert_eq!(params.host, "127.0.0.1");
    assert_eq!(params.port, "7938");
    assert_eq!(params.port.parse::<u16>(), Ok(7938));
    assert_eq!(params.token.len(), 32);
    assert!(params.token.chars().all(|c| matches!(c, '0'..='9' | 'a'..='f')));
}

#[test]
fn release_parameters_carry_a_fresh_token_each_time() {
    let first = generate_daemon_client_args().expect("the random source is available");
    let second = generate_daemon_client_args().expect("the random source is available");
    assert_ne!(first.token, second.token);
    assert_eq!(first.host, second.host);
    assert_eq!(first.port, second.port);
}

#[test]
fn release_parameters_around_a_given_token() {
    assert_eq!(
        release_params("abc".to_string()),
        ConnectionParams {
            host: "127.0.0.1".to_string(),
            port: "7938".to_string(),
            token: "abc".to_string()
        }
    );
}

#[test]
fn no_token_means_no_release_parameters() {
    assert_eq!(
        release_params_around(Err(TokenError::EntropyUnavailable)),
        Err(TokenError::EntropyUnavailable)
    );
}

#[test]
fn a_token_made_becomes_release_parameters() {
    assert_eq!(
        release_params_around(Ok("00ff".to_string())),
        Ok(ConnectionParams {
            host: "127.0.0.1".to_string(),
            port: "7938".to_string(),
            token: "00ff".to_string()
        })
    );
    assert_eq!(release_params_around(Ok("00ff".to_string())), Ok(release_params("00ff".to_string())));
}

#[test]
fn missing_overrides_name_their_variables() {
    assert_eq!(MissingOverride::Host.variable(), "DAEMON_HOST");
    assert_eq!(MissingOverride::Port.variable(), "DAEMON_PORT");
    assert_eq!(MissingOverride::Token.variable(), "DAEMON_TOKEN");
}

#[test]
fn attaching_takes_all_three_overrides() {
    assert_eq!(
        attach_params(text("localhost"), text("8080"), text("secret")),
        Ok(ConnectionParams {
            host: "localhost".to_string(),
            port: "8080".to_string(),
            token: "secret".to_string()
        })
    );
    assert_eq!(HOST_VAR, "DAEMON_HOST");
    assert_eq!(PORT_VAR, "DAEMON_PORT");
    assert_eq!(TOKEN_VAR, "DAEMON_TOKEN");
}

#[test]
fn attaching_names_the_first_missing_override() {
    assert_eq!(attach_params(None, None, None), Err(MissingOverride::Host));
    assert_eq!(attach_params(None, text("1"), text("t")), Err(MissingOverride::Host));
    assert_eq!(attach_params(text("h"), None, None), Err(MissingOverride::Port));
    assert_eq!(attach_params(text("h"), None, text("t")), Err(MissingOverride::Port));
    assert_eq!(attach_params(text("h"), text("1"), None), Err(MissingOverride::Token));
}

#[test]
fn main_window_address() {
    assert_eq!(
        generate_main_url("127.0.0.1", "7938", "00ff"),
        "#host=127.0.0.1&port=7938&token=00ff"
    );
    assert_eq!(generate_main_url("", "", ""), "#host=&port=&token=");
}

#[test]
fn first_run_counts_as_updated() {
    assert!(is_app_updated(None, "1.0.0"));
    assert_eq!(UNRECORDED_VERSION, "0.0.0");
    assert_eq!(VERSION_FILE, "desktop_version.txt");
}

#[test]
fn unrecorded_version_equals_zero_version() {
    assert!(!is_app_updated(None, "0.0.0"));
}

#[test]
fn same_version_is_not_an_update() {
    assert!(!is_app_updated(Some("1.2.3"), "1.2.3"));
}

#[test]
fn any_other_recorded_version_is_an_update() {
    assert!(is_app_updated(Some("1.2.2"), "1.2.3"));
    assert!(is_app_updated(Some("1.2.4"), "1.2.3"));
    assert!(is_app_updated(Some("1.2.3\n"), "1.2.3"));
    assert!(is_app_updated(Some(""), "1.2.3"));
}
