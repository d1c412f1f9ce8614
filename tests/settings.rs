use github_gas::error::LaunchError;
use github_gas::launch::{launch_command, launch_env};
use github_gas::settings::{env_vars, join_repositories, ServerSettings};

fn empty_settings() -> ServerSettings {
    ServerSettings {
        repositories: None,
        query_extra: None,
        from_date: None,
        author: None,
        auth_type: None,
        to_date: None,
    }
}

fn pairs(v: &[(&str, &str)]) -> Vec<(String, String)> {
    v.iter().map(|(a, b)| (a.to_string(), b.to_string())).collect()
}

#[test]
fn only_repositories_gives_one_pair() {
    let mut s = empty_settings();
    s.repositories = Some(vec!["a/b".to_string(), "c/d".to_string()]);
    assert_eq!(env_vars(s), pairs(&[("GITHUB_GAS_REPOSITORIES", "a/b,c/d")]));
}

#[test]
fn no_fields_give_no_pairs() {
    assert!(env_vars(empty_settings()).is_empty());
}

#[test]
fn all_fields_in_fixed_order() {
    let s = ServerSettings {
        repositories: Some(vec!["x/y".to_string()]),
        query_extra: Some("is:pr".to_string()),
        from_date: Some("2024-01-01".to_string()),
        author: Some("octocat".to_string()),
        auth_type: Some("token".to_string()),
        to_date: Some("2024-02-01".to_string()),
    };
    assert_eq!(
        env_vars(s),
        pairs(&[
            ("GITHUB_GAS_QUERY_EXTRA", "is:pr"),
            ("GITHUB_GAS_REPOSITORIES", "x/y"),
            ("GITHUB_GAS_FROM_DATE", "2024-01-01"),
            ("GITHUB_GAS_TO_DATE", "2024-02-01"),
            ("GITHUB_GAS_AUTHOR", "octocat"),
            ("GITHUB_GAS_AUTH_TYPE", "token"),
        ])
    );
}

#[test]
fn empty_repository_list_gives_empty_value() {
    let mut s = empty_settings();
    s.repositories = Some(vec![]);
    assert_eq!(env_vars(s), pairs(&[("GITHUB_GAS_REPOSITORIES", "")]));
}

#[test]
fn join_of_lists() {
    assert_eq!(join_repositories(&vec![]), "");
    assert_eq!(join_repositories(&vec!["a/b".to_string()]), "a/b");
    assert_eq!(
        join_repositories(&vec!["a/b".to_string(), "c/d".to_string(), "e/f".to_string()]),
        "a/b,c/d,e/f"
    );
}

#[test]
fn missing_settings_is_configuration_error() {
    match launch_env(None) {
        Err(e) => {
            assert!(matches!(e, LaunchError::Configuration(ref d) if d == "missing gas settings"));
            assert_eq!(e.message(), "invalid server settings: missing gas settings");
        }
        Ok(_) => panic!("expected a configuration error"),
    }
}

#[test]
fn present_settings_give_env() {
    let mut s = empty_settings();
    s.author = Some("me".to_string());
    match launch_env(Some(s)) {
        Ok(env) => assert_eq!(env, pairs(&[("GITHUB_GAS_AUTHOR", "me")])),
        Err(_) => panic!("expected an environment"),
    }
}

#[test]
fn launch_command_uses_stdio() {
    let env = pairs(&[("GITHUB_GAS_AUTHOR", "me")]);
    let c = launch_command("/cache/github-gas-server-v1/github-gas-server".to_string(), env.clone());
    assert_eq!(c.command, "/cache/github-gas-server-v1/github-gas-server");
    assert_eq!(c.args, vec!["stdio".to_string()]);
    assert_eq!(c.env, env);
}

#[test]
fn error_messages() {
    assert_eq!(
        LaunchError::AssetNotFound("github-gas-server-linux-amd64".to_string()).message(),
        "no asset found matching \"github-gas-server-linux-amd64\""
    );
    assert_eq!(
        LaunchError::ReleaseResolution("offline".to_string()).message(),
        "failed to resolve the latest release: offline"
    );
    assert_eq!(
        LaunchError::Install("denied".to_string()).message(),
        "failed to create version directory: denied"
    );
    assert_eq!(
        LaunchError::Download("reset".to_string()).message(),
        "failed to download file: reset"
    );
    assert_eq!(
        LaunchError::Permission("denied".to_string()).message(),
        "failed to make the file executable: denied"
    );
}
