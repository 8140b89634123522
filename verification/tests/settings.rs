use repo_backup::config::{get_api_token, get_cli_args, token_variable, Cli};
use repo_backup::error::BackupError;

fn args(list: &[&str]) -> Vec<String> {
    list.iter().map(|a| a.to_string()).collect()
}

#[test]
fn default_settings() {
    let cli = Cli::default();
    assert_eq!(cli, Cli { allow_others_repos: false, output_path: "./backups".to_string() });
}

#[test]
fn no_arguments_give_the_defaults() {
    assert_eq!(get_cli_args(&args(&["backup"])), Cli::default());
    assert_eq!(get_cli_args(&args(&[])), Cli::default());
}

#[test]
fn first_argument_is_the_output_directory() {
    let cli = get_cli_args(&args(&["backup", "/tmp/out"]));
    assert_eq!(cli, Cli { allow_others_repos: false, output_path: "/tmp/out".to_string() });
}

#[test]
fn second_argument_allows_other_owners() {
    let cli = get_cli_args(&args(&["backup", "out", "--allow-others-repos"]));
    assert_eq!(cli, Cli { allow_others_repos: true, output_path: "out".to_string() });
}

#[test]
fn another_second_argument_allows_nothing() {
    let cli = get_cli_args(&args(&["backup", "out", "--allow-others-repo"]));
    assert_eq!(cli, Cli { allow_others_repos: false, output_path: "out".to_string() });
    let cli = get_cli_args(&args(&["backup", "out", ""]));
    assert!(!cli.allow_others_repos);
}

#[test]
fn the_flag_counts_only_in_second_place() {
    let cli = get_cli_args(&args(&["backup", "--allow-others-repos"]));
    assert_eq!(
        cli,
        Cli { allow_others_repos: false, output_path: "--allow-others-repos".to_string() }
    );
    let cli = get_cli_args(&args(&["backup", "out", "x", "--allow-others-repos"]));
    assert!(!cli.allow_others_repos);
}

#[test]
fn settings_can_be_cloned() {
    let cli = Cli { allow_others_repos: true, output_path: "out".to_string() };
    assert_eq!(cli.clone(), cli);
}

#[test]
fn credential_is_the_value_of_the_variable() {
    assert_eq!(get_api_token(Some("ghp_abc".to_string())), Ok("ghp_abc".to_string()));
    assert_eq!(get_api_token(Some(String::new())), Ok(String::new()));
}

#[test]
fn missing_credential_is_a_configuration_error() {
    assert_eq!(
        get_api_token(None),
        Err(BackupError::Config { detail: "$GITHUB_AUTH_KEY is not set".to_string() })
    );
}

#[test]
fn credential_variable_name() {
    assert_eq!(token_variable(), "GITHUB_AUTH_KEY");
}
