use slackline::config::{parse_output, OutputFormat, RunConfig, TOKEN_VARIABLE};
use slackline::error::DirectoryError;
use slackline::upstream::{accept_answer, upstream_requests, UpstreamRequest};

fn text(value: &str) -> Option<String> {
    Some(value.to_string())
}

#[test]
fn parse_output_accepts_every_token() {
    assert_eq!(parse_output("table"), Ok(OutputFormat::Table));
    assert_eq!(parse_output("json"), Ok(OutputFormat::Json));
    assert_eq!(parse_output("html"), Ok(OutputFormat::Html));
    assert_eq!(parse_output("csv"), Ok(OutputFormat::Csv));
    assert_eq!(parse_output("markdown"), Ok(OutputFormat::Markdown));
    assert_eq!(parse_output("md"), Ok(OutputFormat::Markdown));
}

#[test]
fn parse_output_names_the_offending_token() {
    assert_eq!(
        parse_output("xml"),
        Err(DirectoryError::InvalidOutputFormat("xml".to_string()))
    );
    assert_eq!(parse_output(""), Err(DirectoryError::InvalidOutputFormat(String::new())));
    assert_eq!(
        parse_output(" json"),
        Err(DirectoryError::InvalidOutputFormat(" json".to_string()))
    );
    assert_eq!(
        parse_output("tablé"),
        Err(DirectoryError::InvalidOutputFormat("tablé".to_string()))
    );
}

#[test]
fn parse_output_is_case_sensitive() {
    assert_eq!(
        parse_output("JSON"),
        Err(DirectoryError::InvalidOutputFormat("JSON".to_string()))
    );
    assert_eq!(
        parse_output("Table"),
        Err(DirectoryError::InvalidOutputFormat("Table".to_string()))
    );
    assert_eq!(parse_output("MD"), Err(DirectoryError::InvalidOutputFormat("MD".to_string())));
}

#[test]
fn resolve_takes_the_flag_before_the_environment() {
    let config = RunConfig::resolve(text("from-flag"), text("from-env"), None, None);
    assert_eq!(
        config,
        Ok(RunConfig {
            api_token: "from-flag".to_string(),
            channel_scope: None,
            output_format: OutputFormat::Table,
        })
    );
}

#[test]
fn resolve_falls_back_to_the_environment() {
    let config = RunConfig::resolve(None, text("from-env"), text("general"), text("csv"));
    assert_eq!(
        config,
        Ok(RunConfig {
            api_token: "from-env".to_string(),
            channel_scope: text("general"),
            output_format: OutputFormat::Csv,
        })
    );
}

#[test]
fn resolve_without_any_credential_fails() {
    assert_eq!(
        RunConfig::resolve(None, None, None, None),
        Err(DirectoryError::MissingCredential)
    );
    assert_eq!(
        RunConfig::resolve(None, None, text("general"), text("json")),
        Err(DirectoryError::MissingCredential)
    );
}

#[test]
fn resolve_defaults_to_the_table() {
    let config = RunConfig::resolve(text("k"), None, None, None).unwrap();
    assert_eq!(config.output_format, OutputFormat::Table);
}

#[test]
fn resolve_rejects_an_unknown_output_token() {
    assert_eq!(
        RunConfig::resolve(text("k"), None, None, text("yaml")),
        Err(DirectoryError::InvalidOutputFormat("yaml".to_string()))
    );
}

#[test]
fn resolve_reports_the_output_token_before_the_credential() {
    assert_eq!(
        RunConfig::resolve(None, None, None, text("yaml")),
        Err(DirectoryError::InvalidOutputFormat("yaml".to_string()))
    );
}

#[test]
fn resolve_passes_the_channel_through_unchanged() {
    let config = RunConfig::resolve(text("k"), None, text("#no such channel"), text("md")).unwrap();
    assert_eq!(config.channel_scope, text("#no such channel"));
    assert_eq!(config.output_format, OutputFormat::Markdown);
}

#[test]
fn resolve_accepts_an_empty_token_from_the_flag() {
    let config = RunConfig::resolve(text(""), text("from-env"), None, None).unwrap();
    assert_eq!(config.api_token, "");
}

#[test]
fn environment_is_read_only_without_the_flag() {
    assert!(RunConfig::reads_environment(&None));
    assert!(!RunConfig::reads_environment(&text("k")));
}

#[test]
fn requests_without_a_channel_scope() {
    let config = RunConfig::resolve(text("k"), None, None, None).unwrap();
    assert_eq!(upstream_requests(&config), vec![UpstreamRequest::UserList { presence: None }]);
}

#[test]
fn requests_with_a_channel_scope() {
    let config = RunConfig::resolve(text("k"), None, text("general"), None).unwrap();
    assert_eq!(
        upstream_requests(&config),
        vec![
            UpstreamRequest::ChannelList { exclude_archived: true, exclude_members: false },
            UpstreamRequest::UserList { presence: None },
        ]
    );
}

#[test]
fn a_failed_request_becomes_an_upstream_failure() {
    let answer: Result<u32, String> = Err("invalid_auth".to_string());
    assert_eq!(
        accept_answer(answer),
        Err(DirectoryError::UpstreamRequestFailed("invalid_auth".to_string()))
    );
}

#[test]
fn a_good_answer_passes_through() {
    let answer: Result<Vec<u32>, String> = Ok(vec![1, 2, 3]);
    assert_eq!(accept_answer(answer), Ok(vec![1, 2, 3]));
}

#[test]
fn the_token_variable() {
    assert_eq!(TOKEN_VARIABLE, "SLACK_API_KEY");
    assert!(DirectoryError::MissingCredential.message().contains(TOKEN_VARIABLE));
}
