//! Run configuration: the output format tokens and the rule that merges the
//! command line with the environment.

use vstd::prelude::*;
use crate::error::{DirectoryError, ErrorView};

verus! {

/// The environment variable that holds the API token when the command line
/// gives none.
pub const TOKEN_VARIABLE: &'static str = "SLACK_API_KEY";

/// The document formats a run can produce.
#[derive(Clone, Copy, Debug, PartialEq, Eq, Structural)]
pub enum OutputFormat {
    Table,
    Json,
    Html,
    Csv,
    Markdown,
}

/// What one run works from. Built once by [`RunConfig::resolve`] and not
/// changed afterwards.
#[derive(Clone, Debug, PartialEq, Eq)]
pub struct RunConfig {
    /// The API token, from the command line or else from the environment.
    pub api_token: String,
    /// The channel named on the command line, passed through unchecked.
    pub channel_scope: Option<String>,
    /// The format of the document to print.
    pub output_format: OutputFormat,
}

/// [`RunConfig`] with its texts as character sequences.
pub struct ConfigView {
    pub api_token: Seq<char>,
    pub channel_scope: Option<Seq<char>>,
    pub output_format: OutputFormat,
}

impl View for RunConfig {
    type V = ConfigView;

    open spec fn view(&self) -> ConfigView {
        ConfigView {
            api_token: self.api_token@,
            channel_scope: self.channel_scope.deep_view(),
            output_format: self.output_format,
        }
    }
}

/// The format a token stands for. Tokens are case-sensitive; `markdown` and
/// `md` name the same format; every other text names none.
pub open spec fn format_of_token(token: Seq<char>) -> Option<OutputFormat> {
    if token == "table"@ {
        Some(OutputFormat::Table)
    } else if token == "json"@ {
        Some(OutputFormat::Json)
    } else if token == "html"@ {
        Some(OutputFormat::Html)
    } else if token == "csv"@ {
        Some(OutputFormat::Csv)
    } else if token == "markdown"@ || token == "md"@ {
        Some(OutputFormat::Markdown)
    } else {
        None
    }
}

/// The format selected by an optional `--output` token: `table` when the
/// option is left out.
pub open spec fn selected_format(output: Option<Seq<char>>) -> Result<OutputFormat, ErrorView> {
    match output {
        None => Ok(OutputFormat::Table),
        Some(token) => match format_of_token(token) {
            Some(format) => Ok(format),
            None => Err(ErrorView::InvalidOutputFormat(token)),
        },
    }
}

/// The token a run uses: the command line's if it gave one, otherwise the
/// environment's.
pub open spec fn selected_token(
    key_flag: Option<Seq<char>>,
    env_key: Option<Seq<char>>,
) -> Option<Seq<char>> {
    match key_flag {
        Some(token) => Some(token),
        None => env_key,
    }
}

/// The outcome of configuration resolution. An unknown output token is
/// reported first, as it is met when the command line is read; a missing
/// credential is reported next.
pub open spec fn resolved(
    key_flag: Option<Seq<char>>,
    env_key: Option<Seq<char>>,
    channel: Option<Seq<char>>,
    output: Option<Seq<char>>,
) -> Result<ConfigView, ErrorView> {
    match selected_format(output) {
        Err(error) => Err(error),
        Ok(format) => match selected_token(key_flag, env_key) {
            None => Err(ErrorView::MissingCredential),
            Some(token) => Ok(
                ConfigView { api_token: token, channel_scope: channel, output_format: format },
            ),
        },
    }
}

/// Whether a resolution result is the one that [`resolved`] describes.
pub open spec fn is_resolution(
    outcome: Result<RunConfig, DirectoryError>,
    expected: Result<ConfigView, ErrorView>,
) -> bool {
    match (outcome, expected) {
        (Ok(config), Ok(view)) => config@ == view,
        (Err(error), Err(view)) => error@ == view,
        _ => false,
    }
}

/// Whether two texts are equal, decided on owned copies.
fn same_text(left: &str, right: &str) -> (same: bool)
    ensures
        same == (left@ == right@),
{
    left.to_owned() == right.to_owned()
}

/// Parses an output format token.
///
/// Succeeds exactly on `table`, `json`, `html`, `csv`, `markdown` and `md`;
/// any other text fails with `InvalidOutputFormat` holding that very text.
pub fn parse_output(output: &str) -> (parsed: Result<OutputFormat, DirectoryError>)
    ensures
        match format_of_token(output@) {
            Some(format) => parsed == Ok::<OutputFormat, DirectoryError>(format),
            None => parsed is Err && parsed->Err_0@ == ErrorView::InvalidOutputFormat(output@),
        },
{
    if same_text(output, "table") {
        Ok(OutputFormat::Table)
    } else if same_text(output, "json") {
        Ok(OutputFormat::Json)
    } else if same_text(output, "html") {
        Ok(OutputFormat::Html)
    } else if same_text(output, "csv") {
        Ok(OutputFormat::Csv)
    } else if same_text(output, "markdown") || same_text(output, "md") {
        Ok(OutputFormat::Markdown)
    } else {
        Err(DirectoryError::InvalidOutputFormat(output.to_owned()))
    }
}

impl RunConfig {
    /// Whether the environment has to be read for the API token: only when
    /// the command line gave none.
    pub fn reads_environment(key_flag: &Option<String>) -> (needed: bool)
        ensures
            needed == (key_flag is None),
    {
        key_flag.is_none()
    }

    /// Builds the configuration of a run from the command line's options and
    /// the value of the environment's token variable.
    ///
    /// `key_flag`, `channel` and `output` are the options as given (`None`
    /// where one was left out); `env_key` is the environment variable's
    /// value, which is looked at only when `key_flag` is `None`.
    pub fn resolve(
        key_flag: Option<String>,
        env_key: Option<String>,
        channel: Option<String>,
        output: Option<String>,
    ) -> (outcome: Result<RunConfig, DirectoryError>)
        ensures
            is_resolution(
                outcome,
                resolved(
                    key_flag.deep_view(),
                    env_key.deep_view(),
                    channel.deep_view(),
                    output.deep_view(),
                ),
            ),
    {
        let output_format = match output {
            None => OutputFormat::Table,
            Some(token) => match parse_output(token.as_str()) {
                Ok(format) => format,
                Err(error) => {
                    return Err(error);
                },
            },
        };
        let api_token = match key_flag {
            Some(token) => token,
            None => match env_key {
                Some(token) => token,
                None => {
                    return Err(DirectoryError::MissingCredential);
                },
            },
        };
        Ok(RunConfig { api_token, channel_scope: channel, output_format })
    }
}

/// A token outside the accepted set fails resolution with
/// `InvalidOutputFormat` holding exactly that token, whatever the other
/// options are.
pub proof fn lemma_unknown_token_rejected(
    key_flag: Option<Seq<char>>,
    env_key: Option<Seq<char>>,
    channel: Option<Seq<char>>,
    token: Seq<char>,
)
    requires
        token != "table"@,
        token != "json"@,
        token != "html"@,
        token != "csv"@,
        token != "markdown"@,
        token != "md"@,
    ensures
        resolved(key_flag, env_key, channel, Some(token)) == Err::<ConfigView, ErrorView>(
            ErrorView::InvalidOutputFormat(token),
        ),
{
}

/// With neither a token on the command line nor one in the environment,
/// resolution fails with `MissingCredential` and yields no configuration,
/// so no request can be planned. The output option must be acceptable:
/// an unknown output token is reported before the credential is looked at.
pub proof fn lemma_missing_credential(channel: Option<Seq<char>>, output: Option<Seq<char>>)
    requires
        selected_format(output) is Ok,
    ensures
        resolved(None, None, channel, output) == Err::<ConfigView, ErrorView>(
            ErrorView::MissingCredential,
        ),
{
}

/// The command line's token wins over the environment's.
pub proof fn lemma_flag_over_environment(
    flag: Seq<char>,
    env_key: Option<Seq<char>>,
    channel: Option<Seq<char>>,
    output: Option<Seq<char>>,
)
    requires
        selected_format(output) is Ok,
    ensures
        resolved(Some(flag), env_key, channel, output) is Ok,
        resolved(Some(flag), env_key, channel, output)->Ok_0.api_token == flag,
        resolved(Some(flag), env_key, channel, output)->Ok_0.channel_scope == channel,
{
}

} // verus!
