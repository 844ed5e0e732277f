//! Directory export: the rules that turn a workspace's member records into
//! flat directory entries and render them as a table, JSON, CSV or HTML.
//!
//! The crate is the computing half of a command-line tool. The program around
//! it reads the command line and the environment, talks to the directory
//! service and prints; this crate decides what is asked of the service, which
//! records are acceptable, and what the printed document holds.

pub mod config;
pub mod entry;
pub mod error;
pub mod normalize;
pub mod pipeline;
pub mod render;
pub mod upstream;

pub use config::{parse_output, ConfigView, OutputFormat, RunConfig, TOKEN_VARIABLE};
pub use entry::{DirectoryEntry, EntryView, PresenceStatus};
pub use error::{DirectoryError, ErrorView};
pub use normalize::{
    collect_entries, normalize_all, normalize_member, MemberView, ProfileView, RawMember,
    RawProfile,
};
pub use pipeline::produce_document;
pub use render::render;
pub use upstream::{accept_answer, upstream_requests, UpstreamRequest};
