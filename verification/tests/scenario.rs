use slackline::config::{OutputFormat, RunConfig};
use slackline::error::DirectoryError;
use slackline::normalize::{RawMember, RawProfile};
use slackline::pipeline::produce_document;

fn config(output: &str) -> RunConfig {
    RunConfig::resolve(Some("token".to_string()), None, None, Some(output.to_string())).unwrap()
}

fn ada() -> RawMember {
    RawMember {
        display_name: Some("Ada Lovelace".to_string()),
        identifier: Some("ada".to_string()),
        profile: Some(RawProfile {
            email: Some("ada@x.io".to_string()),
            phone: None,
            picture: None,
        }),
    }
}

fn grace() -> RawMember {
    RawMember {
        display_name: Some("Grace Hopper".to_string()),
        identifier: Some("grace".to_string()),
        profile: Some(RawProfile {
            email: None,
            phone: Some("555-1234".to_string()),
            picture: Some("http://x/g.png".to_string()),
        }),
    }
}

fn listing() -> Option<Vec<RawMember>> {
    Some(vec![ada(), grace()])
}

#[test]
fn two_members_as_a_table() {
    let expected = "\
Name       | handle     | phone      | email      | status     | picture url
Ada Lovelace       | ada        | N/A             | ada@x.io | N/A        | N/A       
Grace Hopper       | grace      | 555-1234        | N/A | N/A        | http://x/g.png
";
    assert_eq!(produce_document(&config("table"), &listing()), Ok(expected.to_string()));
}

#[test]
fn two_members_as_a_table_cell_by_cell() {
    let table = produce_document(&config("table"), &listing()).unwrap();
    let lines: Vec<&str> = table.lines().collect();
    assert_eq!(lines.len(), 3);
    let titles: Vec<&str> = lines[0].split(" | ").map(|cell| cell.trim_end()).collect();
    assert_eq!(titles, vec!["Name", "handle", "phone", "email", "status", "picture url"]);
    let first: Vec<&str> = lines[1].split(" | ").map(|cell| cell.trim_end()).collect();
    assert_eq!(first, vec!["Ada Lovelace", "ada", "N/A", "ada@x.io", "N/A", "N/A"]);
    let second: Vec<&str> = lines[2].split(" | ").map(|cell| cell.trim_end()).collect();
    assert_eq!(second, vec!["Grace Hopper", "grace", "555-1234", "N/A", "N/A", "http://x/g.png"]);
}

#[test]
fn two_members_as_json() {
    let expected = r#"[
  {
    "name": "Ada Lovelace",
    "handle": "ada",
    "email": "ada@x.io",
    "phone_number": null,
    "picture_url": null,
    "presence_status": "Offline"
  },
  {
    "name": "Grace Hopper",
    "handle": "grace",
    "email": null,
    "phone_number": "555-1234",
    "picture_url": "http://x/g.png",
    "presence_status": "Offline"
  }
]
"#;
    assert_eq!(produce_document(&config("json"), &listing()), Ok(expected.to_string()));
}

#[test]
fn two_members_as_csv() {
    let expected = "\
name,handle,email,phone_number,picture_url,presence_status
Ada Lovelace,ada,ada@x.io,,,Offline
Grace Hopper,grace,,555-1234,http://x/g.png,Offline

";
    let document = produce_document(&config("csv"), &listing()).unwrap();
    assert_eq!(document, expected);
    assert!(!document.contains("N/A"));
}

#[test]
fn two_members_as_html() {
    let expected = "\
<html><body>
<h1>Slack Team Directory</h1>
  <div>
    <h2>Ada Lovelace</h2>
    <img src=\"N/A\" style='height: 48px; width: auto;'></img>
    <h3>Slack: ada</h3>
    <h3>Phone: N/A</h3>
    <h3>Email: <a href=\"mailto:ada@x.io\">ada@x.io</a></h3>
  </div>
  <div>
    <h2>Grace Hopper</h2>
    <img src=\"http://x/g.png\" style='height: 48px; width: auto;'></img>
    <h3>Slack: grace</h3>
    <h3>Phone: 555-1234</h3>
    <h3>Email: <a href=\"mailto:N/A\">N/A</a></h3>
  </div>
</body></html>
";
    assert_eq!(produce_document(&config("html"), &listing()), Ok(expected.to_string()));
}

#[test]
fn two_members_as_markdown() {
    assert_eq!(produce_document(&config("md"), &listing()), Ok(String::new()));
    assert_eq!(produce_document(&config("markdown"), &listing()), Ok(String::new()));
}

#[test]
fn an_answer_without_a_member_list_prints_nothing() {
    for output in ["table", "json", "html", "csv", "md"] {
        assert_eq!(produce_document(&config(output), &None), Ok(String::new()));
    }
}

#[test]
fn an_empty_member_list() {
    let nobody = Some(Vec::new());
    assert_eq!(
        produce_document(&config("table"), &nobody),
        Ok("Name       | handle     | phone      | email      | status     | picture url\n"
            .to_string())
    );
    assert_eq!(produce_document(&config("json"), &nobody), Ok("[]\n".to_string()));
    assert_eq!(produce_document(&config("csv"), &nobody), Ok("\n".to_string()));
}

#[test]
fn a_member_without_a_name_leaves_no_output() {
    let mut nameless = grace();
    nameless.display_name = None;
    let members = Some(vec![ada(), nameless]);
    for output in ["table", "json", "html", "csv", "md"] {
        assert_eq!(
            produce_document(&config(output), &members),
            Err(DirectoryError::MalformedMemberRecord)
        );
    }
}

#[test]
fn a_member_without_a_profile_leaves_no_output() {
    let mut bare = ada();
    bare.profile = None;
    let members = Some(vec![bare, grace()]);
    for output in ["table", "json", "html", "csv", "md"] {
        assert_eq!(
            produce_document(&config(output), &members),
            Err(DirectoryError::MalformedMemberRecord)
        );
    }
}

#[test]
fn a_member_without_a_handle_leaves_no_output() {
    let mut anonymous = ada();
    anonymous.identifier = None;
    assert_eq!(
        produce_document(&config("table"), &Some(vec![anonymous])),
        Err(DirectoryError::MalformedMemberRecord)
    );
}

#[test]
fn a_run_is_repeatable() {
    for output in ["table", "json", "html", "csv", "md"] {
        let first = produce_document(&config(output), &listing());
        let second = produce_document(&config(output), &listing());
        assert_eq!(first, second);
    }
}

#[test]
fn the_format_comes_from_the_configuration() {
    assert_eq!(config("csv").output_format, OutputFormat::Csv);
    let table = produce_document(&config("table"), &listing()).unwrap();
    let csv = produce_document(&config("csv"), &listing()).unwrap();
    assert_ne!(table, csv);
}
