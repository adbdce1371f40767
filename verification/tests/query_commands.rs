use ore_monitor::commands::{FileReader, InstallCommand};
use ore_monitor::query::{Query, QueryType};
use ore_monitor::schemas::{OreSession, ReturnedApiSession};

fn pair(k: &str, v: &str) -> (String, String) {
    (k.to_string(), v.to_string())
}

#[test]
fn query_concatenates_values_under_key() {
    let q = Query::new(vec![pair("q", "value"), pair("tag", "one"), pair("tag", "two")]);
    assert_eq!(q.get_query("q"), "value");
    assert_eq!(q.get_query("tag"), "onetwo");
    assert_eq!(q.get_query("missing"), "");
}

#[test]
fn query_to_vec_copies_the_arguments() {
    let args = vec![pair("list", "one"), pair("list", "two")];
    let q = Query::new(args.clone());
    assert_eq!(q.to_vec(), args);
}

#[test]
fn query_value_is_lowercased() {
    let v = QueryType::Value(Some("VALUE".to_string()));
    assert_eq!(v.into_values(), Some(vec!["value".to_string()]));
}

#[test]
fn query_list_passes_through() {
    let v = QueryType::List(Some(vec!["one".to_string(), "Two".to_string()]));
    assert_eq!(v.into_values(), Some(vec!["one".to_string(), "Two".to_string()]));
}

#[test]
fn absent_query_values_yield_nothing() {
    assert_eq!(QueryType::Value(None).into_values(), None);
    assert_eq!(QueryType::List(None).into_values(), None);
}

#[test]
fn extract_filename_between_quotes() {
    let header = "attachment; filename=\"nucleus-2.1.4.jar\"";
    assert_eq!(InstallCommand::extract_filename(header), Some("nucleus-2.1.4.jar"));
}

#[test]
fn extract_filename_needs_two_quotes() {
    assert_eq!(InstallCommand::extract_filename("no quotes here"), None);
    assert_eq!(InstallCommand::extract_filename("one \" quote"), None);
}

#[test]
fn extract_filename_empty_name() {
    assert_eq!(InstallCommand::extract_filename("x \"\" y"), Some(""));
}

#[test]
fn default_file_name() {
    assert_eq!(InstallCommand::DEFAULT_FILE_NAME, "unknown_file");
}

#[test]
fn file_reader_keeps_its_path() {
    let reader = FileReader::from("./local/test/nucleus.jar");
    assert_eq!(reader.base_path, "./local/test/nucleus.jar");
}

#[test]
fn session_update_takes_over_the_response() {
    let mut session = OreSession { session_id: String::new(), expires: String::new() };
    session.update(ReturnedApiSession {
        session: "abc123".to_string(),
        expires: "2030-01-01T00:00:00Z".to_string(),
        kind: "public".to_string(),
    });
    assert_eq!(session.session_id, "abc123");
    assert_eq!(session.expires, "2030-01-01T00:00:00Z");
}
