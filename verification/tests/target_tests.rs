use package_binary::error::PackError;
use package_binary::target::{
    build_outcome, built_package_dir, locate_method, locate_output, output_root,
    parse_build_output, resolve_target_info, select_built_package, target_info_from_attributes,
    ConfigDirProbe, LocateMethod, OutputEvidence, TargetInfo,
};

fn info(name: &str, version: &str) -> TargetInfo {
    TargetInfo { name: name.to_string(), version: version.to_string() }
}

fn probe(path: &str, is_dir: bool, package_exists: bool) -> ConfigDirProbe {
    ConfigDirProbe { path: path.to_string(), is_dir, package_exists }
}

#[test]
fn attributes_are_taken_as_reported() {
    assert_eq!(target_info_from_attributes("//pkg:foo", Some("bar"), Some("1.2")), info("bar", "1.2"));
}

#[test]
fn missing_attributes_are_derived() {
    assert_eq!(target_info_from_attributes("//pkg:foo", None, None), info("foo", "unknown"));
    assert_eq!(target_info_from_attributes("//pkg:foo", None, Some("3")), info("foo", "3"));
    assert_eq!(target_info_from_attributes("//pkg:foo", Some("n"), None), info("n", "unknown"));
    assert_eq!(target_info_from_attributes("plain", None, None), info("plain", "unknown"));
    assert_eq!(target_info_from_attributes("a:b:c", None, None), info("c", "unknown"));
}

#[test]
fn resolve_reads_name_and_version_from_the_answer() {
    let answer = r#"{"//pkg:foo": {"name": "foo", "version": "2.1.0"}}"#;
    assert_eq!(resolve_target_info("//pkg:foo", true, answer), info("foo", "2.1.0"));
}

#[test]
fn resolve_finds_the_target_under_its_rooted_key() {
    let answer = r#"{"root//pkg:foo": {"name": "foo-bin", "version": "7"}}"#;
    assert_eq!(resolve_target_info("//pkg:foo", true, answer), info("foo-bin", "7"));
    assert_eq!(resolve_target_info("pkg:foo", true, answer), info("foo-bin", "7"));
}

#[test]
fn resolve_prefers_the_target_itself_over_its_rooted_key() {
    let answer = r#"{"root//pkg:foo": {"name": "rooted"}, "//pkg:foo": {"name": "direct"}}"#;
    assert_eq!(resolve_target_info("//pkg:foo", true, answer), info("direct", "unknown"));
}

#[test]
fn resolve_skips_what_stands_before_the_json() {
    let answer = "Starting daemon...\nwarning: slow\n{\"//pkg:foo\": {\"name\": \"foo\", \"version\": \"1\"}}\n";
    assert_eq!(resolve_target_info("//pkg:foo", true, answer), info("foo", "1"));
}

#[test]
fn resolve_derives_what_the_entry_lacks() {
    let answer = r#"{"//pkg:foo": {"version": "5"}}"#;
    assert_eq!(resolve_target_info("//pkg:foo", true, answer), info("foo", "5"));
    let answer = r#"{"//pkg:foo": {"name": 3, "version": null}}"#;
    assert_eq!(resolve_target_info("//pkg:foo", true, answer), info("foo", "unknown"));
    let answer = r#"{"//pkg:foo": {}}"#;
    assert_eq!(resolve_target_info("//pkg:foo", true, answer), info("foo", "unknown"));
}

#[test]
fn resolve_falls_back_when_the_query_failed() {
    let answer = r#"{"//pkg:foo": {"name": "ignored", "version": "9"}}"#;
    assert_eq!(resolve_target_info("//pkg:foo", false, answer), info("foo", "unknown"));
    assert_eq!(resolve_target_info("//pkg:foo", false, ""), info("foo", "unknown"));
}

#[test]
fn resolve_falls_back_when_the_answer_is_no_json() {
    assert_eq!(resolve_target_info("//pkg:foo", true, "not json"), info("foo", "unknown"));
    assert_eq!(resolve_target_info("//pkg:foo", true, ""), info("foo", "unknown"));
    assert_eq!(resolve_target_info("//pkg:foo", true, "{\"//pkg:foo\": "), info("foo", "unknown"));
}

#[test]
fn resolve_falls_back_when_the_target_is_not_in_the_answer() {
    let answer = r#"{"//other:bar": {"name": "bar", "version": "1"}}"#;
    assert_eq!(resolve_target_info("//pkg:foo", true, answer), info("foo", "unknown"));
    assert_eq!(resolve_target_info("//pkg:foo", true, "[1, 2]"), info("foo", "unknown"));
}

#[test]
fn resolve_keeps_escaped_text() {
    let answer = r#"{"//pkg:foo": {"name": "fö\"o", "version": "1\n2"}}"#;
    assert_eq!(resolve_target_info("//pkg:foo", true, answer), info("fö\"o", "1\n2"));
}

#[test]
fn build_report_names_the_output_in_its_last_token() {
    assert_eq!(
        parse_build_output("root//pkg:foo buck-out/v2/gen/root/abc/pkg/__foo__/foo\n"),
        Some("buck-out/v2/gen/root/abc/pkg/__foo__/foo".to_string())
    );
    assert_eq!(
        parse_build_output("first line\nroot//a:b out/a\nroot//pkg:foo out/foo"),
        Some("out/foo".to_string())
    );
    assert_eq!(parse_build_output("only-path\r\n"), Some("only-path".to_string()));
}

#[test]
fn build_report_without_a_path() {
    assert_eq!(parse_build_output(""), None);
    assert_eq!(parse_build_output("\n"), None);
    assert_eq!(parse_build_output("root//pkg:foo out/foo\n   \n"), None);
}

#[test]
fn build_outcome_tells_the_failures_apart() {
    assert_eq!(build_outcome(false, "root//pkg:foo out/foo\n"), Err(PackError::BuildFailed));
    assert_eq!(build_outcome(false, ""), Err(PackError::BuildFailed));
    assert_eq!(build_outcome(true, ""), Err(PackError::ParseError));
    assert_eq!(build_outcome(true, " \n"), Err(PackError::ParseError));
    assert_eq!(build_outcome(true, "root//pkg:foo out/foo\n"), Ok("out/foo".to_string()));
}

#[test]
fn built_package_lies_below_the_package_path() {
    assert_eq!(
        built_package_dir("buck-out/v2/gen/root/6dd044292ff31ae1", "//pkg:foo"),
        "buck-out/v2/gen/root/6dd044292ff31ae1/pkg/__foo__/foo"
    );
    assert_eq!(built_package_dir("cfg", "//a/b/c:tool"), "cfg/a/b/c/__tool__/tool");
    assert_eq!(built_package_dir("cfg", "a/b:tool"), "cfg/a/b/__tool__/tool");
    assert_eq!(output_root(), "buck-out/v2/gen/root");
}

#[test]
fn select_takes_the_first_directory_that_holds_the_package() {
    let probes = vec![
        probe("root/file", false, true),
        probe("root/aaa", true, false),
        probe("root/bbb", true, true),
        probe("root/ccc", true, true),
    ];
    assert_eq!(select_built_package("//pkg:foo", &probes), Ok("root/bbb/pkg/__foo__/foo".to_string()));
}

#[test]
fn select_finds_a_package_that_holds_one_file_only() {
    let probes = vec![probe("buck-out/v2/gen/root/abc123", true, true)];
    assert_eq!(
        select_built_package("//pkg:foo", &probes),
        Ok("buck-out/v2/gen/root/abc123/pkg/__foo__/foo".to_string())
    );
}

#[test]
fn select_finds_nothing() {
    assert_eq!(select_built_package("//pkg:foo", &Vec::new()), Err(PackError::OutputNotFound));
    let probes = vec![probe("root/aaa", true, false), probe("root/bbb", false, true)];
    assert_eq!(select_built_package("//pkg:foo", &probes), Err(PackError::OutputNotFound));
}

#[test]
fn output_is_searched_when_not_rebuilding_and_built_otherwise() {
    assert_eq!(locate_method(true), LocateMethod::FindBuilt);
    assert_eq!(locate_method(false), LocateMethod::Build);
}

#[test]
fn locate_output_judges_a_search() {
    let found = OutputEvidence::Probed { probes: vec![probe("root/cfg", true, true)] };
    assert_eq!(locate_output("//pkg:foo", &found), Ok("root/cfg/pkg/__foo__/foo".to_string()));
    let nothing = OutputEvidence::Probed { probes: vec![probe("root/cfg", true, false)] };
    assert_eq!(locate_output("//pkg:foo", &nothing), Err(PackError::OutputNotFound));
    let empty = OutputEvidence::Probed { probes: Vec::new() };
    assert_eq!(locate_output("//pkg:foo", &empty), Err(PackError::OutputNotFound));
}

#[test]
fn locate_output_judges_a_build() {
    let built = OutputEvidence::Built { build_ok: true, report: "root//pkg:foo out/foo\n".to_string() };
    assert_eq!(locate_output("//pkg:foo", &built), Ok("out/foo".to_string()));
    let failed = OutputEvidence::Built { build_ok: false, report: "root//pkg:foo out/foo\n".to_string() };
    assert_eq!(locate_output("//pkg:foo", &failed), Err(PackError::BuildFailed));
    let silent = OutputEvidence::Built { build_ok: true, report: String::new() };
    assert_eq!(locate_output("//pkg:foo", &silent), Err(PackError::ParseError));
}
