use std::collections::HashMap;

use dfaudit::audit::models::Package;
use dfaudit::audit::{python, r, run};
use dfaudit::container::traits::ContainerEngine;

struct MockEngine {
    responses: HashMap<Vec<String>, Result<Vec<u8>, String>>,
}

impl MockEngine {
    fn new() -> Self {
        Self { responses: HashMap::new() }
    }

    fn with_response(mut self, command: &[&str], response: Result<Vec<u8>, String>) -> Self {
        self.responses.insert(command.iter().map(|s| s.to_string()).collect(), response);
        self
    }
}

impl ContainerEngine for MockEngine {
    fn build(&self, _file: &str) -> Result<(), String> {
        Ok(())
    }

    fn run(&self, _image: &str, command: &[&str]) -> Result<Vec<u8>, String> {
        self.responses
            .get(&command.iter().map(|s| s.to_string()).collect::<Vec<_>>())
            .expect("unexpected command")
            .clone()
    }

    fn remove(&self, _image: &str) -> Result<(), String> {
        Ok(())
    }

    fn clean(&self) -> Result<(), String> {
        Ok(())
    }
}

/// Reads pip's JSON listing: a sequence of objects with string fields
/// `name` and `version`.
fn decode(bytes: Vec<u8>) -> Result<Vec<Package>, String> {
    let value: serde_json::Value = serde_json::from_slice(&bytes).map_err(|e| e.to_string())?;
    let items = value.as_array().ok_or_else(|| "expected a sequence".to_string())?;
    let mut packages = Vec::new();
    for item in items {
        let name = item
            .get("name")
            .and_then(|v| v.as_str())
            .ok_or_else(|| "missing field `name`".to_string())?;
        let version = item
            .get("version")
            .and_then(|v| v.as_str())
            .ok_or_else(|| "missing field `version`".to_string())?;
        packages.push(Package { name: name.to_string(), version: version.to_string() });
    }
    Ok(packages)
}

const PY_CMD: &[&str] = &["python3", "-m", "pip", "list", "--format=json"];
const R_CMD: &[&str] = &["Rscript", "-e", "installed.packages()[,c('Package','Version')]"];

#[test]
fn parse_packages() {
    let engine = MockEngine::new()
        .with_response(PY_CMD, Ok(br#"[{"name":"requests","version":"2.32.0"}]"#.to_vec()));

    let packages = python::audit(&engine, "image", &decode).unwrap().unwrap();

    assert_eq!(packages.len(), 1);
    assert_eq!(packages[0].name, "requests");
    assert_eq!(packages[0].version, "2.32.0");
}

#[test]
fn python_missing() {
    let engine = MockEngine::new().with_response(PY_CMD, Err("not found".into()));

    let result = python::audit(&engine, "image", &decode).unwrap();

    assert_eq!(result, None);
}

#[test]
fn invalid_json() {
    let engine = MockEngine::new().with_response(PY_CMD, Ok(b"not json".to_vec()));

    assert!(python::audit(&engine, "image", &decode).is_err());
}

#[test]
fn parses_packages() {
    let engine = MockEngine::new().with_response(
        R_CMD,
        Ok(b"Package Version\n\
                  dplyr 1.1.4\n\
                  ggplot2 3.5.1\n"
            .to_vec()),
    );

    let packages = r::audit(&engine, "image").unwrap().unwrap();

    assert_eq!(packages.len(), 2);
    assert_eq!(packages[0].name, "dplyr");
    assert_eq!(packages[1].name, "ggplot2");
}

#[test]
fn returns_none_when_r_is_missing() {
    let engine = MockEngine::new().with_response(R_CMD, Err("not found".into()));

    let result = r::audit(&engine, "image").unwrap();

    assert_eq!(result, None);
}

#[test]
fn skips_invalid_lines() {
    let engine = MockEngine::new().with_response(
        R_CMD,
        Ok(b"Package Version\n\
                  dplyr 1.1.4\n\
                  invalid\n\
                  ggplot2 3.5.1\n"
            .to_vec()),
    );

    let packages = r::audit(&engine, "image").unwrap().unwrap();

    assert_eq!(packages.len(), 2);
}

#[test]
fn two_word_rows_take_the_second_word_as_version() {
    let packages = r::parse_listing("Package Version\ndplyr 1.1.4\nggplot2 3.5.1\n");
    assert_eq!(packages[0], Package { name: "dplyr".into(), version: "1.1.4".into() });
    assert_eq!(packages[1], Package { name: "ggplot2".into(), version: "3.5.1".into() });
}

#[test]
fn r_matrix_rows_take_the_quoted_version() {
    let listing = "        Package   Version \n\
                   base    \"base\"    \"4.3.1\"\n\
                   dplyr   \"dplyr\"   \"1.1.4\"\r\n";
    let packages = r::parse_listing(listing);
    assert_eq!(
        packages,
        vec![
            Package { name: "base".into(), version: "4.3.1".into() },
            Package { name: "dplyr".into(), version: "1.1.4".into() },
        ]
    );
}

#[test]
fn r_listing_edge_cases() {
    assert!(r::parse_listing("").is_empty());
    assert!(r::parse_listing("Package Version").is_empty());
    assert!(r::parse_listing("\n\n\n").is_empty());
    // The header line is skipped even when it names a package.
    let packages = r::parse_listing("a 1\nb 2");
    assert_eq!(packages, vec![Package { name: "b".into(), version: "2".into() }]);
    // Tabs and non-breaking spaces separate words too.
    let packages = r::parse_listing("h\nx\t\u{a0}\"\"1\"\"");
    assert_eq!(packages, vec![Package { name: "x".into(), version: "1".into() }]);
    // A version of quotes only trims to nothing.
    let packages = r::parse_listing("h\nx \"\"");
    assert_eq!(packages, vec![Package { name: "x".into(), version: "".into() }]);
}

#[test]
fn r_output_with_invalid_utf8_is_read_lossily() {
    let out = r::from_output(Ok(b"h\nn\xff 1\n".to_vec())).unwrap();
    assert_eq!(out, vec![Package { name: "n\u{fffd}".into(), version: "1".into() }]);
    assert_eq!(r::from_output(Err("gone".into())), None);
}

#[test]
fn python_decode_errors_are_headed() {
    let r = python::interpret(Err("expected value at line 1 column 1".into()));
    assert_eq!(r, Err("failed parsing python packages: expected value at line 1 column 1".into()));
    let ok = python::interpret(Ok(vec![]));
    assert_eq!(ok, Ok(Some(vec![])));
}

#[test]
fn run_audits_python_then_r() {
    let engine = MockEngine::new()
        .with_response(PY_CMD, Ok(br#"[{"name":"numpy","version":"2.0.0"}]"#.to_vec()))
        .with_response(R_CMD, Err("Rscript: not found".into()));
    let report = run(&engine, "image", &decode).unwrap();
    assert_eq!(report.description, None);
    assert_eq!(
        report.python_packages,
        Some(vec![Package { name: "numpy".into(), version: "2.0.0".into() }])
    );
    assert_eq!(report.r_packages, None);
}

#[test]
fn run_reports_what_the_separate_audits_find() {
    let engine = MockEngine::new()
        .with_response(
            PY_CMD,
            Ok(br#"[{"name":"requests","version":"2.32.0"},{"name":"idna","version":"3.7"}]"#.to_vec()),
        )
        .with_response(R_CMD, Ok(b"Package Version\nR6 \"R6\" \"2.5.1\"\n".to_vec()));
    let p = python::audit(&engine, "image", &decode).unwrap();
    let q = r::audit(&engine, "image").unwrap();
    let report = run(&engine, "image", &decode).unwrap();
    assert_eq!(report.python_packages, p);
    assert_eq!(report.r_packages, q);
    assert_eq!(report.description, None);

    let failing = MockEngine::new().with_response(PY_CMD, Ok(b"[1]".to_vec()));
    let alone = python::audit(&failing, "image", &decode).unwrap_err();
    assert_eq!(run(&failing, "image", &decode).unwrap_err(), alone);
}

#[test]
fn run_stops_at_a_python_listing_that_does_not_decode() {
    // R is never asked: the mock would panic on an unknown command.
    let engine = MockEngine::new().with_response(PY_CMD, Ok(b"{}".to_vec()));
    let err = run(&engine, "image", &decode).unwrap_err();
    assert!(err.starts_with("failed parsing python packages: "));
}

#[test]
fn commands_are_the_listing_commands() {
    assert_eq!(python::command(), PY_CMD.to_vec());
    assert_eq!(r::command(), R_CMD.to_vec());
}

#[test]
fn python_output_decides_before_decoding() {
    assert_eq!(python::from_output(Err("python3: not found".into()), &decode), Ok(None));
    assert_eq!(
        python::from_output(Ok(br#"[{"name":"pip","version":"24.0"}]"#.to_vec()), &decode),
        Ok(Some(vec![Package { name: "pip".into(), version: "24.0".into() }]))
    );
    let err = python::from_output(Ok(b"[1]".to_vec()), &decode).unwrap_err();
    assert_eq!(err, "failed parsing python packages: missing field `name`");
}

#[test]
fn printed_rows_read_back() {
    let listing = "Package Version\nMatrix \"Matrix\" \"1.6-5\"\nR6 \"R6\" \"2.5.1\"\nx \"x\" \"\"\n";
    assert_eq!(
        r::parse_listing(listing),
        vec![
            Package { name: "Matrix".into(), version: "1.6-5".into() },
            Package { name: "R6".into(), version: "2.5.1".into() },
            Package { name: "x".into(), version: "".into() },
        ]
    );
}
