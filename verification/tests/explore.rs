use dfaudit::cli::Cli;
use dfaudit::explore::dfiles::{
    collect_found, confirm_file, get_files, is_container_definition, FileLookup,
};

fn cli(file: Option<&str>, path: Option<&str>) -> Cli {
    Cli { file: file.map(String::from), path: path.map(String::from), ..Cli::default() }
}

#[test]
fn lookup_follows_the_options() {
    assert!(matches!(get_files(&cli(Some("Dockerfile"), None)), FileLookup::CheckExists(f) if f == "Dockerfile"));
    assert!(matches!(get_files(&cli(None, Some("/tmp/project"))), FileLookup::Search(p) if p == "/tmp/project"));
    assert!(matches!(get_files(&cli(None, None)), FileLookup::Failed(m) if m == "Provide either --file or --path"));
    assert!(matches!(get_files(&cli(Some("a"), Some("b"))), FileLookup::Failed(m) if m == "Cannot use --file and --path together"));
}

#[test]
fn single_file_must_exist() {
    assert_eq!(confirm_file("Dockerfile".into(), true), Ok(vec!["Dockerfile".to_string()]));
    assert_eq!(
        confirm_file("Dockerfile.does-not-exist".into(), false),
        Err("File does not exist: Dockerfile.does-not-exist".to_string())
    );
}

#[test]
fn search_must_find_something() {
    assert_eq!(
        collect_found("tests/fixtures/c", vec![]),
        Err("No Dockerfile or Containerfile found in 'tests/fixtures/c'".to_string())
    );
    let found = vec!["a/Dockerfile".to_string(), "b/Containerfile".to_string()];
    assert_eq!(collect_found("x", found.clone()), Ok(found));
}

#[test]
fn only_exact_names_are_definitions() {
    assert!(is_container_definition(true, "Dockerfile"));
    assert!(is_container_definition(true, "Containerfile"));
    assert!(!is_container_definition(false, "Dockerfile"));
    for name in ["Dummyfile", "dockerfile", "Dockerfile.dev", "Containerfile~", "XDockerfile", ""] {
        assert!(!is_container_definition(true, name), "{} should not match", name);
    }
}
