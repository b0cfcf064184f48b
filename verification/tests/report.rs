use dfaudit::audit::models::{AuditReport, Package};
use dfaudit::paths::PathPart;
use dfaudit::report::html::{
    is_report_file, project_name, render_index, write_card, write_packages, ProjectCard,
};
use dfaudit::report::json::{report_location, REPORT_FILE};

fn empty_report() -> AuditReport {
    AuditReport { description: None, python_packages: None, r_packages: None }
}

fn card(project: &str, report: AuditReport) -> ProjectCard {
    ProjectCard { project: project.to_string(), updated: "2024-05-01 12:00:00".into(), report }
}

fn normal(parts: &[&str]) -> Vec<PathPart> {
    parts.iter().map(|p| PathPart::Normal(p.to_string())).collect()
}

#[test]
fn generates_index_html() {
    let html = render_index(vec![card("my-project", empty_report())]);
    assert!(html.starts_with("<!DOCTYPE html>"));
    assert!(html.trim_end().ends_with("</html>"));
}

#[test]
fn includes_project_name() {
    let html = render_index(vec![card("backend-api", empty_report())]);
    assert!(html.contains("backend-api"));
}

#[test]
fn includes_package_information() {
    let report = AuditReport {
        python_packages: Some(vec![Package { name: "requests".into(), version: "2.32.0".into() }]),
        r_packages: None,
        description: None,
    };
    let html = render_index(vec![card("python-app", report)]);
    assert!(html.contains("requests"));
    assert!(html.contains("2.32.0"));
    assert!(html.contains("Python Packages"));
}

#[test]
fn ignores_non_report_files() {
    assert!(!is_report_file(true, "random.json"));
    assert!(!is_report_file(false, "audit-report.json"));
    assert!(is_report_file(true, "audit-report.json"));
    let html = render_index(vec![]);
    assert!(!html.contains("random"));
}

#[test]
fn generates_multiple_projects() {
    let html = render_index(vec![
        card("project-a", empty_report()),
        card("project-b", empty_report()),
    ]);
    assert!(html.contains("project-a"));
    assert!(html.contains("project-b"));
    assert!(html.find("project-a").unwrap() < html.find("project-b").unwrap());
}

#[test]
fn includes_description() {
    let report = AuditReport {
        description: Some("A web server image".into()),
        python_packages: None,
        r_packages: None,
    };
    let html = render_index(vec![card("docker-app", report)]);
    assert!(html.contains("A web server image"));
    assert!(!html.contains("No description available"));
    let html = render_index(vec![card("docker-app", empty_report())]);
    assert!(html.contains("No description available"));
}

#[test]
fn package_section_counts_and_lists_rows() {
    let mut html = String::new();
    write_packages(
        &mut html,
        "R Packages",
        Some(vec![
            Package { name: "Matrix".into(), version: "1.6-5".into() },
            Package { name: "dplyr".into(), version: "1.1.4".into() },
        ]),
    );
    assert!(html.contains("<summary>\nR Packages (2)\n</summary>"));
    assert!(html.contains("<tr class=\"pkg\" data-name=\"matrix\">\n\n<td>\nMatrix\n</td>\n\n<td>\n1.6-5\n</td>"));
    assert_eq!(html.matches("<tr class=\"pkg\"").count(), 2);
    let mut none = String::from("x");
    write_packages(&mut none, "R Packages", None);
    assert_eq!(none, "x");
}

#[test]
fn package_count_of_a_large_list() {
    let many: Vec<Package> =
        (0..1234).map(|i| Package { name: format!("P{}", i), version: "1".into() }).collect();
    let mut html = String::new();
    write_packages(&mut html, "Python Packages", Some(many));
    assert!(html.contains("Python Packages (1234)"));
    assert!(html.contains("data-name=\"p1233\""));
}

#[test]
fn card_shows_time_of_update() {
    let mut html = String::new();
    write_card(&mut html, card("svc", empty_report()));
    assert!(html.contains("<h2>svc</h2>"));
    assert!(html.contains("Last Updated: 2024-05-01 12:00:00"));
}

#[test]
fn uses_dockerfile_parent_directory_name() {
    let output = normal(&["tmp", "reports"]);
    let dockerfile = normal(&["tmp", "my-container", "Dockerfile"]);
    let loc = report_location(&output, &dockerfile).unwrap();
    assert_eq!(loc.directory, normal(&["tmp", "reports", "my-container"]));
    assert_eq!(loc.file, normal(&["tmp", "reports", "my-container", REPORT_FILE]));
    assert_eq!(project_name(&loc.file), Some("my-container".to_string()));
}

#[test]
fn fails_when_dockerfile_has_no_parent() {
    let output = normal(&["out"]);
    assert_eq!(
        report_location(&output, &vec![]).err(),
        Some("cannot find parent directory".to_string())
    );
    assert_eq!(
        report_location(&output, &vec![PathPart::Root]).err(),
        Some("cannot find parent directory".to_string())
    );
    // A definition in the current directory has a parent, "", with no name.
    assert_eq!(
        report_location(&output, &normal(&["Dockerfile"])).err(),
        Some("cannot get directory name".to_string())
    );
    assert_eq!(
        report_location(&output, &vec![PathPart::Root, PathPart::Normal("Dockerfile".into())])
            .err(),
        Some("cannot get directory name".to_string())
    );
    assert_eq!(
        report_location(&output, &vec![PathPart::Parent, PathPart::Normal("Dockerfile".into())])
            .err(),
        Some("cannot get directory name".to_string())
    );
}

#[test]
fn project_name_needs_a_named_directory() {
    assert_eq!(project_name(&normal(&["audit-report.json"])), None);
    assert_eq!(
        project_name(&vec![PathPart::Current, PathPart::Normal("audit-report.json".into())]),
        None
    );
    assert_eq!(project_name(&normal(&["a", "b", "audit-report.json"])), Some("b".to_string()));
}
