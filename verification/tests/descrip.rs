use dfaudit::descrip::description_in;

#[test]
fn description_found() {
    let text = r#"
          LABEL name="my-app"
          LABEL description="A web server image"
          LABEL version="1.0"
          "#;
    assert_eq!(description_in(text), Some("A web server image".to_string()));
}

#[test]
fn description_not_found() {
    let text = r#"
          LABEL name="my-app"
          LABEL version="1.0"
          "#;
    assert_eq!(description_in(text), None);
}

/// What the pattern of the regex crate finds: the first label named
/// `description`, scanning non-overlapping matches.
fn with_regex(text: &str) -> Option<String> {
    let re = regex::Regex::new(r#"LABEL\s+(\w+)="([^"]*)""#).unwrap();
    for cap in re.captures_iter(text) {
        if &cap[1] == "description" {
            return Some(cap[2].to_string());
        }
    }
    None
}

#[test]
fn description_agrees_with_the_label_pattern() {
    let cases = [
        "",
        "LABEL description=\"x\"",
        "LABEL  \t description=\"\"",
        "LABELdescription=\"x\"",
        "LABEL description = \"x\"",
        "LABEL description=\"unterminated",
        "LABEL a=\"LABEL description=\" x\" LABEL description=\"second\"",
        "label description=\"lower\"\nLABEL description=\"upper\"",
        "LABEL\u{a0}description=\"nbsp\"",
        "LABEL\u{3000}déscription=\"unicode key\" LABEL description=\"é ü\"",
        "LABEL descriptions=\"no\" LABEL description=\"yes\"",
        "LABEL LABEL description=\"nested\"",
        "LABEL x_1=\"a\"\nLABEL description=\"multi\nline\"",
        "LABEL description=\"first\" LABEL description=\"second\"",
        "LABEL a=\"\"LABEL description=\"adjacent\"",
        "LABEL ünïcode=\"v\" LABEL description=\"after\"",
    ];
    for case in cases {
        assert_eq!(description_in(case), with_regex(case), "on {:?}", case);
    }
}
