use dfaudit::logging::{level_for, LogLevel};
use dfaudit::progress::shows_spinner;
use dfaudit::text::{decimal_string, split_lines, split_words, trim_matches};

fn chars(s: &str) -> Vec<char> {
    s.chars().collect()
}

fn strings(v: Vec<Vec<char>>) -> Vec<String> {
    v.into_iter().map(|c| c.into_iter().collect()).collect()
}

#[test]
fn levels_follow_verbosity_unless_quiet() {
    assert_eq!(level_for(0, false), LogLevel::Warn);
    assert_eq!(level_for(1, false), LogLevel::Info);
    assert_eq!(level_for(2, false), LogLevel::Debug);
    assert_eq!(level_for(255, false), LogLevel::Debug);
    assert_eq!(level_for(3, true), LogLevel::Error);
}

#[test]
fn spinner_only_while_engine_output_is_hidden() {
    assert!(shows_spinner(0));
    assert!(shows_spinner(1));
    assert!(!shows_spinner(2));
}

#[test]
fn lines_as_str_lines_splits_them() {
    for text in ["", "a", "a\n", "a\n\nb", "\n", "\n\n", "x\r\ny", "end\n\n"] {
        let ours: Vec<String> = strings(split_lines(&chars(text)))
            .into_iter()
            .map(|l| l.strip_suffix('\r').map(String::from).unwrap_or(l))
            .collect();
        let std: Vec<String> = text.lines().map(String::from).collect();
        assert_eq!(ours, std, "on {:?}", text);
    }
}

#[test]
fn words_as_split_whitespace_splits_them() {
    for text in ["", "  ", "a b", "\ta\u{2003}b\u{3000}\u{85}c  ", "x\u{200b}y"] {
        let ours = strings(split_words(&chars(text)));
        let std: Vec<String> = text.split_whitespace().map(String::from).collect();
        assert_eq!(ours, std, "on {:?}", text);
    }
}

#[test]
fn quotes_trimmed_as_trim_matches_trims_them() {
    for text in ["", "\"", "\"\"", "\"a\"", "\"\"a\"b\"\"", "a"] {
        let ours: String = trim_matches(&chars(text), '"').into_iter().collect();
        assert_eq!(ours, text.trim_matches('"'), "on {:?}", text);
    }
}

#[test]
fn decimals_as_format_writes_them() {
    for n in [0usize, 7, 10, 99, 100, 1234567, usize::MAX] {
        assert_eq!(decimal_string(n), n.to_string());
    }
}

#[test]
fn default_values() {
    let cli = dfaudit::cli::Cli::with_defaults();

    assert_eq!(cli.output, "audit");
    assert_eq!(cli.image_name, "temp-image");
    assert_eq!(cli.verbose, 0);
    assert!(!cli.quiet);
    assert!(cli.file.is_none());
    assert!(cli.path.is_none());
    assert_eq!(cli.engine, "podman");
    assert!(!cli.build && !cli.prune && !cli.html);
}
