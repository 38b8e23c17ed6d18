use nixpacks::nixpacks::app::{App, AppFile};
use nixpacks::nixpacks::environment::{Environment, EnvironmentVariables};
use nixpacks::nixpacks::error::Error;
use nixpacks::nixpacks::pkg::Pkg;
use nixpacks::nixpacks::procfile::parse_web_command;
use nixpacks::nixpacks::text::{find_line_end, is_whitespace, rank, to_chars, trim_bounds, Rank};

fn chars(s: &str) -> Vec<char> {
    s.chars().collect()
}

fn names(variables: &EnvironmentVariables) -> Vec<String> {
    let mut out = Vec::new();
    let mut i = 0;
    while let Some((name, _)) = variables.binding(i) {
        out.push(name.clone());
        i += 1;
    }
    out
}

#[test]
fn pkg_renders_bare_and_with_override() {
    assert_eq!(Pkg::new("nodejs").to_nix_string(), "nodejs");
    assert_eq!(
        Pkg::new("yarn").set_override("nodejs = nodejs-16_x").to_nix_string(),
        "(yarn.override { nodejs = nodejs-16_x })"
    );
    assert_eq!(Pkg::new("x").set_override("").to_nix_string(), "(x.override {  })");
}

#[test]
fn pkg_equality_is_structural() {
    let pkg = Pkg::new("yarn").set_override("a = b");
    assert_eq!(pkg.clone(), pkg);
    assert_eq!(pkg, Pkg { name: "yarn".to_string(), overrides: Some("a = b".to_string()) });
    assert_ne!(pkg, Pkg::new("yarn"));
    assert_ne!(Pkg::new("yarn"), Pkg::new("npm"));
}

#[test]
fn error_chain_grows_outward() {
    let error = Error::new("cause");
    assert_eq!(error.messages, vec!["cause".to_string()]);
    assert_eq!(error.describe(), "cause");
    let error = error.context("inner").context("outer");
    assert_eq!(
        error.messages,
        vec!["cause".to_string(), "inner".to_string(), "outer".to_string()]
    );
    assert_eq!(error.describe(), "cause: inner: outer");
    assert_eq!(error.clone(), error);
}

#[test]
fn white_space_is_the_unicode_property() {
    for c in [' ', '\t', '\n', '\r', '\u{b}', '\u{c}', '\u{85}', '\u{a0}', '\u{1680}', '\u{2000}',
        '\u{200a}', '\u{2028}', '\u{2029}', '\u{202f}', '\u{205f}', '\u{3000}']
    {
        assert!(is_whitespace(c));
    }
    for c in ['a', '0', '\u{8}', '\u{e}', '\u{1f}', '!', '\u{200b}', '\u{180e}', '\u{feff}'] {
        assert!(!is_whitespace(c));
    }
    let mut code = 0u32;
    while code < 0x3100 {
        if let Some(c) = char::from_u32(code) {
            assert_eq!(is_whitespace(c), c.is_whitespace());
        }
        code += 1;
    }
}

#[test]
fn to_chars_keeps_every_character() {
    assert_eq!(to_chars(""), Vec::<char>::new());
    assert_eq!(to_chars("héllo ✓"), vec!['h', 'é', 'l', 'l', 'o', ' ', '✓']);
}

#[test]
fn rank_is_the_order_of_str() {
    assert_eq!(rank(&chars("a"), &chars("b")), Rank::Before);
    assert_eq!(rank(&chars("b"), &chars("a")), Rank::After);
    assert_eq!(rank(&chars("abc"), &chars("abc")), Rank::Same);
    assert_eq!(rank(&chars(""), &chars("")), Rank::Same);
    assert_eq!(rank(&chars(""), &chars("a")), Rank::Before);
    assert_eq!(rank(&chars("ab"), &chars("a")), Rank::After);
    assert_eq!(rank(&chars("Z"), &chars("a")), Rank::Before);
    let words = ["", "A", "B", "PATH", "PATH_", "Pa", "a", "ab", "b", "é", "z", "\u{10000}", "\u{ffff}"];
    for x in words {
        for y in words {
            let expected = if x < y {
                Rank::Before
            } else if x == y {
                Rank::Same
            } else {
                Rank::After
            };
            assert_eq!(rank(&chars(x), &chars(y)), expected);
        }
    }
}

#[test]
fn trim_bounds_match_trim() {
    let v = chars("  hello world \t");
    assert_eq!(trim_bounds(&v, 0, v.len()), (2, 13));
    assert_eq!(trim_bounds(&v, 3, 9), (3, 9));
    assert_eq!(trim_bounds(&v, 7, 14), (8, 13));
    let blank = chars(" \t ");
    assert_eq!(trim_bounds(&blank, 0, 3), (3, 3));
    assert_eq!(trim_bounds(&blank, 1, 1), (1, 1));
    let tight = chars("x");
    assert_eq!(trim_bounds(&tight, 0, 1), (0, 1));
}

#[test]
fn line_end_is_the_first_line_feed() {
    assert_eq!(find_line_end(&chars("")), 0);
    assert_eq!(find_line_end(&chars("abc")), 3);
    assert_eq!(find_line_end(&chars("ab\ncd\n")), 2);
    assert_eq!(find_line_end(&chars("\nab")), 0);
}

#[test]
fn web_command_of_a_procfile() {
    assert_eq!(parse_web_command("web: node server.js"), Some("node server.js".to_string()));
    assert_eq!(parse_web_command("web: node server.js\n"), Some("node server.js".to_string()));
    assert_eq!(
        parse_web_command("web:   bin/start --port 80 \r\nworker: bin/work\n"),
        Some("bin/start --port 80".to_string())
    );
    assert_eq!(
        parse_web_command("web: run web: twice"),
        Some("run web: twice".to_string())
    );
    assert_eq!(parse_web_command("web: "), Some("".to_string()));
    assert_eq!(parse_web_command("web:  \t "), Some("".to_string()));
    assert_eq!(parse_web_command("web: ünï ✓"), Some("ünï ✓".to_string()));
}

#[test]
fn procfile_without_a_leading_web_line() {
    assert_eq!(parse_web_command(""), None);
    assert_eq!(parse_web_command("web:"), None);
    assert_eq!(parse_web_command("web:node"), None);
    assert_eq!(parse_web_command("web:\tnode"), None);
    assert_eq!(parse_web_command("Web: node"), None);
    assert_eq!(parse_web_command(" web: node"), None);
    assert_eq!(parse_web_command("worker: a\nweb: node"), None);
    assert_eq!(parse_web_command("\nweb: node"), None);
    assert_eq!(parse_web_command("web:\n node"), None);
}

#[test]
fn variables_are_kept_by_ascending_name() {
    let mut variables = EnvironmentVariables::new();
    assert_eq!(variables.len(), 0);
    assert_eq!(variables.binding(0), None);
    variables.insert("b".to_string(), "2".to_string());
    variables.insert("a".to_string(), "1".to_string());
    variables.insert("c".to_string(), "3".to_string());
    variables.insert("B".to_string(), "0".to_string());
    variables.insert("".to_string(), "empty".to_string());
    assert_eq!(names(&variables), vec!["", "B", "a", "b", "c"]);
    assert_eq!(variables.len(), 5);
    assert_eq!(variables.binding(1), Some((&"B".to_string(), &"0".to_string())));
    assert_eq!(variables.binding(5), None);
}

#[test]
fn insert_replaces_and_get_finds() {
    let mut variables = EnvironmentVariables::new();
    variables.insert("a".to_string(), "1".to_string());
    variables.insert("b".to_string(), "2".to_string());
    variables.insert("a".to_string(), "3".to_string());
    assert_eq!(variables.len(), 2);
    assert_eq!(variables.get("a"), Some(&"3".to_string()));
    assert_eq!(variables.get("b"), Some(&"2".to_string()));
    assert_eq!(variables.get("c"), None);
    assert_eq!(variables.get(""), None);
    assert_eq!(variables.get("ab"), None);
    assert!(variables.contains_key("a"));
    assert!(!variables.contains_key("A"));
    assert_eq!(variables.clone(), variables);
}

#[test]
fn merged_prefers_the_supplied_mapping() {
    let mut base = EnvironmentVariables::new();
    base.insert("a".to_string(), "base".to_string());
    base.insert("b".to_string(), "base".to_string());
    let mut supplied = EnvironmentVariables::new();
    supplied.insert("b".to_string(), "supplied".to_string());
    supplied.insert("c".to_string(), "supplied".to_string());
    let merged = base.merged(&supplied);
    assert_eq!(names(&merged), vec!["a", "b", "c"]);
    assert_eq!(merged.get("a"), Some(&"base".to_string()));
    assert_eq!(merged.get("b"), Some(&"supplied".to_string()));
    assert_eq!(merged.get("c"), Some(&"supplied".to_string()));
    assert_eq!(base.get("b"), Some(&"base".to_string()));
    assert_eq!(base.merged(&EnvironmentVariables::new()), base);
    assert_eq!(EnvironmentVariables::new().merged(&supplied), supplied);
}

#[test]
fn environment_snapshot_and_merge() {
    let mut variables = EnvironmentVariables::new();
    variables.insert("HOME".to_string(), "/root".to_string());
    variables.insert("LANG".to_string(), "C".to_string());
    let env = Environment::new(variables.clone());
    assert_eq!(env.get_variable("HOME"), Some(&"/root".to_string()));
    assert_eq!(env.get_variable("SHELL"), None);
    let mut snapshot = Environment::clone_variables(&env);
    assert_eq!(snapshot, variables);
    snapshot.insert("HOME".to_string(), "/tmp".to_string());
    assert_eq!(env.get_variable("HOME"), Some(&"/root".to_string()));
    let mut supplied = EnvironmentVariables::new();
    supplied.insert("LANG".to_string(), "en".to_string());
    let merged = env.merge_variables(&supplied);
    assert_eq!(merged.get("LANG"), Some(&"en".to_string()));
    assert_eq!(merged.get("HOME"), Some(&"/root".to_string()));
    assert_eq!(merged.len(), 2);
}

#[test]
fn app_answers_from_its_snapshot() {
    let app = App::new(
        "/srv/app",
        vec![
            AppFile::new("package.json", "{}"),
            AppFile::unreadable("logo.png"),
            AppFile::new("package.json", "later"),
        ],
    );
    assert_eq!(app.source, "/srv/app");
    assert!(app.includes_file("package.json"));
    assert!(app.includes_file("logo.png"));
    assert!(!app.includes_file("yarn.lock"));
    assert!(!app.includes_file("Package.json"));
    assert_eq!(app.read_file("package.json"), Ok("{}".to_string()));
    assert_eq!(
        app.read_file("logo.png").unwrap_err().messages,
        vec!["stream did not contain valid UTF-8".to_string(), "Error reading logo.png".to_string()]
    );
    assert_eq!(
        app.read_file("yarn.lock").unwrap_err().messages,
        vec!["No such file or directory".to_string(), "Error reading yarn.lock".to_string()]
    );
}
