use spin_variables::expand::{
    expand, expand_all, expand_component, expand_field, is_candidate, ComponentDescriptor,
    ComponentExpansion, ExpansionError, ExpansionResult,
};
use spin_variables::resolver::{ResolveError, Resolver};
use spin_variables::template::{
    is_valid_key, skip_spaces_back_in, skip_spaces_in, Part, Template, TemplateSyntaxError,
};
use spin_variables::text::{chars_of, contains_open_delimiter, find_pair, string_of_range};
use spin_variables::variable::VariableInfo;

fn variable(name: &str, default_value: Option<&str>, secret: bool) -> VariableInfo {
    VariableInfo {
        name: name.to_string(),
        default_value: default_value.map(|d| d.to_string()),
        required: default_value.is_none(),
        secret,
    }
}

fn env(entries: &[(&str, &str)]) -> Vec<(String, String)> {
    entries.iter().map(|(k, v)| (k.to_string(), v.to_string())).collect()
}

fn component(id: &str, config: &[(&str, &str)], hosts: &[&str]) -> ComponentDescriptor {
    ComponentDescriptor {
        id: id.to_string(),
        config_fields: config.iter().map(|(k, v)| (k.to_string(), v.to_string())).collect(),
        outbound_hosts: hosts.iter().map(|h| h.to_string()).collect(),
    }
}

fn lit(s: &str) -> Part {
    Part::Literal(s.to_string())
}

fn key(s: &str) -> Part {
    Part::Key(s.to_string())
}

fn value(s: &str) -> ExpansionResult {
    ExpansionResult::Value(s.to_string())
}

#[test]
fn characters_and_ranges() {
    assert_eq!(chars_of("aé{"), vec!['a', 'é', '{']);
    assert_eq!(chars_of(""), Vec::<char>::new());
    let v = chars_of("hello");
    assert_eq!(string_of_range(&v, 1, 4), "ell");
    assert_eq!(string_of_range(&v, 2, 2), "");
}

#[test]
fn first_pair_is_found_from_the_start_position() {
    let v = chars_of("a{{b{{c{");
    assert_eq!(find_pair(&v, '{', 0), Some(1));
    assert_eq!(find_pair(&v, '{', 2), Some(4));
    assert_eq!(find_pair(&v, '{', 5), None);
    assert_eq!(find_pair(&v, '}', 0), None);
    assert_eq!(find_pair(&v, '{', 8), None);
    assert_eq!(find_pair(&chars_of("{{{"), '{', 1), Some(1));
}

#[test]
fn open_delimiter_is_two_braces_in_a_row() {
    assert!(contains_open_delimiter("x{{"));
    assert!(contains_open_delimiter("{{ a }}"));
    assert!(!contains_open_delimiter("{ {"));
    assert!(!contains_open_delimiter("example.com"));
    assert!(!contains_open_delimiter(""));
}

#[test]
fn spaces_are_skipped_from_both_ends() {
    let v = chars_of(" \t ab \n");
    assert_eq!(skip_spaces_in(&v, 0, 7), 3);
    assert_eq!(skip_spaces_back_in(&v, 3, 7), 5);
    assert_eq!(skip_spaces_in(&v, 0, 2), 2);
    assert_eq!(skip_spaces_back_in(&v, 0, 3), 0);
}

#[test]
fn keys_are_lower_case_words() {
    let ok = ["a", "api_key", "a1", "a_1_b", "z9"];
    for k in ok {
        let v = chars_of(k);
        assert!(is_valid_key(&v, 0, v.len()), "{}", k);
    }
    let bad = ["", "A", "1a", "_a", "a_", "a__b", "a b", "a-b", "aB", "é"];
    for k in bad {
        let v = chars_of(k);
        assert!(!is_valid_key(&v, 0, v.len()), "{}", k);
    }
}

#[test]
fn text_without_placeholder_is_one_literal() {
    assert_eq!(Template::parse("example.com"), Ok(Template { parts: vec![lit("example.com")] }));
    assert_eq!(Template::parse("a { b } c"), Ok(Template { parts: vec![lit("a { b } c")] }));
    assert_eq!(Template::parse(""), Ok(Template { parts: vec![] }));
}

#[test]
fn placeholders_and_literals_alternate() {
    assert_eq!(Template::parse("{{ api_key }}"), Ok(Template { parts: vec![key("api_key")] }));
    assert_eq!(Template::parse("{{api_key}}"), Ok(Template { parts: vec![key("api_key")] }));
    assert_eq!(
        Template::parse("https://{{ host }}:{{\tport }}/x"),
        Ok(Template { parts: vec![lit("https://"), key("host"), lit(":"), key("port"), lit("/x")] })
    );
    assert_eq!(Template::parse("{{a}}{{b}}"), Ok(Template { parts: vec![key("a"), key("b")] }));
    assert_eq!(Template::parse("{{{ a }}"), Err(TemplateSyntaxError::MalformedKey));
    assert_eq!(Template::parse("{{ a }}}"), Ok(Template { parts: vec![key("a"), lit("}")] }));
}

#[test]
fn unbalanced_braces_are_syntax_errors() {
    assert_eq!(Template::parse("{{ a"), Err(TemplateSyntaxError::UnmatchedOpen));
    assert_eq!(Template::parse("x {{"), Err(TemplateSyntaxError::UnmatchedOpen));
    assert_eq!(Template::parse("a }} b"), Err(TemplateSyntaxError::UnmatchedClose));
    assert_eq!(Template::parse("{{ a }} }}"), Err(TemplateSyntaxError::UnmatchedClose));
    assert_eq!(Template::parse("}}{{ a }}"), Err(TemplateSyntaxError::UnmatchedClose));
}

#[test]
fn malformed_keys_are_syntax_errors() {
    for raw in ["{{}}", "{{  }}", "{{ A }}", "{{ a b }}", "{{ a_ }}", "{{ a__b }}", "{{ 1a }}", "{{ a {{ b }}"] {
        assert_eq!(Template::parse(raw), Err(TemplateSyntaxError::MalformedKey), "{}", raw);
    }
}

#[test]
fn first_fault_from_the_left_decides() {
    assert_eq!(Template::parse("{{ A }} {{ b"), Err(TemplateSyntaxError::MalformedKey));
    assert_eq!(Template::parse("{{ a }} {{ b"), Err(TemplateSyntaxError::UnmatchedOpen));
    assert_eq!(Template::parse("}} {{ A }}"), Err(TemplateSyntaxError::UnmatchedClose));
}

#[test]
fn template_expands_keys_to_their_values() {
    let resolver = Resolver::new(&vec![variable("host", Some("localhost"), false), variable("port", None, false)]);
    let e = env(&[("SPIN_VARIABLE_PORT", "8080")]);
    let template = Template::parse("https://{{ host }}:{{ port }}/x").unwrap();
    assert_eq!(expand(&template, &resolver, &e), Ok("https://localhost:8080/x".to_string()));
    assert_eq!(expand(&template, &resolver, &Vec::new()), Err(ResolveError::MissingValue));
    let unknown = Template::parse("{{ nope }}{{ port }}").unwrap();
    assert_eq!(expand(&unknown, &resolver, &Vec::new()), Err(ResolveError::UnknownKey));
    assert_eq!(expand(&Template { parts: vec![] }, &resolver, &e), Ok(String::new()));
}

#[test]
fn text_without_markers_expands_to_itself() {
    let resolver = Resolver::new(&Vec::new());
    for raw in ["", "example.com", "a { b } c", "über"] {
        assert_eq!(expand_field(raw, &resolver, &Vec::new()), value(raw));
    }
}

#[test]
fn required_secret_without_value_shows_the_error_marker() {
    let resolver = Resolver::new(&vec![variable("api_key", None, true)]);
    let outcome = expand_field("{{ api_key }}", &resolver, &Vec::new());
    assert_eq!(outcome, ExpansionResult::Error(ExpansionError::Resolve(ResolveError::MissingValue)));
    assert_eq!(outcome.display(), "<error>");
}

#[test]
fn overridden_secret_expands_to_the_override_unmasked() {
    let resolver = Resolver::new(&vec![variable("api_key", None, true)]);
    let e = env(&[("SPIN_VARIABLE_API_KEY", "abc123")]);
    let outcome = expand_field("{{ api_key }}", &resolver, &e);
    assert_eq!(outcome, value("abc123"));
    assert_eq!(outcome.display(), "abc123");
}

#[test]
fn field_errors_name_their_reason() {
    let resolver = Resolver::new(&vec![variable("a", Some("1"), false)]);
    assert_eq!(
        expand_field("{{ b }}", &resolver, &Vec::new()),
        ExpansionResult::Error(ExpansionError::Resolve(ResolveError::UnknownKey))
    );
    assert_eq!(
        expand_field("{{ a", &resolver, &Vec::new()),
        ExpansionResult::Error(ExpansionError::Syntax(TemplateSyntaxError::UnmatchedOpen))
    );
    assert_eq!(
        expand_field("a }}", &resolver, &Vec::new()),
        ExpansionResult::Error(ExpansionError::Syntax(TemplateSyntaxError::UnmatchedClose))
    );
    assert_eq!(
        expand_field("{{ A }}", &resolver, &Vec::new()),
        ExpansionResult::Error(ExpansionError::Syntax(TemplateSyntaxError::MalformedKey))
    );
}

#[test]
fn plain_outbound_host_has_no_entry() {
    let resolver = Resolver::new(&vec![variable("host", Some("h"), false)]);
    let c = component("web", &[("url", "{{ host }}")], &["example.com", "https://{{ host }}.example.com"]);
    let expansion = expand_component(&c, &resolver, &Vec::new());
    assert_eq!(
        expansion,
        ComponentExpansion {
            id: "web".to_string(),
            fields: vec![
                ("url".to_string(), value("h")),
                ("https://{{ host }}.example.com".to_string(), value("https://h.example.com")),
            ],
        }
    );
}

#[test]
fn failing_field_leaves_its_siblings_alone() {
    let resolver = Resolver::new(&vec![variable("api_key", None, true), variable("host", Some("h"), false)]);
    let components = vec![
        component("a", &[("first", "{{ host }}"), ("key", "{{ api_key }}"), ("plain", "text"), ("bad", "{{ host")], &[]),
        component("b", &[("url", "x-{{ host }}")], &["{{ api_key }}", "{{ host }}"]),
    ];
    let all = expand_all(&components, &resolver, &Vec::new());
    let missing = ExpansionResult::Error(ExpansionError::Resolve(ResolveError::MissingValue));
    assert_eq!(
        all,
        vec![
            ComponentExpansion {
                id: "a".to_string(),
                fields: vec![
                    ("first".to_string(), value("h")),
                    ("key".to_string(), missing.clone()),
                    ("plain".to_string(), value("text")),
                    (
                        "bad".to_string(),
                        ExpansionResult::Error(ExpansionError::Syntax(TemplateSyntaxError::UnmatchedOpen))
                    ),
                ],
            },
            ComponentExpansion {
                id: "b".to_string(),
                fields: vec![
                    ("url".to_string(), value("x-h")),
                    ("{{ api_key }}".to_string(), missing.clone()),
                    ("{{ host }}".to_string(), value("h")),
                ],
            },
        ]
    );
    let shown: Vec<String> = all[0].fields.iter().map(|(_, r)| r.display()).collect();
    assert_eq!(shown, vec!["h", "<error>", "text", "<error>"]);
}

#[test]
fn components_without_templates_are_left_out() {
    let resolver = Resolver::new(&Vec::new());
    let plain = component("plain", &[("k", "v")], &["example.com"]);
    let by_config = component("c", &[("k", "{{ v }}")], &[]);
    let by_host = component("h", &[], &["{{ v }}"]);
    assert!(!is_candidate(&plain));
    assert!(is_candidate(&by_config));
    assert!(is_candidate(&by_host));
    assert!(!is_candidate(&component("none", &[], &[])));
    let all = expand_all(&vec![plain, by_config, by_host], &resolver, &Vec::new());
    let ids: Vec<&str> = all.iter().map(|c| c.id.as_str()).collect();
    assert_eq!(ids, vec!["c", "h"]);
    assert_eq!(expand_all(&Vec::new(), &resolver, &Vec::new()), Vec::new());
}
