use spin_variables::env_provider::{env_var_name, EnvProvider};
use spin_variables::resolver::{ProviderAnswer, ResolveError, Resolver};
use spin_variables::source::{infer_app_source, AppSource};
use spin_variables::variable::VariableInfo;

fn variable(name: &str, default_value: Option<&str>) -> VariableInfo {
    VariableInfo {
        name: name.to_string(),
        default_value: default_value.map(|d| d.to_string()),
        required: default_value.is_none(),
        secret: false,
    }
}

fn env(entries: &[(&str, &str)]) -> Vec<(String, String)> {
    entries.iter().map(|(k, v)| (k.to_string(), v.to_string())).collect()
}

#[test]
fn override_name_is_prefix_and_upper_case_key() {
    assert_eq!(env_var_name("db_url"), "SPIN_VARIABLE_DB_URL");
    assert_eq!(env_var_name(""), "SPIN_VARIABLE_");
    assert_eq!(env_var_name("a1_b"), "SPIN_VARIABLE_A1_B");
}

#[test]
fn override_name_leaves_non_ascii_letters() {
    assert_eq!(env_var_name("é_x"), "SPIN_VARIABLE_é_X");
}

#[test]
fn env_provider_finds_the_entry_named_after_the_key() {
    let e = env(&[("PATH", "/bin"), ("SPIN_VARIABLE_DB_URL", "pg"), ("SPIN_VARIABLE_DB_URL", "late")]);
    assert_eq!(EnvProvider.get("db_url", &e), Some("pg".to_string()));
    assert_eq!(EnvProvider.get("db", &e), None);
    assert_eq!(EnvProvider.get("path", &e), None);
    assert_eq!(EnvProvider.get("db_url", &Vec::new()), None);
}

#[test]
fn default_is_the_value_without_override() {
    let resolver = Resolver::new(&vec![variable("db_url", Some("sqlite"))]);
    assert_eq!(resolver.resolve("db_url", &env(&[("HOME", "/root")])), Ok("sqlite".to_string()));
}

#[test]
fn override_wins_over_default() {
    let resolver = Resolver::new(&vec![variable("db_url", Some("sqlite")), variable("k", None)]);
    let e = env(&[("SPIN_VARIABLE_DB_URL", "pg"), ("SPIN_VARIABLE_K", "v")]);
    assert_eq!(resolver.resolve("db_url", &e), Ok("pg".to_string()));
    assert_eq!(resolver.resolve("k", &e), Ok("v".to_string()));
}

#[test]
fn declared_variable_without_any_value_is_missing() {
    let resolver = Resolver::new(&vec![variable("api_key", None)]);
    assert_eq!(resolver.resolve("api_key", &Vec::new()), Err(ResolveError::MissingValue));
}

#[test]
fn undeclared_key_is_unknown_even_with_an_entry() {
    let resolver = Resolver::new(&vec![variable("api_key", None)]);
    let e = env(&[("SPIN_VARIABLE_OTHER", "v")]);
    assert_eq!(resolver.resolve("other", &e), Err(ResolveError::UnknownKey));
}

#[test]
fn resolver_of_no_variables_is_empty() {
    let resolver = Resolver::new(&Vec::new());
    assert!(resolver.declared.is_empty());
    assert_eq!(resolver.declared_default("x"), None);
    assert_eq!(resolver.resolve("x", &Vec::new()), Err(ResolveError::UnknownKey));
}

#[test]
fn resolver_keeps_keys_and_defaults_in_order() {
    let resolver = Resolver::new(&vec![variable("b", Some("1")), variable("a", None)]);
    assert_eq!(
        resolver.declared,
        vec![("b".to_string(), Some("1".to_string())), ("a".to_string(), None)]
    );
    assert_eq!(resolver.declared_default("b"), Some(Some("1".to_string())));
    assert_eq!(resolver.declared_default("a"), Some(None));
}

#[test]
fn no_locator_means_the_default_manifest() {
    assert_eq!(infer_app_source(&None, false), AppSource::File("spin.toml".to_string()));
    assert_eq!(infer_app_source(&None, true), AppSource::File("spin.toml".to_string()));
}

#[test]
fn locator_is_registry_or_path() {
    let reference = Some("ghcr.io/example/app:v1".to_string());
    assert_eq!(
        infer_app_source(&reference, true),
        AppSource::Registry("ghcr.io/example/app:v1".to_string())
    );
    let path = Some("apps/demo".to_string());
    assert_eq!(infer_app_source(&path, false), AppSource::File("apps/demo".to_string()));
}

#[test]
fn first_provider_with_a_value_wins() {
    let resolver = Resolver::new(&vec![variable("k", Some("d"))]);
    let found = |v: &str| ProviderAnswer::Found(v.to_string());
    assert_eq!(
        resolver.resolve_with("k", &vec![ProviderAnswer::NotFound, found("one"), found("two")]),
        Ok("one".to_string())
    );
    assert_eq!(
        resolver.resolve_with("k", &vec![found("one"), ProviderAnswer::Failed]),
        Ok("one".to_string())
    );
    assert_eq!(
        resolver.resolve_with("k", &vec![ProviderAnswer::NotFound, ProviderAnswer::NotFound]),
        Ok("d".to_string())
    );
    assert_eq!(resolver.resolve_with("k", &Vec::new()), Ok("d".to_string()));
}

#[test]
fn failing_provider_is_an_error_for_its_key() {
    let resolver = Resolver::new(&vec![variable("k", Some("d")), variable("m", None)]);
    let answers = vec![ProviderAnswer::NotFound, ProviderAnswer::Failed, ProviderAnswer::Found("late".to_string())];
    assert_eq!(resolver.resolve_with("k", &answers), Err(ResolveError::ProviderFailed));
    assert_eq!(resolver.resolve_with("m", &vec![ProviderAnswer::NotFound]), Err(ResolveError::MissingValue));
    assert_eq!(resolver.resolve_with("nope", &answers), Err(ResolveError::UnknownKey));
}

#[test]
fn environment_alone_is_a_chain_of_one() {
    let resolver = Resolver::new(&vec![variable("db_url", Some("sqlite")), variable("k", None)]);
    let e = env(&[("SPIN_VARIABLE_DB_URL", "pg")]);
    for key in ["db_url", "k", "other"] {
        let answer = match EnvProvider.get(key, &e) {
            Some(v) => ProviderAnswer::Found(v),
            None => ProviderAnswer::NotFound,
        };
        assert_eq!(resolver.resolve_with(key, &vec![answer]), resolver.resolve(key, &e));
    }
}

#[test]
fn first_declaration_of_a_name_decides() {
    let resolver = Resolver::new(&vec![variable("k", Some("first")), variable("k", Some("second"))]);
    assert_eq!(resolver.resolve("k", &Vec::new()), Ok("first".to_string()));
}
