use alarms::environment::Environment;

#[test]
fn new_environment_has_no_variable() {
    let env = Environment::new();
    assert_eq!(env.var("PERIOD_MINUTES"), None);
    assert!(!env.is_set("PERIOD_MINUTES"));
    assert!(!env.is_set(""));
}

#[test]
fn set_variable_is_found() {
    let mut env = Environment::new();
    env.set_var("PERIOD_MINUTES", "3");
    assert_eq!(env.var("PERIOD_MINUTES").map(|v| v.as_str()), Some("3"));
    assert!(env.is_set("PERIOD_MINUTES"));
    assert_eq!(env.var("DATA_POINTS"), None);
    assert_eq!(env.var("period_minutes"), None);
}

#[test]
fn set_variable_replaces_the_value() {
    let mut env = Environment::new();
    env.set_var("K", "1");
    env.set_var("K", "2");
    assert_eq!(env.var("K").map(|v| v.as_str()), Some("2"));
}

#[test]
fn removed_variable_is_gone() {
    let mut env = Environment::new();
    env.set_var("K", "1");
    env.set_var("L", "2");
    env.remove_var("K");
    assert_eq!(env.var("K"), None);
    assert_eq!(env.var("L").map(|v| v.as_str()), Some("2"));
    env.remove_var("K");
    assert_eq!(env.var("K"), None);
}

#[test]
fn empty_value_is_still_set() {
    let mut env = Environment::new();
    env.set_var("K", "");
    assert!(env.is_set("K"));
    assert_eq!(env.var("K").map(|v| v.as_str()), Some(""));
}
