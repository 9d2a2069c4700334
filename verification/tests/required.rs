use alarms::config::required;
use alarms::environment::Environment;
use alarms::error::Error;

fn complete() -> Environment {
    let mut env = Environment::new();
    env.set_var("RAILWAY_API_TOKEN", "api");
    env.set_var("ALARM_TOKEN", "alarm");
    env.set_var("RAILWAY_PROJECT_ID", "project");
    env.set_var("RAILWAY_MONITORED_SERVICE_ID", "service");
    env.set_var("WEB_HOOK_URL", "https://example.invalid/hook");
    env
}

fn missing(env: &Environment) -> &'static str {
    match required(env) {
        Err(Error::MissingEnvVar(name)) => name,
        other => panic!("unexpected outcome {:?}", other),
    }
}

#[test]
fn required_settings_are_handed_out_in_order() {
    let settings = required(&complete()).expect("nothing is missing");
    assert_eq!(
        settings,
        ("api".to_string(), "alarm".to_string(), "project".to_string(), "service".to_string())
    );
}

#[test]
fn each_required_setting_is_missed_by_name() {
    assert_eq!(missing(&Environment::new()), "RAILWAY_API_TOKEN");
    for name in
        ["RAILWAY_API_TOKEN", "ALARM_TOKEN", "RAILWAY_PROJECT_ID", "RAILWAY_MONITORED_SERVICE_ID"]
    {
        let mut env = complete();
        env.remove_var(name);
        assert_eq!(missing(&env), name);
        assert_eq!(required(&env).unwrap_err().key(), name);
    }
}

#[test]
fn the_first_missing_setting_is_named() {
    let mut env = complete();
    env.remove_var("RAILWAY_PROJECT_ID");
    env.remove_var("ALARM_TOKEN");
    env.remove_var("WEB_HOOK_URL");
    assert_eq!(missing(&env), "ALARM_TOKEN");
}

#[test]
fn one_way_of_delivery_is_needed() {
    let mut env = complete();
    env.remove_var("WEB_HOOK_URL");
    assert_eq!(
        missing(&env),
        "WEB_HOOK_URL or the combination PAGER_DUTY_TOKEN + PAGER_DUTY_SOURCE + PAGER_DUTY_ROUTING_KEY"
    );
    // The source and the routing key alone are no pager.
    env.set_var("PAGER_DUTY_SOURCE", "source");
    env.set_var("PAGER_DUTY_ROUTING_KEY", "key");
    assert_eq!(
        missing(&env),
        "WEB_HOOK_URL or the combination PAGER_DUTY_TOKEN + PAGER_DUTY_SOURCE + PAGER_DUTY_ROUTING_KEY"
    );
    env.set_var("PAGER_DUTY_TOKEN", "token");
    assert!(required(&env).is_ok());
}

#[test]
fn a_pager_needs_its_source_and_routing_key() {
    let wanted =
        "PAGER_DUTY_SOURCE and PAGER_DUTY_ROUTING_KEY are required if PagerDuty is integrated";
    let mut env = complete();
    env.set_var("PAGER_DUTY_TOKEN", "token");
    assert_eq!(missing(&env), wanted);
    env.set_var("PAGER_DUTY_SOURCE", "source");
    assert_eq!(missing(&env), wanted);
    env.remove_var("PAGER_DUTY_SOURCE");
    env.set_var("PAGER_DUTY_ROUTING_KEY", "key");
    assert_eq!(missing(&env), wanted);
    env.set_var("PAGER_DUTY_SOURCE", "source");
    assert!(required(&env).is_ok());
    env.remove_var("WEB_HOOK_URL");
    assert!(required(&env).is_ok());
}
