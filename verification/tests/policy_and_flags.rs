use script_bridge::errors::BridgeError;
use script_bridge::flags::EngineConfigurator;
use script_bridge::permissions::{build_grants, PermissionOptions};

fn no_grants() -> PermissionOptions {
    PermissionOptions {
        allow_all: false,
        allow_read: None,
        allow_write: None,
        allow_net: None,
    }
}

fn strings(items: &[&str]) -> Vec<String> {
    items.iter().map(|s| String::from(*s)).collect()
}

#[test]
fn permission_token_after_script_is_ambiguous() {
    let argv = strings(&["main.js", "--allow-read=."]);
    let r = build_grants(no_grants(), &argv);
    match r {
        Err(e) => {
            assert!(matches!(e, BridgeError::AmbiguousPermissionIntent));
            assert!(!e.guidance().is_empty());
        }
        Ok(_) => panic!("an ambiguous grant must never resolve to an empty grant set"),
    }
}

#[test]
fn allow_all_shorthand_after_script_is_ambiguous() {
    let argv = strings(&["--quiet", "main.js", "-A"]);
    let r = build_grants(no_grants(), &argv);
    assert!(matches!(r, Err(BridgeError::AmbiguousPermissionIntent)));
}

#[test]
fn permission_before_script_is_accepted() {
    let options = PermissionOptions {
        allow_read: Some(strings(&["."])),
        ..no_grants()
    };
    let argv = strings(&["--allow-read=.", "main.js"]);
    let grants = build_grants(options, &argv).expect("grants recognized before the script");
    assert!(!grants.grants_all());
    assert_eq!(grants.read_scopes().as_deref(), Some(strings(&["."]).as_slice()));
    assert_eq!(grants.write_scopes(), &None);
    assert_eq!(grants.net_scopes(), &None);
}

#[test]
fn recognized_grant_disarms_trailing_tokens() {
    // The script itself may legitimately take a permission-like argument once
    // the caller's own grants were recognized.
    let options = PermissionOptions {
        allow_net: Some(strings(&[])),
        ..no_grants()
    };
    let argv = strings(&["--allow-net", "main.js", "--allow-read"]);
    let grants = build_grants(options, &argv).expect("intent is unambiguous");
    assert_eq!(grants.net_scopes().as_deref(), Some(strings(&[]).as_slice()));
}

#[test]
fn plain_sandboxed_run_is_accepted() {
    let argv = strings(&["main.js", "positional", "42"]);
    let grants = build_grants(no_grants(), &argv).expect("a deliberate empty grant set");
    assert!(!grants.grants_all());
    assert_eq!(grants.read_scopes(), &None);
}

#[test]
fn all_option_like_tokens_mean_no_script() {
    let argv = strings(&["--quiet", "--allow-read"]);
    assert!(build_grants(no_grants(), &argv).is_ok());
}

#[test]
fn configure_is_idempotent_on_identical_input() {
    let defaults = strings(&["--stack-size=500"]);
    let env_flags = strings(&["--trace-gc"]);
    let explicit = strings(&["--stack-size=1000"]);
    let mut configurator = EngineConfigurator::new();
    assert!(!configurator.is_configured());
    assert!(configurator
        .configure(&defaults, &env_flags, &explicit)
        .is_ok());
    let first = configurator.applied_flags().clone();
    assert!(configurator
        .configure(&defaults, &env_flags, &explicit)
        .is_ok());
    assert_eq!(configurator.applied_flags(), &first);
    assert!(configurator.is_configured());
}

#[test]
fn reconfiguring_with_different_flags_is_refused() {
    let mut configurator = EngineConfigurator::new();
    assert!(configurator
        .configure(&strings(&[]), &strings(&[]), &strings(&["--trace-gc"]))
        .is_ok());
    let before = configurator.applied_flags().clone();
    let r = configurator.configure(&strings(&[]), &strings(&[]), &strings(&["--no-opt"]));
    assert!(matches!(r, Err(BridgeError::EngineAlreadyConfigured)));
    assert_eq!(configurator.applied_flags(), &before);
}

#[test]
fn merged_flags_keep_precedence_order() {
    let mut configurator = EngineConfigurator::new();
    configurator
        .configure(
            &strings(&["--a=default"]),
            &strings(&["--a=env", "--b=env"]),
            &strings(&["--a=explicit"]),
        )
        .expect("first configuration");
    assert_eq!(
        configurator.applied_flags(),
        &Some(strings(&[
            "--a=default",
            "--a=env",
            "--b=env",
            "--a=explicit"
        ]))
    );
}
