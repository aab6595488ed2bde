use tds::policy::{Effort, HttpToolConfig, Policy, Thinking};

#[test]
fn wildcard_rules_match_subdomains_but_not_lookalikes() {
    let cfg = HttpToolConfig {
        allowed_hosts: vec!["*.example.com".into(), "api.github.com".into()],
        ..Default::default()
    };
    assert!(cfg.allows("example.com"));
    assert!(cfg.allows("docs.example.com"));
    assert!(cfg.allows("API.GITHUB.COM"));
    // The lookalike is the whole point of not doing a substring match.
    assert!(!cfg.allows("evil-example.com"));
    assert!(!cfg.allows("example.com.evil.net"));
    assert!(!cfg.allows("github.com"));
}

#[test]
fn an_empty_allowlist_reaches_nothing() {
    let cfg = HttpToolConfig::default();
    assert!(!cfg.allows("example.com"));
}

#[test]
fn disabled_thinking_above_high_effort_is_rejected_at_load() {
    let mut policy = Policy::default();
    policy.llm.thinking = Thinking::Disabled;
    policy.llm.effort = Effort::Max;
    assert!(policy.validate().is_err());

    policy.llm.effort = Effort::High;
    assert!(policy.validate().is_ok());
}

#[test]
fn the_default_policy_is_valid() {
    Policy::default().validate().unwrap();
}

#[test]
fn each_rule_of_a_policy_has_its_own_complaint() {
    let message = |change: fn(&mut Policy)| {
        let mut policy = Policy::default();
        change(&mut policy);
        policy.validate().unwrap_err().message()
    };
    assert_eq!(message(|p| p.limits.fuel = 0), "limits.fuel must be greater than zero");
    assert_eq!(
        message(|p| p.limits.wall_clock_ms = 0),
        "limits.wall_clock_ms must be greater than zero"
    );
    assert_eq!(message(|p| p.limits.max_steps = 0), "limits.max_steps must be greater than zero");
    assert_eq!(
        message(|p| p.limits.memory_bytes = 1_048_575),
        "limits.memory_bytes must be at least 1 MiB"
    );
    assert_eq!(
        message(|p| {
            p.llm.thinking = Thinking::Disabled;
            p.llm.effort = Effort::XHigh;
        }),
        "llm.thinking = \"disabled\" is only valid at effort \"high\" or lower (got XHigh); raise thinking or lower effort"
    );
    assert_eq!(
        message(|p| p.tools.enabled = vec!["now".into(), "rm \"x\"".into()]),
        "tools.enabled lists unknown tool \"rm \\\"x\\\"\""
    );
}

#[test]
fn the_first_broken_rule_is_reported() {
    let mut policy = Policy::default();
    policy.limits.fuel = 0;
    policy.limits.max_steps = 0;
    policy.tools.enabled = vec!["nope".into()];
    assert_eq!(policy.validate().unwrap_err().message(), "limits.fuel must be greater than zero");
    policy.limits.fuel = 1;
    assert_eq!(policy.validate().unwrap_err().message(), "limits.max_steps must be greater than zero");
    policy.limits.max_steps = 1;
    assert!(policy.validate().unwrap_err().message().contains("nope"));
}

#[test]
fn the_least_memory_is_enough() {
    let mut policy = Policy::default();
    policy.limits.memory_bytes = 1024 * 1024;
    assert!(policy.validate().is_ok());
}

#[test]
fn the_defaults() {
    let policy = Policy::default();
    assert_eq!(policy.limits.fuel, 1_000_000_000);
    assert_eq!(policy.limits.wall_clock_ms, 120_000);
    assert_eq!(policy.limits.memory_bytes, 64 * 1024 * 1024);
    assert_eq!(policy.limits.table_elements, 10_000);
    assert_eq!(policy.limits.max_steps, 8);
    assert_eq!(policy.limits.max_request_bytes, 4 * 1024 * 1024);
    assert_eq!(policy.llm.max_tokens, 8192);
    assert_eq!(policy.llm.effort.as_str(), "high");
    assert_eq!(policy.tools.enabled, vec!["now", "kv_get", "kv_put"]);
    assert_eq!(policy.tools.kv.max_keys, 128);
    assert_eq!(policy.tools.kv.max_value_bytes, 16 * 1024);
    assert_eq!(policy.tools.http.max_response_bytes, 64 * 1024);
}

#[test]
fn a_wider_allowlist_reaches_no_less() {
    let narrow = HttpToolConfig { allowed_hosts: vec!["a.test".into()], ..Default::default() };
    let wide = HttpToolConfig {
        allowed_hosts: vec!["a.test".into(), "*.b.test".into()],
        ..Default::default()
    };
    assert!(narrow.allows("a.test") && wide.allows("a.test"));
    assert!(!narrow.allows("x.b.test") && wide.allows("x.b.test"));
    assert!(wide.allows("X.B.TEST") == wide.allows("x.b.test"));
}
