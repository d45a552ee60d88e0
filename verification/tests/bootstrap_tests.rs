use rebel::config::Config;
use rebel::image::core_::EnvHandle;
use rebel::image::env_::{
    bootstrap_plan, image_path, load_sys_decision, rc_decision, run_image_loads, Env_, ImageRun,
    LoadOutcome,
};
use rebel::image::mu::Mu;

fn with_namespace(ns: &str) -> Config {
    Config::new(Some(&format!(r#"{{"namespace": "{}"}}"#, ns)), None)
}

fn names(v: &[&str]) -> Vec<String> {
    v.iter().map(|s| s.to_string()).collect()
}

#[test]
fn mu_namespace_loads_nothing() {
    let plan = bootstrap_plan(&with_namespace("mu")).expect("plan expected");
    assert_eq!(plan.ns, "mu");
    assert!(plan.images.is_empty());
}

#[test]
fn core_namespace_loads_core_sys() {
    let plan = bootstrap_plan(&with_namespace("core")).expect("plan expected");
    assert_eq!(plan.ns, "core");
    assert_eq!(plan.images, names(&["core.sys"]));
}

#[test]
fn common_namespace_loads_core_then_common() {
    let plan = bootstrap_plan(&with_namespace("common")).expect("plan expected");
    assert_eq!(plan.ns, "common");
    assert_eq!(plan.images, names(&["core.sys", "common.fasl"]));
}

#[test]
fn prelude_namespace_loads_core_then_prelude() {
    let plan = bootstrap_plan(&with_namespace("prelude")).expect("plan expected");
    assert_eq!(plan.ns, "prelude");
    assert_eq!(plan.images, names(&["core.sys", "prelude.fasl"]));
}

#[test]
fn missing_namespace_defaults_to_mu() {
    let plan = bootstrap_plan(&Config::new(None, None)).expect("plan expected");
    assert_eq!(plan.ns, "mu");
    assert!(plan.images.is_empty());
}

#[test]
fn unrecognized_namespace_is_fatal() {
    let err = bootstrap_plan(&with_namespace("clos")).expect_err("fatal expected");
    assert_eq!(err, "listener: unrecognized namespace: clos");
}

#[test]
fn overlay_and_rc_are_carried() {
    let config = Config::new(Some(r#"{"config": "heap:1g", "rc": "/home/u/.mu"}"#), None);
    let plan = bootstrap_plan(&config).expect("plan expected");
    assert_eq!(plan.overlay, Some("heap:1g".to_string()));
    assert_eq!(plan.rc, Some("/home/u/.mu".to_string()));
    assert_eq!(plan.ns, "mu");
}

#[test]
fn images_resolve_from_the_fixed_directory() {
    assert_eq!(image_path("core.sys"), "/opt/mu/lib/core.sys");
}

#[test]
fn loading_stops_at_first_failing_image() {
    let images = names(&["core.sys", "common.fasl"]);
    let outcomes = vec![LoadOutcome::Loaded(true), LoadOutcome::Loaded(false)];
    match run_image_loads(&images, &outcomes) {
        ImageRun::Fatal { attempted, diagnostic } => {
            assert_eq!(attempted, 2);
            assert_eq!(diagnostic, "listener: can't load common.fasl");
        },
        ImageRun::Completed => panic!("failure expected"),
    }
}

#[test]
fn a_raised_exception_halts_loading_at_once() {
    let images = names(&["core.sys", "common.fasl"]);
    let outcomes = vec![
        LoadOutcome::Raised("stream overrun".to_string()),
        LoadOutcome::Loaded(true),
    ];
    match run_image_loads(&images, &outcomes) {
        ImageRun::Fatal { attempted, diagnostic } => {
            assert_eq!(attempted, 1);
            assert_eq!(
                diagnostic,
                "listener: exception while loading core.sys: stream overrun"
            );
        },
        ImageRun::Completed => panic!("failure expected"),
    }
}

#[test]
fn all_images_loading_completes_the_bootstrap() {
    let images = names(&["core.sys", "prelude.fasl"]);
    let outcomes = vec![LoadOutcome::Loaded(true), LoadOutcome::Loaded(true)];
    assert!(matches!(run_image_loads(&images, &outcomes), ImageRun::Completed));
}

#[test]
fn image_load_decisions() {
    assert!(load_sys_decision("core.sys", &LoadOutcome::Loaded(true)).is_none());
    assert_eq!(
        load_sys_decision("core.sys", &LoadOutcome::Loaded(false)),
        Some("listener: can't load core.sys".to_string())
    );
}

#[test]
fn any_run_control_failure_is_fatal() {
    assert!(rc_decision(".murc", &LoadOutcome::Loaded(true)).is_none());
    assert_eq!(
        rc_decision(".murc", &LoadOutcome::Loaded(false)),
        Some("core-cli: can't load rc file .murc".to_string())
    );
    assert_eq!(
        rc_decision(".murc", &LoadOutcome::Raised("open failed".to_string())),
        Some("core-cli: can't load rc file .murc: open failed".to_string())
    );
}

#[test]
fn the_bundle_keeps_what_it_was_built_from() {
    let config = with_namespace("core");
    let env = Env_::new(EnvHandle { id: 7 }, config, "core".to_string());
    assert_eq!(env.env.id, 7);
    assert_eq!(env.ns, "core");
    let mu = Mu::new(env);
    assert_eq!(mu.map_config("namespace"), Some("core".to_string()));
}
