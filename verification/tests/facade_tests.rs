use rebel::config::Config;
use rebel::image::browser::Browser;
use rebel::image::core_::{Condition, Core, EnvHandle, Exception, Tag};
use rebel::image::env_::Env_;
use rebel::image::inspector::Inspector;
use rebel::image::mu::Mu;
use rebel::image::repl::{Repl, Cycle, ListenerEnd};

fn facade() -> Mu {
    Mu::new(Env_::new(EnvHandle { id: 1 }, Config::Absent, "mu".to_string()))
}

fn tag(handle: u64) -> Tag {
    Tag { handle }
}

fn ex(rendered: &str) -> Exception {
    Exception {
        source: "(f)".to_string(),
        condition: Condition::Other("Type".to_string()),
        object: "x".to_string(),
        rendered: rendered.to_string(),
    }
}

#[test]
fn eval_string_passes_the_final_value_through() {
    let mu = facade();
    let r = mu.eval_string(Ok(tag(1)), Ok(tag(2)), Ok(tag(3)));
    assert_eq!(r, Ok(tag(3)));
}

#[test]
fn malformed_syntax_yields_exactly_the_read_exceptions_text() {
    let mu = facade();
    let r = mu.eval_string(Err(ex("read failed here")), Ok(tag(2)), Ok(tag(3)));
    assert_eq!(r, Err("read failed here".to_string()));
}

#[test]
fn a_compile_exception_short_circuits_before_eval() {
    let mu = facade();
    let r = mu.eval_string(Ok(tag(1)), Err(ex("compile failed")), Ok(tag(3)));
    assert_eq!(r, Err("compile failed".to_string()));
}

#[test]
fn an_eval_exception_yields_exactly_its_text() {
    let mu = facade();
    let r = mu.eval_string(Ok(tag(1)), Ok(tag(2)), Err(ex("eval failed")));
    assert_eq!(r, Err("eval failed".to_string()));
}

#[test]
fn each_step_flattens_its_exception() {
    let mu = facade();
    assert_eq!(mu.read(Ok(tag(4))), Ok(tag(4)));
    assert_eq!(mu.read(Err(ex("r"))), Err("r".to_string()));
    assert_eq!(mu.compile(Err(ex("c"))), Err("c".to_string()));
    assert_eq!(mu.eval(Err(ex("e"))), Err("e".to_string()));
}

#[test]
fn load_passes_the_success_flag_through() {
    let mu = facade();
    assert_eq!(mu.load(Ok(false)), Ok(false));
    assert_eq!(mu.load(Ok(true)), Ok(true));
    assert_eq!(mu.load(Err(ex("no such file"))), Err("no such file".to_string()));
}

#[test]
fn the_capability_trait_matches_the_facade() {
    let mu = facade();
    assert_eq!(Core::read(&mu, Ok(tag(4))), Ok(tag(4)));
    assert_eq!(Core::load(&mu, Ok(false)), Ok(false));
    assert_eq!(Core::load(&mu, Ok(true)), Ok(true));
    assert_eq!(
        Core::eval_string(&mu, Err(ex("bad")), Ok(tag(2)), Ok(tag(3))),
        Err("bad".to_string())
    );
    assert_eq!(Core::compile(&mu, Ok(tag(5))), Ok(tag(5)));
    assert_eq!(Core::eval(&mu, Err(ex("e"))), Err("e".to_string()));
}

#[test]
fn the_listener_runs_through_the_facade() {
    let mu = facade();
    let t = Repl::listener(&mu, tag(1), &vec![Cycle::Sentinel]);
    assert_eq!(t.prompts, 1);
    assert!(matches!(t.end, ListenerEnd::Sentinel(v) if v == tag(1)));
}

#[test]
fn browsing_and_inspection_render_nothing_yet() {
    let mu = facade();
    assert_eq!(mu.browse(tag(2)), "");
    let inspector = Inspector::new(Env_::new(EnvHandle { id: 2 }, Config::Absent, "mu".to_string()));
    assert_eq!(inspector.inspect(tag(2)), "");
    assert_eq!(inspector.env.ns, "mu");
}

#[test]
fn the_listener_runs_through_the_standalone_session_too() {
    let inspector = Inspector::new(Env_::new(EnvHandle { id: 3 }, Config::Absent, "mu".to_string()));
    let t = Repl::listener(&inspector, tag(4), &vec![Cycle::Sentinel]);
    assert_eq!(t.prompts, 1);
    assert!(matches!(t.end, ListenerEnd::Sentinel(v) if v == tag(4)));
}
