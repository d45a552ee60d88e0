use rebel::image::config::Config as ListenerConfig;
use rebel::rebel::{intro, pad_lines, Error};

#[test]
fn a_short_buffer_is_padded_up_to_the_line_count() {
    assert_eq!(pad_lines("ab".to_string(), 3), "ab\n\n\n");
    assert_eq!(pad_lines("a\nb\n".to_string(), 3), "a\nb\n\n");
}

#[test]
fn a_buffer_with_more_newlines_is_kept_as_it_is() {
    let text = "a\nb\nc\nd\n".to_string();
    assert_eq!(pad_lines(text.clone(), 3), text);
}

#[test]
fn a_buffer_at_the_exact_count_gains_nothing() {
    assert_eq!(pad_lines("x\n\n\n".to_string(), 3), "x\n\n\n");
}

#[test]
fn the_intro_banner_names_the_version_and_the_image() {
    let banner = intro("2.17.0");
    assert!(banner.starts_with(";;; mu 2.17.0\n;;; /opt/mu/lib/core.sys loaded\n"));
    assert_eq!(banner.chars().filter(|c| *c == '\n').count(), 30);
}

#[test]
fn file_errors_carry_their_cause() {
    let closed = Error::DialogClosed;
    assert!(matches!(closed, Error::DialogClosed));
    let io = Error::IOFailed(std::io::ErrorKind::NotFound);
    assert!(matches!(io, Error::IOFailed(k) if k == std::io::ErrorKind::NotFound));
}

#[test]
fn the_listener_config_projects_values_like_the_editor_config() {
    let config = ListenerConfig::new(
        Some(r#"{"rc": "/etc/rc", "modules": ["a.fasl", "b.fasl"], "flag": true}"#),
        None,
    );
    assert_eq!(config.map("rc"), Some("/etc/rc".to_string()));
    assert_eq!(config.map("modules"), Some("a.faslb.fasl".to_string()));
    assert_eq!(config.map("flag"), None);
    assert_eq!(config.map("missing"), None);
    assert!(config.map_ok("modules"));
}

#[test]
fn the_listener_config_resolves_like_the_editor_config() {
    let config = ListenerConfig::new(Some("{bad"), Some(r#"{"rc": "/rc"}"#));
    assert_eq!(config.map("rc"), Some("/rc".to_string()));
    assert!(ListenerConfig::home_parse_diagnostic(None, Some("{bad")));
    let absent = ListenerConfig::new(None, None);
    assert_eq!(absent.map("rc"), None);
}
