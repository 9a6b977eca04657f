use nvim_agent::client::Client;
use nvim_agent::previewer::{eval_text, EventOutcome, Previewer, PreviewerConfig};
use nvim_agent::rpc::Message;
use nvim_agent::value::Val;

fn session() -> Previewer {
    Previewer::new(Client::new(), "/home/u/.cache", " firefox ", "8080")
}

#[test]
fn config_reads_browser_and_port() {
    let c = PreviewerConfig::new(" firefox ", "8080");
    assert_eq!(c.browser, Some("firefox".to_owned()));
    assert_eq!(c.port, 8080);
}

#[test]
fn config_defaults() {
    let c = PreviewerConfig::new("", "");
    assert_eq!(c.browser, None);
    assert_eq!(c.port, 3008);
    let d = PreviewerConfig::default();
    assert_eq!(d.browser, None);
    assert_eq!(d.port, 3008);
}

#[test]
fn config_port_rules() {
    // A port must parse and lie above 1024; otherwise the default stands.
    assert_eq!(PreviewerConfig::new("", "1024").port, 3008);
    assert_eq!(PreviewerConfig::new("", "1025").port, 1025);
    assert_eq!(PreviewerConfig::new("", "+2048").port, 2048);
    assert_eq!(PreviewerConfig::new("", " 9999 ").port, 9999);
    assert_eq!(PreviewerConfig::new("", "70000").port, 3008);
    assert_eq!(PreviewerConfig::new("", "80a").port, 3008);
    assert_eq!(PreviewerConfig::new("", "-1").port, 3008);
    assert_eq!(PreviewerConfig::new("", "+").port, 3008);
}

#[test]
fn session_paths_derive_from_cache_base() {
    let p = session();
    assert_eq!(p.cachedir, "/home/u/.cache/nvim-previewer");
    assert_eq!(p.logdir, "/home/u/.cache/nvim-previewer/logs");
    assert_eq!(p.config.port, 8080);
    assert_eq!(p.preview_url(), "http://127.0.0.1:8080");
}

#[test]
fn eval_builds_an_eval_request() {
    let mut p = session();
    let (msgid, frame) = p.eval("stdpath('cache')").unwrap();
    assert_eq!(msgid, 0);
    assert_eq!(
        frame,
        Message::Request {
            msgid: 0,
            method: "nvim_eval".to_owned(),
            params: vec![Val::Str("stdpath('cache')".to_owned())],
        }
    );
}

#[test]
fn print_builds_an_echo_command() {
    let mut p = session();
    let (msgid, frame) = p.print("hello").unwrap();
    assert_eq!(msgid, 0);
    assert_eq!(
        frame,
        Message::Request {
            msgid: 0,
            method: "nvim_command".to_owned(),
            params: vec![Val::Str("echo 'hello'".to_owned())],
        }
    );
}

#[test]
fn recv_drains_queued_notifications_in_order() {
    let mut p = session();
    p.client.handle_frame(Message::Notify {
        method: "preview".to_owned(),
        params: vec![Val::Str("/tmp/a.md".to_owned())],
    });
    p.client.handle_frame(Message::Notify {
        method: "preview_alt".to_owned(),
        params: vec![],
    });
    assert_eq!(
        p.recv(),
        Some(("preview".to_owned(), vec![Val::Str("/tmp/a.md".to_owned())]))
    );
    assert_eq!(p.recv(), Some(("preview_alt".to_owned(), vec![])));
    assert_eq!(p.recv(), None);
}

#[test]
fn handle_event_picks_css_by_event_name() {
    let p = session();
    let params = vec![
        Val::Str("/tmp/doc.md".to_owned()),
        Val::Str("/plug".to_owned()),
    ];
    assert_eq!(
        p.handle_event("preview", &params),
        EventOutcome::Preview {
            file_path: "/tmp/doc.md".to_owned(),
            css_path: "/plug/nvim-previewer-default.css".to_owned(),
        }
    );
    assert_eq!(
        p.handle_event("preview_alt", &params),
        EventOutcome::Preview {
            file_path: "/tmp/doc.md".to_owned(),
            css_path: "/plug/nvim-previewer-alt.css".to_owned(),
        }
    );
}

#[test]
fn handle_event_reports_missing_parameters() {
    let p = session();
    assert_eq!(p.handle_event("preview", &vec![]), EventOutcome::NoFilePath);
    assert_eq!(
        p.handle_event("preview", &vec![Val::Int(1)]),
        EventOutcome::NoFilePath
    );
    assert_eq!(
        p.handle_event("preview", &vec![Val::Str("/tmp/doc.md".to_owned())]),
        EventOutcome::NoScriptDir
    );
    assert_eq!(
        p.handle_event(
            "preview",
            &vec![Val::Str("/tmp/doc.md".to_owned()), Val::Nil]
        ),
        EventOutcome::NoScriptDir
    );
}

#[test]
fn eval_text_renders_scalars() {
    assert_eq!(eval_text(Val::Str("'quoted'".to_owned())), "quoted");
    assert_eq!(eval_text(Val::Str("plain".to_owned())), "plain");
    assert_eq!(eval_text(Val::UInt(3008)), "3008");
    assert_eq!(eval_text(Val::UInt(18446744073709551615)), "18446744073709551615");
    assert_eq!(eval_text(Val::Int(-5)), "-5");
    assert_eq!(eval_text(Val::Bool(true)), "true");
    assert_eq!(eval_text(Val::Nil), "nil");
    assert_eq!(eval_text(Val::Array(vec![])), "");
    assert_eq!(eval_text(Val::Float64(1.5f64.to_bits())), "");
}
