use helmview::HelmError;
use helmview::order::str_le;
use helmview::session::{ChartReference, LocalSession, RemoteSession, SessionPhase,
    chart_base_name};
use helmview::templates::{FsEntry, TemplateFile, keeps_entry, recover_templates, str_has_suffix};

fn entry(name: &str, is_file: bool, contents: &str) -> FsEntry {
    FsEntry { file_name: name.to_string(), is_file, contents: contents.to_string() }
}

#[test]
fn string_order_is_lexicographic() {
    assert!(str_le("", "a"));
    assert!(str_le("ab", "abc"));
    assert!(str_le("abc", "abd"));
    assert!(!str_le("b", "ab"));
    assert!(str_le("same", "same"));
}

#[test]
fn chart_base_name_takes_trailing_segment() {
    assert_eq!(chart_base_name("bitnami/nginx"), "nginx");
    assert_eq!(chart_base_name("nginx"), "nginx");
    assert_eq!(chart_base_name("a/b/c"), "c");
    assert_eq!(chart_base_name("trailing/"), "");
}

#[test]
fn chart_reference_tags_remote_and_local() {
    let remote = ChartReference::new("bitnami/nginx".to_string(), false);
    assert!(!remote.is_local());
    assert_eq!(remote.path(), "bitnami/nginx");
    let local = ChartReference::new("./mychart".to_string(), true);
    assert!(local.is_local());
    assert_eq!(local.path(), "./mychart");
}

#[test]
fn template_name_filter_requires_dot_extension() {
    assert!(keeps_entry("deployment.yaml", true));
    assert!(keeps_entry("svc.yml", true));
    assert!(!keeps_entry("notes.txt", true));
    assert!(!keeps_entry("deployment.yaml", false));
    assert!(!keeps_entry("noextension", true));
    assert!(str_has_suffix("a.yaml", ".yaml"));
    assert!(!str_has_suffix("yaml", ".yaml"));
}

#[test]
fn recovery_of_empty_walk_is_empty_not_an_error() {
    let out = recover_templates(Vec::new());
    assert!(out.is_empty());
}

#[test]
fn recovery_filters_and_keeps_walk_order() {
    let entries = vec![
        entry("a.yaml", true, "alpha"),
        entry("b.txt", true, "beta"),
        entry("c.yml", false, "gamma"),
        entry("d.yml", true, "delta"),
    ];
    let out = recover_templates(entries);
    assert_eq!(
        out,
        vec![
            TemplateFile { file_name: "a.yaml".to_string(), contents: "alpha".to_string() },
            TemplateFile { file_name: "d.yml".to_string(), contents: "delta".to_string() },
        ]
    );
}

#[test]
fn remote_session_rejects_unrepresentable_destination() {
    let r = RemoteSession::start(
        "bitnami/nginx".to_string(),
        "rel".to_string(),
        "a: 1\n",
        None,
    );
    assert!(matches!(r, Err(HelmError::Config)));
}

#[test]
fn remote_session_rejects_bad_values_text() {
    let r = RemoteSession::start(
        "bitnami/nginx".to_string(),
        "rel".to_string(),
        "- not a mapping\n",
        Some("/tmp/dest".to_string()),
    );
    assert!(matches!(r, Err(HelmError::YamlParse)));
}

#[test]
fn failed_fetch_halts_before_render_and_recovery() {
    let (mut session, fetch_args) = RemoteSession::start(
        "bitnami/nginx".to_string(),
        "rel".to_string(),
        "a: 1\n",
        Some("/tmp/dest".to_string()),
    )
    .unwrap();
    assert_eq!(
        fetch_args,
        vec!["pull", "bitnami/nginx", "--untar", "--destination", "/tmp/dest"]
    );
    assert_eq!(session.phase, SessionPhase::AwaitingFetch);
    let next = session.on_fetch(false, Some("/tmp/values.yaml"));
    assert!(next.is_none());
    assert_eq!(session.phase, SessionPhase::Failed);
    assert_eq!(session.error, Some(HelmError::ToolInvocation));
}

#[test]
fn remote_session_runs_to_completion() {
    let (mut session, _fetch_args) = RemoteSession::start(
        "bitnami/nginx".to_string(),
        "rel".to_string(),
        "a: 1\n",
        Some("/tmp/dest".to_string()),
    )
    .unwrap();
    let (render_args, values_text) = session.on_fetch(true, Some("/tmp/values.yaml")).unwrap();
    assert_eq!(
        render_args,
        vec!["template", "rel", "bitnami/nginx", "-f", "/tmp/values.yaml"]
    );
    assert_eq!(values_text, "a: 1\n");
    assert_eq!(session.phase, SessionPhase::AwaitingRender);

    let stdout = b"kind: Service\nmetadata:\n  name: web\n".to_vec();
    let walk_dir = session.on_render(true, stdout).unwrap();
    assert_eq!(walk_dir, "/tmp/dest/nginx/templates");
    assert_eq!(session.phase, SessionPhase::AwaitingTemplates);
    assert_eq!(session.resources.len(), 1);
    assert_eq!(session.resources[0].kind, "Service");
    assert_eq!(session.resources[0].name, "web");

    session.on_templates(Some(vec![entry("svc.yaml", true, "kind: Service\n")]));
    assert_eq!(session.phase, SessionPhase::Complete);
    assert_eq!(session.error, None);
    assert_eq!(session.templates.len(), 1);
    assert_eq!(session.templates[0].file_name, "svc.yaml");
}

#[test]
fn remote_session_fails_on_unreadable_values_file() {
    let (mut session, _) = RemoteSession::start(
        "repo/chart".to_string(),
        "rel".to_string(),
        "a: 1\n",
        Some("/tmp/dest".to_string()),
    )
    .unwrap();
    let next = session.on_fetch(true, None);
    assert!(next.is_none());
    assert_eq!(session.phase, SessionPhase::Failed);
    assert_eq!(session.error, Some(HelmError::Io));
}

#[test]
fn remote_session_fails_on_bad_render_output() {
    let (mut session, _) = RemoteSession::start(
        "repo/chart".to_string(),
        "rel".to_string(),
        "a: 1\n",
        Some("/tmp/dest".to_string()),
    )
    .unwrap();
    session.on_fetch(true, Some("/tmp/values.yaml")).unwrap();
    let next = session.on_render(true, vec![0xff, 0x00]);
    assert!(next.is_none());
    assert_eq!(session.phase, SessionPhase::Failed);
    assert_eq!(session.error, Some(HelmError::InvalidUtf8));
}

#[test]
fn local_session_renders_and_recovers_in_place() {
    let (mut session, render_args, values_text) = LocalSession::start(
        "./mychart".to_string(),
        "rel".to_string(),
        "replicas: 2\n",
        Some("/tmp/values.yaml"),
    )
    .unwrap();
    assert_eq!(
        render_args,
        vec!["template", "rel", "./mychart", "-f", "/tmp/values.yaml"]
    );
    assert_eq!(values_text, "replicas: 2\n");
    let stdout = b"kind: ConfigMap\nmetadata:\n  name: cm\n".to_vec();
    let walk_dir = session.on_render(true, stdout).unwrap();
    assert_eq!(walk_dir, "./mychart/templates");
    session.on_templates(None);
    assert_eq!(session.phase, SessionPhase::Failed);
    assert_eq!(session.error, Some(HelmError::Io));
}

#[test]
fn local_session_fails_on_render_tool_failure() {
    let (mut session, _, _) = LocalSession::start(
        "./mychart".to_string(),
        "rel".to_string(),
        "a: 1\n",
        Some("/tmp/values.yaml"),
    )
    .unwrap();
    let next = session.on_render(false, Vec::new());
    assert!(next.is_none());
    assert_eq!(session.error, Some(HelmError::ToolInvocation));
}
