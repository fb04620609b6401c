use helmview::HelmError;
use helmview::chart::{Chart, search_output};
use helmview::gateway::{pull_args, pull_outcome, render_output, repo_list_args, search_repo_args,
    template_args};
use helmview::repo::repo_list_output;
use helmview::resource::project_document;
use helmview::yaml::{parse_values, values_to_yaml};

#[test]
fn normalize_sorts_by_kind() {
    let stream = "kind: Service\nmetadata:\n  name: s1\n---\nkind: Deployment\nmetadata:\n  name: d1\n---\nkind: ConfigMap\nmetadata:\n  name: c1\n";
    let out = render_output(true, stream.as_bytes().to_vec()).unwrap();
    let kinds: Vec<&str> = out.iter().map(|r| r.kind.as_str()).collect();
    assert_eq!(kinds, vec!["ConfigMap", "Deployment", "Service"]);
    let names: Vec<&str> = out.iter().map(|r| r.name.as_str()).collect();
    assert_eq!(names, vec!["c1", "d1", "s1"]);
}

#[test]
fn normalize_is_stable_on_equal_kinds() {
    let stream = "kind: Service\nmetadata:\n  name: second\n---\nkind: ConfigMap\nmetadata:\n  name: first\n---\nkind: Service\nmetadata:\n  name: third\n";
    let out = render_output(true, stream.as_bytes().to_vec()).unwrap();
    let names: Vec<&str> = out.iter().map(|r| r.name.as_str()).collect();
    assert_eq!(names, vec!["first", "second", "third"]);
}

#[test]
fn normalize_defaults_missing_fields_to_unknown() {
    let doc: serde_yaml::Mapping = serde_yaml::from_str("foo: bar").unwrap();
    let r = project_document(doc);
    assert_eq!(r.kind, "Unknown");
    assert_eq!(r.name, "Unknown");
}

#[test]
fn normalize_defaults_non_string_fields_to_unknown() {
    let doc: serde_yaml::Mapping =
        serde_yaml::from_str("kind:\n  - a\nmetadata:\n  name: 7\n").unwrap();
    let r = project_document(doc);
    assert_eq!(r.kind, "Unknown");
    assert_eq!(r.name, "Unknown");
}

#[test]
fn normalize_keeps_contents_unmodified() {
    let text = "kind: Service\nmetadata:\n  name: s\nspec:\n  ports:\n    - 80\n";
    let out = render_output(true, text.as_bytes().to_vec()).unwrap();
    let expected: serde_yaml::Mapping = serde_yaml::from_str(text).unwrap();
    assert_eq!(out.len(), 1);
    assert_eq!(out[0].contents, expected);
}

#[test]
fn render_fails_on_tool_failure() {
    assert_eq!(
        render_output(false, b"kind: A\n".to_vec()).unwrap_err(),
        HelmError::ToolInvocation
    );
}

#[test]
fn render_fails_on_invalid_utf8() {
    assert_eq!(
        render_output(true, vec![0xff, 0xfe, 0x41]).unwrap_err(),
        HelmError::InvalidUtf8
    );
}

#[test]
fn render_fails_whole_stream_on_one_malformed_document() {
    let stream = "kind: Service\nmetadata:\n  name: ok\n---\n- not\n- a mapping\n---\nkind: ConfigMap\n";
    assert_eq!(
        render_output(true, stream.as_bytes().to_vec()).unwrap_err(),
        HelmError::YamlParse
    );
}

#[test]
fn repo_listing_is_sorted_with_unknown_fallback() {
    let stdout = b"- name: zeta\n  url: https://example.invalid/z\n- name: alpha\n  url: https://example.invalid/a\n- url: https://example.invalid/nameless\n";
    let repos = repo_list_output(true, stdout).unwrap();
    assert_eq!(repos, vec!["alpha".to_string(), "unknown".to_string(), "zeta".to_string()]);
}

#[test]
fn repo_listing_keeps_duplicates_and_non_string_names() {
    let stdout = b"- name: a\n- name: a\n- name: 3\n";
    let repos = repo_list_output(true, stdout).unwrap();
    assert_eq!(repos, vec!["a".to_string(), "a".to_string(), "unknown".to_string()]);
}

#[test]
fn repo_listing_fails_on_spawn_failure() {
    assert_eq!(repo_list_output(false, b"").unwrap_err(), HelmError::ToolInvocation);
}

#[test]
fn repo_listing_fails_on_non_sequence_output() {
    assert_eq!(
        repo_list_output(true, b"name: alpha\n").unwrap_err(),
        HelmError::YamlParse
    );
}

#[test]
fn search_results_sort_by_name() {
    let stdout = b"- name: zeta/tool\n  version: '1.2'\n  app_version: '3'\n  description: ztool\n- name: alpha/app\n  version: '0.1'\n  app_version: '1'\n  description: aapp\n";
    let charts = search_output(true, stdout).unwrap();
    assert_eq!(
        charts,
        vec![
            Chart {
                name: "alpha/app".to_string(),
                version: "0.1".to_string(),
                app_version: "1".to_string(),
                description: "aapp".to_string(),
            },
            Chart {
                name: "zeta/tool".to_string(),
                version: "1.2".to_string(),
                app_version: "3".to_string(),
                description: "ztool".to_string(),
            },
        ]
    );
}

#[test]
fn search_fails_on_one_malformed_entry() {
    let stdout = b"- name: ok/chart\n  version: '1'\n  app_version: '1'\n  description: fine\n- name: bad/chart\n  version: '1'\n";
    assert_eq!(search_output(true, stdout).unwrap_err(), HelmError::YamlParse);
}

#[test]
fn search_fails_on_spawn_failure() {
    assert_eq!(search_output(false, b"").unwrap_err(), HelmError::ToolInvocation);
}

#[test]
fn values_round_trip_reserializes_identically() {
    let text = "replicaCount: 3\nimage:\n  repository: nginx\n  tag: stable\n";
    let first = parse_values(text).unwrap();
    let serialized = values_to_yaml(&first).unwrap();
    let reread = parse_values(&serialized).unwrap();
    let reserialized = values_to_yaml(&reread).unwrap();
    assert_eq!(serialized, reserialized);
    assert_eq!(first, reread);
}

#[test]
fn values_serialization_is_canonical_not_identity() {
    let first = parse_values("a:     1").unwrap();
    let serialized = values_to_yaml(&first).unwrap();
    assert_eq!(serialized, "a: 1\n");
}

#[test]
fn values_rejects_non_mapping_documents() {
    assert_eq!(parse_values("- a\n- b\n").unwrap_err(), HelmError::YamlParse);
    assert_eq!(parse_values("just a scalar").unwrap_err(), HelmError::YamlParse);
}

#[test]
fn pull_arguments_are_exact() {
    let args = pull_args("bitnami/nginx", "/tmp/charts");
    assert_eq!(args, vec!["pull", "bitnami/nginx", "--untar", "--destination", "/tmp/charts"]);
}

#[test]
fn template_arguments_are_exact() {
    let args = template_args("myrelease", "bitnami/nginx", "/tmp/values.yaml");
    assert_eq!(args, vec!["template", "myrelease", "bitnami/nginx", "-f", "/tmp/values.yaml"]);
}

#[test]
fn repo_list_arguments_are_exact() {
    assert_eq!(repo_list_args(), vec!["repo", "list", "-o", "yaml"]);
}

#[test]
fn search_arguments_append_optional_query() {
    assert_eq!(
        search_repo_args("bitnami", None),
        vec!["search", "repo", "bitnami", "-o", "yaml"]
    );
    assert_eq!(
        search_repo_args("bitnami", Some("nginx")),
        vec!["search", "repo", "bitnami", "-o", "yaml", "nginx"]
    );
}

#[test]
fn pull_outcome_maps_exit_status() {
    assert!(pull_outcome(true).is_ok());
    assert_eq!(pull_outcome(false).unwrap_err(), HelmError::ToolInvocation);
}
