//! Events, labels, addresses, templates and the start of the server.

use dragonfly::auth::Settings;
use dragonfly::events::{
    conclude_send, event_envelope, make_envelope, on_stream_event, split_event, stream_ready,
    StreamAction, StreamEvent,
};
use dragonfly::install::mode::DeploymentMode;
use dragonfly::json::Json;
use dragonfly::macos_ui::{end_task, search_task, Launch, StatusBar};
use dragonfly::install::tasks::Task;
use dragonfly::metrics_mw::{classify, method_label};
use dragonfly::os_templates::{
    fix_metadata_urls, get_base_url_without_port, install_template, template_failure,
    template_path, TemplateLookup, TemplateStep,
};
use dragonfly::startup::{
    bind_failed, credentials_failed, favicon_path, get_install_status, handle_favicon, run,
    InstallationState, StartFacts, SERVER_PORT,
};
use dragonfly::status::{
    check_dragonfly_statefulset_status, get_webui_address, Ingress, Replicas, ServiceInfo,
    ServicePort, ServiceSpec,
};
use dragonfly::urls::{bare_host_of, parse_url_to_bare};

#[test]
fn envelope_for_ordinary_event() {
    let v = event_envelope("machine_updated:abc-123").unwrap();
    assert_eq!(v.text_at("type"), Some("machine_updated"));
    assert_eq!(v.text_at("payload"), Some("abc-123"));
}

#[test]
fn envelope_for_event_without_id() {
    let v = event_envelope("templates_ready").unwrap();
    assert_eq!(v.text_at("type"), Some("templates_ready"));
    assert_eq!(v.text_at("payload"), Some(""));
}

#[test]
fn envelope_for_raw_payload_event() {
    let v = event_envelope("workflow_progress:{\"step\":3,\"done\":false}").unwrap();
    assert_eq!(v.text_at("type"), Some("workflow_progress"));
    assert_eq!(v.get2("payload", "step").unwrap().as_u64(), Some(3));
    assert!(matches!(v.get2("payload", "done"), Some(Json::Bool(false))));
}

#[test]
fn envelope_drops_raw_payload_event_without_payload() {
    assert!(event_envelope("workflow_progress").is_none());
}

#[test]
fn envelope_keeps_what_is_no_json() {
    let v = event_envelope("cluster:not json").unwrap();
    assert_eq!(v.text_at("payload"), Some("not json"));
    let v = make_envelope("machine_updated", "a:b", Some(Json::Null)).unwrap();
    assert_eq!(v.text_at("payload"), Some("a:b"));
    let v = make_envelope("cluster", "null", Some(Json::Null)).unwrap();
    assert!(matches!(v.get("payload"), Some(Json::Null)));
}

#[test]
fn events_are_taken_apart_at_the_first_colon() {
    assert_eq!(split_event("kind:a:b"), ("kind".to_string(), "a:b".to_string()));
    assert_eq!(split_event("kind"), ("kind".to_string(), String::new()));
}

#[test]
fn json_is_read_by_its_parts() {
    let v = event_envelope(
        "cluster:{\"n\":-7,\"big\":18446744073709551615,\"half\":0.5,\"list\":[\"a\",null,true]}",
    )
    .unwrap();
    assert_eq!(v.get2("payload", "n").unwrap().as_i64(), Some(-7));
    assert_eq!(v.get2("payload", "n").unwrap().as_u64(), None);
    assert_eq!(v.get2("payload", "big").unwrap().as_u64(), Some(u64::MAX));
    assert_eq!(v.get2("payload", "half").unwrap().as_i64(), None);
    let list = v.get2("payload", "list").unwrap().as_array().unwrap();
    assert_eq!(list.len(), 3);
    assert_eq!(list[0].as_str(), Some("a"));
    assert!(v.get2("payload", "missing").is_none());
}

#[test]
fn inner_numbers_keep_their_text() {
    let text = "{\"list\":[[7.810891478583223e-137],{\"n\":0.1}]}";
    let v = event_envelope(&format!("cluster:{text}")).unwrap();
    let list = v.get2("payload", "list").unwrap().as_array().unwrap();
    let read: serde_json::Value = serde_json::from_str(text).unwrap();
    let number = &read["list"][0][0];
    assert_eq!(
        list[0].as_array().unwrap()[0],
        Json::Number { unsigned: None, signed: None, text: number.to_string() }
    );
    assert!(matches!(list[1].get("n"), Some(Json::Number { text, .. }) if text == "0.1"));
}

#[test]
fn streams_start_and_go_on() {
    assert_eq!(stream_ready().text_at("type"), Some("stream_ready"));
    match on_stream_event(StreamEvent::Announced("machine_updated:deadbeef".to_string())) {
        StreamAction::Tell(v) => {
            assert_eq!(v.text_at("type"), Some("machine_updated"));
            assert_eq!(v.text_at("payload"), Some("deadbeef"));
        }
        other => panic!("expected a message, got {other:?}"),
    }
    assert!(matches!(on_stream_event(StreamEvent::Lagged), StreamAction::Wait));
    assert!(matches!(on_stream_event(StreamEvent::Silent), StreamAction::Close));
    assert!(matches!(on_stream_event(StreamEvent::Gone), StreamAction::Close));
    assert!(matches!(on_stream_event(StreamEvent::Ping), StreamAction::Pong));
    assert!(matches!(on_stream_event(StreamEvent::Tick), StreamAction::SendPing));
    assert!(matches!(
        on_stream_event(StreamEvent::Announced("cluster".to_string())),
        StreamAction::Wait
    ));
}

#[test]
fn events_are_told_in_their_order() {
    let events = vec![
        StreamEvent::Announced("machine_discovered:1".to_string()),
        StreamEvent::Lagged,
        StreamEvent::Announced("machine_updated:1".to_string()),
        StreamEvent::Tick,
        StreamEvent::Announced("machine_deleted:1".to_string()),
        StreamEvent::Gone,
        StreamEvent::Announced("machine_updated:2".to_string()),
    ];
    let mut told = vec![stream_ready()];
    for event in events {
        match on_stream_event(event) {
            StreamAction::Tell(v) => told.push(v),
            StreamAction::Close => break,
            _ => {}
        }
    }
    let kinds: Vec<_> = told.iter().map(|v| v.text_at("type").unwrap()).collect();
    assert_eq!(kinds, ["stream_ready", "machine_discovered", "machine_updated", "machine_deleted"]);
}

#[test]
fn sending_counts_those_who_listen() {
    assert_eq!(conclude_send("e".to_string(), 2, Some(2)), Ok(2));
    assert_eq!(conclude_send("e".to_string(), 0, Some(0)), Err("e".to_string()));
    assert_eq!(conclude_send("e".to_string(), 2, None), Err("e".to_string()));
}

#[test]
fn classify_routes_to_bounded_labels() {
    assert_eq!(classify("/images/debian-13-amd64.raw"), "image");
    assert_eq!(classify("/os/debian-13/amd64"), "os_image");
    assert_eq!(classify("/boot-debian/amd64/vmlinuz"), "boot_debian_asset");
    assert_eq!(classify("/boot/aa:bb:cc:dd:ee:ff"), "boot");
    assert_eq!(classify("/boot/amd64/initrd.img"), "boot");
    assert_eq!(classify("/boot/pxelinux.cfg/default"), "pxelinux_config");
    assert_eq!(classify("/ipxe/debian/13"), "ipxe_artifact");
    assert_eq!(classify("/api/machines"), "api");
    assert_eq!(classify("/metrics"), "infra");
    assert_eq!(classify("/favicon.ico"), "infra");
    assert_eq!(classify("/something/else"), "other");
}

#[test]
fn classify_is_bounded_under_high_cardinality_inputs() {
    let mut labels = std::collections::HashSet::new();
    for i in 0..1000 {
        labels.insert(classify(&format!("/boot/aa:bb:cc:dd:ee:{i:02x}")));
    }
    assert_eq!(labels.len(), 1);
    assert_eq!(labels.into_iter().next().unwrap(), "boot");
}

#[test]
fn methods_have_few_labels() {
    for method in ["GET", "POST", "PUT", "DELETE", "PATCH", "HEAD", "OPTIONS"] {
        assert_eq!(method_label(method), method);
    }
    assert_eq!(method_label("BREW"), "other");
    assert_eq!(method_label("get"), "other");
}

#[test]
fn test_url_parsing() {
    let test_cases = vec![
        ("http://example.com:3000", "example.com"),
        ("https://server.domain.com:8443", "server.domain.com"),
        ("http://192.168.1.1:8080", "192.168.1.1"),
        ("example.com:3000", "example.com"),
        ("192.168.1.1:8080", "192.168.1.1"),
        ("example.com", "example.com"),
        ("192.168.1.1", "192.168.1.1"),
        ("localhost", "localhost"),
        ("localhost:3000", "localhost"),
    ];
    for (input, expected) in test_cases {
        let result = parse_url_to_bare(input);
        assert_eq!(result, expected, "Failed parsing URL: {}", input);
    }
}

#[test]
fn hosts_are_told_by_the_parsed_address() {
    assert_eq!(bare_host_of("http://a:1", Some(Some("b".to_string()))), "b");
    assert_eq!(bare_host_of("unix://", Some(None)), "localhost");
    assert_eq!(bare_host_of("http://:x", None), "http");
    assert_eq!(bare_host_of("host:1:2", None), "host");
}

#[test]
fn templates_get_the_host_name() {
    assert_eq!(
        fix_metadata_urls("url: http://{{ base_url }}:50061/{{ base_url }}", "host"),
        "url: http://host:50061/host"
    );
    assert_eq!(
        fix_metadata_urls("metadata_urls: http://{{ base_url }}:50061", "10.0.0.5"),
        "metadata_urls: http://10.0.0.5:50061"
    );
    assert_eq!(fix_metadata_urls("{ base_url }", "host"), "{ base_url }");
    assert_eq!(fix_metadata_urls("nothing", "host"), "nothing");
    assert_eq!(get_base_url_without_port(Some("http://example.com:3000")), "example.com");
    assert_eq!(get_base_url_without_port(None), "localhost");
    assert_eq!(template_path(true, "ubuntu-2204"), "/opt/dragonfly/os-templates/ubuntu-2204.yml");
    assert_eq!(template_path(false, "ubuntu-2204"), "os-templates/ubuntu-2204.yml");
}

#[test]
fn templates_are_installed_once() {
    assert_eq!(install_template(TemplateLookup::Known), Ok(false));
    assert_eq!(install_template(TemplateLookup::Unknown), Ok(true));
    assert_eq!(
        install_template(TemplateLookup::Failed("x".to_string())),
        Err("Error checking for template: x".to_string())
    );
    assert_eq!(template_failure(TemplateStep::Read, "x"), "Failed to read template file: x");
    assert_eq!(template_failure(TemplateStep::Parse, "x"), "Failed to parse template YAML: x");
    assert_eq!(template_failure(TemplateStep::Create, "x"), "Failed to create template: x");
}

#[test]
fn installation_states_are_told() {
    assert_eq!(
        InstallationState::WaitingSudo.get_message(),
        "Dragonfly is ready to install. Enter your password in your install window — let's do this."
    );
    assert_eq!(InstallationState::Ready.get_message(), "Dragonfly is ready.");
    assert_eq!(InstallationState::Ready.get_animation_class(), "rocket-fire rocket-shift");
    let failed = InstallationState::Failed("disk full".to_string());
    assert_eq!(failed.get_message(), "Installation failed. Check installer logs for details.");
    assert_eq!(failed.get_animation_class(), "rocket-error");

    let told = get_install_status(&Some(failed));
    assert_eq!(told.get2("status", "Failed").unwrap().as_str(), Some("disk full"));
    let told = get_install_status(&Some(InstallationState::WaitingK3s));
    assert_eq!(told.text_at("status"), Some("WaitingK3s"));
    assert_eq!(told.text_at("message"), Some("Dragonfly is waiting for k3s to be ready."));
    assert_eq!(told.text_at("animation"), Some("rocket-glowing"));
    let told = get_install_status(&None);
    assert_eq!(told.text_at("status"), Some("NotInstalling"));
    assert_eq!(told.text_at("animation"), Some(""));
}

fn facts() -> StartFacts {
    StartFacts {
        is_installation_server: false,
        setup_mode: false,
        settings: None,
        templates_installed: true,
        static_installed: false,
        mode: None,
    }
}

#[test]
fn server_starts_for_the_first_time() {
    let plan = run(facts());
    assert!(plan.first_run);
    assert!(plan.install_state.is_none());
    assert!(plan.init_os_templates);
    assert!(plan.settings_to_store.is_none());
    assert_eq!(plan.template_path, "/opt/dragonfly/templates");
    assert_eq!(plan.static_path, "crates/dragonfly-server/static");
    assert!(!plan.listen_for_handoff);
    assert_eq!(plan.port, SERVER_PORT);
}

#[test]
fn setup_mode_starts_the_setup_over() {
    let mut settings = Settings::default();
    settings.setup_completed = true;
    settings.default_os = Some("debian-12".to_string());
    let mut f = facts();
    f.settings = Some(settings.clone());
    assert!(!run(f).first_run);

    let mut f = facts();
    f.settings = Some(settings);
    f.setup_mode = true;
    f.mode = Some(DeploymentMode::Flight);
    let plan = run(f);
    assert!(plan.first_run);
    assert!(plan.settings.setup_completed);
    let row = plan.settings_to_store.unwrap();
    assert!(!row.setup_completed);
    assert_eq!(row.default_os.as_deref(), Some("debian-12"));
    assert!(plan.listen_for_handoff);
}

#[test]
fn installation_server_shows_the_installation() {
    let mut f = facts();
    f.is_installation_server = true;
    let plan = run(f);
    assert_eq!(plan.install_state, Some(InstallationState::WaitingSudo));
    assert!(!plan.init_os_templates);
}

#[test]
fn failed_starts_are_explained() {
    assert_eq!(bind_failed(true, true, "x"), "Port 3000 is already in use...");
    assert_eq!(bind_failed(false, true, "x"), "Failed to bind to address: x");
    assert_eq!(bind_failed(true, false, "x"), "Failed to bind to address: x");
    assert_eq!(credentials_failed("x"), "Failed to generate default credentials: x");
}

#[test]
fn the_icon_is_served() {
    assert_eq!(favicon_path(true), "/opt/dragonfly/static/favicon/favicon.ico");
    assert_eq!(favicon_path(false), "crates/dragonfly-server/static/favicon/favicon.ico");
    assert_eq!(handle_favicon(Some(vec![1, 2])), (200, "image/x-icon", Some(vec![1, 2])));
    assert_eq!(handle_favicon(None), (404, "Favicon not found", None));
}

fn service(kind: &str, port: i32, node_port: Option<i32>, points: Vec<Ingress>) -> ServiceInfo {
    ServiceInfo {
        wanted: Some(ServiceSpec {
            kind: Some(kind.to_string()),
            ports: vec![ServicePort { port: 80, node_port: None }, ServicePort { port, node_port }],
        }),
        status: Some(points),
    }
}

#[test]
fn replicas_have_to_be_ready() {
    let all = Replicas { wanted: Some(2), existing: Some(2), ready: Some(2) };
    assert!(check_dragonfly_statefulset_status(Some(all)));
    let some = Replicas { wanted: Some(2), existing: Some(2), ready: Some(1) };
    assert!(!check_dragonfly_statefulset_status(Some(some)));
    let unsaid = Replicas { wanted: None, existing: None, ready: None };
    assert!(!check_dragonfly_statefulset_status(Some(unsaid)));
    let single = Replicas { wanted: None, existing: Some(1), ready: Some(1) };
    assert!(check_dragonfly_statefulset_status(Some(single)));
    assert!(!check_dragonfly_statefulset_status(None));
}

#[test]
fn the_web_interface_has_an_address() {
    let by_ip = Ingress { ip: Some("10.0.0.9".to_string()), hostname: Some("lb".to_string()) };
    assert_eq!(
        get_webui_address(Some(service("LoadBalancer", 3000, None, vec![by_ip]))),
        Ok(Some("http://10.0.0.9:3000".to_string()))
    );
    let by_name = Ingress { ip: None, hostname: Some("lb".to_string()) };
    assert_eq!(
        get_webui_address(Some(service("LoadBalancer", 3000, None, vec![by_name]))),
        Ok(Some("http://lb:3000".to_string()))
    );
    assert_eq!(get_webui_address(Some(service("LoadBalancer", 3000, None, vec![]))), Ok(None));
    assert_eq!(
        get_webui_address(Some(service("NodePort", 3000, Some(31000), vec![]))),
        Ok(Some("http://localhost:31000".to_string()))
    );
    assert_eq!(get_webui_address(Some(service("ClusterIP", 3000, None, vec![]))), Ok(None));
    assert_eq!(get_webui_address(Some(service("NodePort", 3001, Some(31000), vec![]))), Ok(None));
    assert_eq!(get_webui_address(None), Ok(None));
    let no_spec = ServiceInfo { wanted: None, status: Some(vec![]) };
    assert_eq!(
        get_webui_address(Some(no_spec)),
        Err("Service 'tink-stack' has no spec".to_string())
    );
    let mut no_status = service("NodePort", 3000, None, vec![]);
    no_status.status = None;
    assert_eq!(
        get_webui_address(Some(no_status)),
        Err("Service 'tink-stack' has no status".to_string())
    );
}

#[test]
fn the_status_bar_is_set_up_once() {
    let mut bar = StatusBar { initialized: false };
    let program = bar.setup_status_bar("Flight").unwrap();
    assert!(program.starts_with("import Cocoa"));
    assert!(program.contains("title: \"Running in Flight Mode\", action: nil"));
    assert!(program.contains("class StatusBarController {\n"));
    assert!(program.ends_with("app.run()\n"));
    assert!(bar.setup_status_bar("Flight").is_none());
    assert_eq!(bar.conclude(&Launch::Launched { search_success: true, found_any: true }), Ok(()));
    assert!(bar.initialized);
    assert_eq!(
        bar.conclude(&Launch::Launched { search_success: true, found_any: false }),
        Err("Status bar process exited immediately after launch".to_string())
    );
    assert!(!bar.initialized);
    assert_eq!(
        bar.conclude(&Launch::NotLaunched),
        Err("Failed to launch status bar app (is Swift installed?)".to_string())
    );
    let args = vec!["-f".to_string(), "dragonfly_status_bar.swift".to_string()];
    assert_eq!(search_task(), Task::Run { program: "pgrep".to_string(), args: args.clone() });
    assert_eq!(end_task(), Task::Run { program: "pkill".to_string(), args });
}
