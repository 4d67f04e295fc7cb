//! What the HTTP interface answers.

use dragonfly::api::artifacts::{
    answer_failure, answer_fetch, artifact_path, fetch_failure, serve_ipxe_artifact,
    ArtifactFailure, ArtifactPlan, Fetch, FetchAnswer, FetchEnd, FetchEvent, FetchFailure,
};
use dragonfly::api::ipxe::{
    generate_ipxe_script, ipxe_script, is_mac_like, write_boot_script, BootSettings, FirstScript,
    ScriptError,
};
use dragonfly::api::os_names::{format_os_name, get_os_icon, get_os_info};
use dragonfly::api::overlay::{
    archive_arguments, check_hookos_artifacts, conclude_archive, download_hookos_artifacts,
    download_url, generate_agent_apkovl, how_to_unpack, overlay_directories, required_hookos_files,
    Unpacking,
};
use dragonfly::api::pages::{
    assign_os_internal, get_all_machines, get_hostname_form, get_machine_os, get_machine_status,
    get_workflow_progress, name_to_show, os_to_show, status_notice, update_bmc, Assignment, Listed,
    StatusUpdate,
};
use dragonfly::api::progress::{announce_download, report_download, track_download_progress};
use dragonfly::api::ranges::{
    create_streaming_response, next_read, parse_range_header, plan_serving,
};
use dragonfly::api::replies::{
    answer_change, api_delete_machine_tag, api_get_machine_tags, assign_os, bmc_credentials,
    default_assignment, delete_machine, error_reply, get_machine, machine_events,
    machine_not_found, missing_os_choice, name_to_delete, nothing_to_delete, refuse_update, register_machine,
    remove_tag, status_format, track_client_ip, unauthorized, update_failed,
    update_installation_progress, update_status, BodyFormat, Change, Found, SseMessage,
};
use dragonfly::json::Json;
use dragonfly::machine::{BmcType, Machine, MachineStatus};

#[test]
fn systems_have_names_and_icons() {
    assert_eq!(format_os_name("ubuntu-2204"), "Ubuntu 22.04");
    assert_eq!(format_os_name("proxmox"), "Proxmox VE");
    assert_eq!(format_os_name("beos"), "beos");
    assert!(get_os_icon("debian-12").contains("fa-debian"));
    assert!(get_os_icon("beos").contains("fa-square-question"));
    let info = get_os_info("talos");
    assert_eq!(info.name, "Talos");
    assert!(info.icon.contains("fa-robot"));
}

#[test]
fn ranges_are_read() {
    assert_eq!(parse_range_header("bytes=0-99", 1000), Some((0, 99)));
    assert_eq!(parse_range_header("bytes=500-", 1000), Some((500, 999)));
    assert_eq!(parse_range_header("bytes= 5 - 7 ", 1000), Some((5, 7)));
    assert_eq!(parse_range_header("bytes=-600", 1000), Some((400, 999)));
    assert_eq!(parse_range_header("bytes=-3", 10), Some((7, 9)));
    assert_eq!(parse_range_header("bytes=-10", 10), Some((0, 9)));
    assert_eq!(parse_range_header("bytes=-11", 10), Some((0, 9)));
    assert_eq!(parse_range_header("bytes=-0", 10), None);
    assert_eq!(parse_range_header("bytes=-", 10), None);
    assert_eq!(parse_range_header("bytes=-3", 0), None);
    assert_eq!(parse_range_header("bytes=0-1000", 1000), None);
    assert_eq!(parse_range_header("bytes=9-8", 1000), None);
    assert_eq!(parse_range_header("bytes=1-2-3", 1000), None);
    assert_eq!(parse_range_header("items=0-1", 1000), None);
    assert_eq!(parse_range_header("bytes=0-", 0), None);
    let part = plan_serving(Some("bytes=10-19"), 100);
    assert_eq!((part.start, part.length), (10, 10));
    assert_eq!(part.content_range.as_deref(), Some("bytes 10-19/100"));
    let whole = plan_serving(Some("nonsense"), 100);
    assert_eq!((whole.start, whole.length, whole.content_range), (0, 100, None));
    assert_eq!(next_read(100_000), 65_536);
    assert_eq!(next_read(5), 5);
}

#[test]
fn streams_have_headers() {
    let whole = create_streaming_response("text/plain", None, None);
    assert_eq!(whole.status, 200);
    assert!(whole.headers.contains(&("transfer-encoding".to_string(), "chunked".to_string())));
    assert!(whole.headers.contains(&("accept-ranges".to_string(), "bytes".to_string())));
    let part = create_streaming_response("text/plain", Some(10), Some("bytes 0-9/100".to_string()));
    assert_eq!(part.status, 206);
    assert!(part.headers.contains(&("content-length".to_string(), "10".to_string())));
    assert!(part.headers.contains(&("content-range".to_string(), "bytes 0-9/100".to_string())));
}

fn settings(base_url: Option<&str>) -> BootSettings {
    BootSettings {
        base_url: base_url.map(str::to_string),
        grpc_authority: None,
        syslog_host: Some("logs".to_string()),
        tls: Some("true".to_string()),
    }
}

#[test]
fn scripts_are_generated() {
    let script = generate_ipxe_script("hookos.ipxe", &settings(Some("http://10.0.0.1:3000"))).unwrap();
    assert!(script.starts_with("#!ipxe\n"));
    assert!(script.contains("set base-url http://10.0.0.1:3000\n"));
    assert!(script.contains("set grpc_authority 10.0.0.1:42113\n"));
    assert!(script.contains("set syslog_host logs\n"));
    assert!(script.contains("set tinkerbell_tls true\n"));
    let script = generate_ipxe_script("dragonfly-agent.ipxe", &settings(Some("http://s"))).unwrap();
    assert!(script.contains("kernel http://s/ipxe/dragonfly-agent/vmlinuz \\\n"));
    assert_eq!(
        generate_ipxe_script("other.ipxe", &settings(Some("http://s"))),
        Err(ScriptError::NotFound)
    );
    assert!(matches!(
        generate_ipxe_script("hookos.ipxe", &settings(None)),
        Err(ScriptError::Configuration(_))
    ));
    let script = write_boot_script("hookos.ipxe", &settings(Some("x")), None).unwrap();
    assert!(script.contains("set grpc_authority 127.0.0.1:42113\n"));
}

#[test]
fn machines_get_a_first_script() {
    assert!(is_mac_like("04:7c:16:eb:74:ed"));
    assert!(!is_mac_like("047c16eb74ed"));
    let first = |known| ipxe_script("04:7c:16:eb:74:ed", Some("http://s"), known);
    match first(Ok(true)) {
        FirstScript::Script(s) => assert!(s.contains("http://s/ipxe/hookos.ipxe")),
        other => panic!("expected a script, got {other:?}"),
    }
    match first(Ok(false)) {
        FirstScript::Script(s) => assert!(s.contains("http://s/ipxe/dragonfly-agent.ipxe")),
        other => panic!("expected a script, got {other:?}"),
    }
    assert!(matches!(first(Err("x".to_string())), FirstScript::Failed(_, _)));
    assert!(matches!(ipxe_script("x", Some("http://s"), Ok(true)), FirstScript::BadAddress(_)));
    assert!(matches!(
        ipxe_script("04:7c:16:eb:74:ed", None, Ok(true)),
        FirstScript::Failed(_, _)
    ));
}

#[test]
fn artifacts_are_served() {
    let plan = serve_ipxe_artifact;
    assert_eq!(
        plan("../etc/passwd", true),
        ArtifactPlan::Refuse(400, "Invalid artifact path".to_string())
    );
    assert_eq!(
        plan("a\\b", false),
        ArtifactPlan::Refuse(400, "Invalid artifact path".to_string())
    );
    assert_eq!(plan("hookos.ipxe", true), ArtifactPlan::ServeCached("text/plain".to_string()));
    assert_eq!(
        plan("evil.ipxe", true),
        ArtifactPlan::Refuse(404, "iPXE Script Not Found".to_string())
    );
    assert_eq!(plan("x.tar.gz", true), ArtifactPlan::ServeCached("application/gzip".to_string()));
    assert_eq!(
        plan("vmlinuz", true),
        ArtifactPlan::ServeCached("application/octet-stream".to_string())
    );
    assert_eq!(plan("dragonfly-agent/localhost.apkovl.tar.gz", false), ArtifactPlan::MakeOverlay);
    assert_eq!(plan("hookos.ipxe", false), ArtifactPlan::MakeScript);
    assert!(matches!(plan("dragonfly-agent/modloop", false), ArtifactPlan::Fetch(url)
        if url.ends_with("/modloop-lts")));
    assert_eq!(
        plan("vmlinuz", false),
        ArtifactPlan::Refuse(404, "Unknown iPXE artifact".to_string())
    );
    assert_eq!(artifact_path("/var/lib", "a"), "/var/lib/a");
    assert_eq!(artifact_path("/var/lib/", "a"), "/var/lib/a");
    assert_eq!(artifact_path("/var/lib", "/a"), "/a");
}

#[test]
fn failures_are_answered() {
    let text = |f| answer_failure(&f).1;
    let e = || "e".to_string();
    assert_eq!(text(ArtifactFailure::ReadCached), "Error reading iPXE artifact");
    assert_eq!(
        text(ArtifactFailure::OverlayConfiguration),
        "Server configuration error for apkovl generation"
    );
    assert_eq!(text(ArtifactFailure::MakeOverlay("p".to_string(), e())), "Failed to generate p: e");
    assert_eq!(text(ArtifactFailure::ReadOverlay), "Error reading newly generated apkovl");
    assert_eq!(answer_failure(&ArtifactFailure::UnknownScript).0, 404);
    assert_eq!(text(ArtifactFailure::MakeScript(e())), "Failed to generate script: e");
    assert_eq!(text(ArtifactFailure::Fetch(e())), "Error streaming artifact: e");
    assert_eq!(fetch_failure(&FetchFailure::Directory(e())), "Failed to create directory: e");
    assert_eq!(fetch_failure(&FetchFailure::Request(e())), "HTTP request failed: e");
    assert_eq!(fetch_failure(&FetchFailure::Status(e())), "HTTP error: e");
    assert_eq!(fetch_failure(&FetchFailure::File(e())), "Failed to create cache file: e");
}

#[test]
fn fetches_outlive_their_clients() {
    let mut fetch = Fetch::start(Some(30), true);
    let action = fetch.next(FetchEvent::Chunk(10));
    assert!(action.write && action.hand_on && action.report == Some(10));
    let _ = fetch.next(FetchEvent::Written(true));
    let _ = fetch.next(FetchEvent::HandedOn(false));
    let action = fetch.next(FetchEvent::Chunk(20));
    assert!(action.write && !action.hand_on && action.report == Some(30));
    let action = fetch.next(FetchEvent::Ended);
    assert!(action.stop && action.report == Some(30));
    assert_eq!(fetch.end(), FetchEnd::CompleteWithoutClient);

    let mut fetch = Fetch::start(None, true);
    assert_eq!(fetch.next(FetchEvent::Chunk(10)).report, None);
    assert!(fetch.next(FetchEvent::Written(false)).stop);
    assert_eq!(fetch.next(FetchEvent::Ended).report, None);
    assert_eq!(fetch.end(), FetchEnd::Incomplete);
    let mut fetch = Fetch::start(Some(1), false);
    assert!(fetch.next(FetchEvent::Broken).hand_on);
    assert_eq!(fetch.end(), FetchEnd::Incomplete);
    assert_eq!(Fetch::start(None, false).end(), FetchEnd::Complete);
    assert_eq!(answer_fetch(true), FetchAnswer::FromFile);
    assert_eq!(answer_fetch(false), FetchAnswer::AsItComes);
}

#[test]
fn overlays_are_made() {
    let files = generate_agent_apkovl("http://s");
    assert_eq!(files.len(), 9);
    let start = files.last().unwrap();
    assert!(start.executable);
    assert!(start.content.contains("dragonfly-agent --server http://s --setup\n"));
    assert_eq!(files[1].path, "etc/hostname");
    assert_eq!(files[1].content, "localhost");
    assert!(overlay_directories().contains(&"etc/local.d".to_string()));
    assert_eq!(archive_arguments("a.tar.gz", "d"), vec!["-czf", "a.tar.gz", "-C", "d", "."]);
    assert_eq!(conclude_archive(true, ""), Ok(()));
    assert_eq!(conclude_archive(false, "x"), Err("Tar command failed: x".to_string()));
}

#[test]
fn boot_images_are_downloaded() {
    assert_eq!(required_hookos_files().len(), 10);
    assert!(check_hookos_artifacts(&vec![true, true]));
    assert!(!check_hookos_artifacts(&vec![true, false]));
    assert_eq!(download_hookos_artifacts().len(), 4);
    assert_eq!(
        download_url("v1", "hook_x86_64.tar.gz"),
        "https://github.com/tinkerbell/hook/releases/download/v1/hook_x86_64.tar.gz"
    );
    assert_eq!(how_to_unpack("a.tar.gz", Some(5)), Unpacking::Compressed);
    assert_eq!(how_to_unpack("a.tgz", Some(5)), Unpacking::Compressed);
    assert_eq!(how_to_unpack("a.tar", Some(5)), Unpacking::Plain);
    assert_eq!(how_to_unpack("a.tar.gz", Some(0)), Unpacking::Skip);
    assert_eq!(how_to_unpack("a.tar.gz", None), Unpacking::Skip);
}

fn machine(status: MachineStatus) -> Machine {
    Machine {
        id: 7,
        mac_address: "04:7c:16:eb:74:ed".to_string(),
        ip_address: "10.0.0.7".to_string(),
        hostname: None,
        os_choice: Some("debian-12".to_string()),
        os_installed: None,
        status,
        disks: vec![],
        nameservers: vec![],
        created_at: 0,
        updated_at: 0,
        memorable_name: Some("Zoo".to_string()),
        bmc_credentials: None,
        installation_progress: 0,
        installation_step: None,
        last_deployment_duration: None,
        cpu_model: None,
        cpu_cores: None,
        total_ram_bytes: None,
        proxmox_vmid: None,
        proxmox_node: None,
        is_proxmox_host: false,
    }
}

fn listed(status: MachineStatus) -> Listed {
    Listed { machine: machine(status), id: "7".to_string(), status_name: "Offline".to_string() }
}

#[test]
fn machines_are_listed() {
    let list = vec![listed(MachineStatus::AwaitingAssignment), listed(MachineStatus::Offline)];
    let page = get_all_machines(&list, true);
    assert!(page.contains("Awaiting Assignment"));
    assert!(page.contains("bg-blue-100"));
    assert!(page.contains("Offline"));
    assert!(page.contains("bg-red-100"));
    assert!(page.contains("04:7c:16:eb:74:ed"));
    let visitor = get_all_machines(&list, false);
    assert!(visitor.len() < page.len());
    assert!(!visitor.contains("<button"));
    assert!(get_all_machines(&vec![], true).contains("No machines"));
    assert_eq!(name_to_show(&machine(MachineStatus::Ready), "7"), "Zoo");
    assert_eq!(os_to_show(&machine(MachineStatus::InstallingOS)), "🚧 Debian 12");
    assert_eq!(os_to_show(&machine(MachineStatus::Ready)), "debian-12");
    let mut bare = machine(MachineStatus::InstallingOS);
    bare.os_choice = None;
    bare.memorable_name = None;
    assert_eq!(os_to_show(&bare), "🚀 Installing OS");
    assert_eq!(name_to_show(&bare, "7"), "7");
}

#[test]
fn assignments_are_answered() {
    let done = Assignment::Recorded { machine_name: "Zoo".to_string(), failure: None };
    let page = assign_os_internal("debian-12", "7", &done);
    assert_eq!(page.status, 200);
    assert!(page.html.contains("debian-12 has been assigned to Zoo"));
    let missing = Assignment::Recorded {
        machine_name: "Zoo".to_string(),
        failure: Some(("Template x not found".to_string(), "x".to_string())),
    };
    assert_eq!(assign_os_internal("x", "7", &missing).status, 500);
    let other = Assignment::Recorded {
        machine_name: "Zoo".to_string(),
        failure: Some(("timeout".to_string(), "x".to_string())),
    };
    assert_eq!(assign_os_internal("x", "7", &other).status, 200);
    assert_eq!(assign_os_internal("x", "7", &Assignment::NotFound).status, 404);
    assert_eq!(assign_os_internal("x", "7", &Assignment::Failed("e".to_string())).status, 500);
}

#[test]
fn notices_and_forms_are_shown() {
    assert!(status_notice("7", &StatusUpdate::NotFound).contains('7'));
    assert!(status_notice("7", &StatusUpdate::Failed("oops".to_string())).contains("oops"));
    assert_ne!(
        status_notice("7", &StatusUpdate::Done),
        status_notice("7", &StatusUpdate::Invalid)
    );
    assert_eq!(update_bmc("7", Ok(true)).status, 200);
    assert_eq!(update_bmc("7", Ok(false)).status, 404);
    assert!(update_bmc("7", Err("oops".to_string())).html.contains("Database error: oops"));
    let form = get_hostname_form("7", Ok(Some(Some("box".to_string()))));
    assert_eq!(form.status, 200);
    assert!(form.html.contains("box"));
    assert_eq!(
        get_hostname_form("7", Ok(None)).html,
        "<div class=\"p-4 text-red-500\">Machine with ID 7 not found</div>"
    );
    assert_eq!(get_hostname_form("7", Err("x".to_string())).status, 500);
    assert!(get_machine_os("7").contains('7'));
    assert!(get_machine_status("7").contains('7'));
    let notice = |m, w| get_workflow_progress(m, w).map(|p| (p.status, p.html));
    assert_eq!(notice(Ok(Some(true)), Ok(true)), None);
    assert_eq!(notice(Ok(Some(true)), Ok(false)), Some((200, "<div></div>".to_string())));
    assert_eq!(notice(Ok(Some(false)), Ok(true)), Some((200, "<div></div>".to_string())));
    assert_eq!(notice(Ok(None), Ok(true)).unwrap().0, 404);
    assert_eq!(notice(Err(()), Ok(true)).unwrap().0, 500);
    assert_eq!(
        notice(Ok(Some(true)), Err(())),
        Some((500, "<div>Error fetching workflow</div>".to_string()))
    );
}

#[test]
fn changes_are_answered_and_announced() {
    let made = answer_change(Change::Hostname, "7", Ok(true));
    assert_eq!(made.reply.status, 200);
    assert_eq!(made.reply.body.text_at("message"), Some("Hostname updated for machine 7"));
    assert_eq!(made.announce.as_deref(), Some("machine_updated:7"));
    let missing = answer_change(Change::OsInstalled, "7", Ok(false));
    assert_eq!(missing.reply, machine_not_found("7"));
    assert_eq!(missing.announce, None);
    let failed = answer_change(Change::Tags, "7", Err("x".to_string()));
    assert_eq!(failed.reply.body.text_at("message"), Some("Failed to update tags: x"));
    let progress = update_installation_progress("7", Ok(true));
    assert_eq!(progress.reply.body.text_at("status"), Some("progress_updated"));
    assert_eq!(update_installation_progress("7", Err("x".to_string())).reply.status, 500);
    let gone = delete_machine("7", Ok(true), false);
    assert_eq!(gone.announce.as_deref(), Some("machine_deleted:7"));
    assert_eq!(
        gone.reply.body.text_at("message"),
        Some("Machine deleted from Dragonfly but there was an issue removing it from Tinkerbell.")
    );
    assert_eq!(delete_machine("7", Ok(false), true).reply.status, 404);
    let unknown = nothing_to_delete();
    assert_eq!(unknown.status, 404);
    assert_eq!(unknown.body.text_at("error"), Some("Machine not found"));
    assert!(unknown.body.get("message").is_none());
    assert_eq!(name_to_delete("04:7C:16"), "04-7c-16");
    let entered = register_machine(Ok("7".to_string()));
    assert_eq!(entered.reply.body.text_at("machine_id"), Some("7"));
    assert_eq!(entered.reply.body.text_at("next_step"), Some("awaiting_os_assignment"));
    assert!(register_machine(Err("x".to_string())).announce.is_none());
}

#[test]
fn machines_are_told() {
    let found = |is_installing| {
        Ok(Some(Found { machine: Json::text("m"), is_installing }))
    };
    let reply = get_machine("7", found(true), Some(Json::text("w")));
    assert_eq!(reply.body.text_at("workflow_info"), Some("w"));
    let reply = get_machine("7", found(false), Some(Json::text("w")));
    assert_eq!(reply.body.text_at("machine"), Some("m"));
    assert!(matches!(reply.body.get("workflow_info"), Some(Json::Null)));
    assert_eq!(get_machine("7", Ok(None), None), machine_not_found("7"));
    assert_eq!(
        get_machine("7", Err("x".to_string()), None),
        error_reply(500, "Database Error", "x")
    );
}

#[test]
fn updates_need_rights() {
    assert!(refuse_update(true, None, "10.0.0.1", true).is_none());
    assert!(refuse_update(false, Some("10.0.0.1"), "10.0.0.1", true).is_none());
    assert_eq!(refuse_update(false, Some("10.0.0.2"), "10.0.0.1", true).unwrap().status, 403);
    assert_eq!(refuse_update(false, None, "10.0.0.1", true).unwrap().status, 403);
    assert_eq!(refuse_update(true, None, "10.0.0.1", false).unwrap().status, 400);
    assert_eq!(update_failed("7", None).status, 404);
    assert_eq!(update_failed("7", Some("x")).status, 500);
    assert_eq!(unauthorized().status, 401);
    assert_eq!(track_client_ip(Some("10.0.0.9"), "127.0.0.1"), "10.0.0.9");
    assert_eq!(track_client_ip(None, "127.0.0.1"), "127.0.0.1");
}

#[test]
fn bodies_are_understood() {
    assert_eq!(assign_os("application/json; charset=utf-8"), BodyFormat::Json);
    assert_eq!(assign_os("application/x-www-form-urlencoded"), BodyFormat::Form);
    assert_eq!(assign_os("text/plain"), BodyFormat::Unsupported);
    assert_eq!(status_format("application/json"), BodyFormat::Json);
    assert_eq!(status_format("text/plain"), BodyFormat::Form);
    assert_eq!(missing_os_choice().status, 400);
    assert_eq!(update_status(Some("Ready")), Some(MachineStatus::Ready));
    assert_eq!(
        update_status(Some("Error")),
        Some(MachineStatus::Error("Manual error state".to_string()))
    );
    assert_eq!(update_status(Some("Lost")), None);
    assert_eq!(update_status(None), None);
    let waiting = MachineStatus::AwaitingAssignment;
    assert_eq!(default_assignment(&waiting, Some("talos")).as_deref(), Some("talos"));
    assert_eq!(default_assignment(&MachineStatus::Ready, Some("talos")), None);
    assert_eq!(default_assignment(&waiting, None), None);
    let bmc = |kind: &str| {
        bmc_credentials("a".into(), "u".into(), "p".into(), kind.to_string()).bmc_type
    };
    assert_eq!(bmc("IPMI"), BmcType::IPMI);
    assert_eq!(bmc("Redfish"), BmcType::Redfish);
    assert_eq!(bmc("AMT"), BmcType::Other("AMT".to_string()));
}

#[test]
fn tags_are_kept() {
    let tags = vec!["a".to_string(), "b".to_string(), "a".to_string()];
    assert_eq!(remove_tag(tags.clone(), "a"), vec!["b"]);
    assert_eq!(remove_tag(tags.clone(), "x"), tags);
    let reply = api_get_machine_tags(Ok(tags));
    assert_eq!(reply.body.as_array().unwrap().len(), 3);
    assert_eq!(
        api_get_machine_tags(Err("x".to_string())).body.text_at("message"),
        Some("Failed to retrieve tags: x")
    );
    assert_eq!(api_delete_machine_tag("7", Ok(()), Ok(true)).announce.as_deref(), Some("machine_updated:7"));
    assert_eq!(api_delete_machine_tag("7", Ok(()), Ok(false)).reply.status, 404);
    assert_eq!(api_delete_machine_tag("7", Err("x".to_string()), Ok(true)).reply.status, 500);
}

#[test]
fn browsers_are_told() {
    match machine_events("machine_updated:7") {
        SseMessage::Json { kind, data } => {
            assert_eq!(kind, "machine_updated");
            assert_eq!(data.text_at("type"), Some("machine_updated"));
            assert_eq!(data.text_at("id"), Some("7"));
        }
        other => panic!("expected an event, got {other:?}"),
    }
    match machine_events("templates_ready") {
        SseMessage::Json { data, .. } => assert!(data.get("id").is_none()),
        other => panic!("expected an event, got {other:?}"),
    }
    assert_eq!(
        machine_events(&announce_download("{\"a\":1}")),
        SseMessage::Raw {
            kind: "ip_download_progress".to_string(),
            text: "{\"a\":1}".to_string(),
        }
    );
    assert!(matches!(machine_events("ip_download_progress"), SseMessage::Comment(_)));
}

#[test]
fn downloads_are_reported() {
    let id = Some("7".to_string());
    assert_eq!(
        track_download_progress(&id, "50.000", 5, 10).as_deref(),
        Some("task_progress:7:stream image:50.000:5:10")
    );
    assert_eq!(track_download_progress(&id, "0.000", 0, 0), None);
    assert_eq!(track_download_progress(&None, "50.000", 5, 10), None);
    let ip = Some("10.0.0.7".to_string());
    let report = report_download(&ip, Json::number(50), 5, 10, &None, &id).unwrap();
    assert_eq!(report.text_at("ip"), Some("10.0.0.7"));
    assert_eq!(report.unsigned_at("progress"), Some(50));
    assert_eq!(report.unsigned_at("bytes_downloaded"), Some(5));
    assert_eq!(report.text_at("machine_id"), Some("7"));
    let report = report_download(&ip, Json::Null, 5, 10, &None, &None).unwrap();
    assert!(matches!(report.get("machine_id"), Some(Json::Null)));
    assert!(report_download(&None, Json::Null, 5, 10, &id, &None).is_none());
    assert!(report_download(&ip, Json::Null, 5, 0, &id, &None).is_none());
}
