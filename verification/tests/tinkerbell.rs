//! Workflows and the resources of the cluster.

use dragonfly::clock::Instant;
use dragonfly::json::Json;
use dragonfly::machine::{DiskInfo, Machine, MachineStatus};
use dragonfly::store::records::TemplateTiming;
use dragonfly::tinkerbell::resources::{
    apply_failed, create_workflow, delete_hardware, deleted_name, expand_tilde, hardware_name,
    how_to_apply, register_machine, workflow_name, Apply, Deletion, Lookup,
};
use dragonfly::tinkerbell::timings::{ActionRun, TimesOutOfRange, Timings};
use dragonfly::tinkerbell::workflow::{
    estimate_completion, format_remaining_time, get_workflow_info, is_workflow_timed_out,
    machine_status_after, measure_progress, plan_tasks, read_actions, TaskInfo,
    WorkflowReading,
};

const NOW: Instant = Instant { secs: 1_704_164_645, nanos: 0 };
const MINUTE_AGO: &str = "2024-01-02T03:03:05Z";
const HOUR_AGO: &str = "2024-01-02T02:04:05Z";

fn machine() -> Machine {
    Machine {
        id: 7,
        mac_address: "04:7c:16:eb:74:ed".to_string(),
        ip_address: "10.0.0.7".to_string(),
        hostname: None,
        os_choice: Some("debian-12".to_string()),
        os_installed: None,
        status: MachineStatus::InstallingOS,
        disks: vec![DiskInfo {
            device: "/dev/sda".to_string(),
            size_bytes: 10,
            model: None,
            calculated_size: None,
        }],
        nameservers: vec!["9.9.9.9".to_string()],
        created_at: 0,
        updated_at: 0,
        memorable_name: Some("Zoo".to_string()),
        bmc_credentials: None,
        installation_progress: 0,
        installation_step: None,
        last_deployment_duration: None,
        cpu_model: None,
        cpu_cores: None,
        total_ram_bytes: None,
        proxmox_vmid: None,
        proxmox_node: None,
        is_proxmox_host: false,
    }
}

#[test]
fn resources_describe_machines() {
    assert_eq!(hardware_name("04:7c:16:eb:74:ed"), "machine-04-7c-16-eb-74-ed");
    assert_eq!(workflow_name("04:7c:16:eb:74:ed"), "os-install-04-7c-16-eb-74-ed");
    let hardware = register_machine(&machine());
    assert_eq!(hardware.text_at("kind"), Some("Hardware"));
    assert_eq!(
        hardware.get2("metadata", "name").unwrap().as_str(),
        Some("machine-04-7c-16-eb-74-ed")
    );
    let spec = hardware.get("spec").unwrap();
    let instance = spec.get2("metadata", "instance").unwrap();
    assert_eq!(instance.text_at("id"), Some("Zoo"));
    assert_eq!(instance.text_at("hostname"), Some("machine-04-7c-16-eb-74-ed"));
    assert_eq!(spec.items_at("disks").unwrap()[0].text_at("device"), Some("/dev/sda"));
    let dhcp = spec.items_at("interfaces").unwrap()[0].get("dhcp").unwrap();
    assert_eq!(dhcp.text_at("mac"), Some("04:7c:16:eb:74:ed"));
    assert_eq!(dhcp.unsigned_at("lease_time"), Some(86400));
    assert_eq!(dhcp.items_at("name_servers").unwrap()[0].as_str(), Some("9.9.9.9"));
}

#[test]
fn workflows_refer_to_machines() {
    let workflow = create_workflow(&machine());
    let spec = workflow.get("spec").unwrap();
    assert_eq!(spec.text_at("templateRef"), Some("debian-12"));
    assert_eq!(spec.text_at("hardwareRef"), Some("machine-04-7c-16-eb-74-ed"));
    assert_eq!(spec.get2("hardwareMap", "device_1").unwrap().as_str(), Some("04:7c:16:eb:74:ed"));
    let mut undecided = machine();
    undecided.os_choice = None;
    let workflow = create_workflow(&undecided);
    assert_eq!(workflow.get2("spec", "templateRef").unwrap().as_str(), Some("ubuntu-2204"));
}

#[test]
fn resources_are_applied_and_deleted() {
    assert_eq!(how_to_apply("Hardware", Lookup::Found), Ok(Apply::Patch));
    assert_eq!(how_to_apply("Hardware", Lookup::NotFound), Ok(Apply::Create));
    assert!(how_to_apply("Hardware", Lookup::Failed("x".to_string())).is_err());
    assert_eq!(
        apply_failed("Hardware", Apply::Patch, "x"),
        "Failed to update Hardware resource: x"
    );
    let gone = || Deletion::NotFound("gone".to_string());
    let failed = || Deletion::Failed("x".to_string());
    assert_eq!(delete_hardware(Deletion::Deleted, Deletion::Deleted), Ok(()));
    assert_eq!(delete_hardware(gone(), gone()), Ok(()));
    assert_eq!(delete_hardware(gone(), Deletion::Deleted), Ok(()));
    assert_eq!(
        delete_hardware(failed(), gone()),
        Err("Failed to delete hardware resource: x".to_string())
    );
    assert_eq!(
        delete_hardware(gone(), failed()),
        Err("Failed to delete hardware resource: gone".to_string())
    );
    assert_eq!(
        delete_hardware(Deletion::Deleted, failed()),
        Err("Failed to delete workflow resource: x".to_string())
    );
    assert_eq!(deleted_name("04:7C:16:EB:74:ÉD"), "04:7c:16:eb:74:éd");
    assert_eq!(expand_tilde("~/.kube/config", Some("/home/a")), Some("/home/a/.kube/config".into()));
    assert_eq!(expand_tilde("/etc/config", Some("/home/a")), None);
    assert_eq!(expand_tilde("~/config", None), None);
}

#[test]
fn remaining_times_are_told() {
    let told = |s| format_remaining_time(s).unwrap();
    assert_eq!(told(-5), "Completing soon");
    assert_eq!(told(0), "Completing soon");
    assert_eq!(told(59), "Less than a minute remaining");
    assert_eq!(told(60), "Approximately 1 minute remaining");
    assert_eq!(told(150), "Approximately 2 minutes remaining");
    assert_eq!(told(3600), "Approximately 1 hour remaining");
    assert_eq!(told(3660), "Approximately 1 hour and 1 minute remaining");
    assert_eq!(told(9000), "Approximately 2 hours and 30 minutes remaining");
}

fn timings() -> Timings {
    let mut timings = Timings::new();
    timings.load(TemplateTiming {
        template_name: "debian-12".to_string(),
        action_name: "stream".to_string(),
        durations: vec![100, 201],
    });
    timings
}

#[test]
fn averages_come_from_past_runs() {
    let mut t = timings();
    assert_eq!(t.get_avg_time_for_action("debian-12", "stream"), Some(150));
    assert_eq!(t.get_avg_time_for_action("debian-12", "partition"), None);
    // A template without the action takes it from another one, whether it is known or not.
    assert_eq!(t.get_avg_time_for_action("talos", "stream"), Some(150));
    let _ = t.store_timing_info(
        "talos",
        &vec![ActionRun { action: "partition".to_string(), duration: 7 }],
    );
    assert_eq!(t.get_avg_time_for_action("talos", "stream"), Some(150));
    assert_eq!(t.get_avg_time_for_action("debian-12", "partition"), Some(7));
    let overfull = TemplateTiming {
        template_name: "talos".to_string(),
        action_name: "wait".to_string(),
        durations: vec![u64::MAX, 1],
    };
    t.load(overfull);
    assert_eq!(t.average("talos", "wait"), Err(TimesOutOfRange {}));
    assert_eq!(t.average("debian-12", "wait"), Err(TimesOutOfRange {}));
    assert_eq!(t.average("debian-12", "stream"), Ok(Some(150)));
    assert_eq!(t.average("debian-12", "reboot"), Ok(None));
    let own = TemplateTiming {
        template_name: "debian-12".to_string(),
        action_name: "wait".to_string(),
        durations: vec![4],
    };
    t.load(own);
    // A template with durations of its own looks at no other.
    assert_eq!(t.get_avg_time_for_action("debian-12", "wait"), Some(4));
}

#[test]
fn averages_of_unknown_templates_come_from_others() {
    let mut t = Timings::new();
    t.load(TemplateTiming {
        template_name: "debian-12".to_string(),
        action_name: "stream image".to_string(),
        durations: vec![10, 20],
    });
    assert_eq!(t.get_avg_time_for_action("ubuntu-2204", "stream image"), Some(15));
    assert_eq!(t.get_avg_time_for_action("ubuntu-2204", "reboot"), None);
}

#[test]
fn only_the_times_that_are_asked_for_have_to_add_up() {
    let mut t = timings();
    t.load(TemplateTiming {
        template_name: "talos".to_string(),
        action_name: "wait".to_string(),
        durations: vec![u64::MAX, 1],
    });
    let empty = Json::nothing().with("status", Json::nothing());
    assert!(matches!(get_workflow_info(&empty, &t, NOW), Ok(Some(WorkflowReading::Status(_)))));
    let w = workflow("STATE_RUNNING", "stream", vec![action("stream", "STATE_PENDING", "", 5)]);
    assert!(matches!(get_workflow_info(&w, &t, NOW), Ok(Some(WorkflowReading::Status(_)))));
    let w = workflow("STATE_RUNNING", "wait", vec![action("wait", "STATE_PENDING", "", 5)]);
    assert_eq!(get_workflow_info(&w, &t, NOW), Err(TimesOutOfRange {}));
}

#[test]
fn histories_are_bounded() {
    let mut t = Timings::new();
    let mut stored = Vec::new();
    for duration in 0..60 {
        let runs = vec![ActionRun { action: "stream".to_string(), duration }];
        stored = t.store_timing_info("debian-12", &runs);
    }
    assert_eq!(stored.len(), 1);
    assert_eq!(stored[0].durations, (10..60).collect::<Vec<u64>>());
    let runs = vec![
        ActionRun { action: "reboot".to_string(), duration: 1 },
        ActionRun { action: "reboot".to_string(), duration: 2 },
    ];
    let _ = t.store_timing_info("talos", &runs);
    let written = t.cleanup_historical_timings();
    // Each action is handed out once.
    assert_eq!(written.len(), 2);
    assert_eq!(written[1].durations, [1, 2]);
    assert_eq!(written[0].action_name, "stream");
    // What was handed out is still there.
    assert_eq!(t.get_avg_time_for_action("talos", "reboot"), Some(1));
    assert_eq!(t.cleanup_historical_timings(), written);
}

#[test]
fn cleaning_up_keeps_the_latest() {
    let mut t = Timings::new();
    for (action, durations) in [("stream", (0..60).collect()), ("wait", vec![7, 8])] {
        t.load(TemplateTiming {
            template_name: "debian-12".to_string(),
            action_name: action.to_string(),
            durations,
        });
    }
    let written = t.cleanup_historical_timings();
    assert_eq!(written.len(), 2);
    assert_eq!(written[0].durations, (10..60).collect::<Vec<u64>>());
    assert_eq!(written[1].durations, [7, 8]);
    assert_eq!(t.get_avg_time_for_action("debian-12", "stream"), Some(34));
    assert_eq!(t.get_avg_time_for_action("debian-12", "wait"), Some(7));
}

fn action(name: &str, status: &str, started: &str, seconds: u64) -> Json {
    Json::nothing()
        .with("name", Json::text(name))
        .with("status", Json::text(status))
        .with("startedAt", Json::text(started))
        .with("seconds", Json::number(seconds))
}

fn workflow(state: &str, current: &str, actions: Vec<Json>) -> Json {
    let tasks = Json::only(Json::nothing().with("actions", Json::List(actions)));
    Json::nothing()
        .with("spec", Json::nothing().with("templateRef", Json::text("debian-12")))
        .with(
            "status",
            Json::nothing()
                .with("state", Json::text(state))
                .with("currentAction", Json::text(current))
                .with("tasks", tasks),
        )
}

#[test]
fn running_workflows_are_measured() {
    let w = workflow(
        "STATE_RUNNING",
        "stream",
        vec![
            action("partition", "STATE_SUCCESS", HOUR_AGO, 20),
            action("stream", "STATE_RUNNING", MINUTE_AGO, 0),
            action("boot", "STATE_PENDING", "", 5),
        ],
    );
    let status = match get_workflow_info(&w, &timings(), NOW) {
        Ok(Some(WorkflowReading::Status(status))) => status,
        other => panic!("expected a status, got {other:?}"),
    };
    assert_eq!(status.template_name, "debian-12");
    assert_eq!(status.tasks[1].estimated_duration, 150);
    assert_eq!(status.tasks[2].estimated_duration, 5);
    assert_eq!(status.progress.total_tasks, 3);
    assert_eq!(status.progress.completed_tasks, 1);
    assert_eq!(status.progress.total_seconds, 175);
    assert_eq!(status.progress.completed_seconds, 20);
    assert_eq!(status.progress.running, Some((150, 60)));
    assert_eq!(
        status.estimated_completion.as_deref(),
        Some("Approximately 1 minute remaining")
    );
    assert!(!status.succeeded && !status.failed);
    let runs = status.runs();
    assert_eq!((runs[0].action.as_str(), runs[0].duration), ("partition", 20));
    let info = status.into_info(42);
    assert_eq!(info.progress, 42);
    assert_eq!(info.current_action.as_deref(), Some("stream"));
}

#[test]
fn finished_workflows_decide_the_status() {
    let done = vec![action("stream", "STATE_SUCCESS", HOUR_AGO, 20)];
    match get_workflow_info(&workflow("STATE_SUCCESS", "", done), &timings(), NOW) {
        Ok(Some(WorkflowReading::Status(s))) => {
            assert!(s.succeeded && !s.failed);
            assert_eq!(s.estimated_completion, None);
        }
        other => panic!("expected a status, got {other:?}"),
    }
    let half = vec![action("stream", "STATE_FAILED", HOUR_AGO, 20)];
    match get_workflow_info(&workflow("STATE_FAILED", "", half), &timings(), NOW) {
        Ok(Some(WorkflowReading::Status(s))) => assert!(s.failed && !s.succeeded),
        other => panic!("expected a status, got {other:?}"),
    }
    assert_eq!(machine_status_after(true, false), Some(MachineStatus::Ready));
    assert_eq!(
        machine_status_after(false, true),
        Some(MachineStatus::Error("OS installation failed".to_string()))
    );
    assert_eq!(machine_status_after(false, false), None);
    assert_eq!(get_workflow_info(&Json::nothing(), &timings(), NOW), Ok(None));
}

#[test]
fn machines_that_boot_are_done() {
    let booting = vec![action("kexec to boot OS", "STATE_RUNNING", HOUR_AGO, 0)];
    let w = workflow("STATE_RUNNING", "kexec to boot OS", booting);
    let status = w.get("status").unwrap();
    assert!(is_workflow_timed_out(status, Some("kexec to boot OS"), NOW));
    assert!(!is_workflow_timed_out(status, Some("stream"), NOW));
    let early = Instant { secs: NOW.secs - 3000, nanos: 0 };
    assert!(!is_workflow_timed_out(status, Some("kexec to boot OS"), early));
    match get_workflow_info(&w, &timings(), NOW) {
        Ok(Some(WorkflowReading::Booted(info))) => {
            assert_eq!(info.progress, 100);
            assert_eq!(info.estimated_completion.as_deref(), Some("Deployment complete"));
        }
        other => panic!("expected a booted machine, got {other:?}"),
    }
}

#[test]
fn times_that_cannot_be_added_are_refused() {
    let huge = i64::MAX as u64;
    let w = workflow(
        "STATE_RUNNING",
        "a",
        vec![
            action("a", "STATE_PENDING", "", huge),
            action("b", "STATE_PENDING", "", huge),
            action("c", "STATE_PENDING", "", huge),
        ],
    );
    assert_eq!(get_workflow_info(&w, &timings(), NOW), Err(TimesOutOfRange {}));
}

fn task(name: &str, status: &str, started_at: &str, duration: u64) -> TaskInfo {
    TaskInfo {
        name: name.to_string(),
        status: status.to_string(),
        started_at: started_at.to_string(),
        duration,
        reported_duration: duration,
        estimated_duration: duration,
    }
}

#[test]
fn the_end_of_a_task_looks_at_the_next() {
    let tasks = vec![
        task("a", "STATE_RUNNING", MINUTE_AGO, 65),
        task("b", "STATE_PENDING", "", 200),
    ];
    assert_eq!(
        estimate_completion("STATE_RUNNING", &tasks, NOW),
        Some(Some("Approximately 3 minutes remaining".to_string()))
    );
    assert_eq!(estimate_completion("STATE_SUCCESS", &tasks, NOW), Some(None));
    assert_eq!(measure_progress(&tasks, NOW).unwrap().running, Some((65, 60)));
    let unknown = vec![task("a", "STATE_RUNNING", "a while ago", 65)];
    assert_eq!(estimate_completion("STATE_RUNNING", &unknown, NOW), Some(None));
    assert_eq!(measure_progress(&vec![], NOW).unwrap().total_tasks, 0);
}

#[test]
fn reports_have_defaults() {
    let status = Json::nothing().with(
        "tasks",
        Json::only(Json::nothing().with("actions", Json::only(Json::nothing()))),
    );
    let reports = read_actions(&status);
    assert_eq!(reports.len(), 1);
    assert_eq!(reports[0].name, "unknown");
    assert_eq!(reports[0].status, "UNKNOWN");
    assert_eq!(reports[0].seconds, 0);
    let tasks = plan_tasks(&reports, "debian-12", &timings()).unwrap();
    assert_eq!(tasks[0].duration, 0);
}
