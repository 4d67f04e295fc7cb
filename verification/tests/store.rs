//! What is kept in the database.

use dragonfly::auth::{Credentials, Settings};
use dragonfly::clock::{parse_datetime, Instant};
use dragonfly::json::{read_text_list, Json};
use dragonfly::machine::{
    parse_status, status_from_json, status_from_legacy, status_of_stored, MachineStatus,
    RegisterRequest,
};
use dragonfly::store::migrations::{migrate_db, split_existing_os, Column, MigrationStep, Schema};
use dragonfly::store::records::{
    confirm_saved, enter, get_app_settings, get_completed_workflow, get_timing_database_stats,
    is_setup_completed, map_row_to_machine_with_hardware, may_take_mac, read_durations,
    register_machine, save_app_settings, save_template_timing, size_unit, write_mode, MachineRow,
    SettingsRow, SizeUnit, WriteMode,
};
use uuid::Uuid;

const NOW: Instant = Instant { secs: 1_700_000_000, nanos: 0 };

fn request() -> RegisterRequest {
    RegisterRequest {
        mac_address: "04:7c:16:eb:74:ed".to_string(),
        ip_address: "10.0.0.7".to_string(),
        hostname: None,
        disks: vec![],
        nameservers: vec![],
        cpu_model: None,
        cpu_cores: Some(8),
        total_ram_bytes: Some(u64::MAX),
        proxmox_vmid: None,
        proxmox_node: None,
        proxmox_cluster: None,
    }
}

#[test]
fn machines_are_entered_by_their_address() {
    let entered = register_machine(&request(), None).unwrap();
    let id = Uuid::new_v5(&Uuid::NAMESPACE_DNS, b"04:7c:16:eb:74:ed");
    assert_eq!(entered.id, id.as_u128());
    assert!(entered.is_new);
    assert_eq!(entered.status, MachineStatus::AwaitingAssignment);
    assert!(!entered.is_proxmox_host);
    assert_eq!(entered.cpu_cores, Some(8));
    assert_eq!(entered.total_ram_bytes, Some(-1));

    let known = Uuid::now_v7();
    let entered = register_machine(&request(), Some(&known.to_string())).unwrap();
    assert_eq!(entered.id, known.as_u128());
    assert!(!entered.is_new);
    assert!(register_machine(&request(), Some("no number")).is_none());
}

#[test]
fn nodes_and_guests_have_an_operating_system() {
    let mut node = request();
    node.proxmox_node = Some("pve".to_string());
    let entered = enter(&node, true, 1);
    assert!(entered.is_proxmox_host);
    assert_eq!(entered.status, MachineStatus::ExistingOS);
    let mut guest = node;
    guest.proxmox_vmid = Some(100);
    let entered = enter(&guest, true, 2);
    assert!(!entered.is_proxmox_host);
    assert_eq!(entered.status, MachineStatus::ExistingOS);
    assert_eq!(entered.proxmox_vmid, Some(100));
}

#[test]
fn addresses_belong_to_one_machine() {
    assert_eq!(may_take_mac("a", None), Ok(()));
    assert_eq!(may_take_mac("a", Some("a")), Ok(()));
    assert_eq!(
        may_take_mac("a", Some("b")),
        Err("MAC address is already in use by another machine".to_string())
    );
}

fn row(id: &str) -> MachineRow {
    MachineRow {
        id: id.to_string(),
        mac_address: "04:7c:16:eb:74:ed".to_string(),
        ip_address: "10.0.0.7".to_string(),
        hostname: Some("box".to_string()),
        os_choice: None,
        os_installed: None,
        status: "\"Ready\"".to_string(),
        disks: vec![],
        nameservers: Some("[\"9.9.9.9\",\"1.1.1.1\"]".to_string()),
        created_at: "2024-01-02T03:04:05Z".to_string(),
        updated_at: "yesterday".to_string(),
        memorable_name: None,
        bmc_credentials: None,
        installation_progress: Some(300),
        installation_step: None,
        last_deployment_duration: None,
        cpu_model: None,
        cpu_cores: Some(8),
        total_ram_bytes: Some(-1),
        proxmox_vmid: None,
        proxmox_node: None,
        is_proxmox_host: false,
    }
}

#[test]
fn rows_are_read() {
    let id = Uuid::now_v7();
    let machine = map_row_to_machine_with_hardware(row(&id.to_string()), NOW);
    assert_eq!(machine.id, id.as_u128());
    assert_eq!(machine.status, MachineStatus::Ready);
    assert_eq!(machine.nameservers, vec!["9.9.9.9", "1.1.1.1"]);
    assert_eq!(machine.created_at, 1_704_164_645);
    assert_eq!(machine.updated_at, NOW.secs);
    assert_eq!(machine.installation_progress, 44);
    assert_eq!(machine.total_ram_bytes, Some(u64::MAX));
    assert_eq!(machine.cpu_cores, Some(8));
    assert!(machine.memorable_name.is_some());

    let mut broken = row("no number");
    broken.nameservers = Some("[1]".to_string());
    broken.memorable_name = Some("Zoo".to_string());
    let machine = map_row_to_machine_with_hardware(broken, NOW);
    assert_eq!(machine.id, 0);
    assert!(machine.nameservers.is_empty());
    assert_eq!(machine.memorable_name.as_deref(), Some("Zoo"));
}

#[test]
fn times_are_read() {
    assert_eq!(parse_datetime("1970-01-01T00:01:00+00:00", NOW), 60);
    assert_eq!(parse_datetime("1970-01-01T01:00:00+01:00", NOW), 0);
    assert_eq!(parse_datetime("now", NOW), NOW.secs);
    let read = get_completed_workflow("1970-01-01 00:00:09").unwrap();
    assert_eq!((read.secs, read.nanos), (9, 0));
    let read = get_completed_workflow("1970-01-01 00:00:09.5").unwrap();
    assert_eq!((read.secs, read.nanos), (9, 500_000_000));
    assert!(get_completed_workflow("soon").is_none());
}

#[test]
fn statuses_are_read_in_every_form() {
    assert_eq!(parse_status("\"InstallingOS\""), MachineStatus::InstallingOS);
    assert_eq!(parse_status("{\"Error\":\"x\"}"), MachineStatus::Error("x".to_string()));
    assert_eq!(parse_status("{\"Ready\":null}"), MachineStatus::Ready);
    assert_eq!(
        parse_status(" { \"Error\" : \"a: \\\"b:\\\"\" } "),
        MachineStatus::Error("a: \"b:\"".to_string())
    );
    let twice = "{\"Error\":\"a\",\"Error\":\"b\"}";
    assert_eq!(parse_status(twice), MachineStatus::Error(format!("Unknown status: {twice}")));
    let value = Json::nothing().with("Error", Json::text("b"));
    assert_eq!(
        status_of_stored("{\"Error\":\"b\"}", &Some(value)),
        MachineStatus::Error("b".to_string())
    );
    assert_eq!(status_of_stored("Ready", &None), MachineStatus::Ready);
    assert_eq!(parse_status("ExistingOS: Debian 12"), MachineStatus::ExistingOS);
    assert_eq!(parse_status("Existing OS"), MachineStatus::ExistingOS);
    assert_eq!(parse_status("AwaitingAssignment"), MachineStatus::AwaitingAssignment);
    assert_eq!(parse_status("Offline"), MachineStatus::Offline);
    assert_eq!(parse_status("Error: x"), MachineStatus::Error("x".to_string()));
    assert_eq!(parse_status("Lost"), MachineStatus::Error("Unknown status: Lost".to_string()));
    assert_eq!(parse_status("7"), MachineStatus::Error("Unknown status: 7".to_string()));
    assert_eq!(status_from_legacy("Ready"), MachineStatus::Ready);
    assert_eq!(status_from_json(&Json::text("Offline")), Some(MachineStatus::Offline));
    assert_eq!(status_from_json(&Json::Null), None);
    assert!(MachineStatus::Ready.is_same(&MachineStatus::Ready));
    assert!(!MachineStatus::Error("a".into()).is_same(&MachineStatus::Error("b".into())));
}

#[test]
fn written_statuses_are_read_back() {
    for status in [
        MachineStatus::AwaitingAssignment,
        MachineStatus::ExistingOS,
        MachineStatus::InstallingOS,
        MachineStatus::Ready,
        MachineStatus::Offline,
        MachineStatus::Error("x".to_string()),
    ] {
        assert_eq!(status_from_json(&status.to_json()), Some(status));
    }
    let texts = vec!["9.9.9.9".to_string(), String::new()];
    assert_eq!(read_text_list(&Json::texts(&texts)), Some(texts));
}

#[test]
fn sizes_have_units() {
    assert_eq!(size_unit(1024), SizeUnit::Bytes);
    assert_eq!(size_unit(1025), SizeUnit::Kilobytes);
    assert_eq!(size_unit(1_048_577), SizeUnit::Megabytes);
    assert_eq!(size_unit(1_073_741_825), SizeUnit::Gigabytes);
    assert_eq!(size_unit(1_099_511_627_777), SizeUnit::Terabytes);
}

#[test]
fn saved_settings_come_back() {
    let mut settings = Settings::default();
    settings.require_login = true;
    settings.default_os = Some("debian-12".to_string());
    settings.setup_completed = true;
    let row = save_app_settings(&settings);
    let c = Credentials::from_hash("root".to_string(), Ok("h".to_string())).unwrap();
    let loaded = get_app_settings(Some(row), Some(c));
    assert!(loaded.require_login && loaded.setup_completed);
    assert_eq!(loaded.default_os.as_deref(), Some("debian-12"));
    assert_eq!(loaded.admin_username, "root");
    assert_eq!(loaded.admin_password_hash, "h");
    assert_eq!(get_app_settings(None, None), Settings::default());
    let row = SettingsRow { require_login: false, default_os: None, setup_completed: true };
    assert_eq!(get_app_settings(Some(row), None).admin_username, "admin");
    assert!(is_setup_completed(Some(true)));
    assert!(!is_setup_completed(Some(false)));
    assert!(!is_setup_completed(None));
    assert_eq!(write_mode(0), WriteMode::Insert);
    assert_eq!(write_mode(1), WriteMode::Update);
    assert!(confirm_saved(true).is_ok());
    assert!(confirm_saved(false).is_err());
}

#[test]
fn the_last_fifty_durations_are_kept() {
    let many: Vec<u64> = (0..60).collect();
    let kept = save_template_timing(&many);
    assert_eq!(kept, (10..60).collect::<Vec<u64>>());
    assert_eq!(save_template_timing(&vec![1, 2]), vec![1, 2]);
    assert_eq!(read_durations("[3,4]"), Some(vec![3, 4]));
    assert_eq!(read_durations("[3,-4]"), None);
    assert_eq!(read_durations("{}"), None);
    assert_eq!(get_timing_database_stats(&vec![Some(vec![1, 2]), None, Some(vec![3])]), 3);
}

#[test]
fn old_databases_are_migrated() {
    let old = Schema {
        machines: vec!["id".to_string(), "status".to_string(), "cpu_model".to_string()],
        settings: Some(vec!["default_os".to_string()]),
    };
    let steps = migrate_db(&old);
    assert_eq!(steps[0], MigrationStep::AddColumn(Column::OsInstalled));
    assert_eq!(steps[1], MigrationStep::MoveExistingOs);
    assert!(steps.contains(&MigrationStep::AddColumn(Column::SetupCompleted)));
    assert!(!steps.contains(&MigrationStep::AddColumn(Column::DefaultOs)));
    assert!(!steps.contains(&MigrationStep::AddColumn(Column::CpuModel)));
    assert_eq!(steps.last(), Some(&MigrationStep::MarkProxmoxHosts));
    assert_eq!(
        MigrationStep::AddColumn(Column::InstallationProgress).statement(),
        "ALTER TABLE machines ADD COLUMN installation_progress INTEGER DEFAULT 0"
    );
    assert_eq!(
        MigrationStep::AddColumn(Column::SetupCompleted).statement(),
        "ALTER TABLE app_settings ADD COLUMN setup_completed BOOLEAN NOT NULL DEFAULT 0"
    );
    assert_eq!(
        MigrationStep::MarkProxmoxHosts.statement(),
        "UPDATE machines SET is_proxmox_host = TRUE \
         WHERE proxmox_node IS NOT NULL AND proxmox_vmid IS NULL"
    );

    // After the migration there is nothing left to migrate.
    let mut new = old;
    for step in steps {
        if let MigrationStep::AddColumn(c) = step {
            if c == Column::DefaultOs || c == Column::SetupCompleted {
                new.settings.as_mut().unwrap().push(c.name().to_string());
            } else {
                new.machines.push(c.name().to_string());
            }
        }
    }
    assert!(migrate_db(&new).is_empty());
}

#[test]
fn systems_are_moved_out_of_the_status() {
    assert_eq!(
        split_existing_os("ExistingOS: Debian 12"),
        ("Debian 12".to_string(), "Existing OS".to_string())
    );
    assert_eq!(split_existing_os("Ready").0, "Unknown");
}
