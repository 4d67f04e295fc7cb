//! Clusters of Proxmox: finding them, logging in, and keeping up with their machines.

use dragonfly::auth::Settings;
use dragonfly::json::Json;
use dragonfly::machine::MachineStatus;
use dragonfly::proxmox::connect::{
    after_cluster_status, after_login, connect_proxmox_handler, connected, finish_connect,
    handle_proxmox_error, parse_login, plan_saved_login, proxmox_configured, read_cluster_name, Authid, ClusterLogin,
    ProxmoxConnectRequest, ProxmoxHandlerError, PROXMOX_PORT,
};
use dragonfly::proxmox::discovery::{
    status_of_vm, Answer, Discovery, DiscoveryAction, DiscoveryError,
};
use dragonfly::proxmox::replies::{
    choose_ip, extract_mac_from_net_config, find_valid_ipv4_in_interface, guess_os,
    read_agent_alive, read_agent_enabled, read_configured_os, read_guest_ip, read_guest_os,
    read_host_ip, read_host_label, read_host_mac, read_node_list, read_vm_list, read_vm_mac,
    read_vm_resources,
};
use dragonfly::proxmox::scan::{
    calculate_network_address, found_host, generate_ip_in_subnet, scan_failed, scan_targets,
    searchable, wants_search, Ipv4Config, NetInterface, ScanFailure,
};
use dragonfly::proxmox::sync::{
    proxmox_machines, KnownMachine, ProxmoxSync, SyncAction, SyncAnswer, SyncError,
};

fn text_field(key: &str, value: &str) -> Json {
    Json::nothing().with(key, Json::text(value))
}

fn data(value: Json) -> Json {
    Json::nothing().with("data", value)
}

fn request() -> ProxmoxConnectRequest {
    ProxmoxConnectRequest {
        host: "pve.lan".to_string(),
        port: None,
        username: "root".to_string(),
        password: "pw".to_string(),
        vm_selection_option: None,
        skip_tls_verify: Some(true),
    }
}

#[test]
fn users_have_a_realm() {
    assert_eq!(Authid::new("root", Some("pve")).to_text(), "root@pve");
    assert_eq!(Authid::new("root", None).to_text(), "root");
    assert_eq!(parse_login("root@ldap").to_text(), "root@ldap");
    assert_eq!(parse_login("root").to_text(), "root@pam");
}

#[test]
fn logins_are_planned() {
    let plan = request().plan().unwrap();
    assert_eq!(plan.url, "https://pve.lan:8006");
    assert_eq!(plan.user, "root@pam");
    assert!(plan.skip_tls_verify);
    let mut odd = request();
    odd.host = "no host".to_string();
    odd.port = Some(1);
    match odd.plan() {
        Err(ProxmoxHandlerError::ConfigError(m)) => {
            assert!(m.starts_with("Invalid Proxmox URL 'https://no host:1': "));
            assert!(m.len() > "Invalid Proxmox URL 'https://no host:1': ".len());
        }
        other => panic!("expected an error of configuration, got {other:?}"),
    }
}

#[test]
fn connections_are_remembered() {
    let mut settings = Settings::default();
    assert!(!proxmox_configured(&settings));
    assert_eq!(plan_saved_login(&settings), Err("Proxmox host not configured".to_string()));
    settings.proxmox_host = Some("x".to_string());
    assert_eq!(plan_saved_login(&settings), Err("Proxmox username not configured".to_string()));
    settings.proxmox_username = Some("x".to_string());
    assert_eq!(plan_saved_login(&settings), Err("Proxmox password not configured".to_string()));
    assert_eq!(connect_proxmox_handler(&request(), &mut settings), request().plan());
    assert!(proxmox_configured(&settings));
    assert_eq!(settings.proxmox_port, Some(PROXMOX_PORT));
    assert_eq!(plan_saved_login(&settings).unwrap(), request().plan().unwrap());
}

#[test]
fn failed_requests_are_judged() {
    let judged = |e: &str, skip| handle_proxmox_error(e.to_string(), skip);
    assert!(matches!(judged("bad certificate", false), ProxmoxHandlerError::TlsValidationError(_)));
    assert!(matches!(judged("bad certificate", true), ProxmoxHandlerError::ApiError(_)));
    assert_eq!(
        judged("status 401", false),
        ProxmoxHandlerError::LoginError("Proxmox authentication failed: status 401".to_string())
    );
    assert_eq!(judged("gone", false), ProxmoxHandlerError::ApiError("gone".to_string()));
    assert_eq!(
        after_login(ClusterLogin::Accepted, false),
        Ok("/api2/json/cluster/status".to_string())
    );
    assert!(matches!(
        after_login(ClusterLogin::SecondFactorWanted, false),
        Err(ProxmoxHandlerError::LoginError(_))
    ));
    assert!(after_login(ClusterLogin::Failed("x".to_string()), false).is_err());
}

#[test]
fn errors_are_answered() {
    let answer = |e: ProxmoxHandlerError| {
        let r = e.into_response();
        (r.status, r.error, r.suggest_disable_tls_verify)
    };
    let m = || "m".to_string();
    let named = |status, error: &str, suggest| (status, error.to_string(), suggest);
    assert_eq!(answer(ProxmoxHandlerError::ApiError(m())), named(500, "API_ERROR", false));
    assert_eq!(
        answer(ProxmoxHandlerError::ApiError("self-signed".to_string())),
        named(400, "TLS_VALIDATION_ERROR", true)
    );
    assert_eq!(answer(ProxmoxHandlerError::DbError(m())), named(500, "DB_ERROR", false));
    assert_eq!(answer(ProxmoxHandlerError::ConfigError(m())), named(400, "CONFIG_ERROR", false));
    assert_eq!(
        answer(ProxmoxHandlerError::InternalError(m())),
        named(500, "INTERNAL_ERROR", false)
    );
    assert_eq!(answer(ProxmoxHandlerError::LoginError(m())), named(401, "LOGIN_ERROR", false));
    assert_eq!(
        answer(ProxmoxHandlerError::HttpClientError(m())),
        named(500, "HTTP_ERROR", false)
    );
    assert_eq!(
        answer(ProxmoxHandlerError::TlsValidationError(m())),
        named(400, "TLS_VALIDATION_ERROR", true)
    );
    assert_eq!(ProxmoxHandlerError::DbError(m()).message(), "Database error: m");
    assert_eq!(
        ProxmoxHandlerError::TlsValidationError(m()).message(),
        "TLS Certificate validation error: m"
    );
}

#[test]
fn clusters_have_a_name() {
    let body = br#"{"data":[{"type":"node","name":"a"},{"type":"cluster","name":"c"}]}"#;
    assert_eq!(after_cluster_status(Ok(body.to_vec()), false), Ok("c".to_string()));
    match after_cluster_status(Ok(b"{".to_vec()), false) {
        Err(ProxmoxHandlerError::ApiError(m)) => {
            assert!(m.starts_with("Failed to parse cluster status JSON: EOF"))
        }
        other => panic!("expected an error, got {other:?}"),
    }
    assert!(after_cluster_status(Err("x".to_string()), false).is_err());
    assert_eq!(read_cluster_name(&Json::Null), "proxmox-cluster");
    let reply = connected("c", 3, 1, vec![]);
    assert_eq!(
        reply.message,
        "Successfully connected to Proxmox cluster: c and registered 3 VMs (1 failed)"
    );
    assert_eq!((reply.added_vms, reply.failed_vms), (Some(3), Some(1)));
    assert_eq!(finish_connect("c", Some((3, 1, vec![]))), Ok(reply));
    assert_eq!(
        finish_connect("c", None),
        Err(ProxmoxHandlerError::InternalError(
            "Failed during Proxmox VM discovery and registration".to_string()
        ))
    );
}

#[test]
fn networks_are_searched() {
    let addr = u32::from_be_bytes([192, 168, 1, 77]);
    let net = u32::from_be_bytes([192, 168, 1, 0]);
    assert_eq!(calculate_network_address(addr, 24), net);
    assert_eq!(calculate_network_address(addr, 30), u32::from_be_bytes([192, 168, 1, 76]));
    assert_eq!(calculate_network_address(addr, 32), addr);
    assert_eq!(generate_ip_in_subnet(net, 5), net + 5);
    let config = Ipv4Config { addr, prefix_len: 29 };
    assert!(searchable(&config));
    let targets = scan_targets(&vec![config]);
    assert_eq!(targets, (1..=6).map(|i| net + 72 + i).collect::<Vec<u32>>());
    let wide = Ipv4Config { addr, prefix_len: 16 };
    assert_eq!(scan_targets(&vec![wide]).len(), 254);
    assert!(!searchable(&Ipv4Config { addr, prefix_len: 0 }));
    assert!(!searchable(&Ipv4Config { addr, prefix_len: 33 }));

    let interface = |name: &str, is_loopback, n: usize| NetInterface {
        name: name.to_string(),
        is_loopback,
        ipv4: vec![Ipv4Config { addr, prefix_len: 24 }; n],
    };
    assert!(wants_search(&interface("eth0", false, 0)));
    assert!(wants_search(&interface("usb0", false, 1)));
    assert!(!wants_search(&interface("usb0", false, 0)));
    assert!(!wants_search(&interface("docker0", false, 1)));
    assert!(!wants_search(&interface("lo", true, 1)));
}

#[test]
fn found_hosts_are_named() {
    let found = found_host("10.0.0.9".to_string(), Some("pve.lan".to_string()));
    assert_eq!(found.host, "10.0.0.9");
    assert_eq!(found.port, PROXMOX_PORT);
    assert_eq!(found.hostname.as_deref(), Some("pve.lan"));
    let (error, message) = scan_failed(ScanFailure::Scan, "x");
    assert!(!error.is_empty() && message.contains('x'));
}

#[test]
fn addresses_are_read_from_settings() {
    assert_eq!(
        extract_mac_from_net_config("virtio=AA:BB:CC:DD:EE:FF,bridge=vmbr0"),
        Some("aa:bb:cc:dd:ee:ff".to_string())
    );
    assert_eq!(extract_mac_from_net_config("model=virtio,bridge=vmbr0"), None);
    let config = text_field("net1", "bridge=vmbr0,e1000=AA:BB:CC:DD:EE:01");
    assert_eq!(read_vm_mac(&config), Some("aa:bb:cc:dd:ee:01".to_string()));
    assert_eq!(read_vm_mac(&Json::nothing()), None);
}

#[test]
fn nodes_are_read() {
    let list = data(Json::List(vec![text_field("node", "a"), Json::nothing()]));
    assert_eq!(read_node_list(&list), Some(vec![Some("a".to_string()), None]));
    assert_eq!(read_node_list(&Json::Null), None);
    let status = data(text_field("ip", "10.0.0.2").with("pveversion", Json::text("8.1")));
    assert_eq!(read_host_ip(&status), Some("10.0.0.2".to_string()));
    assert_eq!(read_host_label("a", &status), "a (PVE 8.1)");
    assert_eq!(read_host_label("a", &Json::Null), "a");
    let network = data(Json::List(vec![
        text_field("type", "loopback").with("hwaddr", Json::text("00:00:00:00:00:00")),
        text_field("type", "eth").with("hwaddr", Json::text("AA:BB:CC:DD:EE:02")),
    ]));
    assert_eq!(read_host_mac(&network), Some("aa:bb:cc:dd:ee:02".to_string()));
}

#[test]
fn virtual_machines_are_read() {
    let list = data(Json::List(vec![
        Json::nothing().with("vmid", Json::number(100)).with("name", Json::text("web")),
        text_field("name", "lost"),
    ]));
    let vms = read_vm_list(&list).unwrap();
    assert_eq!(vms.len(), 1);
    assert_eq!((vms[0].vmid, vms[0].name.as_str(), vms[0].status.as_str()), (100, "web", "unknown"));
    assert_eq!(guess_os("My-UBUNTU-box"), "Ubuntu 22.04");
    assert_eq!(guess_os("windows"), "Windows Server");
    assert_eq!(guess_os("box"), "Unknown OS");
    let status = data(
        Json::nothing().with("maxmem", Json::number(1 << 30)).with("cpus", Json::number(4)),
    );
    assert_eq!(read_vm_resources(&status), (1 << 30, 4));
    assert!(read_agent_enabled(&text_field("agent", "enabled=1,fstrim_cloned_disks=1")));
    assert!(!read_agent_enabled(&text_field("agent", "enabled=0")));
    assert_eq!(read_configured_os(&text_field("ostype", "win11"), "x"), "windows-10");
    assert_eq!(read_configured_os(&text_field("ostype", "l26"), "x"), "Unknown");
    assert_eq!(read_configured_os(&text_field("ostype", "other"), "x"), "x");
    assert_eq!(read_configured_os(&Json::nothing(), "x"), "x");
    assert!(read_agent_alive(&data(Json::nothing())));
    assert!(!read_agent_alive(&data(text_field("error", "no agent"))));
    assert_eq!(status_of_vm("running"), MachineStatus::Ready);
    assert_eq!(status_of_vm("stopped"), MachineStatus::Offline);
    assert_eq!(status_of_vm("paused"), MachineStatus::ExistingOS);
}

fn guest(id: &str, version: &str, pretty: Option<&str>) -> Json {
    let mut result = text_field("id", id).with("version", Json::text(version));
    if let Some(p) = pretty {
        result = result.with("pretty-name", Json::text(p));
    }
    data(Json::nothing().with("result", result))
}

#[test]
fn guests_name_their_system() {
    assert_eq!(read_guest_os(&guest("ubuntu", "22.04", None), "x"), "ubuntu-2204");
    assert_eq!(read_guest_os(&guest("ubuntu", "", Some("Ubuntu 24.04 LTS")), "x"), "ubuntu-2404");
    assert_eq!(read_guest_os(&guest("debian", "11 (bullseye)", None), "x"), "debian-11");
    assert_eq!(read_guest_os(&guest("debian", "", Some("Debian 12 (bookworm)")), "x"), "debian-12");
    assert_eq!(read_guest_os(&Json::nothing(), "x"), "x");
}

fn interface(name: &str, addresses: Vec<(&str, &str)>) -> Json {
    let list = addresses
        .into_iter()
        .map(|(kind, ip)| {
            text_field("ip-address-type", kind).with("ip-address", Json::text(ip))
        })
        .collect();
    text_field("name", name).with("ip-addresses", Json::List(list))
}

#[test]
fn guests_have_addresses() {
    let eth = || interface("eth0", vec![("ipv6", "::1"), ("ipv4", "169.254.0.1"), ("ipv4", "10.0.0.3")]);
    let odd = || interface("wg0", vec![("ipv4", "10.9.0.1")]);
    let lo = || interface("lo", vec![("ipv4", "127.0.0.1")]);
    assert_eq!(find_valid_ipv4_in_interface(&eth()), Some("10.0.0.3".to_string()));
    assert_eq!(find_valid_ipv4_in_interface(&lo()), None);
    assert_eq!(choose_ip(&vec![lo(), odd(), eth()]), Some("10.0.0.3".to_string()));
    assert_eq!(choose_ip(&vec![lo(), odd()]), Some("10.9.0.1".to_string()));
    assert_eq!(choose_ip(&vec![lo()]), None);
    let reply = data(Json::nothing().with("result", Json::List(vec![eth()])));
    assert_eq!(read_guest_ip(&reply), Some(Some("10.0.0.3".to_string())));
    assert_eq!(read_guest_ip(&Json::Null), None);
}

#[test]
fn a_cluster_is_discovered() {
    let (d, action) = Discovery::start("c");
    assert_eq!(action, DiscoveryAction::Fetch("/api2/json/nodes".to_string()));
    let (d, action) = d.advance_with_body(Some(br#"{"data":[{"node":"a"}]}"#.to_vec()));
    assert_eq!(action, DiscoveryAction::Fetch("/api2/json/nodes/a/status".to_string()));
    let (d, action) = d.advance(Answer::Value(data(text_field("ip", "10.0.0.2"))));
    assert_eq!(action, DiscoveryAction::Fetch("/api2/json/nodes/a/network".to_string()));
    let port = text_field("type", "eth").with("hwaddr", Json::text("AA:BB:CC:DD:EE:02"));
    let (d, action) = d.advance(Answer::Value(data(Json::only(port))));
    match action {
        DiscoveryAction::Register(host) => {
            assert_eq!(host.mac_address, "aa:bb:cc:dd:ee:02");
            assert_eq!(host.ip_address, "10.0.0.2");
            assert_eq!(host.proxmox_node.as_deref(), Some("a"));
            assert_eq!(host.proxmox_vmid, None);
        }
        other => panic!("expected a registration, got {other:?}"),
    }
    let (d, action) = d.advance(Answer::Registered(Some(1)));
    assert_eq!(action, DiscoveryAction::Fetch("/api2/json/nodes/a/qemu".to_string()));
    let vm = Json::nothing()
        .with("vmid", Json::number(100))
        .with("name", Json::text("debian-web"))
        .with("status", Json::text("running"));
    let (d, action) = d.advance(Answer::Value(data(Json::only(vm))));
    let path = "/api2/json/nodes/a/qemu/100";
    assert_eq!(action, DiscoveryAction::Fetch(format!("{path}/status/current")));
    let (d, action) = d.advance(Answer::Unreachable);
    assert_eq!(action, DiscoveryAction::Fetch(format!("{path}/config")));
    let config = text_field("net0", "virtio=AA:BB:CC:DD:EE:03").with("agent", Json::text("enabled=1"));
    let (d, action) = d.advance(Answer::Value(data(config)));
    assert_eq!(action, DiscoveryAction::Fetch(format!("{path}/agent/ping")));
    let (d, action) = d.advance(Answer::Value(data(Json::nothing())));
    assert_eq!(action, DiscoveryAction::Fetch(format!("{path}/agent/get-osinfo")));
    let (d, action) = d.advance(Answer::Unreadable);
    assert_eq!(action, DiscoveryAction::Fetch(format!("{path}/agent/network-get-interfaces")));
    let (d, action) = d.advance(Answer::Unreachable);
    match action {
        DiscoveryAction::Register(vm) => {
            assert_eq!(vm.mac_address, "aa:bb:cc:dd:ee:03");
            assert_eq!(vm.ip_address, "Unknown");
            assert_eq!(vm.proxmox_vmid, Some(100));
            assert_eq!(vm.proxmox_cluster.as_deref(), Some("c"));
        }
        other => panic!("expected a registration, got {other:?}"),
    }
    let (d, action) = d.advance(Answer::Registered(Some(7)));
    assert_eq!(
        action,
        DiscoveryAction::Settle {
            machine_id: 7,
            status: MachineStatus::Ready,
            os: "Debian 12".to_string(),
        }
    );
    let (_, action) = d.advance(Answer::Settled);
    match action {
        DiscoveryAction::Finish { registered, failed, machines } => {
            assert_eq!((registered, failed, machines.len()), (1, 0, 1));
            assert_eq!(machines[0].host, "a-100");
            assert_eq!(machines[0].machine_type, "proxmox-vm");
        }
        other => panic!("expected the end, got {other:?}"),
    }
}

#[test]
fn discoveries_fail() {
    let start = || Discovery::start("c").0;
    let end = |body: Option<&[u8]>| start().advance_with_body(body.map(<[u8]>::to_vec)).1;
    assert_eq!(end(None), DiscoveryAction::Fail(DiscoveryError::NodesUnavailable));
    assert_eq!(end(Some(b"{")), DiscoveryAction::Fail(DiscoveryError::NodesUnreadable));
    assert_eq!(end(Some(b"{}")), DiscoveryAction::Fail(DiscoveryError::NodesMalformed));
    assert_eq!(
        end(Some(br#"{"data":[{}]}"#)),
        DiscoveryAction::Fail(DiscoveryError::NodeWithoutName)
    );
}

fn known(id: u128, vmid: Option<u32>, node: Option<&str>, host: bool) -> KnownMachine {
    KnownMachine {
        id,
        status: MachineStatus::Ready,
        ip_address: "10.0.0.3".to_string(),
        proxmox_vmid: vmid,
        proxmox_node: node.map(str::to_string),
        is_proxmox_host: host,
    }
}

#[test]
fn machines_are_kept_in_step() {
    let machines = proxmox_machines(vec![
        known(1, Some(100), Some("a"), false),
        known(2, Some(999), Some("a"), false),
        known(3, None, Some("gone"), true),
        known(4, None, None, false),
        known(5, None, Some("a"), true),
    ]);
    assert_eq!(machines.iter().map(|m| m.id).collect::<Vec<_>>(), vec![1, 2, 3, 5]);
    let (s, action) = ProxmoxSync::start(machines);
    assert_eq!(action, SyncAction::Fetch("/api2/json/nodes".to_string()));
    let (s, action) = s.advance_with_body(Some(br#"{"data":[{"node":"a"}]}"#.to_vec()));
    assert_eq!(action, SyncAction::Fetch("/api2/json/nodes/a/qemu".to_string()));
    let list = br#"{"data":[{"vmid":100,"name":"web","status":"stopped"}]}"#;
    let (s, action) = s.advance_with_body(Some(list.to_vec()));
    assert_eq!(action, SyncAction::Fetch("/api2/json/nodes/a/qemu/100/config".to_string()));
    let (s, action) = s.advance_with_body(None);
    assert_eq!(action, SyncAction::SetStatus(1, MachineStatus::Offline));
    let (s, action) = s.advance(SyncAnswer::Done(true));
    assert_eq!(action, SyncAction::Delete(2));
    let (s, action) = s.advance(SyncAnswer::Done(true));
    assert_eq!(action, SyncAction::Delete(3));
    let (_, action) = s.advance(SyncAnswer::Done(false));
    assert_eq!(action, SyncAction::Finish { pruned: 1, addresses: 0, statuses: 1 });
}

#[test]
fn addresses_are_kept_in_step() {
    let (s, _) = ProxmoxSync::start(vec![known(1, Some(100), Some("a"), false)]);
    let (s, _) = s.advance_with_body(Some(br#"{"data":[{"node":"a"}]}"#.to_vec()));
    let list = br#"{"data":[{"vmid":100,"name":"web","status":"running"}]}"#;
    let (s, _) = s.advance_with_body(Some(list.to_vec()));
    let (s, action) = s.advance_with_body(Some(br#"{"data":{"agent":"enabled=1"}}"#.to_vec()));
    assert_eq!(action, SyncAction::Fetch("/api2/json/nodes/a/qemu/100/agent/ping".to_string()));
    let (s, action) = s.advance_with_body(Some(br#"{"data":{}}"#.to_vec()));
    assert_eq!(
        action,
        SyncAction::Fetch("/api2/json/nodes/a/qemu/100/agent/network-get-interfaces".to_string())
    );
    let addresses = Json::List(vec![interface("eth0", vec![("ipv4", "10.0.0.4")])]);
    let reply = data(Json::nothing().with("result", addresses));
    let (s, action) = s.advance(SyncAnswer::Reply(Answer::Value(reply)));
    assert_eq!(action, SyncAction::SetAddress(1, "10.0.0.4".to_string()));
    let (_, action) = s.advance(SyncAnswer::Done(true));
    assert_eq!(action, SyncAction::Finish { pruned: 0, addresses: 1, statuses: 0 });
}

#[test]
fn an_unreachable_cluster_changes_nothing() {
    let start = || ProxmoxSync::start(vec![known(1, Some(100), Some("a"), false)]).0;
    assert_eq!(start().advance_with_body(None).1, SyncAction::Fail(SyncError::NodesUnavailable));
    assert_eq!(
        start().advance_with_body(Some(b"?".to_vec())).1,
        SyncAction::Fail(SyncError::NodesUnreadable)
    );
    assert_eq!(
        start().advance_with_body(Some(b"[]".to_vec())).1,
        SyncAction::Fail(SyncError::NodesMalformed)
    );
    assert_eq!(
        start().advance_with_body(Some(br#"{"data":[{}]}"#.to_vec())).1,
        SyncAction::Fail(SyncError::NodeWithoutName)
    );
}
