//! What the agent finds on a machine.

use std::collections::hash_map::DefaultHasher;
use std::hash::{Hash, Hasher};

use dragonfly::agent::boot::{
    chainload_existing_os, check_bootable_os, initrd_place, kernel_place, BootEvidence, KernelFile,
};
use dragonfly::agent::enrolment::{
    judge_os, server_url, EnrolEvent, EnrolStep, Enrolment, Known,
};
use dragonfly::agent::hardware::{
    detect_disks, detect_nameservers, get_ip_address, get_mac_address, substitute_mac,
    AddressEvidence, Interface,
};
use dragonfly::agent::os::{
    detect_os, detect_os_from_lsb_release, detect_os_from_release_file, detect_specific_distros,
    parse_os_release, DistroFiles, FoundFile, OsEvidence,
};
use dragonfly::machine::MachineStatus;

fn os(name: &str, version: &str) -> (String, String) {
    (name.to_string(), version.to_string())
}

fn text(s: &str) -> FoundFile {
    FoundFile::Text(s.to_string())
}

fn some(s: &str) -> Option<String> {
    Some(s.to_string())
}

#[test]
fn release_files_are_read() {
    let content = "PRETTY_NAME=\"Debian GNU/Linux 12\"\nNAME=\"Debian GNU/Linux\"\r\nVERSION_ID=\"12\"\n";
    assert_eq!(parse_os_release(content), os("Debian GNU/Linux", "12"));
    assert_eq!(parse_os_release("NAME=a\nNAME=b\n"), os("b", "Unknown"));
    assert_eq!(parse_os_release("NAME=\"\"\nVERSION_ID=3"), os("Unknown", "3"));
    assert_eq!(parse_os_release(""), os("Unknown", "Unknown"));
    assert_eq!(
        detect_os_from_release_file(&FoundFile::Missing, &text("NAME=x")),
        Some(os("x", "Unknown"))
    );
    assert_eq!(detect_os_from_release_file(&FoundFile::Unreadable, &text("NAME=x")), None);
    assert_eq!(detect_os_from_release_file(&FoundFile::Missing, &FoundFile::Missing), None);
}

#[test]
fn lsb_release_is_read() {
    let printed = "No LSB modules.\nDistributor ID:\tUbuntu\nDescription:\tUbuntu 22.04\nRelease:\t22.04\n";
    assert_eq!(detect_os_from_lsb_release(&some(printed)), Some(os("Ubuntu", "22.04")));
    assert_eq!(detect_os_from_lsb_release(&some("Release: 1")), None);
    assert_eq!(detect_os_from_lsb_release(&some("Distributor ID: A")), Some(os("A", "")));
    assert_eq!(detect_os_from_lsb_release(&None), None);
}

fn no_files() -> DistroFiles {
    DistroFiles {
        lsb_release: FoundFile::Missing,
        debian_version: FoundFile::Missing,
        redhat_release: FoundFile::Missing,
        suse_release: FoundFile::Missing,
        suse_release_capitals: FoundFile::Missing,
        alpine_release: FoundFile::Missing,
        has_arch_release: false,
    }
}

#[test]
fn distributions_are_told_apart() {
    let found = |f: DistroFiles| detect_specific_distros(&f);
    let ubuntu = "DISTRIB_ID=Ubuntu\nDISTRIB_RELEASE=\"20.04\"\nDISTRIB_RELEASE=x\n";
    assert_eq!(
        found(DistroFiles {
            lsb_release: text(ubuntu),
            debian_version: text("bullseye/sid\n"),
            ..no_files()
        }),
        Some(os("Ubuntu", "20.04"))
    );
    assert_eq!(
        found(DistroFiles { debian_version: text("12.5\n"), ..no_files() }),
        Some(os("Debian", "12.5"))
    );
    let red_hat = |s: &str| found(DistroFiles { redhat_release: text(s), ..no_files() });
    assert_eq!(
        red_hat("CentOS Linux release 7.9.2009 (Core)\n"),
        Some(os("CentOS", "7.9.2009"))
    );
    assert_eq!(
        red_hat("Red Hat Enterprise Linux release 8.5 (Ootpa)"),
        Some(os("RHEL", "8.5"))
    );
    assert_eq!(red_hat("Fedora release 35"), Some(os("Fedora", "35")));
    assert_eq!(red_hat("Fedora"), Some(os("Fedora", "Unknown")));
    assert_eq!(red_hat("Other release 1"), None);
    assert_eq!(
        found(DistroFiles {
            suse_release_capitals: text("openSUSE 13.2 (x86_64)\nVERSION = 13.2\n"),
            ..no_files()
        }),
        Some(os("openSUSE", "13.2"))
    );
    assert_eq!(
        found(DistroFiles {
            suse_release: text("SUSE Linux Enterprise Server 12\n"),
            suse_release_capitals: text("openSUSE\n"),
            ..no_files()
        }),
        Some(os("SLES", "Unknown"))
    );
    assert_eq!(
        found(DistroFiles { alpine_release: text("3.21.0\n"), ..no_files() }),
        Some(os("Alpine", "3.21.0"))
    );
    assert_eq!(
        found(DistroFiles { has_arch_release: true, ..no_files() }),
        Some(os("Arch Linux", "Rolling"))
    );
    assert_eq!(
        found(DistroFiles {
            debian_version: FoundFile::Unreadable,
            has_arch_release: true,
            ..no_files()
        }),
        None
    );
    assert_eq!(found(no_files()), None);
}

fn evidence() -> OsEvidence {
    OsEvidence {
        etc_release: FoundFile::Missing,
        usr_lib_release: FoundFile::Missing,
        lsb_output: None,
        distro_files: no_files(),
        system_name: None,
        system_version: some("14"),
    }
}

#[test]
fn systems_are_detected_in_turn() {
    assert_eq!(detect_os(&evidence()), os("Unknown", "14"));
    let mut e = evidence();
    e.distro_files.has_arch_release = true;
    assert_eq!(detect_os(&e), os("Arch Linux", "Rolling"));
    e.lsb_output = some("Distributor ID: Manjaro\nRelease: 23");
    assert_eq!(detect_os(&e), os("Manjaro", "23"));
    e.etc_release = text("NAME=EndeavourOS");
    assert_eq!(detect_os(&e), os("EndeavourOS", "Unknown"));
}

#[test]
fn disks_are_detected() {
    let lsblk = "sda 21474836480 QEMU  HARDDISK\nloop0 1\nram0 2\nsdb notanumber\nsr0\n";
    let disks = detect_disks(&some(lsblk), &None);
    assert_eq!(disks.len(), 2);
    assert_eq!(disks[0].device, "/dev/sda");
    assert_eq!(disks[0].size_bytes, 21_474_836_480);
    assert_eq!(disks[0].model.as_deref(), Some("QEMU HARDDISK"));
    assert_eq!((disks[1].device.as_str(), disks[1].size_bytes), ("/dev/sdb", 0));
    assert_eq!(disks[1].model, None);
    let fdisk = "Disk /dev/sda: 20 GiB, 21474836480 bytes, 41943040 sectors\n\
                 Disk /dev/loop0: 1 GiB, 1 bytes, 1 sectors\n\
                 Disk model: X\nDisk /dev/vdb: unknown\n";
    let disks = detect_disks(&some("loop0 1"), &some(fdisk));
    assert_eq!(disks.len(), 2);
    assert_eq!((disks[0].device.as_str(), disks[0].size_bytes), ("/dev/sda", 21_474_836_480));
    assert_eq!((disks[1].device.as_str(), disks[1].size_bytes), ("/dev/vdb", 0));
    assert!(detect_disks(&None, &None).is_empty());
}

#[test]
fn nameservers_are_detected() {
    let conf = "# comment\nnameserver 9.9.9.9\nsearch lan\nnameserver\nnameserver\t1.0.0.1 x\n";
    assert_eq!(detect_nameservers(&some(conf)), vec!["9.9.9.9", "1.0.0.1"]);
    assert_eq!(detect_nameservers(&None), vec!["8.8.8.8", "1.1.1.1"]);
    assert_eq!(detect_nameservers(&some("search lan")), vec!["8.8.8.8", "1.1.1.1"]);
}

fn no_addresses() -> AddressEvidence {
    AddressEvidence {
        ip_link: None,
        ifconfig: None,
        interfaces: vec![],
        hostname: some("box"),
    }
}

#[test]
fn hardware_addresses_are_found() {
    let link = "1: lo: <LOOPBACK>\n    link/loopback 00:00:00:00:00:00\n2: eth0:\n    link/ether 04:7c:16:eb:74:ed brd ff:ff\n";
    let e = AddressEvidence { ip_link: some(link), ..no_addresses() };
    assert_eq!(get_mac_address(&e), Ok("04:7c:16:eb:74:ed".to_string()));
    let e = AddressEvidence {
        ip_link: some(""),
        ifconfig: some("\tether 04:7c:16:eb:74:ee txqueuelen 1000"),
        ..no_addresses()
    };
    assert_eq!(get_mac_address(&e), Ok("04:7c:16:eb:74:ee".to_string()));
    let interface = |name: &str, address: Option<&str>| Interface {
        name: name.to_string(),
        address: address.map(str::to_string),
    };
    let e = AddressEvidence {
        interfaces: vec![
            Ok(interface("lo", Some("11:11:11:11:11:11\n"))),
            Ok(interface("tun0", None)),
            Ok(interface("dummy0", Some("00:00:00:00:00:00\n"))),
            Ok(interface("eth0", Some("04:7c:16:eb:74:ef\n"))),
            Err("denied".to_string()),
        ],
        ..no_addresses()
    };
    assert_eq!(get_mac_address(&e), Ok("04:7c:16:eb:74:ef".to_string()));
    let e = AddressEvidence {
        interfaces: vec![
            Ok(interface("lo", Some("11:11:11:11:11:11\n"))),
            Err("denied".to_string()),
            Ok(interface("eth0", Some("04:7c:16:eb:74:ef\n"))),
        ],
        ..no_addresses()
    };
    assert_eq!(get_mac_address(&e), Err("denied".to_string()));
}

#[test]
fn machines_without_an_address_go_by_their_name() {
    assert_eq!(substitute_mac(0x1234_56ab_cd0f), "02:00:00:ab:cd:0f");
    for (hostname, name) in [(some("box"), "box"), (None, "unknown")] {
        let mut hasher = DefaultHasher::new();
        name.to_string().hash(&mut hasher);
        let e = AddressEvidence { hostname, ..no_addresses() };
        assert_eq!(get_mac_address(&e), Ok(substitute_mac(hasher.finish())));
    }
}

#[test]
fn network_addresses_are_found() {
    let printed = "    inet 127.0.0.1/8 scope host lo\n    inet6 ::1/128\n    inet 10.0.0.7/24 brd 10.0.0.255\n";
    assert_eq!(get_ip_address(&some(printed)), "10.0.0.7");
    assert_eq!(get_ip_address(&some("inet /24")), "127.0.0.1");
    assert_eq!(get_ip_address(&None), "127.0.0.1");
}

fn nothing_to_boot() -> BootEvidence {
    BootEvidence {
        has_efi: false,
        efibootmgr: None,
        has_grub: false,
        has_grub2: false,
        has_efi_directory: false,
        blkid: None,
    }
}

#[test]
fn bootable_systems_are_found() {
    assert!(!check_bootable_os(&nothing_to_boot()));
    assert!(check_bootable_os(&BootEvidence { has_grub2: true, ..nothing_to_boot() }));
    let entries = some("BootCurrent: 0001 Network\nBoot0002* debian\n");
    assert!(check_bootable_os(&BootEvidence {
        has_efi: true,
        efibootmgr: entries.clone(),
        ..nothing_to_boot()
    }));
    assert!(!check_bootable_os(&BootEvidence { efibootmgr: entries, ..nothing_to_boot() }));
    assert!(check_bootable_os(&BootEvidence {
        blkid: some("/dev/sda1: UUID=\"x\" TYPE=\"xfs\"\n"),
        ..nothing_to_boot()
    }));
    assert!(!check_bootable_os(&BootEvidence {
        blkid: some("/dev/sda1: UUID=\"x\" TYPE=\"swap\"\n"),
        ..nothing_to_boot()
    }));
}

#[test]
fn the_newest_kernel_is_booted() {
    let none = KernelFile { is_file: false, modified: None };
    let at = |t| KernelFile { is_file: true, modified: Some(t) };
    let unknown = KernelFile { is_file: true, modified: None };
    let plan = chainload_existing_os(&[at(1), at(3), at(2)], &[false, true, true]).unwrap();
    assert_eq!(
        plan.load,
        vec![
            "-l",
            "/boot/vmlinuz-linux",
            "--initrd",
            "/boot/initramfs-linux.img",
            "--append",
            "root=auto rw"
        ]
    );
    assert_eq!(plan.execute, vec!["-e"]);
    let plan = chainload_existing_os(&[none, unknown, at(9)], &[false, false, false]).unwrap();
    assert_eq!(plan.load, vec!["-l", "/boot/vmlinuz-linux", "--append", "root=auto rw"]);
    assert_eq!(
        chainload_existing_os(&[none, none, none], &[true, true, true]),
        Err("Could not find bootable kernel".to_string())
    );
    assert_eq!(kernel_place(2), "/boot/vmlinuz-current");
    assert_eq!(initrd_place(2), "/boot/initrd-current");
}

fn enrol(setup: bool, bootable: bool, os_name: &str) -> Enrolment {
    Enrolment::start(
        "http://server".to_string(),
        "04:7c:16:eb:74:ed".to_string(),
        setup,
        bootable,
        os_name,
        "12",
    )
}

fn known(id: &str, mac: &str) -> Known {
    Known { id: id.to_string(), mac_address: mac.to_string() }
}

#[test]
fn servers_are_found() {
    assert_eq!(server_url(&some("a"), &some("b")), "a");
    assert_eq!(server_url(&None, &some("b")), "b");
    assert_eq!(server_url(&None, &None), "http://localhost:3000");
    assert!(judge_os(true, true, "Alpine"));
    assert!(!judge_os(true, false, "Debian"));
    assert!(judge_os(false, false, "Debian"));
    assert!(!judge_os(false, true, "Alpine"));
    assert!(!judge_os(false, true, "Unknown"));
}

#[test]
fn known_machines_report() {
    let mut e = enrol(true, true, "Debian");
    assert_eq!(e.url().as_deref(), Some("http://server/api/machines"));
    e.next(EnrolEvent::Listed(vec![known("1", "x"), known("2", "04:7c:16:eb:74:ed")]));
    assert_eq!(e.step, EnrolStep::ReportStatus("2".to_string()));
    assert_eq!(e.url().as_deref(), Some("http://server/api/machines/2/status"));
    assert_eq!(e.status(), MachineStatus::ExistingOS);
    e.next(EnrolEvent::Accepted);
    assert_eq!(e.url().as_deref(), Some("http://server/api/machines/2/os_installed"));
    assert_eq!(e.os_full_name, "Debian 12");
    e.next(EnrolEvent::Accepted);
    assert_eq!(e.step, EnrolStep::Chainload);
    assert_eq!(e.url(), None);
}

#[test]
fn unknown_machines_are_registered() {
    let mut e = enrol(true, false, "Alpine");
    e.next(EnrolEvent::Listed(vec![]));
    assert_eq!(e.step, EnrolStep::Register);
    assert_eq!(e.url().as_deref(), Some("http://server/api/machines"));
    e.next(EnrolEvent::Registered("9".to_string()));
    assert_eq!(e.status(), MachineStatus::AwaitingAssignment);
    e.next(EnrolEvent::Accepted);
    assert_eq!(e.step, EnrolStep::Reboot);
    let mut e = enrol(false, false, "Alpine");
    e.next(EnrolEvent::Listed(vec![known("2", "04:7c:16:eb:74:ed")]));
    e.next(EnrolEvent::Accepted);
    assert_eq!(e.step, EnrolStep::Finished);
}

#[test]
fn failed_enrolments_say_why() {
    let fails = |events: Vec<EnrolEvent>| {
        let mut e = enrol(false, false, "Debian");
        for event in events {
            e.next(event);
        }
        match e.step {
            EnrolStep::Failed(why) => why,
            other => panic!("expected a failure, got {other:?}"),
        }
    };
    let refused = || EnrolEvent::Refused("no".to_string());
    let listed = || EnrolEvent::Listed(vec![]);
    let registered = || EnrolEvent::Registered("1".to_string());
    assert_eq!(fails(vec![EnrolEvent::NotSent]), "Failed to fetch existing machines");
    assert_eq!(fails(vec![refused()]), "Failed to fetch existing machines: no");
    assert_eq!(fails(vec![EnrolEvent::Unreadable]), "Failed to parse existing machines response");
    assert_eq!(fails(vec![listed(), EnrolEvent::NotSent]), "Failed to send registration request");
    assert_eq!(fails(vec![listed(), refused()]), "Failed to register machine: no");
    assert_eq!(
        fails(vec![listed(), EnrolEvent::Unreadable]),
        "Failed to parse registration response"
    );
    assert_eq!(
        fails(vec![listed(), registered(), EnrolEvent::NotSent]),
        "Failed to send status update"
    );
    assert_eq!(
        fails(vec![listed(), registered(), refused()]),
        "Failed to update machine status: no"
    );
    assert_eq!(
        fails(vec![listed(), registered(), EnrolEvent::Accepted, EnrolEvent::NotSent]),
        "Failed to send OS installed update"
    );
    assert_eq!(
        fails(vec![listed(), registered(), EnrolEvent::Accepted, refused()]),
        "Failed to update OS installed: no"
    );
}
