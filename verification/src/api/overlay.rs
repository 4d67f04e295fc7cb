//! The overlay with which the agent boots, and the images of HookOS.

use vstd::prelude::*;

use crate::text::{begins, ends, ends_meet, ends_with, is_part};

verus! {

/// The host names that the agent knows.
pub const HOSTS_CONTENT: &'static str = r#"127.0.0.1 localhost
::1 localhost ip6-localhost ip6-loopback
fe00::0 ip6-localnet
ff00::0 ip6-mcastprefix
ff02::1 ip6-allnodes
ff02::2 ip6-allrouters
"#;

/// The name of the machine.
pub const HOSTNAME_CONTENT: &'static str = "localhost";

/// The architecture of packages.
pub const APK_ARCH_CONTENT: &'static str = "x86_64";

/// What is kept.
pub const LBU_LIST_CONTENT: &'static str = "+usr/local";

/// Where packages come from.
pub const REPOSITORIES_CONTENT: &'static str = r#"https://dl-cdn.alpinelinux.org/alpine/v3.21/main
https://dl-cdn.alpinelinux.org/alpine/v3.21/community
"#;

/// The packages.
pub const WORLD_CONTENT: &'static str = r#"alpine-baselayout
alpine-conf
alpine-keys
alpine-release
apk-tools
busybox
libc-utils
kexec-tools
libgcc
wget
"#;

/// A file of the overlay; `label` is how it is called where it cannot be written.
#[derive(Clone, Debug, PartialEq, Eq)]
pub struct OverlayFile {
    pub path: String,
    pub content: String,
    pub label: String,
    pub executable: bool,
}

/// `OverlayFile` as a mathematical value.
pub struct OverlayFileView {
    pub path: Seq<char>,
    pub content: Seq<char>,
    pub label: Seq<char>,
    pub executable: bool,
}

impl DeepView for OverlayFile {
    type V = OverlayFileView;

    open spec fn deep_view(&self) -> OverlayFileView {
        OverlayFileView {
            path: self.path@,
            content: self.content@,
            label: self.label@,
            executable: self.executable,
        }
    }
}

/// A file that is not run.
pub open spec fn plain_file(path: Seq<char>, content: Seq<char>, label: Seq<char>) -> OverlayFileView {
    OverlayFileView { path, content, label, executable: false }
}

/// The script that starts the agent.
pub open spec fn start_script(base_url: Seq<char>) -> Seq<char> {
    "#!/bin/sh\n# Start dragonfly-agent\n/usr/local/bin/dragonfly-agent --server "@ + base_url
        + " --setup\nexit 0\n"@
}

/// The files of the overlay.
pub open spec fn overlay(base_url: Seq<char>) -> Seq<OverlayFileView> {
    seq![
        plain_file("etc/hosts"@, HOSTS_CONTENT@, "etc/hosts"@),
        plain_file("etc/hostname"@, HOSTNAME_CONTENT@, "etc/hostname"@),
        plain_file("etc/apk/arch"@, APK_ARCH_CONTENT@, "etc/apk/arch"@),
        plain_file("etc/apk/protected_paths.d/lbu.list"@, LBU_LIST_CONTENT@, "lbu.list"@),
        plain_file("etc/apk/repositories"@, REPOSITORIES_CONTENT@, "repositories"@),
        plain_file("etc/apk/world"@, WORLD_CONTENT@, "world"@),
        plain_file("etc/mtab"@, ""@, "etc/mtab"@),
        plain_file("etc/.default_boot_services"@, ""@, ".default_boot_services"@),
        OverlayFileView {
            path: "etc/local.d/dragonfly-agent.start"@,
            content: start_script(base_url),
            label: "start script"@,
            executable: true,
        },
    ]
}

fn file(path: &str, content: &str, label: &str) -> (r: OverlayFile)
    ensures
        r.deep_view() == plain_file(path@, content@, label@),
{
    OverlayFile {
        path: path.to_owned(),
        content: content.to_owned(),
        label: label.to_owned(),
        executable: false,
    }
}

/// The files of the overlay with which the agent boots, for a server at an address.
pub fn generate_agent_apkovl(base_url: &str) -> (r: Vec<OverlayFile>)
    ensures
        r.deep_view() == overlay(base_url@),
{
    let script = "#!/bin/sh\n# Start dragonfly-agent\n/usr/local/bin/dragonfly-agent --server ".to_owned()
        .concat(
        base_url,
    ).concat(" --setup\nexit 0\n");
    let files: Vec<OverlayFile> = vec![
        file("etc/hosts", HOSTS_CONTENT, "etc/hosts"),
        file("etc/hostname", HOSTNAME_CONTENT, "etc/hostname"),
        file("etc/apk/arch", APK_ARCH_CONTENT, "etc/apk/arch"),
        file("etc/apk/protected_paths.d/lbu.list", LBU_LIST_CONTENT, "lbu.list"),
        file("etc/apk/repositories", REPOSITORIES_CONTENT, "repositories"),
        file("etc/apk/world", WORLD_CONTENT, "world"),
        file("etc/mtab", "", "etc/mtab"),
        file("etc/.default_boot_services", "", ".default_boot_services"),
        OverlayFile {
            path: "etc/local.d/dragonfly-agent.start".to_owned(),
            content: script,
            label: "start script".to_owned(),
            executable: true,
        },
    ];
    assert(files.deep_view() =~= overlay(base_url@));
    files
}

/// The directories of the overlay.
pub fn overlay_directories() -> (r: Vec<String>)
    ensures
        r.deep_view() == seq![
            "etc/local.d"@,
            "etc/apk/protected_paths.d"@,
            "etc/runlevels/default"@,
            "usr/local/bin"@,
        ],
{
    let dirs: Vec<String> = vec![
        "etc/local.d".to_owned(),
        "etc/apk/protected_paths.d".to_owned(),
        "etc/runlevels/default".to_owned(),
        "usr/local/bin".to_owned(),
    ];
    assert(dirs.deep_view() =~= seq![
        "etc/local.d"@,
        "etc/apk/protected_paths.d"@,
        "etc/runlevels/default"@,
        "usr/local/bin"@,
    ]);
    dirs
}

/// The arguments with which `tar` packs a directory into an archive.
pub fn archive_arguments(archive: &str, dir: &str) -> (r: Vec<String>)
    ensures
        r.deep_view() == seq!["-czf"@, archive@, "-C"@, dir@, "."@],
{
    let args: Vec<String> = vec![
        "-czf".to_owned(),
        archive.to_owned(),
        "-C".to_owned(),
        dir.to_owned(),
        ".".to_owned(),
    ];
    assert(args.deep_view() =~= seq!["-czf"@, archive@, "-C"@, dir@, "."@]);
    args
}

/// How `tar` ended is how packing ends.
pub fn conclude_archive(success: bool, stderr: &str) -> (r: Result<(), String>)
    ensures
        r is Ok <==> success,
        r matches Err(e) ==> e@ == "Tar command failed: "@ + stderr@,
{
    if success {
        Ok(())
    } else {
        Err("Tar command failed: ".to_owned().concat(stderr))
    }
}

// ---------------------------------------------------------------------------------------------
// HookOS
// ---------------------------------------------------------------------------------------------

/// The files of HookOS that have to be there.
pub open spec fn hookos_files() -> Seq<Seq<char>> {
    seq![
        "vmlinuz-latest-lts-x86_64"@,
        "initramfs-latest-lts-x86_64"@,
        "vmlinuz-latest-lts-aarch64"@,
        "initramfs-latest-lts-aarch64"@,
        "dtbs-latest-lts-aarch64.tar.gz"@,
        "vmlinuz-x86_64"@,
        "initramfs-x86_64"@,
        "vmlinuz-aarch64"@,
        "initramfs-aarch64"@,
        "dtbs-aarch64.tar.gz"@,
    ]
}

/// The files of HookOS that have to be there.
pub fn required_hookos_files() -> (r: Vec<String>)
    ensures
        r.deep_view() == hookos_files(),
{
    let files: Vec<String> = vec![
        "vmlinuz-latest-lts-x86_64".to_owned(),
        "initramfs-latest-lts-x86_64".to_owned(),
        "vmlinuz-latest-lts-aarch64".to_owned(),
        "initramfs-latest-lts-aarch64".to_owned(),
        "dtbs-latest-lts-aarch64.tar.gz".to_owned(),
        "vmlinuz-x86_64".to_owned(),
        "initramfs-x86_64".to_owned(),
        "vmlinuz-aarch64".to_owned(),
        "initramfs-aarch64".to_owned(),
        "dtbs-aarch64.tar.gz".to_owned(),
    ];
    assert(files.deep_view() =~= hookos_files());
    files
}

/// Whether HookOS is complete, given for each of its files whether it is there.
pub fn check_hookos_artifacts(present: &Vec<bool>) -> (r: bool)
    ensures
        r == (forall|i: int| 0 <= i < present@.len() ==> #[trigger] present@[i]),
{
    let mut i: usize = 0;
    while i < present.len()
        invariant
            i <= present.len(),
            forall|j: int| 0 <= j < i ==> #[trigger] present@[j],
        decreases present.len() - i,
    {
        if !present[i] {
            return false;
        }
        i = i + 1;
    }
    true
}

/// The archives of HookOS.
pub open spec fn hookos_archives() -> Seq<Seq<char>> {
    seq![
        "hook_x86_64.tar.gz"@,
        "hook_aarch64.tar.gz"@,
        "hook_latest-lts-x86_64.tar.gz"@,
        "hook_latest-lts-aarch64.tar.gz"@,
    ]
}

/// The address of a file of a release of HookOS.
pub open spec fn hookos_url(version: Seq<char>, name: Seq<char>) -> Seq<char> {
    "https://github.com/tinkerbell/hook/releases/download/"@ + version + "/"@ + name
}

/// The address of a file of a release of HookOS.
pub fn download_url(version: &str, name: &str) -> (r: String)
    ensures
        r@ == hookos_url(version@, name@),
{
    "https://github.com/tinkerbell/hook/releases/download/".to_owned().concat(version).concat(
        "/",
    ).concat(name)
}

/// The archives of HookOS that are downloaded; the list of checksums comes before them.
pub fn download_hookos_artifacts() -> (r: Vec<String>)
    ensures
        r.deep_view() == hookos_archives(),
{
    let files: Vec<String> = vec![
        "hook_x86_64.tar.gz".to_owned(),
        "hook_aarch64.tar.gz".to_owned(),
        "hook_latest-lts-x86_64.tar.gz".to_owned(),
        "hook_latest-lts-aarch64.tar.gz".to_owned(),
    ];
    assert(files.deep_view() =~= hookos_archives());
    files
}

/// How an archive is unpacked.
#[derive(Clone, Copy, Debug, PartialEq, Eq, Structural)]
pub enum Unpacking {
    /// Not at all: there is nothing in it, or it cannot be read.
    Skip,
    /// As a compressed archive.
    Compressed,
    /// As it is.
    Plain,
}

/// How an archive is unpacked, by its name and its size, if it can be read.
pub open spec fn unpacking(name: Seq<char>, size: Option<u64>) -> Unpacking {
    match size {
        Some(n) if n > 0 => if ends(name, ".tar.gz"@) || ends(name, ".tgz"@) {
            Unpacking::Compressed
        } else {
            Unpacking::Plain
        },
        _ => Unpacking::Skip,
    }
}

/// Decides how an archive is unpacked.
pub fn how_to_unpack(name: &str, size: Option<u64>) -> (r: Unpacking)
    ensures
        r == unpacking(name@, size),
{
    match size {
        Some(n) => if n == 0 {
            Unpacking::Skip
        } else if ends_with(name, ".tar.gz") || ends_with(name, ".tgz") {
            Unpacking::Compressed
        } else {
            Unpacking::Plain
        },
        None => Unpacking::Skip,
    }
}

/// The agent is started against the server, by the only file of the overlay that is run.
pub proof fn agent_starts_against_the_server(base_url: Seq<char>, i: int)
    requires
        0 <= i < overlay(base_url).len(),
    ensures
        overlay(base_url)[i].executable <==> overlay(base_url)[i].path
            == "etc/local.d/dragonfly-agent.start"@,
        overlay(base_url)[i].executable ==> is_part(
            " --server "@ + base_url + " --setup\n"@,
            overlay(base_url)[i].content,
        ) && begins(overlay(base_url)[i].content, "#!/bin/sh\n"@),
        exists|j: int| 0 <= j < overlay(base_url).len() && #[trigger] overlay(base_url)[j].executable,
{
    assert(overlay(base_url)[8].executable);
    reveal_strlit("etc/hosts");
    reveal_strlit("etc/hostname");
    reveal_strlit("etc/apk/arch");
    reveal_strlit("etc/apk/protected_paths.d/lbu.list");
    reveal_strlit("etc/apk/repositories");
    reveal_strlit("etc/apk/world");
    reveal_strlit("etc/mtab");
    reveal_strlit("etc/.default_boot_services");
    reveal_strlit("etc/local.d/dragonfly-agent.start");
    assert("etc/local.d/dragonfly-agent.start"@.len() == 33);
    assert("etc/hosts"@.len() == 9);
    assert("etc/hostname"@.len() == 12);
    assert("etc/apk/arch"@.len() == 12);
    assert("etc/apk/protected_paths.d/lbu.list"@.len() == 34);
    assert("etc/apk/repositories"@.len() == 20);
    assert("etc/apk/world"@.len() == 13);
    assert("etc/mtab"@.len() == 8);
    assert("etc/.default_boot_services"@.len() == 26);
    reveal_strlit("#!/bin/sh\n# Start dragonfly-agent\n/usr/local/bin/dragonfly-agent --server ");
    reveal_strlit(" --setup\nexit 0\n");
    reveal_strlit(" --server ");
    reveal_strlit(" --setup\n");
    reveal_strlit("#!/bin/sh\n");
    let head = "#!/bin/sh\n# Start dragonfly-agent\n/usr/local/bin/dragonfly-agent --server "@;
    let tail = " --setup\nexit 0\n"@;
    let script = start_script(base_url);
    assert(head =~= head.take(head.len() - 10) + " --server "@);
    assert(tail =~= " --setup\n"@ + tail.skip(9));
    ends_meet(
        Seq::<char>::empty(),
        head.take(head.len() - 10),
        " --server "@,
        base_url,
        " --setup\n"@,
        tail.skip(9),
        Seq::<char>::empty(),
    );
    assert(Seq::<char>::empty() + head + base_url + tail + Seq::<char>::empty() =~= script);
    assert(script.subrange(0, 10) =~= "#!/bin/sh\n"@);
}

/// A file of a release is fetched from that release, under its own name.
pub proof fn releases_hold_their_files(version: Seq<char>, name: Seq<char>)
    ensures
        hookos_url(version, name) == "https://github.com/tinkerbell/hook/releases/download/"@ + (
        version + "/"@ + name),
{
    assert(hookos_url(version, name) =~= "https://github.com/tinkerbell/hook/releases/download/"@ + (
    version + "/"@ + name));
}

/// What holds nothing is not unpacked; of the rest, what is named as a compressed archive is unpacked as
/// one.
pub proof fn archives_are_unpacked_by_name(stem: Seq<char>, name: Seq<char>, size: u64)
    ensures
        unpacking(name, None) == Unpacking::Skip,
        unpacking(name, Some(0)) == Unpacking::Skip,
        size > 0 ==> unpacking(stem + ".tar.gz"@, Some(size)) == Unpacking::Compressed,
        size > 0 ==> unpacking(stem + ".tgz"@, Some(size)) == Unpacking::Compressed,
        size > 0 && name.len() > 0 && name.last() != 'z' ==> unpacking(name, Some(size))
            == Unpacking::Plain,
{
    reveal_strlit(".tar.gz");
    reveal_strlit(".tgz");
    let a = stem + ".tar.gz"@;
    let b = stem + ".tgz"@;
    assert(a.subrange(a.len() - 7, a.len() as int) =~= ".tar.gz"@);
    assert(b.subrange(b.len() - 4, b.len() as int) =~= ".tgz"@);
    if ends(name, ".tar.gz"@) {
        assert(name.subrange(name.len() - 7, name.len() as int)[6] == name.last());
    }
    if ends(name, ".tgz"@) {
        assert(name.subrange(name.len() - 4, name.len() as int)[3] == name.last());
    }
}

} // verus!
