//! The scripts with which machines boot over the network.

use vstd::prelude::*;
use crate::text::{
    begins, contains, counted_is_held, decimal, decimal_of, ends, ends_meet, holds, is_part, is_part_of_part,
    part_of_longer,
    pieces, pieces_lie_between_separators, same, split, tally,
};
use crate::urls::{host_of_url, url_host};

verus! {

/// The port at which Tinkerbell serves its workers where nothing else is set.
pub const DEFAULT_GRPC_PORT: u16 = 42113;

/// The script that boots HookOS, up to the address of the server.
pub const HOOK_HEAD: &'static str = r#"#!ipxe

echo Loading HookOS via Dragonfly...

set arch ${buildarch}
# Dragonfly + Tinkerbell only supports 64 bit archectures.
# The build architecture does not necessarily represent the architecture of the machine on which iPXE is running.
# https://ipxe.org/cfg/buildarch

iseq ${arch} i386 && set arch x86_64 ||
iseq ${arch} arm32 && set arch aarch64 ||
iseq ${arch} arm64 && set arch aarch64 ||
set base-url "#;

/// ... up to the address that serves workers.
pub const HOOK_GRPC: &'static str = r#"
set retries:int32 0
set retry_delay:int32 0

set worker_id ${mac}
set grpc_authority "#;

/// ... up to the host that takes logs.
pub const HOOK_SYSLOG: &'static str = r#"
set syslog_host "#;

/// ... up to the use of TLS.
pub const HOOK_TLS: &'static str = r#"
set tinkerbell_tls "#;

/// ... up to the address that serves workers, which is shown.
pub const HOOK_ECHO_GRPC: &'static str = r#"

echo worker_id=${mac}
echo grpc_authority="#;

/// ... up to the host that takes logs, which is shown.
pub const HOOK_ECHO_SYSLOG: &'static str = r#"
echo syslog_host="#;

/// ... up to the use of TLS, which is shown.
pub const HOOK_ECHO_TLS: &'static str = r#"
echo tinkerbell_tls="#;

/// ... up to its end.
pub const HOOK_TAIL: &'static str = r#"

set idx:int32 0
:retry_kernel
kernel ${base-url}/ipxe/hookos/vmlinuz-${arch} \
syslog_host=${syslog_host} grpc_authority=${grpc_authority} tinkerbell_tls=${tinkerbell_tls} worker_id=${worker_id} hw_addr=${mac} \
console=tty1 console=tty2 console=ttyAMA0,115200 console=ttyAMA1,115200 console=ttyS0,115200 console=ttyS1,115200 tink_worker_image=quay.io/tinkerbell/tink-worker:v0.12.1 \
intel_iommu=on iommu=pt initrd=initramfs-${arch} && goto download_initrd || iseq ${idx} ${retries} && goto kernel-error || inc idx && echo retry in ${retry_delay} seconds ; sleep ${retry_delay} ; goto retry_kernel

:download_initrd
set idx:int32 0
:retry_initrd
initrd ${base-url}/ipxe/hookos/initramfs-${arch} && goto boot || iseq ${idx} ${retries} && goto initrd-error || inc idx && echo retry in ${retry_delay} seconds ; sleep ${retry_delay} ; goto retry_initrd

:boot
set idx:int32 0
:retry_boot
boot || iseq ${idx} ${retries} && goto boot-error || inc idx && echo retry in ${retry_delay} seconds ; sleep ${retry_delay} ; goto retry_boot

:kernel-error
echo Failed to load kernel
imgfree
exit

:initrd-error
echo Failed to load initrd
imgfree
exit

:boot-error
echo Failed to boot
imgfree
exit
"#;

/// The script that boots the agent, up to the address of its kernel.
pub const AGENT_HEAD: &'static str = r#"#!ipxe
kernel "#;

/// ... up to the address of its modules.
pub const AGENT_KERNEL: &'static str = r#"/ipxe/dragonfly-agent/vmlinuz \
  ip=dhcp \
  alpine_repo=http://dl-cdn.alpinelinux.org/alpine/v3.21/main \
  modules=loop,squashfs,sd-mod,usb-storage \
  initrd=initramfs-lts \
  modloop="#;

/// ... up to the address of its overlay.
pub const AGENT_MODLOOP: &'static str = r#"/ipxe/dragonfly-agent/modloop \
  apkovl="#;

/// ... up to the address of its initial file system.
pub const AGENT_APKOVL: &'static str = r#"/ipxe/dragonfly-agent/localhost.apkovl.tar.gz \
  rw
initrd "#;

/// ... up to its end.
pub const AGENT_TAIL: &'static str = r#"/ipxe/dragonfly-agent/initramfs-lts
boot
"#;

/// What is set for the scripts, as far as it is set.
#[derive(Debug, PartialEq, Eq)]
pub struct BootSettings {
    /// The address of the server.
    pub base_url: Option<String>,
    /// The address at which Tinkerbell serves its workers.
    pub grpc_authority: Option<String>,
    /// The host that takes logs.
    pub syslog_host: Option<String>,
    /// Whether TLS is used, as text.
    pub tls: Option<String>,
}

/// `BootSettings` as a mathematical value.
pub struct BootSettingsView {
    pub base_url: Option<Seq<char>>,
    pub grpc_authority: Option<Seq<char>>,
    pub syslog_host: Option<Seq<char>>,
    pub tls: Option<Seq<char>>,
}

impl DeepView for BootSettings {
    type V = BootSettingsView;

    open spec fn deep_view(&self) -> BootSettingsView {
        BootSettingsView {
            base_url: self.base_url.deep_view(),
            grpc_authority: self.grpc_authority.deep_view(),
            syslog_host: self.syslog_host.deep_view(),
            tls: self.tls.deep_view(),
        }
    }
}

/// Why there is no script.
#[derive(Clone, Debug, PartialEq, Eq)]
pub enum ScriptError {
    /// There is none of this name.
    NotFound,
    /// Something is not set that it needs; this is what is said of it.
    Configuration(String),
}

/// `ScriptError` as a mathematical value.
pub enum ScriptErrorView {
    NotFound,
    Configuration(Seq<char>),
}

impl DeepView for ScriptError {
    type V = ScriptErrorView;

    open spec fn deep_view(&self) -> ScriptErrorView {
        match self {
            ScriptError::NotFound => ScriptErrorView::NotFound,
            ScriptError::Configuration(m) => ScriptErrorView::Configuration(m@),
        }
    }
}

/// What is said where the address of the server is not set.
pub const MISSING_BASE_URL: &'static str =
    "Server is missing required DRAGONFLY_BASE_URL configuration.";

/// The host that Tinkerbell is assumed to run on: that of the server, whose address reads as
/// `parsed`.
pub open spec fn tinkerbell_host(parsed: Option<Option<Seq<char>>>) -> Seq<char> {
    match parsed {
        Some(Some(host)) => host,
        _ => "127.0.0.1"@,
    }
}

/// The script that boots HookOS.
pub open spec fn hook_script(
    base_url: Seq<char>,
    s: BootSettingsView,
    parsed: Option<Option<Seq<char>>>,
) -> Seq<char> {
    let host = tinkerbell_host(parsed);
    let grpc = s.grpc_authority.unwrap_or(host + ":"@ + decimal(DEFAULT_GRPC_PORT as nat));
    let syslog = s.syslog_host.unwrap_or(host);
    let tls = if s.tls == Some("true"@) {
        "true"@
    } else {
        "false"@
    };
    HOOK_HEAD@ + base_url + HOOK_GRPC@ + grpc + HOOK_SYSLOG@ + syslog + HOOK_TLS@ + tls
        + HOOK_ECHO_GRPC@ + grpc + HOOK_ECHO_SYSLOG@ + syslog + HOOK_ECHO_TLS@ + tls + HOOK_TAIL@
}

/// The script that boots the agent.
pub open spec fn agent_script(base_url: Seq<char>) -> Seq<char> {
    AGENT_HEAD@ + base_url + AGENT_KERNEL@ + base_url + AGENT_MODLOOP@ + base_url + AGENT_APKOVL@
        + base_url + AGENT_TAIL@
}

/// The script of a name; `parsed` is what the address of the server reads as.
pub open spec fn boot_script(
    name: Seq<char>,
    s: BootSettingsView,
    parsed: Option<Option<Seq<char>>>,
) -> Result<Seq<char>, ScriptErrorView> {
    if name == "hookos.ipxe"@ || name == "dragonfly-agent.ipxe"@ {
        match s.base_url {
            Some(base_url) => if name == "hookos.ipxe"@ {
                Ok(hook_script(base_url, s, parsed))
            } else {
                Ok(agent_script(base_url))
            },
            None => Err(ScriptErrorView::Configuration(MISSING_BASE_URL@)),
        }
    } else {
        Err(ScriptErrorView::NotFound)
    }
}

/// What the address of the server reads as.
pub open spec fn parsed_base(s: BootSettingsView) -> Option<Option<Seq<char>>> {
    match s.base_url {
        Some(url) => url_host(url),
        None => None,
    }
}

/// A script, or why there is none.
pub open spec fn script_result(r: Result<String, ScriptError>) -> Result<
    Seq<char>,
    ScriptErrorView,
> {
    match r {
        Ok(s) => Ok(s@),
        Err(e) => Err(e.deep_view()),
    }
}

fn write_hook_script(
    base_url: &str,
    settings: &BootSettings,
    parsed: Option<Option<String>>,
) -> (r: String)
    ensures
        r@ == hook_script(base_url@, settings.deep_view(), parsed.deep_view()),
{
    let host: String = match parsed {
        Some(Some(h)) => h,
        _ => "127.0.0.1".to_owned(),
    };
    let grpc: String = match &settings.grpc_authority {
        Some(a) => a.clone(),
        None => host.clone().concat(":").concat(decimal_of(DEFAULT_GRPC_PORT as u64).as_str()),
    };
    let syslog: String = match &settings.syslog_host {
        Some(h) => h.clone(),
        None => host,
    };
    let use_tls = match &settings.tls {
        Some(t) => same(t.as_str(), "true"),
        None => false,
    };
    let tls = if use_tls {
        "true"
    } else {
        "false"
    };
    let mut script = HOOK_HEAD.to_owned();
    script.append(base_url);
    script.append(HOOK_GRPC);
    script.append(grpc.as_str());
    script.append(HOOK_SYSLOG);
    script.append(syslog.as_str());
    script.append(HOOK_TLS);
    script.append(tls);
    script.append(HOOK_ECHO_GRPC);
    script.append(grpc.as_str());
    script.append(HOOK_ECHO_SYSLOG);
    script.append(syslog.as_str());
    script.append(HOOK_ECHO_TLS);
    script.append(tls);
    script.append(HOOK_TAIL);
    script
}

fn write_agent_script(base_url: &str) -> (r: String)
    ensures
        r@ == agent_script(base_url@),
{
    let mut script = AGENT_HEAD.to_owned();
    script.append(base_url);
    script.append(AGENT_KERNEL);
    script.append(base_url);
    script.append(AGENT_MODLOOP);
    script.append(base_url);
    script.append(AGENT_APKOVL);
    script.append(base_url);
    script.append(AGENT_TAIL);
    script
}

/// The script of a name, given what the address of the server reads as.
pub fn write_boot_script(
    script_name: &str,
    settings: &BootSettings,
    parsed: Option<Option<String>>,
) -> (r: Result<String, ScriptError>)
    ensures
        script_result(r) == boot_script(
            script_name@,
            settings.deep_view(),
            parsed.deep_view(),
        ),
{
    let is_hook = same(script_name, "hookos.ipxe");
    if !is_hook && !same(script_name, "dragonfly-agent.ipxe") {
        return Err(ScriptError::NotFound);
    }
    match &settings.base_url {
        Some(base_url) => if is_hook {
            Ok(write_hook_script(base_url.as_str(), settings, parsed))
        } else {
            Ok(write_agent_script(base_url.as_str()))
        },
        None => Err(ScriptError::Configuration(MISSING_BASE_URL.to_owned())),
    }
}

/// The script of a name.
pub fn generate_ipxe_script(script_name: &str, settings: &BootSettings) -> (r: Result<
    String,
    ScriptError,
>)
    ensures
        script_result(r) == boot_script(
            script_name@,
            settings.deep_view(),
            parsed_base(settings.deep_view()),
        ),
{
    let parsed: Option<Option<String>> = match &settings.base_url {
        Some(url) => host_of_url(url.as_str()),
        None => None,
    };
    write_boot_script(script_name, settings, parsed)
}

// ---------------------------------------------------------------------------------------------
// The first script
// ---------------------------------------------------------------------------------------------

/// The text has the form of a hardware address: six parts between colons.
pub open spec fn looks_like_mac(mac: Seq<char>) -> bool {
    holds(mac, ":"@) && pieces(mac, ':').len() == 6
}

/// Whether a text has the form of a hardware address.
pub fn is_mac_like(mac: &str) -> (r: bool)
    ensures
        r == looks_like_mac(mac@),
{
    if !contains(mac, ":") {
        return false;
    }
    let parts: Vec<String> = split(mac, ':');
    assert(parts.deep_view().len() == parts@.len());
    parts.len() == 6
}

/// What a machine that boots is answered first.
#[derive(Clone, Debug, PartialEq, Eq)]
pub enum FirstScript {
    /// This script.
    Script(String),
    /// Its address has not the form of one; this is the text.
    BadAddress(String),
    /// An error, with its heading and its message.
    Failed(String, String),
}

/// `FirstScript` as a mathematical value.
pub enum FirstScriptView {
    Script(Seq<char>),
    BadAddress(Seq<char>),
    Failed(Seq<char>, Seq<char>),
}

impl DeepView for FirstScript {
    type V = FirstScriptView;

    open spec fn deep_view(&self) -> FirstScriptView {
        match self {
            FirstScript::Script(s) => FirstScriptView::Script(s@),
            FirstScript::BadAddress(s) => FirstScriptView::BadAddress(s@),
            FirstScript::Failed(a, b) => FirstScriptView::Failed(a@, b@),
        }
    }
}

/// What a machine that boots is answered first: a machine that is known goes on to HookOS, any
/// other to the agent. `known` is whether it is, or the error of finding out.
pub open spec fn first_script(
    mac: Seq<char>,
    base_url: Option<Seq<char>>,
    known: Result<bool, Seq<char>>,
) -> FirstScriptView {
    if !looks_like_mac(mac) {
        FirstScriptView::BadAddress("Invalid MAC Address Format"@)
    } else {
        match base_url {
            None => FirstScriptView::Failed("Configuration Error"@, MISSING_BASE_URL@),
            Some(url) => match known {
                Ok(true) => FirstScriptView::Script(
                    "#!ipxe\nchain "@ + url + "/ipxe/hookos.ipxe"@,
                ),
                Ok(false) => FirstScriptView::Script(
                    "#!ipxe\nchain "@ + url + "/ipxe/dragonfly-agent.ipxe"@,
                ),
                Err(e) => FirstScriptView::Failed("Database Error"@, e),
            },
        }
    }
}

/// Answers a machine that boots.
pub fn ipxe_script(mac: &str, base_url: Option<&str>, known: Result<bool, String>) -> (r: FirstScript)
    ensures
        r.deep_view() == first_script(
            mac@,
            match base_url {
                Some(u) => Some(u@),
                None => None,
            },
            match known {
                Ok(b) => Ok(b),
                Err(e) => Err(e@),
            },
        ),
{
    if !is_mac_like(mac) {
        return FirstScript::BadAddress("Invalid MAC Address Format".to_owned());
    }
    match base_url {
        None => FirstScript::Failed("Configuration Error".to_owned(), MISSING_BASE_URL.to_owned()),
        Some(url) => match known {
            Ok(true) => FirstScript::Script(
                "#!ipxe\nchain ".to_owned().concat(url).concat("/ipxe/hookos.ipxe"),
            ),
            Ok(false) => FirstScript::Script(
                "#!ipxe\nchain ".to_owned().concat(url).concat("/ipxe/dragonfly-agent.ipxe"),
            ),
            Err(e) => FirstScript::Failed("Database Error".to_owned(), e),
        },
    }
}

/// The scripts to which a machine that boots can be sent on are ones that are served.
pub proof fn chained_scripts_exist(s: BootSettingsView, parsed: Option<Option<Seq<char>>>)
    requires
        s.base_url is Some,
    ensures
        boot_script("hookos.ipxe"@, s, parsed) is Ok,
        boot_script("dragonfly-agent.ipxe"@, s, parsed) is Ok,
{
}

proof fn agent_head_text()
    ensures
        AGENT_HEAD@ == AGENT_HEAD@.take(6) + "\nkernel "@,
        begins(AGENT_HEAD@, "#!ipxe\n"@),
        "#!ipxe\n"@.len() == 7,
{
    reveal_strlit("#!ipxe\nkernel ");
    reveal_strlit("\nkernel ");
    reveal_strlit("#!ipxe\n");
    assert(AGENT_HEAD@ =~= AGENT_HEAD@.take(6) + "\nkernel "@);
    assert(AGENT_HEAD@.subrange(0, 7) =~= "#!ipxe\n"@);
}

proof fn agent_kernel_text()
    ensures
        AGENT_KERNEL@ == "/ipxe/dragonfly-agent/vmlinuz "@ + AGENT_KERNEL@.skip(30),
        AGENT_KERNEL@ == AGENT_KERNEL@.take(179) + " modloop="@,
        is_part(" ip=dhcp "@, AGENT_KERNEL@),
        is_part(" alpine_repo=http://dl-cdn.alpinelinux.org/alpine/v3.21/main "@, AGENT_KERNEL@),
        is_part(" modules=loop,squashfs,sd-mod,usb-storage "@, AGENT_KERNEL@),
        is_part(" initrd=initramfs-lts "@, AGENT_KERNEL@),
{
    reveal_strlit("/ipxe/dragonfly-agent/vmlinuz \\\n  ip=dhcp \\\n  alpine_repo=http://dl-cdn.alpinelinux.org/alpine/v3.21/main \\\n  modules=loop,squashfs,sd-mod,usb-storage \\\n  initrd=initramfs-lts \\\n  modloop=");
    reveal_strlit("/ipxe/dragonfly-agent/vmlinuz ");
    reveal_strlit(" modloop=");
    reveal_strlit(" ip=dhcp ");
    reveal_strlit(" alpine_repo=http://dl-cdn.alpinelinux.org/alpine/v3.21/main ");
    reveal_strlit(" modules=loop,squashfs,sd-mod,usb-storage ");
    reveal_strlit(" initrd=initramfs-lts ");
    assert(AGENT_KERNEL@ =~= "/ipxe/dragonfly-agent/vmlinuz "@ + AGENT_KERNEL@.skip(30));
    assert(AGENT_KERNEL@ =~= AGENT_KERNEL@.take(179) + " modloop="@);
    assert(AGENT_KERNEL@ =~= AGENT_KERNEL@.take(33) + " ip=dhcp "@ + AGENT_KERNEL@.skip(42));
    assert(AGENT_KERNEL@ =~= AGENT_KERNEL@.take(45) + " alpine_repo=http://dl-cdn.alpinelinux.org/alpine/v3.21/main "@ + AGENT_KERNEL@.skip(106));
    assert(AGENT_KERNEL@ =~= AGENT_KERNEL@.take(109) + " modules=loop,squashfs,sd-mod,usb-storage "@ + AGENT_KERNEL@.skip(151));
    assert(AGENT_KERNEL@ =~= AGENT_KERNEL@.take(154) + " initrd=initramfs-lts "@ + AGENT_KERNEL@.skip(176));
}

proof fn agent_modloop_text()
    ensures
        AGENT_MODLOOP@ == "/ipxe/dragonfly-agent/modloop "@ + AGENT_MODLOOP@.skip(30),
        AGENT_MODLOOP@ == AGENT_MODLOOP@.take(33) + " apkovl="@,
{
    reveal_strlit("/ipxe/dragonfly-agent/modloop \\\n  apkovl=");
    reveal_strlit("/ipxe/dragonfly-agent/modloop ");
    reveal_strlit(" apkovl=");
    assert(AGENT_MODLOOP@ =~= "/ipxe/dragonfly-agent/modloop "@ + AGENT_MODLOOP@.skip(30));
    assert(AGENT_MODLOOP@ =~= AGENT_MODLOOP@.take(33) + " apkovl="@);
}

proof fn agent_apkovl_text()
    ensures
        AGENT_APKOVL@ == "/ipxe/dragonfly-agent/localhost.apkovl.tar.gz "@ + AGENT_APKOVL@.skip(46),
        AGENT_APKOVL@ == AGENT_APKOVL@.take(52) + "\ninitrd "@,
{
    reveal_strlit("/ipxe/dragonfly-agent/localhost.apkovl.tar.gz \\\n  rw\ninitrd ");
    reveal_strlit("/ipxe/dragonfly-agent/localhost.apkovl.tar.gz ");
    reveal_strlit("\ninitrd ");
    assert(AGENT_APKOVL@ =~= "/ipxe/dragonfly-agent/localhost.apkovl.tar.gz "@ + AGENT_APKOVL@.skip(46));
    assert(AGENT_APKOVL@ =~= AGENT_APKOVL@.take(52) + "\ninitrd "@);
}

proof fn agent_tail_text()
    ensures
        AGENT_TAIL@ == "/ipxe/dragonfly-agent/initramfs-lts\n"@ + AGENT_TAIL@.skip(36),
        ends(AGENT_TAIL@, "\nboot\n"@),
        "\nboot\n"@.len() == 6,
{
    reveal_strlit("/ipxe/dragonfly-agent/initramfs-lts\nboot\n");
    reveal_strlit("/ipxe/dragonfly-agent/initramfs-lts\n");
    reveal_strlit("\nboot\n");
    assert(AGENT_TAIL@ =~= "/ipxe/dragonfly-agent/initramfs-lts\n"@ + AGENT_TAIL@.skip(36));
    assert(AGENT_TAIL@.subrange(35, 41) =~= "\nboot\n"@);
}

/// The script that boots the agent loads each of its four parts from the server: the kernel, the
/// modules, the overlay and the initial file system stand there under the address of the server,
/// followed by the path of an artifact. The kernel is told how to find the rest, and is booted last.
#[verifier::rlimit(80)]
#[verifier::spinoff_prover]
pub proof fn agent_boots_from_the_server(base_url: Seq<char>)
    ensures
        is_part("\nkernel "@ + base_url + "/ipxe/dragonfly-agent/vmlinuz "@, agent_script(base_url)),
        is_part(" modloop="@ + base_url + "/ipxe/dragonfly-agent/modloop "@, agent_script(base_url)),
        is_part(" apkovl="@ + base_url + "/ipxe/dragonfly-agent/localhost.apkovl.tar.gz "@, agent_script(base_url)),
        is_part("\ninitrd "@ + base_url + "/ipxe/dragonfly-agent/initramfs-lts\n"@, agent_script(base_url)),
        is_part(" ip=dhcp "@, agent_script(base_url)),
        is_part(" alpine_repo=http://dl-cdn.alpinelinux.org/alpine/v3.21/main "@, agent_script(base_url)),
        is_part(" modules=loop,squashfs,sd-mod,usb-storage "@, agent_script(base_url)),
        is_part(" initrd=initramfs-lts "@, agent_script(base_url)),
        begins(agent_script(base_url), "#!ipxe\n"@),
        ends(agent_script(base_url), "\nboot\n"@),
{
    let script = agent_script(base_url);
    agent_head_text();
    agent_kernel_text();
    agent_modloop_text();
    agent_apkovl_text();
    agent_tail_text();
    ends_meet(
        Seq::<char>::empty(),
        AGENT_HEAD@.take(6),
        "\nkernel "@,
        base_url,
        "/ipxe/dragonfly-agent/vmlinuz "@,
        AGENT_KERNEL@.skip(30),
        base_url + AGENT_MODLOOP@ + base_url + AGENT_APKOVL@ + base_url + AGENT_TAIL@,
    );
    assert(script =~= (Seq::<char>::empty()) + AGENT_HEAD@ + base_url + AGENT_KERNEL@ + (base_url + AGENT_MODLOOP@ + base_url + AGENT_APKOVL@ + base_url + AGENT_TAIL@));
    ends_meet(
        AGENT_HEAD@ + base_url,
        AGENT_KERNEL@.take(179),
        " modloop="@,
        base_url,
        "/ipxe/dragonfly-agent/modloop "@,
        AGENT_MODLOOP@.skip(30),
        base_url + AGENT_APKOVL@ + base_url + AGENT_TAIL@,
    );
    assert(script =~= (AGENT_HEAD@ + base_url) + AGENT_KERNEL@ + base_url + AGENT_MODLOOP@ + (base_url + AGENT_APKOVL@ + base_url + AGENT_TAIL@));
    ends_meet(
        AGENT_HEAD@ + base_url + AGENT_KERNEL@ + base_url,
        AGENT_MODLOOP@.take(33),
        " apkovl="@,
        base_url,
        "/ipxe/dragonfly-agent/localhost.apkovl.tar.gz "@,
        AGENT_APKOVL@.skip(46),
        base_url + AGENT_TAIL@,
    );
    assert(script =~= (AGENT_HEAD@ + base_url + AGENT_KERNEL@ + base_url) + AGENT_MODLOOP@ + base_url + AGENT_APKOVL@ + (base_url + AGENT_TAIL@));
    ends_meet(
        AGENT_HEAD@ + base_url + AGENT_KERNEL@ + base_url + AGENT_MODLOOP@ + base_url,
        AGENT_APKOVL@.take(52),
        "\ninitrd "@,
        base_url,
        "/ipxe/dragonfly-agent/initramfs-lts\n"@,
        AGENT_TAIL@.skip(36),
        Seq::<char>::empty(),
    );
    assert(script =~= (AGENT_HEAD@ + base_url + AGENT_KERNEL@ + base_url + AGENT_MODLOOP@ + base_url) + AGENT_APKOVL@ + base_url + AGENT_TAIL@ + (Seq::<char>::empty()));
    assert(script =~= (AGENT_HEAD@ + base_url) + AGENT_KERNEL@ + (base_url + AGENT_MODLOOP@ + base_url
        + AGENT_APKOVL@ + base_url + AGENT_TAIL@));
    is_part_of_part(" ip=dhcp "@, AGENT_KERNEL@, script);
    is_part_of_part(" alpine_repo=http://dl-cdn.alpinelinux.org/alpine/v3.21/main "@, AGENT_KERNEL@, script);
    is_part_of_part(" modules=loop,squashfs,sd-mod,usb-storage "@, AGENT_KERNEL@, script);
    is_part_of_part(" initrd=initramfs-lts "@, AGENT_KERNEL@, script);
    assert(script.subrange(0, 7) =~= AGENT_HEAD@.subrange(0, 7));
    assert(script.subrange(script.len() - 6, script.len() as int) =~= AGENT_TAIL@.subrange(
        AGENT_TAIL@.len() - 6,
        AGENT_TAIL@.len() as int,
    ));
}

/// A machine that boots is sent on to a script of the server: one that is known to the one that
/// boots HookOS, any other to the one that boots the agent. Only an address of six parts is served.
pub proof fn machines_are_sent_on(mac: Seq<char>, url: Seq<char>, known: bool, e: Seq<char>)
    ensures
        tally(mac, ':') != 5 ==> first_script(mac, Some(url), Ok(known)) is BadAddress,
        tally(mac, ':') == 5 ==> (first_script(mac, Some(url), Ok(known))
            matches FirstScriptView::Script(script) && script == "#!ipxe\nchain "@ + url + "/ipxe/"@
            + (if known {
            "hookos.ipxe"@
        } else {
            "dragonfly-agent.ipxe"@
        })),
        tally(mac, ':') == 5 ==> first_script(mac, None, Ok(known)) is Failed,
        tally(mac, ':') == 5 ==> first_script(mac, Some(url), Err(e)) == FirstScriptView::Failed(
            "Database Error"@,
            e,
        ),
{
    pieces_lie_between_separators(mac, ':');
    if tally(mac, ':') == 5 {
        counted_is_held(mac, ':');
        reveal_strlit(":");
        assert(":"@ =~= seq![':']);
    }
    reveal_strlit("/ipxe/");
    reveal_strlit("hookos.ipxe");
    reveal_strlit("dragonfly-agent.ipxe");
    reveal_strlit("/ipxe/hookos.ipxe");
    reveal_strlit("/ipxe/dragonfly-agent.ipxe");
    assert("/ipxe/hookos.ipxe"@ =~= "/ipxe/"@ + "hookos.ipxe"@);
    assert("/ipxe/dragonfly-agent.ipxe"@ =~= "/ipxe/"@ + "dragonfly-agent.ipxe"@);
    let head = "#!ipxe\nchain "@ + url;
    assert(head + "/ipxe/hookos.ipxe"@ =~= head + "/ipxe/"@ + "hookos.ipxe"@);
    assert(head + "/ipxe/dragonfly-agent.ipxe"@ =~= head + "/ipxe/"@ + "dragonfly-agent.ipxe"@);
}

proof fn hook_head_text()
    ensures
        HOOK_HEAD@ == HOOK_HEAD@.take(398) + "\nset base-url "@,
        begins(HOOK_HEAD@, "#!ipxe\n"@),
        "#!ipxe\n"@.len() == 7,
{
    reveal_strlit(r#"#!ipxe

echo Loading HookOS via Dragonfly...

set arch ${buildarch}
# Dragonfly + Tinkerbell only supports 64 bit archectures.
# The build architecture does not necessarily represent the architecture of the machine on which iPXE is running.
# https://ipxe.org/cfg/buildarch

iseq ${arch} i386 && set arch x86_64 ||
iseq ${arch} arm32 && set arch aarch64 ||
iseq ${arch} arm64 && set arch aarch64 ||
set base-url "#);
    reveal_strlit("\nset base-url ");
    reveal_strlit("#!ipxe\n");
    assert(HOOK_HEAD@ =~= HOOK_HEAD@.take(398) + "\nset base-url "@);
    assert(HOOK_HEAD@.subrange(0, 7) =~= "#!ipxe\n"@);
}

proof fn hook_grpc_text()
    ensures
        HOOK_GRPC@ == "\n"@ + HOOK_GRPC@.skip(1),
        HOOK_GRPC@ == HOOK_GRPC@.take(66) + "\nset grpc_authority "@,
{
    reveal_strlit(r#"
set retries:int32 0
set retry_delay:int32 0

set worker_id ${mac}
set grpc_authority "#);
    reveal_strlit("\n");
    reveal_strlit("\nset grpc_authority ");
    assert(HOOK_GRPC@ =~= "\n"@ + HOOK_GRPC@.skip(1));
    assert(HOOK_GRPC@ =~= HOOK_GRPC@.take(66) + "\nset grpc_authority "@);
}

proof fn hook_syslog_text()
    ensures
        HOOK_SYSLOG@ == "\n"@ + HOOK_SYSLOG@.skip(1),
        HOOK_SYSLOG@ == HOOK_SYSLOG@.take(0) + "\nset syslog_host "@,
{
    reveal_strlit(r#"
set syslog_host "#);
    reveal_strlit("\n");
    assert(HOOK_SYSLOG@ =~= "\n"@ + HOOK_SYSLOG@.skip(1));
    assert(HOOK_SYSLOG@ =~= HOOK_SYSLOG@.take(0) + "\nset syslog_host "@);
}

proof fn hook_tls_text()
    ensures
        HOOK_TLS@ == "\n"@ + HOOK_TLS@.skip(1),
        HOOK_TLS@ == HOOK_TLS@.take(0) + "\nset tinkerbell_tls "@,
{
    reveal_strlit(r#"
set tinkerbell_tls "#);
    reveal_strlit("\n");
    assert(HOOK_TLS@ =~= "\n"@ + HOOK_TLS@.skip(1));
    assert(HOOK_TLS@ =~= HOOK_TLS@.take(0) + "\nset tinkerbell_tls "@);
}

proof fn hook_echo_grpc_text()
    ensures
        HOOK_ECHO_GRPC@ == "\n"@ + HOOK_ECHO_GRPC@.skip(1),
        HOOK_ECHO_GRPC@ == HOOK_ECHO_GRPC@.take(23) + "\necho grpc_authority="@,
{
    reveal_strlit(r#"

echo worker_id=${mac}
echo grpc_authority="#);
    reveal_strlit("\n");
    reveal_strlit("\necho grpc_authority=");
    assert(HOOK_ECHO_GRPC@ =~= "\n"@ + HOOK_ECHO_GRPC@.skip(1));
    assert(HOOK_ECHO_GRPC@ =~= HOOK_ECHO_GRPC@.take(23) + "\necho grpc_authority="@);
}

proof fn hook_echo_syslog_text()
    ensures
        HOOK_ECHO_SYSLOG@ == "\n"@ + HOOK_ECHO_SYSLOG@.skip(1),
        HOOK_ECHO_SYSLOG@ == HOOK_ECHO_SYSLOG@.take(0) + "\necho syslog_host="@,
{
    reveal_strlit(r#"
echo syslog_host="#);
    reveal_strlit("\n");
    assert(HOOK_ECHO_SYSLOG@ =~= "\n"@ + HOOK_ECHO_SYSLOG@.skip(1));
    assert(HOOK_ECHO_SYSLOG@ =~= HOOK_ECHO_SYSLOG@.take(0) + "\necho syslog_host="@);
}

proof fn hook_echo_tls_text()
    ensures
        HOOK_ECHO_TLS@ == "\n"@ + HOOK_ECHO_TLS@.skip(1),
        HOOK_ECHO_TLS@ == HOOK_ECHO_TLS@.take(0) + "\necho tinkerbell_tls="@,
{
    reveal_strlit(r#"
echo tinkerbell_tls="#);
    reveal_strlit("\n");
    assert(HOOK_ECHO_TLS@ =~= "\n"@ + HOOK_ECHO_TLS@.skip(1));
    assert(HOOK_ECHO_TLS@ =~= HOOK_ECHO_TLS@.take(0) + "\necho tinkerbell_tls="@);
}

proof fn hook_tail_text()
    ensures
        HOOK_TAIL@ == "\n"@ + HOOK_TAIL@.skip(1),
        is_part("\nkernel ${base-url}/ipxe/hookos/vmlinuz-${arch} "@, HOOK_TAIL@),
        is_part("\nsyslog_host=${syslog_host} grpc_authority=${grpc_authority} tinkerbell_tls=${tinkerbell_tls} worker_id=${worker_id} hw_addr=${mac} "@, HOOK_TAIL@),
        is_part(" initrd=initramfs-${arch} "@, HOOK_TAIL@),
        is_part("\ninitrd ${base-url}/ipxe/hookos/initramfs-${arch} "@, HOOK_TAIL@),
        is_part("\nboot "@, HOOK_TAIL@),
{
    reveal_strlit(r#"

set idx:int32 0
:retry_kernel
kernel ${base-url}/ipxe/hookos/vmlinuz-${arch} \
syslog_host=${syslog_host} grpc_authority=${grpc_authority} tinkerbell_tls=${tinkerbell_tls} worker_id=${worker_id} hw_addr=${mac} \
console=tty1 console=tty2 console=ttyAMA0,115200 console=ttyAMA1,115200 console=ttyS0,115200 console=ttyS1,115200 tink_worker_image=quay.io/tinkerbell/tink-worker:v0.12.1 \
intel_iommu=on iommu=pt initrd=initramfs-${arch} && goto download_initrd || iseq ${idx} ${retries} && goto kernel-error || inc idx && echo retry in ${retry_delay} seconds ; sleep ${retry_delay} ; goto retry_kernel

:download_initrd
set idx:int32 0
:retry_initrd
initrd ${base-url}/ipxe/hookos/initramfs-${arch} && goto boot || iseq ${idx} ${retries} && goto initrd-error || inc idx && echo retry in ${retry_delay} seconds ; sleep ${retry_delay} ; goto retry_initrd

:boot
set idx:int32 0
:retry_boot
boot || iseq ${idx} ${retries} && goto boot-error || inc idx && echo retry in ${retry_delay} seconds ; sleep ${retry_delay} ; goto retry_boot

:kernel-error
echo Failed to load kernel
imgfree
exit

:initrd-error
echo Failed to load initrd
imgfree
exit

:boot-error
echo Failed to boot
imgfree
exit
"#);
    reveal_strlit("\n");
    reveal_strlit("\nkernel ${base-url}/ipxe/hookos/vmlinuz-${arch} ");
    reveal_strlit("\nsyslog_host=${syslog_host} grpc_authority=${grpc_authority} tinkerbell_tls=${tinkerbell_tls} worker_id=${worker_id} hw_addr=${mac} ");
    reveal_strlit(" initrd=initramfs-${arch} ");
    reveal_strlit("\ninitrd ${base-url}/ipxe/hookos/initramfs-${arch} ");
    reveal_strlit("\nboot ");
    assert(HOOK_TAIL@ =~= "\n"@ + HOOK_TAIL@.skip(1));
    assert(HOOK_TAIL@ =~= HOOK_TAIL@.take(31) + "\nkernel ${base-url}/ipxe/hookos/vmlinuz-${arch} "@ + HOOK_TAIL@.skip(79));
    assert(HOOK_TAIL@ =~= HOOK_TAIL@.take(80) + "\nsyslog_host=${syslog_host} grpc_authority=${grpc_authority} tinkerbell_tls=${tinkerbell_tls} worker_id=${worker_id} hw_addr=${mac} "@ + HOOK_TAIL@.skip(212));
    assert(HOOK_TAIL@ =~= HOOK_TAIL@.take(410) + " initrd=initramfs-${arch} "@ + HOOK_TAIL@.skip(436));
    assert(HOOK_TAIL@ =~= HOOK_TAIL@.take(648) + "\ninitrd ${base-url}/ipxe/hookos/initramfs-${arch} "@ + HOOK_TAIL@.skip(698));
    assert(HOOK_TAIL@ =~= HOOK_TAIL@.take(886) + "\nboot "@ + HOOK_TAIL@.skip(892));
}

/// The address that serves workers: as it is set, or port 42113 of the host of the server.
pub open spec fn grpc_of(s: BootSettingsView, parsed: Option<Option<Seq<char>>>) -> Seq<char> {
    match (s.grpc_authority, parsed) {
        (Some(set), _) => set,
        (None, Some(Some(host))) => host + ":42113"@,
        (None, _) => "127.0.0.1:42113"@,
    }
}

/// The host that takes logs: as it is set, or the host of the server.
pub open spec fn syslog_of(s: BootSettingsView, parsed: Option<Option<Seq<char>>>) -> Seq<char> {
    match (s.syslog_host, parsed) {
        (Some(set), _) => set,
        (None, Some(Some(host))) => host,
        (None, _) => "127.0.0.1"@,
    }
}

/// TLS is used where exactly that is set.
pub open spec fn tls_of(s: BootSettingsView) -> Seq<char> {
    if s.tls == Some("true"@) {
        "true"@
    } else {
        "false"@
    }
}

proof fn standard_port(host: Seq<char>)
    ensures
        host + ":"@ + decimal(DEFAULT_GRPC_PORT as nat) == host + ":42113"@,
        "127.0.0.1"@ + ":42113"@ == "127.0.0.1:42113"@,
{
    reveal_with_fuel(decimal, 6);
    reveal_strlit(":42113");
    reveal_strlit(":");
    reveal_strlit("127.0.0.1");
    reveal_strlit("127.0.0.1:42113");
    assert(":"@ + decimal(42113) =~= ":42113"@);
    assert(host + ":"@ + decimal(42113) =~= host + ":42113"@);
    assert("127.0.0.1"@ + ":42113"@ =~= "127.0.0.1:42113"@);
}

/// The script that boots HookOS loads its kernel and its initial file system from the server, and
/// tells the kernel where workers are served, where logs go and whether TLS is used: as that is set,
/// or else by the host of the server. What it shows is what it sets.
#[verifier::rlimit(80)]
#[verifier::spinoff_prover]
pub proof fn hook_boots_from_the_server(
    base_url: Seq<char>,
    s: BootSettingsView,
    parsed: Option<Option<Seq<char>>>,
)
    ensures
        is_part("\nset base-url "@ + base_url + "\n"@, hook_script(base_url, s, parsed)),
        is_part("\nset grpc_authority "@ + grpc_of(s, parsed) + "\n"@, hook_script(base_url, s, parsed)),
        is_part("\nset syslog_host "@ + syslog_of(s, parsed) + "\n"@, hook_script(base_url, s, parsed)),
        is_part("\nset tinkerbell_tls "@ + tls_of(s) + "\n"@, hook_script(base_url, s, parsed)),
        is_part("\necho grpc_authority="@ + grpc_of(s, parsed) + "\n"@, hook_script(base_url, s, parsed)),
        is_part("\necho syslog_host="@ + syslog_of(s, parsed) + "\n"@, hook_script(base_url, s, parsed)),
        is_part("\necho tinkerbell_tls="@ + tls_of(s) + "\n"@, hook_script(base_url, s, parsed)),
        is_part("\nkernel ${base-url}/ipxe/hookos/vmlinuz-${arch} "@, hook_script(base_url, s, parsed)),
        is_part("\nsyslog_host=${syslog_host} grpc_authority=${grpc_authority} tinkerbell_tls=${tinkerbell_tls} worker_id=${worker_id} hw_addr=${mac} "@, hook_script(base_url, s, parsed)),
        is_part(" initrd=initramfs-${arch} "@, hook_script(base_url, s, parsed)),
        is_part("\ninitrd ${base-url}/ipxe/hookos/initramfs-${arch} "@, hook_script(base_url, s, parsed)),
        is_part("\nboot "@, hook_script(base_url, s, parsed)),
        begins(hook_script(base_url, s, parsed), "#!ipxe\n"@),
{
    let script = hook_script(base_url, s, parsed);
    let grpc = grpc_of(s, parsed);
    let syslog = syslog_of(s, parsed);
    let tls = tls_of(s);
    standard_port(tinkerbell_host(parsed));
    hook_head_text();
    hook_grpc_text();
    hook_syslog_text();
    hook_tls_text();
    hook_echo_grpc_text();
    hook_echo_syslog_text();
    hook_echo_tls_text();
    hook_tail_text();
    let p0 = HOOK_HEAD@;
    let p1 = p0 + base_url;
    let p2 = p1 + HOOK_GRPC@;
    let p3 = p2 + grpc;
    let p4 = p3 + HOOK_SYSLOG@;
    let p5 = p4 + syslog;
    let p6 = p5 + HOOK_TLS@;
    let p7 = p6 + tls;
    let p8 = p7 + HOOK_ECHO_GRPC@;
    let p9 = p8 + grpc;
    let p10 = p9 + HOOK_ECHO_SYSLOG@;
    let p11 = p10 + syslog;
    let p12 = p11 + HOOK_ECHO_TLS@;
    let p13 = p12 + tls;
    let p14 = p13 + HOOK_TAIL@;
    assert(is_part("\nset base-url "@ + base_url + "\n"@, script)) by {
        ends_meet(
            Seq::<char>::empty(),
            HOOK_HEAD@.take(398),
            "\nset base-url "@,
            base_url,
            "\n"@,
            HOOK_GRPC@.skip(1),
            Seq::empty(),
        );
        assert(Seq::<char>::empty() + HOOK_HEAD@ + base_url + HOOK_GRPC@ + Seq::<char>::empty() =~= p2);
        part_of_longer("\nset base-url "@ + base_url + "\n"@, p2, grpc);
        part_of_longer("\nset base-url "@ + base_url + "\n"@, p3, HOOK_SYSLOG@);
        part_of_longer("\nset base-url "@ + base_url + "\n"@, p4, syslog);
        part_of_longer("\nset base-url "@ + base_url + "\n"@, p5, HOOK_TLS@);
        part_of_longer("\nset base-url "@ + base_url + "\n"@, p6, tls);
        part_of_longer("\nset base-url "@ + base_url + "\n"@, p7, HOOK_ECHO_GRPC@);
        part_of_longer("\nset base-url "@ + base_url + "\n"@, p8, grpc);
        part_of_longer("\nset base-url "@ + base_url + "\n"@, p9, HOOK_ECHO_SYSLOG@);
        part_of_longer("\nset base-url "@ + base_url + "\n"@, p10, syslog);
        part_of_longer("\nset base-url "@ + base_url + "\n"@, p11, HOOK_ECHO_TLS@);
        part_of_longer("\nset base-url "@ + base_url + "\n"@, p12, tls);
        part_of_longer("\nset base-url "@ + base_url + "\n"@, p13, HOOK_TAIL@);
    }
    assert(is_part("\nset grpc_authority "@ + grpc + "\n"@, script)) by {
        ends_meet(
            p1,
            HOOK_GRPC@.take(66),
            "\nset grpc_authority "@,
            grpc,
            "\n"@,
            HOOK_SYSLOG@.skip(1),
            Seq::empty(),
        );
        assert(p1 + HOOK_GRPC@ + grpc + HOOK_SYSLOG@ + Seq::<char>::empty() =~= p4);
        part_of_longer("\nset grpc_authority "@ + grpc + "\n"@, p4, syslog);
        part_of_longer("\nset grpc_authority "@ + grpc + "\n"@, p5, HOOK_TLS@);
        part_of_longer("\nset grpc_authority "@ + grpc + "\n"@, p6, tls);
        part_of_longer("\nset grpc_authority "@ + grpc + "\n"@, p7, HOOK_ECHO_GRPC@);
        part_of_longer("\nset grpc_authority "@ + grpc + "\n"@, p8, grpc);
        part_of_longer("\nset grpc_authority "@ + grpc + "\n"@, p9, HOOK_ECHO_SYSLOG@);
        part_of_longer("\nset grpc_authority "@ + grpc + "\n"@, p10, syslog);
        part_of_longer("\nset grpc_authority "@ + grpc + "\n"@, p11, HOOK_ECHO_TLS@);
        part_of_longer("\nset grpc_authority "@ + grpc + "\n"@, p12, tls);
        part_of_longer("\nset grpc_authority "@ + grpc + "\n"@, p13, HOOK_TAIL@);
    }
    assert(is_part("\nset syslog_host "@ + syslog + "\n"@, script)) by {
        ends_meet(
            p3,
            HOOK_SYSLOG@.take(0),
            "\nset syslog_host "@,
            syslog,
            "\n"@,
            HOOK_TLS@.skip(1),
            Seq::empty(),
        );
        assert(p3 + HOOK_SYSLOG@ + syslog + HOOK_TLS@ + Seq::<char>::empty() =~= p6);
        part_of_longer("\nset syslog_host "@ + syslog + "\n"@, p6, tls);
        part_of_longer("\nset syslog_host "@ + syslog + "\n"@, p7, HOOK_ECHO_GRPC@);
        part_of_longer("\nset syslog_host "@ + syslog + "\n"@, p8, grpc);
        part_of_longer("\nset syslog_host "@ + syslog + "\n"@, p9, HOOK_ECHO_SYSLOG@);
        part_of_longer("\nset syslog_host "@ + syslog + "\n"@, p10, syslog);
        part_of_longer("\nset syslog_host "@ + syslog + "\n"@, p11, HOOK_ECHO_TLS@);
        part_of_longer("\nset syslog_host "@ + syslog + "\n"@, p12, tls);
        part_of_longer("\nset syslog_host "@ + syslog + "\n"@, p13, HOOK_TAIL@);
    }
    assert(is_part("\nset tinkerbell_tls "@ + tls + "\n"@, script)) by {
        ends_meet(
            p5,
            HOOK_TLS@.take(0),
            "\nset tinkerbell_tls "@,
            tls,
            "\n"@,
            HOOK_ECHO_GRPC@.skip(1),
            Seq::empty(),
        );
        assert(p5 + HOOK_TLS@ + tls + HOOK_ECHO_GRPC@ + Seq::<char>::empty() =~= p8);
        part_of_longer("\nset tinkerbell_tls "@ + tls + "\n"@, p8, grpc);
        part_of_longer("\nset tinkerbell_tls "@ + tls + "\n"@, p9, HOOK_ECHO_SYSLOG@);
        part_of_longer("\nset tinkerbell_tls "@ + tls + "\n"@, p10, syslog);
        part_of_longer("\nset tinkerbell_tls "@ + tls + "\n"@, p11, HOOK_ECHO_TLS@);
        part_of_longer("\nset tinkerbell_tls "@ + tls + "\n"@, p12, tls);
        part_of_longer("\nset tinkerbell_tls "@ + tls + "\n"@, p13, HOOK_TAIL@);
    }
    assert(is_part("\necho grpc_authority="@ + grpc + "\n"@, script)) by {
        ends_meet(
            p7,
            HOOK_ECHO_GRPC@.take(23),
            "\necho grpc_authority="@,
            grpc,
            "\n"@,
            HOOK_ECHO_SYSLOG@.skip(1),
            Seq::empty(),
        );
        assert(p7 + HOOK_ECHO_GRPC@ + grpc + HOOK_ECHO_SYSLOG@ + Seq::<char>::empty() =~= p10);
        part_of_longer("\necho grpc_authority="@ + grpc + "\n"@, p10, syslog);
        part_of_longer("\necho grpc_authority="@ + grpc + "\n"@, p11, HOOK_ECHO_TLS@);
        part_of_longer("\necho grpc_authority="@ + grpc + "\n"@, p12, tls);
        part_of_longer("\necho grpc_authority="@ + grpc + "\n"@, p13, HOOK_TAIL@);
    }
    assert(is_part("\necho syslog_host="@ + syslog + "\n"@, script)) by {
        ends_meet(
            p9,
            HOOK_ECHO_SYSLOG@.take(0),
            "\necho syslog_host="@,
            syslog,
            "\n"@,
            HOOK_ECHO_TLS@.skip(1),
            Seq::empty(),
        );
        assert(p9 + HOOK_ECHO_SYSLOG@ + syslog + HOOK_ECHO_TLS@ + Seq::<char>::empty() =~= p12);
        part_of_longer("\necho syslog_host="@ + syslog + "\n"@, p12, tls);
        part_of_longer("\necho syslog_host="@ + syslog + "\n"@, p13, HOOK_TAIL@);
    }
    assert(is_part("\necho tinkerbell_tls="@ + tls + "\n"@, script)) by {
        ends_meet(
            p11,
            HOOK_ECHO_TLS@.take(0),
            "\necho tinkerbell_tls="@,
            tls,
            "\n"@,
            HOOK_TAIL@.skip(1),
            Seq::empty(),
        );
        assert(p11 + HOOK_ECHO_TLS@ + tls + HOOK_TAIL@ + Seq::<char>::empty() =~= p14);
    }
    assert(is_part("\nkernel ${base-url}/ipxe/hookos/vmlinuz-${arch} "@, script)) by {
        assert(p13 + HOOK_TAIL@ + Seq::<char>::empty() =~= p14);
        is_part_of_part("\nkernel ${base-url}/ipxe/hookos/vmlinuz-${arch} "@, HOOK_TAIL@, script);
    }
    assert(is_part("\nsyslog_host=${syslog_host} grpc_authority=${grpc_authority} tinkerbell_tls=${tinkerbell_tls} worker_id=${worker_id} hw_addr=${mac} "@, script)) by {
        assert(p13 + HOOK_TAIL@ + Seq::<char>::empty() =~= p14);
        is_part_of_part("\nsyslog_host=${syslog_host} grpc_authority=${grpc_authority} tinkerbell_tls=${tinkerbell_tls} worker_id=${worker_id} hw_addr=${mac} "@, HOOK_TAIL@, script);
    }
    assert(is_part(" initrd=initramfs-${arch} "@, script)) by {
        assert(p13 + HOOK_TAIL@ + Seq::<char>::empty() =~= p14);
        is_part_of_part(" initrd=initramfs-${arch} "@, HOOK_TAIL@, script);
    }
    assert(is_part("\ninitrd ${base-url}/ipxe/hookos/initramfs-${arch} "@, script)) by {
        assert(p13 + HOOK_TAIL@ + Seq::<char>::empty() =~= p14);
        is_part_of_part("\ninitrd ${base-url}/ipxe/hookos/initramfs-${arch} "@, HOOK_TAIL@, script);
    }
    assert(is_part("\nboot "@, script)) by {
        assert(p13 + HOOK_TAIL@ + Seq::<char>::empty() =~= p14);
        is_part_of_part("\nboot "@, HOOK_TAIL@, script);
    }
    assert(script.subrange(0, 7) =~= HOOK_HEAD@.subrange(0, 7));
}

/// There are two scripts, each under its own name, and both need the address of the server.
pub proof fn scripts_are_found_by_their_names(
    name: Seq<char>,
    s: BootSettingsView,
    parsed: Option<Option<Seq<char>>>,
)
    ensures
        s.base_url matches Some(url) ==> boot_script("hookos.ipxe"@, s, parsed) == Ok::<
            Seq<char>,
            ScriptErrorView,
        >(hook_script(url, s, parsed)) && boot_script("dragonfly-agent.ipxe"@, s, parsed) == Ok::<
            Seq<char>,
            ScriptErrorView,
        >(agent_script(url)),
        s.base_url is None ==> (boot_script("hookos.ipxe"@, s, parsed) matches Err(e) && e
            is Configuration) && (boot_script("dragonfly-agent.ipxe"@, s, parsed) matches Err(e) && e
            is Configuration),
        name != "hookos.ipxe"@ && name != "dragonfly-agent.ipxe"@ ==> boot_script(name, s, parsed)
            == Err::<Seq<char>, ScriptErrorView>(ScriptErrorView::NotFound),
{
    reveal_strlit("hookos.ipxe");
    reveal_strlit("dragonfly-agent.ipxe");
    assert("hookos.ipxe"@.len() != "dragonfly-agent.ipxe"@.len());
}

} // verus!
