//! Deployment modes, and the files that define the service.

use vstd::prelude::*;

use crate::text::{
    all_ascii, decimal, decimal_is_trimmed, decimals_are_plain, decimals_are_read_back, ends_meet,
    is_part, lowercase, lowercase_of_ascii, numeral, parse_number, same, to_lowercase, trim,
    trimmed,
};

verus! {

/// How the server is deployed.
#[derive(Clone, Copy, Debug, PartialEq, Eq, Structural)]
pub enum DeploymentMode {
    Simple,
    Flight,
    Swarm,
}

/// The name of a mode.
pub open spec fn mode_name(mode: DeploymentMode) -> Seq<char> {
    match mode {
        DeploymentMode::Simple => "simple"@,
        DeploymentMode::Flight => "flight"@,
        DeploymentMode::Swarm => "swarm"@,
    }
}

/// The mode that goes by a name, in capitals or small letters.
pub open spec fn mode_named(s: Seq<char>) -> Option<DeploymentMode> {
    if lowercase(s) == "simple"@ {
        Some(DeploymentMode::Simple)
    } else if lowercase(s) == "flight"@ {
        Some(DeploymentMode::Flight)
    } else if lowercase(s) == "swarm"@ {
        Some(DeploymentMode::Swarm)
    } else {
        None
    }
}

/// The mode that the contents of the mode file stand for.
pub open spec fn saved_mode(content: Seq<char>) -> Option<DeploymentMode> {
    mode_named(trimmed(content))
}

impl DeploymentMode {
    /// The name of the mode.
    pub fn as_str(&self) -> (r: &'static str)
        ensures
            r@ == mode_name(*self),
    {
        match self {
            DeploymentMode::Simple => "simple",
            DeploymentMode::Flight => "flight",
            DeploymentMode::Swarm => "swarm",
        }
    }

    /// The mode that goes by a name, in capitals or small letters.
    pub fn from_str(s: &str) -> (r: Option<DeploymentMode>)
        ensures
            r == mode_named(s@),
    {
        let small = to_lowercase(s);
        if same(small.as_str(), "simple") {
            Some(DeploymentMode::Simple)
        } else if same(small.as_str(), "flight") {
            Some(DeploymentMode::Flight)
        } else if same(small.as_str(), "swarm") {
            Some(DeploymentMode::Swarm)
        } else {
            None
        }
    }
}

/// The name of a mode, in small letters, capitals or a mixture of both, is read back as that
/// mode.
pub proof fn mode_names_are_read_back(mode: DeploymentMode, s: Seq<char>)
    requires
        all_ascii(s),
        lowercase(s) == mode_name(mode),
    ensures
        mode_named(s) == Some(mode),
        mode_named(mode_name(mode)) == Some(mode),
{
    reveal_strlit("simple");
    reveal_strlit("flight");
    reveal_strlit("swarm");
    assert("simple"@[1] != "flight"@[1]);
    assert("simple"@[1] != "swarm"@[1]);
    assert("flight"@[0] != "swarm"@[0]);
    lowercase_of_ascii(mode_name(mode));
}

/// The mode that is set, by the contents of the mode file; none where there is no file, or where
/// it names no mode.
pub fn current_mode(content: &Option<String>) -> (r: Option<DeploymentMode>)
    ensures
        r == (match content {
            Some(c) => saved_mode(c@),
            None => None,
        }),
{
    match content {
        Some(c) => DeploymentMode::from_str(trim(c.as_str()).as_str()),
        None => None,
    }
}

// ---------------------------------------------------------------------------------------------
// Service definitions
// ---------------------------------------------------------------------------------------------

/// A systemd unit, up to its description.
pub const UNIT_HEAD: &'static str = r#"[Unit]
Description="#;

/// The unit of the socket, behind its description.
pub const SOCKET_TAIL: &'static str = r#" Socket
Documentation=https://github.com/your-repo/dragonfly

[Socket]
ListenStream=3000
# Accept=no means we're using socket activation
Accept=no
SocketUser=root
SocketMode=0666

[Install]
WantedBy=sockets.target
"#;

/// The unit of the service, up to the name of its socket.
pub const SERVICE_HEAD: &'static str = r#"
Documentation=https://github.com/your-repo/dragonfly
After=network.target
Requires="#;

/// The unit of the service, up to the program.
pub const SERVICE_MIDDLE: &'static str = r#".socket

[Service]
Type=notify
Environment="DRAGONFLY_SERVICE=1"
ExecStart="#;

/// The unit of the service, behind the program.
pub const SERVICE_TAIL: &'static str = r#"
# Don't restart immediately; add a short delay
Restart=on-failure
RestartSec=1
# Make sure the service starts only when the socket is ready
# This ensures proper socket activation
WatchdogSec=10

# Hardening options
ProtectSystem=full
ProtectHome=read-only
PrivateTmp=true
NoNewPrivileges=true

[Install]
WantedBy=multi-user.target
"#;

/// The launchd definition, up to the name of the service.
pub const PLIST_HEAD: &'static str = r#"<?xml version="1.0" encoding="UTF-8"?>
<!DOCTYPE plist PUBLIC "-//Apple//DTD PLIST 1.0//EN" "http://www.apple.com/DTDs/PropertyList-1.0.dtd">
<plist version="1.0">
<dict>
    <key>Label</key>
    <string>com.dragonfly."#;

/// The launchd definition, up to the program.
pub const PLIST_PROGRAM: &'static str = r#"</string>
    <key>ProgramArguments</key>
    <array>
        <string>"#;

/// The launchd definition, up to the description.
pub const PLIST_MIDDLE: &'static str = r#"</string>
    </array>
    <key>EnvironmentVariables</key>
    <dict>
        <key>DRAGONFLY_SERVICE</key>
        <string>1</string>
    </dict>
    <key>Sockets</key>
    <dict>
        <key>Listeners</key>
        <dict>
            <key>SockServiceName</key>
            <string>3000</string>
            <key>SockType</key>
            <string>stream</string>
            <key>SockFamily</key>
            <string>IPv4</string>
        </dict>
    </dict>
    <key>KeepAlive</key>
    <true/>
    <key>RunAtLoad</key>
    <true/>
    <key>StandardErrorPath</key>
    <string>/var/log/dragonfly/dragonfly.log</string>
    <key>StandardOutPath</key>
    <string>/var/log/dragonfly/dragonfly.log</string>
    <key>WorkingDirectory</key>
    <string>/</string>
    <key>ProcessType</key>
    <string>Background</string>
    <key>ThrottleInterval</key>
    <integer>5</integer>
    <key>Description</key>
    <string>"#;

/// The launchd definition, behind the description.
pub const PLIST_TAIL: &'static str = r#"</string>
    <key>LSUIElement</key>
    <true/>
</dict>
</plist>
"#;

/// The systemd unit of the socket.
pub open spec fn socket_unit(description: Seq<char>) -> Seq<char> {
    UNIT_HEAD@ + description
        + SOCKET_TAIL@
}

/// The systemd unit of the socket.
pub fn generate_systemd_socket_unit(description: &str) -> (r: String)
    ensures
        r@ == socket_unit(description@),
{
    let mut unit = UNIT_HEAD.to_owned();
    unit.append(description);
    unit.append(SOCKET_TAIL);
    unit
}

/// The systemd unit of the service.
pub open spec fn service_unit(
    service_name: Seq<char>,
    exec_path: Seq<char>,
    description: Seq<char>,
) -> Seq<char> {
    UNIT_HEAD@ + description
        + SERVICE_HEAD@
        + service_name
        + SERVICE_MIDDLE@
        + exec_path
        + SERVICE_TAIL@
}

/// The systemd unit of the service.
pub fn generate_systemd_unit(service_name: &str, exec_path: &str, description: &str) -> (r: String)
    ensures
        r@ == service_unit(service_name@, exec_path@, description@),
{
    let mut unit = UNIT_HEAD.to_owned();
    unit.append(description);
    unit.append(SERVICE_HEAD);
    unit.append(service_name);
    unit.append(SERVICE_MIDDLE);
    unit.append(exec_path);
    unit.append(SERVICE_TAIL);
    unit
}

/// The launchd definition of the service.
pub open spec fn launchd_plist(
    service_name: Seq<char>,
    exec_path: Seq<char>,
    description: Seq<char>,
) -> Seq<char> {
    PLIST_HEAD@
        + service_name
        + PLIST_PROGRAM@
        + exec_path
        + PLIST_MIDDLE@
        + description
        + PLIST_TAIL@
}

/// The launchd definition of the service.
pub fn generate_launchd_plist(service_name: &str, exec_path: &str, description: &str) -> (r: String)
    ensures
        r@ == launchd_plist(service_name@, exec_path@, description@),
{
    let mut plist = PLIST_HEAD.to_owned();
    plist.append(service_name);
    plist.append(PLIST_PROGRAM);
    plist.append(exec_path);
    plist.append(PLIST_MIDDLE);
    plist.append(description);
    plist.append(PLIST_TAIL);
    plist
}

// ---------------------------------------------------------------------------------------------
// The host
// ---------------------------------------------------------------------------------------------

/// The operating system of the host.
#[derive(Clone, Copy, Debug, PartialEq, Eq, Structural)]
pub enum HostOs {
    MacOs,
    Linux,
    Other,
}

/// Where the logs go, given the home directory of the user.
pub open spec fn log_directory(os: HostOs, home: Option<Seq<char>>) -> Result<Seq<char>, Seq<char>> {
    match os {
        HostOs::Linux => Ok("/var/log/dragonfly"@),
        HostOs::MacOs => match home {
            Some(h) => Ok(h + "/Library/Logs/Dragonfly"@),
            None => Err("Could not find home directory"@),
        },
        HostOs::Other => match home {
            Some(h) => Ok(h + "/.dragonfly/logs"@),
            None => Err("Could not find home directory"@),
        },
    }
}

/// Where the logs go.
pub fn ensure_log_directory(os: HostOs, home: Option<&str>) -> (r: Result<String, String>)
    ensures
        (match r {
            Ok(s) => Ok(s@),
            Err(e) => Err(e@),
        }) == log_directory(
            os,
            match home {
                Some(h) => Some(h@),
                None => None,
            },
        ),
{
    match os {
        HostOs::Linux => Ok("/var/log/dragonfly".to_owned()),
        HostOs::MacOs => match home {
            Some(h) => Ok(h.to_owned().concat("/Library/Logs/Dragonfly")),
            None => Err("Could not find home directory".to_owned()),
        },
        HostOs::Other => match home {
            Some(h) => Ok(h.to_owned().concat("/.dragonfly/logs")),
            None => Err("Could not find home directory".to_owned()),
        },
    }
}

/// The user number that `id -u` printed is that of root; where it printed none, the look into
/// the directory of root decides.
pub open spec fn is_root(printed: Option<Seq<char>>, root_readable: bool) -> bool {
    match printed {
        Some(s) => match numeral(trimmed(s), 10) {
            Some(n) if n <= u32::MAX => n == 0,
            _ => root_readable,
        },
        None => root_readable,
    }
}

/// Whether the process may do everything.
pub fn has_root_privileges(printed: Option<&str>, root_readable: bool) -> (r: bool)
    ensures
        r == is_root(
            match printed {
                Some(s) => Some(s@),
                None => None,
            },
            root_readable,
        ),
{
    match printed {
        Some(s) => match parse_number(trim(s).as_str(), 10) {
            Ok(n) => if n <= 0xFFFF_FFFF {
                n == 0
            } else {
                root_readable
            },
            Err(_) => root_readable,
        },
        None => root_readable,
    }
}

// ---------------------------------------------------------------------------------------------
// What the definitions say
// ---------------------------------------------------------------------------------------------

/// The unit of the socket is described as such.
pub proof fn socket_is_described(description: Seq<char>)
    ensures
        is_part("\nDescription="@ + description + " Socket\n"@, socket_unit(description)),
{
    reveal_strlit(r#"[Unit]
Description="#);
    reveal_strlit("\nDescription=");
    reveal_strlit(r#" Socket
Documentation=https://github.com/your-repo/dragonfly

[Socket]
ListenStream=3000
# Accept=no means we're using socket activation
Accept=no
SocketUser=root
SocketMode=0666

[Install]
WantedBy=sockets.target
"#);
    reveal_strlit(" Socket\n");
    assert(UNIT_HEAD@ =~= UNIT_HEAD@.take(6) + "\nDescription="@);
    assert(SOCKET_TAIL@ =~= " Socket\n"@ + SOCKET_TAIL@.skip(8));
    let before = Seq::<char>::empty();
    ends_meet(
        before,
        UNIT_HEAD@.take(6),
        "\nDescription="@,
        description,
        " Socket\n"@,
        SOCKET_TAIL@.skip(8),
        Seq::<char>::empty(),
    );
    assert(before + UNIT_HEAD@ + description + SOCKET_TAIL@ + Seq::<char>::empty() =~= socket_unit(
        description,
    ));
}

/// The unit of a service is described by its description.
pub proof fn service_is_described(name: Seq<char>, exec_path: Seq<char>, description: Seq<char>)
    ensures
        is_part(
            "\nDescription="@ + description + "\n"@,
            service_unit(name, exec_path, description),
        ),
{
    reveal_strlit(r#"[Unit]
Description="#);
    reveal_strlit("\nDescription=");
    reveal_strlit(r#"
Documentation=https://github.com/your-repo/dragonfly
After=network.target
Requires="#);
    reveal_strlit("\n");
    assert(UNIT_HEAD@ =~= UNIT_HEAD@.take(6) + "\nDescription="@);
    assert(SERVICE_HEAD@ =~= "\n"@ + SERVICE_HEAD@.skip(1));
    let before = Seq::<char>::empty();
    ends_meet(
        before,
        UNIT_HEAD@.take(6),
        "\nDescription="@,
        description,
        "\n"@,
        SERVICE_HEAD@.skip(1),
        name + SERVICE_MIDDLE@ + exec_path + SERVICE_TAIL@,
    );
    assert(before + UNIT_HEAD@ + description + SERVICE_HEAD@ + (name + SERVICE_MIDDLE@ + exec_path
        + SERVICE_TAIL@) =~= service_unit(name, exec_path, description));
}

/// A service requires the socket of its name.
pub proof fn service_requires_its_socket(
    name: Seq<char>,
    exec_path: Seq<char>,
    description: Seq<char>,
)
    ensures
        is_part(
            "\nRequires="@ + name + ".socket\n"@,
            service_unit(name, exec_path, description),
        ),
{
    reveal_strlit(r#"
Documentation=https://github.com/your-repo/dragonfly
After=network.target
Requires="#);
    reveal_strlit("\nRequires=");
    reveal_strlit(r#".socket

[Service]
Type=notify
Environment="DRAGONFLY_SERVICE=1"
ExecStart="#);
    reveal_strlit(".socket\n");
    assert(SERVICE_HEAD@ =~= SERVICE_HEAD@.take(74) + "\nRequires="@);
    assert(SERVICE_MIDDLE@ =~= ".socket\n"@ + SERVICE_MIDDLE@.skip(8));
    let before = UNIT_HEAD@ + description;
    ends_meet(
        before,
        SERVICE_HEAD@.take(74),
        "\nRequires="@,
        name,
        ".socket\n"@,
        SERVICE_MIDDLE@.skip(8),
        exec_path + SERVICE_TAIL@,
    );
    assert(before + SERVICE_HEAD@ + name + SERVICE_MIDDLE@ + (exec_path + SERVICE_TAIL@)
        =~= service_unit(name, exec_path, description));
}

/// A service runs the program that it is made for.
pub proof fn service_runs_the_program(name: Seq<char>, exec_path: Seq<char>, description: Seq<char>)
    ensures
        is_part(
            "\nExecStart="@ + exec_path + "\n"@,
            service_unit(name, exec_path, description),
        ),
{
    reveal_strlit(r#".socket

[Service]
Type=notify
Environment="DRAGONFLY_SERVICE=1"
ExecStart="#);
    reveal_strlit("\nExecStart=");
    reveal_strlit(r#"
# Don't restart immediately; add a short delay
Restart=on-failure
RestartSec=1
# Make sure the service starts only when the socket is ready
# This ensures proper socket activation
WatchdogSec=10

# Hardening options
ProtectSystem=full
ProtectHome=read-only
PrivateTmp=true
NoNewPrivileges=true

[Install]
WantedBy=multi-user.target
"#);
    reveal_strlit("\n");
    assert(SERVICE_MIDDLE@ =~= SERVICE_MIDDLE@.take(64) + "\nExecStart="@);
    assert(SERVICE_TAIL@ =~= "\n"@ + SERVICE_TAIL@.skip(1));
    let before = UNIT_HEAD@ + description + SERVICE_HEAD@ + name;
    ends_meet(
        before,
        SERVICE_MIDDLE@.take(64),
        "\nExecStart="@,
        exec_path,
        "\n"@,
        SERVICE_TAIL@.skip(1),
        Seq::<char>::empty(),
    );
    assert(before + SERVICE_MIDDLE@ + exec_path + SERVICE_TAIL@ + Seq::<char>::empty()
        =~= service_unit(name, exec_path, description));
}

/// On macOS the service goes by its name.
pub proof fn agent_goes_by_its_name(name: Seq<char>, exec_path: Seq<char>, description: Seq<char>)
    ensures
        is_part(
            "<key>Label</key>\n    <string>com.dragonfly."@ + name + "</string>\n"@,
            launchd_plist(name, exec_path, description),
        ),
{
    reveal_strlit(r#"<?xml version="1.0" encoding="UTF-8"?>
<!DOCTYPE plist PUBLIC "-//Apple//DTD PLIST 1.0//EN" "http://www.apple.com/DTDs/PropertyList-1.0.dtd">
<plist version="1.0">
<dict>
    <key>Label</key>
    <string>com.dragonfly."#);
    reveal_strlit("<key>Label</key>\n    <string>com.dragonfly.");
    reveal_strlit(r#"</string>
    <key>ProgramArguments</key>
    <array>
        <string>"#);
    reveal_strlit("</string>\n");
    assert(PLIST_HEAD@ =~= PLIST_HEAD@.take(175) + "<key>Label</key>\n    <string>com.dragonfly."@);
    assert(PLIST_PROGRAM@ =~= "</string>\n"@ + PLIST_PROGRAM@.skip(10));
    let before = Seq::<char>::empty();
    ends_meet(
        before,
        PLIST_HEAD@.take(175),
        "<key>Label</key>\n    <string>com.dragonfly."@,
        name,
        "</string>\n"@,
        PLIST_PROGRAM@.skip(10),
        exec_path + PLIST_MIDDLE@ + description + PLIST_TAIL@,
    );
    assert(before + PLIST_HEAD@ + name + PLIST_PROGRAM@ + (exec_path + PLIST_MIDDLE@ + description
        + PLIST_TAIL@) =~= launchd_plist(name, exec_path, description));
}

/// On macOS the service runs the program that it is made for.
pub proof fn agent_runs_the_program(name: Seq<char>, exec_path: Seq<char>, description: Seq<char>)
    ensures
        is_part(
            "<key>ProgramArguments</key>\n    <array>\n        <string>"@ + exec_path + "</string>\n"@,
            launchd_plist(name, exec_path, description),
        ),
{
    reveal_strlit(r#"</string>
    <key>ProgramArguments</key>
    <array>
        <string>"#);
    reveal_strlit("<key>ProgramArguments</key>\n    <array>\n        <string>");
    reveal_strlit(r#"</string>
    </array>
    <key>EnvironmentVariables</key>
    <dict>
        <key>DRAGONFLY_SERVICE</key>
        <string>1</string>
    </dict>
    <key>Sockets</key>
    <dict>
        <key>Listeners</key>
        <dict>
            <key>SockServiceName</key>
            <string>3000</string>
            <key>SockType</key>
            <string>stream</string>
            <key>SockFamily</key>
            <string>IPv4</string>
        </dict>
    </dict>
    <key>KeepAlive</key>
    <true/>
    <key>RunAtLoad</key>
    <true/>
    <key>StandardErrorPath</key>
    <string>/var/log/dragonfly/dragonfly.log</string>
    <key>StandardOutPath</key>
    <string>/var/log/dragonfly/dragonfly.log</string>
    <key>WorkingDirectory</key>
    <string>/</string>
    <key>ProcessType</key>
    <string>Background</string>
    <key>ThrottleInterval</key>
    <integer>5</integer>
    <key>Description</key>
    <string>"#);
    reveal_strlit("</string>\n");
    assert(PLIST_PROGRAM@ =~= PLIST_PROGRAM@.take(14) + "<key>ProgramArguments</key>\n    <array>\n        <string>"@);
    assert(PLIST_MIDDLE@ =~= "</string>\n"@ + PLIST_MIDDLE@.skip(10));
    let before = PLIST_HEAD@ + name;
    ends_meet(
        before,
        PLIST_PROGRAM@.take(14),
        "<key>ProgramArguments</key>\n    <array>\n        <string>"@,
        exec_path,
        "</string>\n"@,
        PLIST_MIDDLE@.skip(10),
        description + PLIST_TAIL@,
    );
    assert(before + PLIST_PROGRAM@ + exec_path + PLIST_MIDDLE@ + (description + PLIST_TAIL@)
        =~= launchd_plist(name, exec_path, description));
}

/// A mode is read from a file whatever white space stands around its name, and every mode has a name of
/// its own.
pub proof fn modes_have_names_of_their_own(a: DeploymentMode, b: DeploymentMode, content: Seq<char>)
    ensures
        mode_name(a) == mode_name(b) <==> a == b,
        trimmed(content) == mode_name(a) ==> saved_mode(content) == Some(a),
{
    reveal_strlit("simple");
    reveal_strlit("flight");
    reveal_strlit("swarm");
    assert("simple"@[1] != "flight"@[1]);
    assert("simple"@[1] != "swarm"@[1]);
    assert("flight"@[0] != "swarm"@[0]);
    lowercase_of_ascii(mode_name(a));
}

/// Logs go to the directory of the system on Linux, and below the home of the user elsewhere, where
/// there has to be one.
pub proof fn logs_go_home(home: Seq<char>)
    ensures
        log_directory(HostOs::Linux, None) == Ok::<Seq<char>, Seq<char>>("/var/log/dragonfly"@),
        log_directory(HostOs::Linux, Some(home)) == log_directory(HostOs::Linux, None),
        log_directory(HostOs::MacOs, Some(home)) == Ok::<Seq<char>, Seq<char>>(
            home + "/Library/Logs/Dragonfly"@,
        ),
        log_directory(HostOs::Other, Some(home)) == Ok::<Seq<char>, Seq<char>>(
            home + "/.dragonfly/logs"@,
        ),
        log_directory(HostOs::MacOs, None) is Err,
        log_directory(HostOs::Other, None) is Err,
{
}

/// A user number decides on its own, and only zero is that of root.
pub proof fn zero_is_root(uid: u32, root_readable: bool)
    ensures
        is_root(Some(decimal(uid as nat)), root_readable) <==> uid == 0,
        is_root(None, root_readable) <==> root_readable,
{
    decimals_are_read_back(uid as nat);
    decimals_are_plain(uid as nat, ' ');
    decimal_is_trimmed(uid as nat);
}

} // verus!
