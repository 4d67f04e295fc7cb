//! Setting a host up for a deployment mode.
//!
//! A setup is at a stage. The stage says what is to be done on the host; how that ended decides
//! on the next stage, or on the failure of the setup.

use vstd::prelude::*;

use crate::install::mode::{
    DeploymentMode, generate_launchd_plist, generate_systemd_socket_unit, generate_systemd_unit,
    launchd_plist, mode_name, saved_mode, service_unit, socket_unit,
};
use crate::install::tasks::{
    Job, Outcome, OutcomeView, Task, TaskView, run1, run2, run3, task1, task2, task3,
};
use crate::text::{
    is_part, is_part_of_part, part_of_longer, replace, replaced, same, stand_together, trim,
    trimmed,
};

verus! {

/// What a setup does, or finds out, next.
#[derive(Clone, Copy, Debug, PartialEq, Eq, Structural)]
pub enum Stage {
    /// Is the mode set already?
    CheckMode,
    /// Is the program where the service looks for it?
    FindTarget,
    /// Copy it there (macOS).
    CopyOnMac,
    /// Make it executable (macOS).
    ChmodOnMac,
    /// Copy it and save the mode with administrator rights (macOS).
    ElevateOnMac,
    /// Copy it there.
    Copy,
    /// Make it executable.
    Chmod,
    /// Is there a graphical prompt for rights?
    FindPkexec,
    /// Copy it and save the mode with rights from that prompt.
    Pkexec,
    /// Copy it and save the mode with `sudo`.
    Sudo,
    /// Is the program there now?
    ChooseExec,
    /// Is there a directory for logs?
    FindLogDir,
    /// Make it.
    MakeLogDir,
    /// Make it with administrator rights (macOS).
    ElevateLogDir,
    /// Make it with `sudo`.
    SudoLogDir,
    /// Open it with `sudo`.
    SudoChmodLogDir,
    /// Make the directory of the cluster configuration.
    MakeK3sDir,
    /// Make it and save the mode with administrator rights (macOS).
    ElevateK3sDir,
    /// Make it and save the mode with `sudo`.
    SudoK3sDir,
    /// Is there a data directory (macOS)?
    FindVarLib,
    /// Make it (macOS).
    MakeVarLib,
    /// Make it with administrator rights (macOS).
    ElevateVarLib,
    /// Hand the new directory to the user (macOS).
    OwnVarLib,
    /// Whose is it (macOS)?
    StatVarLib,
    /// Hand it to the user (macOS).
    ChownVarLib,
    /// Have the boot images downloaded unless they are there.
    EnsureArtifacts,
    /// Have the cluster deployed.
    DeployCluster,
    /// Make the directory of launchd definitions.
    MakeAgentsDir,
    /// Write the launchd definition.
    WritePlist,
    /// Unload the old one.
    UnloadAgent,
    /// Load the new one.
    LoadAgent,
    /// Make the data directory of the user.
    MakeHomeData,
    /// Write the unit of the socket.
    WriteSocket,
    /// Write the unit of the service.
    WriteUnit,
    /// Have systemd read them.
    ReloadUnits,
    /// Enable the socket.
    EnableSocket,
    /// Enable the service.
    EnableService,
    /// Start the socket.
    StartSocket,
    /// Start the service.
    StartService,
    /// Make the data directory.
    MakeData,
    /// Has the mode been saved already?
    ReadMode,
    /// Is there a directory for it?
    FindModeDir,
    /// Make it.
    MakeModeDir,
    /// Save the mode with administrator rights (macOS).
    ElevateMode,
    /// Make the directory with `sudo`.
    SudoModeDir,
    /// Save the mode with `sudo`.
    SudoModeFile,
    /// Open the directory with `sudo`.
    SudoChmodModeDir,
    /// Open the file with `sudo`.
    SudoChmodModeFile,
    /// Save the mode.
    WriteMode,
    /// Have the boot images downloaded.
    DownloadArtifacts,
    /// Unload the launchd definition.
    UnloadForStart,
    /// Load it.
    LoadForStart,
    /// Start the service by launchd.
    Launch,
    /// Enable the socket, before it is started for good.
    EnableSocketForStart,
    /// Enable the service, likewise.
    EnableServiceForStart,
    /// Start the socket for good.
    StartSocketForStart,
    /// Start the service for good.
    StartServiceForStart,
    /// All is done.
    Done,
}

/// What a setup is for.
#[derive(Clone, Copy, Debug, PartialEq, Eq, Structural)]
pub enum Purpose {
    /// Put everything in place and start the service.
    Configure,
    /// Only save the mode.
    SaveMode,
    /// Only start the service.
    StartService,
}

/// The host, as far as a setup looks at it.
#[derive(Debug, PartialEq, Eq)]
pub struct Host {
    pub is_macos: bool,
    /// The path of the running program.
    pub exe: String,
    /// Where the logs go.
    pub log_dir: String,
    /// The home directory of the user.
    pub home: Option<String>,
    /// The name of the user.
    pub user: Option<String>,
}

/// `Host` as a mathematical value.
pub struct HostView {
    pub is_macos: bool,
    pub exe: Seq<char>,
    pub log_dir: Seq<char>,
    pub home: Option<Seq<char>>,
    pub user: Option<Seq<char>>,
}

impl DeepView for Host {
    type V = HostView;

    open spec fn deep_view(&self) -> HostView {
        HostView {
            is_macos: self.is_macos,
            exe: self.exe@,
            log_dir: self.log_dir@,
            home: self.home.deep_view(),
            user: self.user.deep_view(),
        }
    }
}

/// A setup under way.
#[derive(Clone, Copy, Debug, PartialEq, Eq, Structural)]
pub struct Setup {
    pub mode: DeploymentMode,
    pub purpose: Purpose,
    /// Rights must not be asked for to save the mode: that has been tried.
    pub no_elevation: bool,
    /// The mode is saved along with something that takes other rights.
    pub elevated: bool,
    /// The program is where the service looks for it.
    pub in_place: bool,
    pub stage: Stage,
}

/// The setup at another stage.
pub open spec fn at(s: Setup, stage: Stage) -> Setup {
    Setup { stage, ..s }
}

/// The program that the service runs.
pub open spec fn exec_path(s: Setup, h: HostView) -> Seq<char> {
    if s.in_place {
        "/usr/local/bin/dragonfly"@
    } else {
        h.exe
    }
}

/// What is to be done at a stage.
pub open spec fn setup_task(s: Setup, h: HostView) -> TaskView {
    match s.stage {
        Stage::CheckMode => TaskView::ReadFile("/etc/dragonfly/mode"@),
        Stage::FindTarget => TaskView::Exists("/usr/local/bin/dragonfly"@),
        Stage::CopyOnMac => run2("cp"@, h.exe, "/usr/local/bin/dragonfly"@),
        Stage::ChmodOnMac => run2("chmod"@, "+x"@, "/usr/local/bin/dragonfly"@),
        Stage::ElevateOnMac => run2("osascript"@, "-e"@, "do shell script \"cp '"@ + replaced(h.exe,
            "'"@, "'\\''"@)
            + "' '/usr/local/bin/dragonfly' && chmod +x '/usr/local/bin/dragonfly' && mkdir -p /etc/dragonfly && echo simple > /etc/dragonfly/mode && chmod 755 /etc/dragonfly && mkdir -p '"@
            + h.log_dir + "' && chmod 755 '"@ + h.log_dir
            + "'\" with administrator privileges with prompt \\\"Dragonfly needs permission to configure Simple mode\\\""@),
        Stage::Copy => TaskView::CopyFile { from: h.exe, to: "/usr/local/bin/dragonfly"@ },
        Stage::Chmod => run2("chmod"@, "+x"@, "/usr/local/bin/dragonfly"@),
        Stage::FindPkexec => run1("which"@, "pkexec"@),
        Stage::Pkexec => run2("sh"@, "-c"@, "pkexec sh -c 'cp \""@ + h.exe
            + "\" \"/usr/local/bin/dragonfly\" && chmod +x \"/usr/local/bin/dragonfly\" && mkdir -p /etc/dragonfly && echo simple > /etc/dragonfly/mode && chmod 755 /etc/dragonfly && mkdir -p "@
            + h.log_dir + " && chmod 755 "@ + h.log_dir + "'"@),
        Stage::Sudo => run2("sh"@, "-c"@, "sudo sh -c 'cp \""@ + h.exe
            + "\" \"/usr/local/bin/dragonfly\" && chmod +x \"/usr/local/bin/dragonfly\" && mkdir -p /etc/dragonfly && echo simple > /etc/dragonfly/mode && chmod 755 /etc/dragonfly && mkdir -p "@
            + h.log_dir + " && chmod 755 "@ + h.log_dir + "'"@),
        Stage::ChooseExec => TaskView::Exists("/usr/local/bin/dragonfly"@),
        Stage::FindLogDir => TaskView::Exists("/var/log/dragonfly"@),
        Stage::MakeLogDir => TaskView::MakeDir("/var/log/dragonfly"@),
        Stage::ElevateLogDir => run2("osascript"@, "-e"@,
            "do shell script \"mkdir -p '/var/log/dragonfly' && chmod 755 '/var/log/dragonfly'\" with administrator privileges"@),
        Stage::SudoLogDir => run3("sudo"@, "mkdir"@, "-p"@, "/var/log/dragonfly"@),
        Stage::SudoChmodLogDir => run3("sudo"@, "chmod"@, "755"@, "/var/log/dragonfly"@),
        Stage::MakeK3sDir => TaskView::MakeDir("/etc/dragonfly/k3s"@),
        Stage::ElevateK3sDir => run2("osascript"@, "-e"@,
            "do shell script \"mkdir -p /etc/dragonfly/k3s && mkdir -p /etc/dragonfly && echo flight > /etc/dragonfly/mode && chmod 755 /etc/dragonfly\" with administrator privileges with prompt \\\"Dragonfly needs permission to configure Flight mode\\\""@),
        Stage::SudoK3sDir => run2("sh"@, "-c"@,
            "sudo sh -c 'mkdir -p /etc/dragonfly/k3s && mkdir -p /etc/dragonfly && echo flight > /etc/dragonfly/mode && chmod 755 /etc/dragonfly'"@),
        Stage::FindVarLib => TaskView::Exists("/var/lib/dragonfly"@),
        Stage::MakeVarLib => TaskView::MakeDir("/var/lib/dragonfly"@),
        Stage::ElevateVarLib => run2("osascript"@, "-e"@,
            "do shell script \"mkdir -p '/var/lib/dragonfly' && chown '"@
            + h.user.unwrap_or(Seq::empty())
            + "' '/var/lib/dragonfly' && chmod 755 '/var/lib/dragonfly'\" with administrator privileges with prompt \\\"Dragonfly needs permission to create data directory\\\""@),
        Stage::OwnVarLib => run2("osascript"@, "-e"@, "do shell script \"chown '"@
            + h.user.unwrap_or(Seq::empty())
            + "' '/var/lib/dragonfly'\" with administrator privileges with prompt \\\"Dragonfly needs permission to set ownership of data directory\\\""@),
        Stage::StatVarLib => run3("stat"@, "-f"@, "%Su"@, "/var/lib/dragonfly"@),
        Stage::ChownVarLib => run2("osascript"@, "-e"@, "do shell script \"chown -R '"@
            + h.user.unwrap_or(Seq::empty())
            + "' '/var/lib/dragonfly'\" with administrator privileges with prompt \\\"Dragonfly needs permission to set ownership of data directory\\\""@),
        Stage::EnsureArtifacts => TaskView::Start(Job::EnsureArtifacts),
        Stage::DeployCluster => TaskView::Start(Job::DeployCluster),
        Stage::MakeAgentsDir => TaskView::MakeDir(h.home.unwrap_or(Seq::empty())
            + "/Library/LaunchAgents"@),
        Stage::WritePlist => TaskView::WriteFile { path: h.home.unwrap_or(Seq::empty())
            + "/Library/LaunchAgents/com.dragonfly.dragonfly.plist"@,
            content: launchd_plist("dragonfly"@, exec_path(s, h), "Dragonfly Simple Mode"@) },
        Stage::UnloadAgent => run2("launchctl"@, "unload"@, h.home.unwrap_or(Seq::empty())
            + "/Library/LaunchAgents/com.dragonfly.dragonfly.plist"@),
        Stage::LoadAgent => run3("launchctl"@, "load"@, "-w"@, h.home.unwrap_or(Seq::empty())
            + "/Library/LaunchAgents/com.dragonfly.dragonfly.plist"@),
        Stage::MakeHomeData => TaskView::MakeDir(h.home.unwrap_or(Seq::empty()) + "/.dragonfly"@),
        Stage::WriteSocket => TaskView::WriteFile { path: "/etc/systemd/system/dragonfly.socket"@,
            content: socket_unit("Dragonfly Simple Mode"@) },
        Stage::WriteUnit => TaskView::WriteFile { path: "/etc/systemd/system/dragonfly.service"@,
            content: service_unit("dragonfly"@, exec_path(s, h), "Dragonfly Simple Mode"@) },
        Stage::ReloadUnits => run1("systemctl"@, "daemon-reload"@),
        Stage::EnableSocket => run2("systemctl"@, "enable"@, "dragonfly.socket"@),
        Stage::EnableService => run2("systemctl"@, "enable"@, "dragonfly.service"@),
        Stage::StartSocket => run2("systemctl"@, "start"@, "dragonfly.socket"@),
        Stage::StartService => run2("systemctl"@, "start"@, "dragonfly.service"@),
        Stage::MakeData => TaskView::MakeDir("/var/lib/dragonfly"@),
        Stage::ReadMode => TaskView::ReadFile("/etc/dragonfly/mode"@),
        Stage::FindModeDir => TaskView::Exists("/etc/dragonfly"@),
        Stage::MakeModeDir => TaskView::MakeDir("/etc/dragonfly"@),
        Stage::ElevateMode => run2("osascript"@, "-e"@,
            "do shell script \"mkdir -p /etc/dragonfly && echo '"@ + mode_name(s.mode)
            + "' > /etc/dragonfly/mode && chmod 755 /etc/dragonfly\" with administrator privileges with prompt \"Dragonfly needs permission to save your deployment mode\""@),
        Stage::SudoModeDir => run3("sudo"@, "mkdir"@, "-p"@, "/etc/dragonfly"@),
        Stage::SudoModeFile => run2("sh"@, "-c"@, "echo "@ + mode_name(s.mode)
            + " | sudo tee /etc/dragonfly/mode > /dev/null"@),
        Stage::SudoChmodModeDir => run3("sudo"@, "chmod"@, "755"@, "/etc/dragonfly"@),
        Stage::SudoChmodModeFile => run3("sudo"@, "chmod"@, "644"@, "/etc/dragonfly/mode"@),
        Stage::WriteMode => TaskView::WriteFile { path: "/etc/dragonfly/mode"@,
            content: mode_name(s.mode) },
        Stage::DownloadArtifacts => TaskView::Start(Job::DownloadArtifacts),
        Stage::UnloadForStart => run2("launchctl"@, "unload"@, h.home.unwrap_or(Seq::empty())
            + "/Library/LaunchAgents/com.dragonfly.dragonfly.plist"@),
        Stage::LoadForStart => run3("launchctl"@, "load"@, "-w"@, h.home.unwrap_or(Seq::empty())
            + "/Library/LaunchAgents/com.dragonfly.dragonfly.plist"@),
        Stage::Launch => run2("launchctl"@, "start"@, "com.dragonfly.dragonfly"@),
        Stage::EnableSocketForStart => run2("systemctl"@, "enable"@, "dragonfly.socket"@),
        Stage::EnableServiceForStart => run2("systemctl"@, "enable"@, "dragonfly.service"@),
        Stage::StartSocketForStart => run2("systemctl"@, "start"@, "dragonfly.socket"@),
        Stage::StartServiceForStart => run2("systemctl"@, "start"@, "dragonfly.service"@),
        Stage::Done => TaskView::Nothing,
    }
}

/// On to the start of the service.
pub open spec fn to_start(s: Setup, h: HostView) -> Result<Setup, Seq<char>> {
    if !h.is_macos {
        Ok(at(s, Stage::EnableSocketForStart))
    } else if h.home is Some {
        Ok(at(s, Stage::UnloadForStart))
    } else {
        Err("Failed to get user home directory"@)
    }
}

/// On from the saved mode.
pub open spec fn saved(s: Setup, h: HostView) -> Result<Setup, Seq<char>> {
    if s.purpose == Purpose::SaveMode {
        Ok(at(s, Stage::Done))
    } else if s.mode == DeploymentMode::Flight {
        Ok(at(s, Stage::DownloadArtifacts))
    } else {
        to_start(s, h)
    }
}

/// On to saving the mode, unless that has been done along the way.
pub open spec fn to_save(s: Setup, h: HostView) -> Result<Setup, Seq<char>> {
    if s.elevated {
        saved(s, h)
    } else if h.is_macos {
        Ok(at(s, Stage::ElevateMode))
    } else {
        Ok(at(s, Stage::ReadMode))
    }
}

/// On from the data directory.
pub open spec fn after_var_lib(s: Setup, h: HostView) -> Result<Setup, Seq<char>> {
    match s.mode {
        DeploymentMode::Simple => if h.home is Some {
            Ok(at(s, Stage::MakeAgentsDir))
        } else {
            Err("Failed to get user home directory"@)
        },
        DeploymentMode::Flight => Ok(at(s, Stage::EnsureArtifacts)),
        DeploymentMode::Swarm => to_save(s, h),
    }
}

/// On from the directory for logs.
pub open spec fn after_log(s: Setup, h: HostView) -> Result<Setup, Seq<char>> {
    Ok(at(s, if h.is_macos { Stage::FindVarLib } else { Stage::WriteSocket }))
}

/// On from the directory of the cluster configuration.
pub open spec fn after_k3s(s: Setup, h: HostView) -> Result<Setup, Seq<char>> {
    Ok(at(s, if h.is_macos { Stage::FindVarLib } else { Stage::EnsureArtifacts }))
}

/// The output of the task says that the mode of this setup is set.
pub open spec fn says_mode(s: Setup, o: OutcomeView) -> bool {
    o matches OutcomeView::Ran { success: true, stdout, .. } && saved_mode(stdout) == Some(s.mode)
}

/// What follows at the stages that put the program in place.
pub open spec fn program_next(s: Setup, h: HostView, o: OutcomeView) -> Result<Setup, Seq<char>> {
    match s.stage {
        Stage::CheckMode => if says_mode(s, o) {
            Ok(at(s, Stage::Done))
        } else {
            match s.mode {
                DeploymentMode::Simple => Ok(at(s, Stage::FindTarget)),
                DeploymentMode::Flight => Ok(at(s, Stage::MakeK3sDir)),
                DeploymentMode::Swarm => if h.is_macos {
                    Ok(at(s, Stage::FindVarLib))
                } else {
                    to_save(s, h)
                },
            }
        },
        Stage::FindTarget => if o.succeeded() {
            Ok(at(s, Stage::ChooseExec))
        } else {
            Ok(at(s, if h.is_macos { Stage::CopyOnMac } else { Stage::Copy }))
        },
        Stage::CopyOnMac => if o.succeeded() {
            Ok(at(s, Stage::ChmodOnMac))
        } else {
            Ok(at(Setup { elevated: true, ..s }, Stage::ElevateOnMac))
        },
        Stage::ChmodOnMac => Ok(at(s, Stage::ChooseExec)),
        Stage::ElevateOnMac => if o.succeeded() {
            Ok(at(s, Stage::ChooseExec))
        } else if o is Broken {
            Err("Failed to execute osascript for sudo prompt"@)
        } else {
            Err("Failed to configure with admin privileges: "@ + o.reason())
        },
        Stage::Copy => if o.succeeded() {
            Ok(at(s, Stage::Chmod))
        } else {
            Ok(at(Setup { elevated: true, ..s }, Stage::FindPkexec))
        },
        Stage::Chmod => if o is Broken {
            Err("Failed to set executable permissions"@)
        } else {
            Ok(at(s, Stage::ChooseExec))
        },
        Stage::FindPkexec => if o.succeeded() {
            Ok(at(s, Stage::Pkexec))
        } else {
            Ok(at(s, Stage::Sudo))
        },
        Stage::Pkexec => if o.succeeded() {
            Ok(at(s, Stage::ChooseExec))
        } else {
            Ok(at(s, Stage::Sudo))
        },
        Stage::Sudo => if o.succeeded() {
            Ok(at(s, Stage::ChooseExec))
        } else if o is Broken {
            Err("Failed to execute sudo command"@)
        } else {
            Err("Failed to configure with sudo: "@ + o.reason())
        },
        Stage::ChooseExec => {
            let chosen = Setup { in_place: o.succeeded(), ..s };
            if chosen.elevated {
                after_log(chosen, h)
            } else {
                Ok(at(chosen, Stage::FindLogDir))
            }
        },
        _ => Ok(s),
    }
}

/// What follows at the stages that make directories.
pub open spec fn directories_next(s: Setup, h: HostView, o: OutcomeView) -> Result<Setup, Seq<char>> {
    match s.stage {
        Stage::FindLogDir => if o.succeeded() {
            after_log(s, h)
        } else {
            Ok(at(s, Stage::MakeLogDir))
        },
        Stage::MakeLogDir => if o.succeeded() {
            after_log(s, h)
        } else {
            Ok(at(s, if h.is_macos { Stage::ElevateLogDir } else { Stage::SudoLogDir }))
        },
        Stage::ElevateLogDir => after_log(s, h),
        Stage::SudoLogDir => Ok(at(s, Stage::SudoChmodLogDir)),
        Stage::SudoChmodLogDir => after_log(s, h),
        Stage::MakeK3sDir => if o.succeeded() {
            after_k3s(s, h)
        } else {
            Ok(at(s, if h.is_macos { Stage::ElevateK3sDir } else { Stage::SudoK3sDir }))
        },
        Stage::ElevateK3sDir => if o.succeeded() {
            after_k3s(Setup { elevated: true, ..s }, h)
        } else if o is Broken {
            Err("Failed to execute osascript for sudo prompt"@)
        } else {
            Err("Failed to create directories with admin privileges: "@ + o.reason())
        },
        Stage::SudoK3sDir => if o.succeeded() {
            after_k3s(Setup { elevated: true, ..s }, h)
        } else if o is Broken {
            Err("Failed to execute sudo command"@)
        } else {
            Err("Failed to create directories with sudo: "@ + o.reason())
        },
        Stage::FindVarLib => if !o.succeeded() {
            Ok(at(s, Stage::MakeVarLib))
        } else if h.user is Some {
            Ok(at(s, Stage::StatVarLib))
        } else {
            after_var_lib(s, h)
        },
        Stage::MakeVarLib => if h.user is None {
            after_var_lib(s, h)
        } else if o.succeeded() {
            Ok(at(s, Stage::OwnVarLib))
        } else {
            Ok(at(s, Stage::ElevateVarLib))
        },
        Stage::ElevateVarLib => after_var_lib(s, h),
        Stage::OwnVarLib => after_var_lib(s, h),
        Stage::StatVarLib => if o matches OutcomeView::Ran { stdout, .. } && Some(trimmed(stdout))
            != h.user {
            Ok(at(s, Stage::ChownVarLib))
        } else {
            after_var_lib(s, h)
        },
        Stage::ChownVarLib => after_var_lib(s, h),
        Stage::EnsureArtifacts => Ok(at(s, Stage::DeployCluster)),
        Stage::DeployCluster => to_save(s, h),
        _ => Ok(s),
    }
}

/// What follows at the stages that define the service.
pub open spec fn service_next(s: Setup, h: HostView, o: OutcomeView) -> Result<Setup, Seq<char>> {
    match s.stage {
        Stage::MakeAgentsDir => Ok(at(s, Stage::WritePlist)),
        Stage::WritePlist => if o.succeeded() {
            Ok(at(s, Stage::UnloadAgent))
        } else {
            Err("Failed to write launchd plist file"@)
        },
        Stage::UnloadAgent => Ok(at(s, Stage::LoadAgent)),
        Stage::LoadAgent => if o is Broken {
            Err("Failed to load launchd service"@)
        } else {
            Ok(at(s, Stage::MakeHomeData))
        },
        Stage::MakeHomeData => to_save(s, h),
        Stage::WriteSocket => if o.succeeded() {
            Ok(at(s, Stage::WriteUnit))
        } else {
            Err("Failed to write systemd socket file"@)
        },
        Stage::WriteUnit => if o.succeeded() {
            Ok(at(s, Stage::ReloadUnits))
        } else {
            Err("Failed to write systemd unit file"@)
        },
        Stage::ReloadUnits => if o is Broken {
            Err("Failed to reload systemd"@)
        } else {
            Ok(at(s, Stage::EnableSocket))
        },
        Stage::EnableSocket => if o is Broken {
            Err("Failed to enable dragonfly.socket"@)
        } else {
            Ok(at(s, Stage::EnableService))
        },
        Stage::EnableService => if o is Broken {
            Err("Failed to enable dragonfly.service"@)
        } else {
            Ok(at(s, Stage::StartSocket))
        },
        Stage::StartSocket => if o is Broken {
            Err("Failed to start dragonfly.socket"@)
        } else {
            Ok(at(s, Stage::StartService))
        },
        Stage::StartService => if o is Broken {
            Err("Failed to start dragonfly.service"@)
        } else {
            Ok(at(s, Stage::MakeData))
        },
        Stage::MakeData => to_save(s, h),
        _ => Ok(s),
    }
}

/// What follows at the stages that save the mode.
pub open spec fn saving_next(s: Setup, h: HostView, o: OutcomeView) -> Result<Setup, Seq<char>> {
    match s.stage {
        Stage::ReadMode => if says_mode(s, o) {
            saved(s, h)
        } else {
            Ok(at(s, Stage::FindModeDir))
        },
        Stage::FindModeDir => if o.succeeded() {
            Ok(at(s, Stage::WriteMode))
        } else {
            Ok(at(s, Stage::MakeModeDir))
        },
        Stage::MakeModeDir => if o.succeeded() {
            Ok(at(s, Stage::WriteMode))
        } else if s.no_elevation {
            Err(
                "Failed to create mode directory and already attempted elevation: "@ + o.reason(),
            )
        } else if h.is_macos {
            Ok(at(s, Stage::ElevateMode))
        } else {
            Ok(at(s, Stage::SudoModeDir))
        },
        Stage::ElevateMode => if o.succeeded() {
            saved(s, h)
        } else if o is Broken {
            Err("Failed to execute osascript for sudo prompt"@)
        } else {
            Err("Failed to create mode directory with admin privileges: "@ + o.reason())
        },
        Stage::SudoModeDir => if o.succeeded() {
            Ok(at(s, Stage::SudoModeFile))
        } else if o is Broken {
            Err("Failed to create mode directory with sudo"@)
        } else {
            Err("Failed to create mode directory with sudo: "@ + o.reason())
        },
        Stage::SudoModeFile => if o.succeeded() {
            Ok(at(s, Stage::SudoChmodModeDir))
        } else if o is Broken {
            Err("Failed to write mode file with sudo"@)
        } else {
            Err("Failed to write mode file with sudo: "@ + o.reason())
        },
        Stage::SudoChmodModeDir => Ok(at(s, Stage::SudoChmodModeFile)),
        Stage::SudoChmodModeFile => saved(s, h),
        Stage::WriteMode => if o.succeeded() {
            saved(s, h)
        } else {
            Err("Failed to write mode file"@)
        },
        _ => Ok(s),
    }
}

/// What follows at the stages that start the service.
pub open spec fn starting_next(s: Setup, h: HostView, o: OutcomeView) -> Result<Setup, Seq<char>> {
    match s.stage {
        Stage::DownloadArtifacts => to_start(s, h),
        Stage::UnloadForStart => Ok(at(s, Stage::LoadForStart)),
        Stage::LoadForStart => if o.succeeded() {
            Ok(at(s, Stage::Launch))
        } else if o is Broken {
            Err("Failed to load launchd service"@)
        } else {
            Err("Failed to load launchd service: "@ + o.reason())
        },
        Stage::Launch => if o.succeeded() {
            Ok(at(s, Stage::Done))
        } else if o is Broken {
            Err("Failed to start launchd service"@)
        } else {
            Err("Failed to start launchd service: "@ + o.reason())
        },
        Stage::EnableSocketForStart => if o is Broken {
            Err("Failed to enable systemd socket"@)
        } else {
            Ok(at(s, Stage::EnableServiceForStart))
        },
        Stage::EnableServiceForStart => if o is Broken {
            Err("Failed to enable systemd service"@)
        } else {
            Ok(at(s, Stage::StartSocketForStart))
        },
        Stage::StartSocketForStart => if o.succeeded() {
            Ok(at(s, Stage::StartServiceForStart))
        } else if o is Broken {
            Err("Failed to start systemd socket"@)
        } else {
            Err("Failed to start systemd socket: "@ + o.reason())
        },
        Stage::StartServiceForStart => if o.succeeded() {
            Ok(at(s, Stage::Done))
        } else if o is Broken {
            Err("Failed to start systemd service"@)
        } else {
            Err("Failed to start systemd service: "@ + o.reason())
        },
        Stage::Done => Ok(s),
        _ => Ok(s),
    }
}

/// What follows the outcome of the task at a stage: the setup as it goes on, or why it failed.
pub open spec fn setup_next(s: Setup, h: HostView, o: OutcomeView) -> Result<Setup, Seq<char>> {
    match s.stage {
        Stage::CheckMode | Stage::FindTarget | Stage::CopyOnMac | Stage::ChmodOnMac
            | Stage::ElevateOnMac | Stage::Copy | Stage::Chmod | Stage::FindPkexec | Stage::Pkexec
            | Stage::Sudo | Stage::ChooseExec => program_next(s, h, o),
        Stage::FindLogDir | Stage::MakeLogDir | Stage::ElevateLogDir | Stage::SudoLogDir
            | Stage::SudoChmodLogDir | Stage::MakeK3sDir | Stage::ElevateK3sDir | Stage::SudoK3sDir
            | Stage::FindVarLib | Stage::MakeVarLib | Stage::ElevateVarLib | Stage::OwnVarLib
            | Stage::StatVarLib | Stage::ChownVarLib | Stage::EnsureArtifacts
            | Stage::DeployCluster => directories_next(s, h, o),
        Stage::MakeAgentsDir | Stage::WritePlist | Stage::UnloadAgent | Stage::LoadAgent
            | Stage::MakeHomeData | Stage::WriteSocket | Stage::WriteUnit | Stage::ReloadUnits
            | Stage::EnableSocket | Stage::EnableService | Stage::StartSocket | Stage::StartService
            | Stage::MakeData => service_next(s, h, o),
        Stage::ReadMode | Stage::FindModeDir | Stage::MakeModeDir | Stage::ElevateMode
            | Stage::SudoModeDir | Stage::SudoModeFile | Stage::SudoChmodModeDir
            | Stage::SudoChmodModeFile | Stage::WriteMode => saving_next(s, h, o),
        Stage::DownloadArtifacts | Stage::UnloadForStart | Stage::LoadForStart | Stage::Launch
            | Stage::EnableSocketForStart | Stage::EnableServiceForStart
            | Stage::StartSocketForStart | Stage::StartServiceForStart | Stage::Done =>
            starting_next(s, h, o),
    }
}

/// How far a stage is from the end, at most.
pub open spec fn stages_left(stage: Stage) -> nat {
    match stage {
        Stage::CheckMode => 57,
        Stage::FindTarget => 56,
        Stage::CopyOnMac => 55,
        Stage::ChmodOnMac => 54,
        Stage::ElevateOnMac => 53,
        Stage::Copy => 52,
        Stage::Chmod => 51,
        Stage::FindPkexec => 50,
        Stage::Pkexec => 49,
        Stage::Sudo => 48,
        Stage::ChooseExec => 47,
        Stage::FindLogDir => 46,
        Stage::MakeLogDir => 45,
        Stage::ElevateLogDir => 44,
        Stage::SudoLogDir => 43,
        Stage::SudoChmodLogDir => 42,
        Stage::MakeK3sDir => 41,
        Stage::ElevateK3sDir => 40,
        Stage::SudoK3sDir => 39,
        Stage::FindVarLib => 38,
        Stage::MakeVarLib => 37,
        Stage::ElevateVarLib => 36,
        Stage::OwnVarLib => 35,
        Stage::StatVarLib => 34,
        Stage::ChownVarLib => 33,
        Stage::EnsureArtifacts => 32,
        Stage::DeployCluster => 31,
        Stage::MakeAgentsDir => 30,
        Stage::WritePlist => 29,
        Stage::UnloadAgent => 28,
        Stage::LoadAgent => 27,
        Stage::MakeHomeData => 26,
        Stage::WriteSocket => 25,
        Stage::WriteUnit => 24,
        Stage::ReloadUnits => 23,
        Stage::EnableSocket => 22,
        Stage::EnableService => 21,
        Stage::StartSocket => 20,
        Stage::StartService => 19,
        Stage::MakeData => 18,
        Stage::ReadMode => 17,
        Stage::FindModeDir => 16,
        Stage::MakeModeDir => 15,
        Stage::ElevateMode => 14,
        Stage::SudoModeDir => 13,
        Stage::SudoModeFile => 12,
        Stage::SudoChmodModeDir => 11,
        Stage::SudoChmodModeFile => 10,
        Stage::WriteMode => 9,
        Stage::DownloadArtifacts => 8,
        Stage::UnloadForStart => 7,
        Stage::LoadForStart => 6,
        Stage::Launch => 5,
        Stage::EnableSocketForStart => 4,
        Stage::EnableServiceForStart => 3,
        Stage::StartSocketForStart => 2,
        Stage::StartServiceForStart => 1,
        Stage::Done => 0,
    }
}

/// A result of a step, without its text.
pub open spec fn step_result(r: Result<Setup, String>) -> Result<Setup, Seq<char>> {
    match r {
        Ok(s) => Ok(s),
        Err(e) => Err(e@),
    }
}

fn text_or_empty(s: &Option<String>) -> (r: String)
    ensures
        r@ == s.deep_view().unwrap_or(Seq::empty()),
{
    match s {
        Some(t) => t.clone(),
        None => String::new(),
    }
}

impl Setup {
    /// The beginning of a setup for a mode.
    pub fn configure(mode: DeploymentMode) -> (r: Setup)
        ensures
            r == (Setup {
                mode,
                purpose: Purpose::Configure,
                no_elevation: false,
                elevated: false,
                in_place: false,
                stage: Stage::CheckMode,
            }),
    {
        Setup {
            mode,
            purpose: Purpose::Configure,
            no_elevation: false,
            elevated: false,
            in_place: false,
            stage: Stage::CheckMode,
        }
    }

    /// The beginning of saving a mode, and nothing else.
    pub fn save_mode(mode: DeploymentMode, already_elevated: bool) -> (r: Setup)
        ensures
            r == (Setup {
                mode,
                purpose: Purpose::SaveMode,
                no_elevation: already_elevated,
                elevated: false,
                in_place: false,
                stage: Stage::ReadMode,
            }),
    {
        Setup {
            mode,
            purpose: Purpose::SaveMode,
            no_elevation: already_elevated,
            elevated: false,
            in_place: false,
            stage: Stage::ReadMode,
        }
    }

    /// The beginning of starting the service, and nothing else.
    pub fn start_service(host: &Host) -> (r: Result<Setup, String>)
        ensures
            step_result(r) == to_start(
                Setup {
                    mode: DeploymentMode::Simple,
                    purpose: Purpose::StartService,
                    no_elevation: false,
                    elevated: true,
                    in_place: false,
                    stage: Stage::Done,
                },
                host.deep_view(),
            ),
    {
        Setup {
            mode: DeploymentMode::Simple,
            purpose: Purpose::StartService,
            no_elevation: false,
            elevated: true,
            in_place: false,
            stage: Stage::Done,
        }.go_to_start(host)
    }

    /// What is to be done at the stage that the setup is at.
    pub fn task(&self, h: &Host) -> (r: Task)
        ensures
            r.deep_view() == setup_task(*self, h.deep_view()),
    {
        let quoted = replace_quotes(h.exe.as_str());
        let home = text_or_empty(&h.home);
        let user = text_or_empty(&h.user);
        let exec = if self.in_place {
            "/usr/local/bin/dragonfly".to_owned()
        } else {
            h.exe.clone()
        };
        match self.stage {
            Stage::CheckMode => Task::ReadFile("/etc/dragonfly/mode".to_owned()),
            Stage::FindTarget => Task::Exists("/usr/local/bin/dragonfly".to_owned()),
            Stage::CopyOnMac => task2("cp", h.exe.as_str(), "/usr/local/bin/dragonfly"),
            Stage::ChmodOnMac => task2("chmod", "+x", "/usr/local/bin/dragonfly"),
            Stage::ElevateOnMac => task2("osascript", "-e", "do shell script \"cp '".to_owned()
                .concat(quoted.as_str())
                .concat("' '/usr/local/bin/dragonfly' && chmod +x '/usr/local/bin/dragonfly' && mkdir -p /etc/dragonfly && echo simple > /etc/dragonfly/mode && chmod 755 /etc/dragonfly && mkdir -p '")
                .concat(h.log_dir.as_str()).concat("' && chmod 755 '").concat(h.log_dir.as_str())
                .concat("'\" with administrator privileges with prompt \\\"Dragonfly needs permission to configure Simple mode\\\"").as_str()),
            Stage::Copy => Task::CopyFile { from: h.exe.as_str().to_owned(),
                to: "/usr/local/bin/dragonfly".to_owned() },
            Stage::Chmod => task2("chmod", "+x", "/usr/local/bin/dragonfly"),
            Stage::FindPkexec => task1("which", "pkexec"),
            Stage::Pkexec => task2("sh", "-c", "pkexec sh -c 'cp \"".to_owned()
                .concat(h.exe.as_str())
                .concat("\" \"/usr/local/bin/dragonfly\" && chmod +x \"/usr/local/bin/dragonfly\" && mkdir -p /etc/dragonfly && echo simple > /etc/dragonfly/mode && chmod 755 /etc/dragonfly && mkdir -p ")
                .concat(h.log_dir.as_str()).concat(" && chmod 755 ").concat(h.log_dir.as_str())
                .concat("'").as_str()),
            Stage::Sudo => task2("sh", "-c", "sudo sh -c 'cp \"".to_owned().concat(h.exe.as_str())
                .concat("\" \"/usr/local/bin/dragonfly\" && chmod +x \"/usr/local/bin/dragonfly\" && mkdir -p /etc/dragonfly && echo simple > /etc/dragonfly/mode && chmod 755 /etc/dragonfly && mkdir -p ")
                .concat(h.log_dir.as_str()).concat(" && chmod 755 ").concat(h.log_dir.as_str())
                .concat("'").as_str()),
            Stage::ChooseExec => Task::Exists("/usr/local/bin/dragonfly".to_owned()),
            Stage::FindLogDir => Task::Exists("/var/log/dragonfly".to_owned()),
            Stage::MakeLogDir => Task::MakeDir("/var/log/dragonfly".to_owned()),
            Stage::ElevateLogDir => task2("osascript", "-e",
                "do shell script \"mkdir -p '/var/log/dragonfly' && chmod 755 '/var/log/dragonfly'\" with administrator privileges"),
            Stage::SudoLogDir => task3("sudo", "mkdir", "-p", "/var/log/dragonfly"),
            Stage::SudoChmodLogDir => task3("sudo", "chmod", "755", "/var/log/dragonfly"),
            Stage::MakeK3sDir => Task::MakeDir("/etc/dragonfly/k3s".to_owned()),
            Stage::ElevateK3sDir => task2("osascript", "-e",
                "do shell script \"mkdir -p /etc/dragonfly/k3s && mkdir -p /etc/dragonfly && echo flight > /etc/dragonfly/mode && chmod 755 /etc/dragonfly\" with administrator privileges with prompt \\\"Dragonfly needs permission to configure Flight mode\\\""),
            Stage::SudoK3sDir => task2("sh", "-c",
                "sudo sh -c 'mkdir -p /etc/dragonfly/k3s && mkdir -p /etc/dragonfly && echo flight > /etc/dragonfly/mode && chmod 755 /etc/dragonfly'"),
            Stage::FindVarLib => Task::Exists("/var/lib/dragonfly".to_owned()),
            Stage::MakeVarLib => Task::MakeDir("/var/lib/dragonfly".to_owned()),
            Stage::ElevateVarLib => task2("osascript", "-e",
                "do shell script \"mkdir -p '/var/lib/dragonfly' && chown '".to_owned()
                .concat(user.as_str())
                .concat("' '/var/lib/dragonfly' && chmod 755 '/var/lib/dragonfly'\" with administrator privileges with prompt \\\"Dragonfly needs permission to create data directory\\\"").as_str()),
            Stage::OwnVarLib => task2("osascript", "-e", "do shell script \"chown '".to_owned()
                .concat(user.as_str())
                .concat("' '/var/lib/dragonfly'\" with administrator privileges with prompt \\\"Dragonfly needs permission to set ownership of data directory\\\"").as_str()),
            Stage::StatVarLib => task3("stat", "-f", "%Su", "/var/lib/dragonfly"),
            Stage::ChownVarLib => task2("osascript", "-e", "do shell script \"chown -R '".to_owned()
                .concat(user.as_str())
                .concat("' '/var/lib/dragonfly'\" with administrator privileges with prompt \\\"Dragonfly needs permission to set ownership of data directory\\\"").as_str()),
            Stage::EnsureArtifacts => Task::Start(Job::EnsureArtifacts),
            Stage::DeployCluster => Task::Start(Job::DeployCluster),
            Stage::MakeAgentsDir => Task::MakeDir(home.as_str().to_owned()
                .concat("/Library/LaunchAgents")),
            Stage::WritePlist => Task::WriteFile { path: home.as_str().to_owned()
                .concat("/Library/LaunchAgents/com.dragonfly.dragonfly.plist"),
                content: generate_launchd_plist("dragonfly", exec.as_str(),
                "Dragonfly Simple Mode") },
            Stage::UnloadAgent => task2("launchctl", "unload", home.as_str().to_owned()
                .concat("/Library/LaunchAgents/com.dragonfly.dragonfly.plist").as_str()),
            Stage::LoadAgent => task3("launchctl", "load", "-w", home.as_str().to_owned()
                .concat("/Library/LaunchAgents/com.dragonfly.dragonfly.plist").as_str()),
            Stage::MakeHomeData => Task::MakeDir(home.as_str().to_owned().concat("/.dragonfly")),
            Stage::WriteSocket =>
                Task::WriteFile { path: "/etc/systemd/system/dragonfly.socket".to_owned(),
                content: generate_systemd_socket_unit("Dragonfly Simple Mode") },
            Stage::WriteUnit =>
                Task::WriteFile { path: "/etc/systemd/system/dragonfly.service".to_owned(),
                content: generate_systemd_unit("dragonfly", exec.as_str(),
                "Dragonfly Simple Mode") },
            Stage::ReloadUnits => task1("systemctl", "daemon-reload"),
            Stage::EnableSocket => task2("systemctl", "enable", "dragonfly.socket"),
            Stage::EnableService => task2("systemctl", "enable", "dragonfly.service"),
            Stage::StartSocket => task2("systemctl", "start", "dragonfly.socket"),
            Stage::StartService => task2("systemctl", "start", "dragonfly.service"),
            Stage::MakeData => Task::MakeDir("/var/lib/dragonfly".to_owned()),
            Stage::ReadMode => Task::ReadFile("/etc/dragonfly/mode".to_owned()),
            Stage::FindModeDir => Task::Exists("/etc/dragonfly".to_owned()),
            Stage::MakeModeDir => Task::MakeDir("/etc/dragonfly".to_owned()),
            Stage::ElevateMode => task2("osascript", "-e",
                "do shell script \"mkdir -p /etc/dragonfly && echo '".to_owned()
                .concat(self.mode.as_str())
                .concat("' > /etc/dragonfly/mode && chmod 755 /etc/dragonfly\" with administrator privileges with prompt \"Dragonfly needs permission to save your deployment mode\"").as_str()),
            Stage::SudoModeDir => task3("sudo", "mkdir", "-p", "/etc/dragonfly"),
            Stage::SudoModeFile => task2("sh", "-c", "echo ".to_owned().concat(self.mode.as_str())
                .concat(" | sudo tee /etc/dragonfly/mode > /dev/null").as_str()),
            Stage::SudoChmodModeDir => task3("sudo", "chmod", "755", "/etc/dragonfly"),
            Stage::SudoChmodModeFile => task3("sudo", "chmod", "644", "/etc/dragonfly/mode"),
            Stage::WriteMode => Task::WriteFile { path: "/etc/dragonfly/mode".to_owned(),
                content: self.mode.as_str().to_owned() },
            Stage::DownloadArtifacts => Task::Start(Job::DownloadArtifacts),
            Stage::UnloadForStart => task2("launchctl", "unload", home.as_str().to_owned()
                .concat("/Library/LaunchAgents/com.dragonfly.dragonfly.plist").as_str()),
            Stage::LoadForStart => task3("launchctl", "load", "-w", home.as_str().to_owned()
                .concat("/Library/LaunchAgents/com.dragonfly.dragonfly.plist").as_str()),
            Stage::Launch => task2("launchctl", "start", "com.dragonfly.dragonfly"),
            Stage::EnableSocketForStart => task2("systemctl", "enable", "dragonfly.socket"),
            Stage::EnableServiceForStart => task2("systemctl", "enable", "dragonfly.service"),
            Stage::StartSocketForStart => task2("systemctl", "start", "dragonfly.socket"),
            Stage::StartServiceForStart => task2("systemctl", "start", "dragonfly.service"),
            Stage::Done => Task::Nothing,
        }
    }

    fn at(self, stage: Stage) -> (r: Setup)
        ensures
            r == at(self, stage),
    {
        Setup { stage, ..self }
    }

    fn go_to_start(self, host: &Host) -> (r: Result<Setup, String>)
        ensures
            step_result(r) == to_start(self, host.deep_view()),
    {
        if !host.is_macos {
            Ok(self.at(Stage::EnableSocketForStart))
        } else if host.home.is_some() {
            Ok(self.at(Stage::UnloadForStart))
        } else {
            Err("Failed to get user home directory".to_owned())
        }
    }

    fn go_saved(self, host: &Host) -> (r: Result<Setup, String>)
        ensures
            step_result(r) == saved(self, host.deep_view()),
    {
        if self.purpose == Purpose::SaveMode {
            Ok(self.at(Stage::Done))
        } else if self.mode == DeploymentMode::Flight {
            Ok(self.at(Stage::DownloadArtifacts))
        } else {
            self.go_to_start(host)
        }
    }

    fn go_to_save(self, host: &Host) -> (r: Result<Setup, String>)
        ensures
            step_result(r) == to_save(self, host.deep_view()),
    {
        if self.elevated {
            self.go_saved(host)
        } else if host.is_macos {
            Ok(self.at(Stage::ElevateMode))
        } else {
            Ok(self.at(Stage::ReadMode))
        }
    }

    fn go_after_var_lib(self, host: &Host) -> (r: Result<Setup, String>)
        ensures
            step_result(r) == after_var_lib(self, host.deep_view()),
    {
        match self.mode {
            DeploymentMode::Simple => if host.home.is_some() {
                Ok(self.at(Stage::MakeAgentsDir))
            } else {
                Err("Failed to get user home directory".to_owned())
            },
            DeploymentMode::Flight => Ok(self.at(Stage::EnsureArtifacts)),
            DeploymentMode::Swarm => self.go_to_save(host),
        }
    }

    fn go_after_log(self, host: &Host) -> (r: Result<Setup, String>)
        ensures
            step_result(r) == after_log(self, host.deep_view()),
    {
        Ok(self.at(if host.is_macos { Stage::FindVarLib } else { Stage::WriteSocket }))
    }

    fn go_after_k3s(self, host: &Host) -> (r: Result<Setup, String>)
        ensures
            step_result(r) == after_k3s(self, host.deep_view()),
    {
        Ok(self.at(if host.is_macos { Stage::FindVarLib } else { Stage::EnsureArtifacts }))
    }

    fn mode_is_set(&self, outcome: &Outcome) -> (r: bool)
        ensures
            r == says_mode(*self, outcome.deep_view()),
    {
        match outcome {
            Outcome::Ran { success, stdout, .. } => if *success {
                match DeploymentMode::from_str(trim(stdout.as_str()).as_str()) {
                    Some(mode) => mode == self.mode,
                    None => false,
                }
            } else {
                false
            },
            Outcome::Broken(_) => false,
        }
    }

    fn owner_differs(host: &Host, outcome: &Outcome) -> (r: bool)
        ensures
            r == (outcome.deep_view() matches OutcomeView::Ran { stdout, .. } && Some(
                trimmed(stdout),
            ) != host.deep_view().user),
    {
        match outcome {
            Outcome::Ran { stdout, .. } => match &host.user {
                Some(user) => !same(trim(stdout.as_str()).as_str(), user.as_str()),
                None => true,
            },
            Outcome::Broken(_) => false,
        }
    }

    fn next_program(self, host: &Host, outcome: &Outcome) -> (r: Result<Setup, String>)
        ensures
            step_result(r) == program_next(self, host.deep_view(), outcome.deep_view()),
    {
        match self.stage {
            Stage::CheckMode => if self.mode_is_set(outcome) {
                Ok(self.at(Stage::Done))
            } else {
                match self.mode {
                    DeploymentMode::Simple => Ok(self.at(Stage::FindTarget)),
                    DeploymentMode::Flight => Ok(self.at(Stage::MakeK3sDir)),
                    DeploymentMode::Swarm => if host.is_macos {
                        Ok(self.at(Stage::FindVarLib))
                    } else {
                        self.go_to_save(host)
                    },
                }
            },
            Stage::FindTarget => if outcome.succeeded() {
                Ok(self.at(Stage::ChooseExec))
            } else {
                Ok(self.at(if host.is_macos { Stage::CopyOnMac } else { Stage::Copy }))
            },
            Stage::CopyOnMac => if outcome.succeeded() {
                Ok(self.at(Stage::ChmodOnMac))
            } else {
                Ok(Setup { elevated: true, stage: Stage::ElevateOnMac, ..self })
            },
            Stage::ChmodOnMac => Ok(self.at(Stage::ChooseExec)),
            Stage::ElevateOnMac => if outcome.succeeded() {
                Ok(self.at(Stage::ChooseExec))
            } else if outcome.broken() {
                Err("Failed to execute osascript for sudo prompt".to_owned())
            } else {
                Err("Failed to configure with admin privileges: ".to_owned().concat(outcome.reason()))
            },
            Stage::Copy => if outcome.succeeded() {
                Ok(self.at(Stage::Chmod))
            } else {
                Ok(Setup { elevated: true, stage: Stage::FindPkexec, ..self })
            },
            Stage::Chmod => if outcome.broken() {
                Err("Failed to set executable permissions".to_owned())
            } else {
                Ok(self.at(Stage::ChooseExec))
            },
            Stage::FindPkexec => if outcome.succeeded() {
                Ok(self.at(Stage::Pkexec))
            } else {
                Ok(self.at(Stage::Sudo))
            },
            Stage::Pkexec => if outcome.succeeded() {
                Ok(self.at(Stage::ChooseExec))
            } else {
                Ok(self.at(Stage::Sudo))
            },
            Stage::Sudo => if outcome.succeeded() {
                Ok(self.at(Stage::ChooseExec))
            } else if outcome.broken() {
                Err("Failed to execute sudo command".to_owned())
            } else {
                Err("Failed to configure with sudo: ".to_owned().concat(outcome.reason()))
            },
            Stage::ChooseExec => {
                let chosen = Setup { in_place: outcome.succeeded(), ..self };
                if chosen.elevated {
                    chosen.go_after_log(host)
                } else {
                    Ok(chosen.at(Stage::FindLogDir))
                }
            },
            _ => Ok(self),
        }
    }

    fn next_directories(self, host: &Host, outcome: &Outcome) -> (r: Result<Setup, String>)
        ensures
            step_result(r) == directories_next(self, host.deep_view(), outcome.deep_view()),
    {
        match self.stage {
            Stage::FindLogDir => if outcome.succeeded() {
                self.go_after_log(host)
            } else {
                Ok(self.at(Stage::MakeLogDir))
            },
            Stage::MakeLogDir => if outcome.succeeded() {
                self.go_after_log(host)
            } else {
                Ok(self.at(if host.is_macos { Stage::ElevateLogDir } else { Stage::SudoLogDir }))
            },
            Stage::ElevateLogDir => self.go_after_log(host),
            Stage::SudoLogDir => Ok(self.at(Stage::SudoChmodLogDir)),
            Stage::SudoChmodLogDir => self.go_after_log(host),
            Stage::MakeK3sDir => if outcome.succeeded() {
                self.go_after_k3s(host)
            } else {
                Ok(self.at(if host.is_macos { Stage::ElevateK3sDir } else { Stage::SudoK3sDir }))
            },
            Stage::ElevateK3sDir => if outcome.succeeded() {
                Setup { elevated: true, ..self }.go_after_k3s(host)
            } else if outcome.broken() {
                Err("Failed to execute osascript for sudo prompt".to_owned())
            } else {
                Err("Failed to create directories with admin privileges: ".to_owned()
                    .concat(outcome.reason()))
            },
            Stage::SudoK3sDir => if outcome.succeeded() {
                Setup { elevated: true, ..self }.go_after_k3s(host)
            } else if outcome.broken() {
                Err("Failed to execute sudo command".to_owned())
            } else {
                Err("Failed to create directories with sudo: ".to_owned().concat(outcome.reason()))
            },
            Stage::FindVarLib => if !outcome.succeeded() {
                Ok(self.at(Stage::MakeVarLib))
            } else if host.user.is_some() {
                Ok(self.at(Stage::StatVarLib))
            } else {
                self.go_after_var_lib(host)
            },
            Stage::MakeVarLib => if host.user.is_none() {
                self.go_after_var_lib(host)
            } else if outcome.succeeded() {
                Ok(self.at(Stage::OwnVarLib))
            } else {
                Ok(self.at(Stage::ElevateVarLib))
            },
            Stage::ElevateVarLib => self.go_after_var_lib(host),
            Stage::OwnVarLib => self.go_after_var_lib(host),
            Stage::StatVarLib => if Setup::owner_differs(host, outcome) {
                Ok(self.at(Stage::ChownVarLib))
            } else {
                self.go_after_var_lib(host)
            },
            Stage::ChownVarLib => self.go_after_var_lib(host),
            Stage::EnsureArtifacts => Ok(self.at(Stage::DeployCluster)),
            Stage::DeployCluster => self.go_to_save(host),
            _ => Ok(self),
        }
    }

    fn next_service(self, host: &Host, outcome: &Outcome) -> (r: Result<Setup, String>)
        ensures
            step_result(r) == service_next(self, host.deep_view(), outcome.deep_view()),
    {
        match self.stage {
            Stage::MakeAgentsDir => Ok(self.at(Stage::WritePlist)),
            Stage::WritePlist => if outcome.succeeded() {
                Ok(self.at(Stage::UnloadAgent))
            } else {
                Err("Failed to write launchd plist file".to_owned())
            },
            Stage::UnloadAgent => Ok(self.at(Stage::LoadAgent)),
            Stage::LoadAgent => if outcome.broken() {
                Err("Failed to load launchd service".to_owned())
            } else {
                Ok(self.at(Stage::MakeHomeData))
            },
            Stage::MakeHomeData => self.go_to_save(host),
            Stage::WriteSocket => if outcome.succeeded() {
                Ok(self.at(Stage::WriteUnit))
            } else {
                Err("Failed to write systemd socket file".to_owned())
            },
            Stage::WriteUnit => if outcome.succeeded() {
                Ok(self.at(Stage::ReloadUnits))
            } else {
                Err("Failed to write systemd unit file".to_owned())
            },
            Stage::ReloadUnits => if outcome.broken() {
                Err("Failed to reload systemd".to_owned())
            } else {
                Ok(self.at(Stage::EnableSocket))
            },
            Stage::EnableSocket => if outcome.broken() {
                Err("Failed to enable dragonfly.socket".to_owned())
            } else {
                Ok(self.at(Stage::EnableService))
            },
            Stage::EnableService => if outcome.broken() {
                Err("Failed to enable dragonfly.service".to_owned())
            } else {
                Ok(self.at(Stage::StartSocket))
            },
            Stage::StartSocket => if outcome.broken() {
                Err("Failed to start dragonfly.socket".to_owned())
            } else {
                Ok(self.at(Stage::StartService))
            },
            Stage::StartService => if outcome.broken() {
                Err("Failed to start dragonfly.service".to_owned())
            } else {
                Ok(self.at(Stage::MakeData))
            },
            Stage::MakeData => self.go_to_save(host),
            _ => Ok(self),
        }
    }

    fn next_saving(self, host: &Host, outcome: &Outcome) -> (r: Result<Setup, String>)
        ensures
            step_result(r) == saving_next(self, host.deep_view(), outcome.deep_view()),
    {
        match self.stage {
            Stage::ReadMode => if self.mode_is_set(outcome) {
                self.go_saved(host)
            } else {
                Ok(self.at(Stage::FindModeDir))
            },
            Stage::FindModeDir => if outcome.succeeded() {
                Ok(self.at(Stage::WriteMode))
            } else {
                Ok(self.at(Stage::MakeModeDir))
            },
            Stage::MakeModeDir => if outcome.succeeded() {
                Ok(self.at(Stage::WriteMode))
            } else if self.no_elevation {
                Err(
                    "Failed to create mode directory and already attempted elevation: ".to_owned()
                        .concat(
                        outcome.reason(),
                    ),
                )
            } else if host.is_macos {
                Ok(self.at(Stage::ElevateMode))
            } else {
                Ok(self.at(Stage::SudoModeDir))
            },
            Stage::ElevateMode => if outcome.succeeded() {
                self.go_saved(host)
            } else if outcome.broken() {
                Err("Failed to execute osascript for sudo prompt".to_owned())
            } else {
                Err("Failed to create mode directory with admin privileges: ".to_owned()
                    .concat(outcome.reason()))
            },
            Stage::SudoModeDir => if outcome.succeeded() {
                Ok(self.at(Stage::SudoModeFile))
            } else if outcome.broken() {
                Err("Failed to create mode directory with sudo".to_owned())
            } else {
                Err("Failed to create mode directory with sudo: ".to_owned().concat(outcome.reason()))
            },
            Stage::SudoModeFile => if outcome.succeeded() {
                Ok(self.at(Stage::SudoChmodModeDir))
            } else if outcome.broken() {
                Err("Failed to write mode file with sudo".to_owned())
            } else {
                Err("Failed to write mode file with sudo: ".to_owned().concat(outcome.reason()))
            },
            Stage::SudoChmodModeDir => Ok(self.at(Stage::SudoChmodModeFile)),
            Stage::SudoChmodModeFile => self.go_saved(host),
            Stage::WriteMode => if outcome.succeeded() {
                self.go_saved(host)
            } else {
                Err("Failed to write mode file".to_owned())
            },
            _ => Ok(self),
        }
    }

    fn next_starting(self, host: &Host, outcome: &Outcome) -> (r: Result<Setup, String>)
        ensures
            step_result(r) == starting_next(self, host.deep_view(), outcome.deep_view()),
    {
        match self.stage {
            Stage::DownloadArtifacts => self.go_to_start(host),
            Stage::UnloadForStart => Ok(self.at(Stage::LoadForStart)),
            Stage::LoadForStart => if outcome.succeeded() {
                Ok(self.at(Stage::Launch))
            } else if outcome.broken() {
                Err("Failed to load launchd service".to_owned())
            } else {
                Err("Failed to load launchd service: ".to_owned().concat(outcome.reason()))
            },
            Stage::Launch => if outcome.succeeded() {
                Ok(self.at(Stage::Done))
            } else if outcome.broken() {
                Err("Failed to start launchd service".to_owned())
            } else {
                Err("Failed to start launchd service: ".to_owned().concat(outcome.reason()))
            },
            Stage::EnableSocketForStart => if outcome.broken() {
                Err("Failed to enable systemd socket".to_owned())
            } else {
                Ok(self.at(Stage::EnableServiceForStart))
            },
            Stage::EnableServiceForStart => if outcome.broken() {
                Err("Failed to enable systemd service".to_owned())
            } else {
                Ok(self.at(Stage::StartSocketForStart))
            },
            Stage::StartSocketForStart => if outcome.succeeded() {
                Ok(self.at(Stage::StartServiceForStart))
            } else if outcome.broken() {
                Err("Failed to start systemd socket".to_owned())
            } else {
                Err("Failed to start systemd socket: ".to_owned().concat(outcome.reason()))
            },
            Stage::StartServiceForStart => if outcome.succeeded() {
                Ok(self.at(Stage::Done))
            } else if outcome.broken() {
                Err("Failed to start systemd service".to_owned())
            } else {
                Err("Failed to start systemd service: ".to_owned().concat(outcome.reason()))
            },
            Stage::Done => Ok(self),
            _ => Ok(self),
        }
    }

    /// Goes on from the outcome of the task: to the next stage, or to the failure of the setup.
    pub fn next(self, host: &Host, outcome: &Outcome) -> (r: Result<Setup, String>)
        ensures
            step_result(r) == setup_next(self, host.deep_view(), outcome.deep_view()),
    {
        match self.stage {
            Stage::CheckMode | Stage::FindTarget | Stage::CopyOnMac | Stage::ChmodOnMac
                | Stage::ElevateOnMac | Stage::Copy | Stage::Chmod | Stage::FindPkexec
                | Stage::Pkexec | Stage::Sudo | Stage::ChooseExec => self.next_program(host,
                outcome),
            Stage::FindLogDir | Stage::MakeLogDir | Stage::ElevateLogDir | Stage::SudoLogDir
                | Stage::SudoChmodLogDir | Stage::MakeK3sDir | Stage::ElevateK3sDir
                | Stage::SudoK3sDir | Stage::FindVarLib | Stage::MakeVarLib | Stage::ElevateVarLib
                | Stage::OwnVarLib | Stage::StatVarLib | Stage::ChownVarLib | Stage::EnsureArtifacts
                | Stage::DeployCluster => self.next_directories(host, outcome),
            Stage::MakeAgentsDir | Stage::WritePlist | Stage::UnloadAgent | Stage::LoadAgent
                | Stage::MakeHomeData | Stage::WriteSocket | Stage::WriteUnit | Stage::ReloadUnits
                | Stage::EnableSocket | Stage::EnableService | Stage::StartSocket
                | Stage::StartService | Stage::MakeData => self.next_service(host, outcome),
            Stage::ReadMode | Stage::FindModeDir | Stage::MakeModeDir | Stage::ElevateMode
                | Stage::SudoModeDir | Stage::SudoModeFile | Stage::SudoChmodModeDir
                | Stage::SudoChmodModeFile | Stage::WriteMode => self.next_saving(host, outcome),
            Stage::DownloadArtifacts | Stage::UnloadForStart | Stage::LoadForStart | Stage::Launch
                | Stage::EnableSocketForStart | Stage::EnableServiceForStart
                | Stage::StartSocketForStart | Stage::StartServiceForStart | Stage::Done =>
                self.next_starting(host, outcome),
        }
    }
}

fn replace_quotes(s: &str) -> (r: String)
    ensures
        r@ == replaced(s@, "'"@, "'\\''"@),
{
    proof {
        reveal_strlit("'");
    }
    replace(s, "'", "'\\''")
}

proof fn program_makes_progress(s: Setup, h: HostView, o: OutcomeView)
    requires
        s.stage == Stage::CheckMode || s.stage == Stage::FindTarget || s.stage == Stage::CopyOnMac
            || s.stage == Stage::ChmodOnMac || s.stage == Stage::ElevateOnMac || s.stage
            == Stage::Copy || s.stage == Stage::Chmod || s.stage == Stage::FindPkexec || s.stage
            == Stage::Pkexec || s.stage == Stage::Sudo || s.stage == Stage::ChooseExec,
    ensures
        program_next(s, h, o) matches Ok(next) ==> stages_left(next.stage) < stages_left(s.stage),
{
}

proof fn directories_makes_progress(s: Setup, h: HostView, o: OutcomeView)
    requires
        s.stage == Stage::FindLogDir || s.stage == Stage::MakeLogDir || s.stage
            == Stage::ElevateLogDir || s.stage == Stage::SudoLogDir || s.stage
            == Stage::SudoChmodLogDir || s.stage == Stage::MakeK3sDir || s.stage
            == Stage::ElevateK3sDir || s.stage == Stage::SudoK3sDir || s.stage == Stage::FindVarLib
            || s.stage == Stage::MakeVarLib || s.stage == Stage::ElevateVarLib || s.stage
            == Stage::OwnVarLib || s.stage == Stage::StatVarLib || s.stage == Stage::ChownVarLib
            || s.stage == Stage::EnsureArtifacts || s.stage == Stage::DeployCluster,
    ensures
        directories_next(s, h, o) matches Ok(next) ==> stages_left(next.stage) < stages_left(s.stage),
{
}

proof fn service_makes_progress(s: Setup, h: HostView, o: OutcomeView)
    requires
        s.stage == Stage::MakeAgentsDir || s.stage == Stage::WritePlist || s.stage
            == Stage::UnloadAgent || s.stage == Stage::LoadAgent || s.stage == Stage::MakeHomeData
            || s.stage == Stage::WriteSocket || s.stage == Stage::WriteUnit || s.stage
            == Stage::ReloadUnits || s.stage == Stage::EnableSocket || s.stage
            == Stage::EnableService || s.stage == Stage::StartSocket || s.stage
            == Stage::StartService || s.stage == Stage::MakeData,
    ensures
        service_next(s, h, o) matches Ok(next) ==> stages_left(next.stage) < stages_left(s.stage),
{
}

proof fn saving_makes_progress(s: Setup, h: HostView, o: OutcomeView)
    requires
        s.stage == Stage::ReadMode || s.stage == Stage::FindModeDir || s.stage == Stage::MakeModeDir
            || s.stage == Stage::ElevateMode || s.stage == Stage::SudoModeDir || s.stage
            == Stage::SudoModeFile || s.stage == Stage::SudoChmodModeDir || s.stage
            == Stage::SudoChmodModeFile || s.stage == Stage::WriteMode,
    ensures
        saving_next(s, h, o) matches Ok(next) ==> stages_left(next.stage) < stages_left(s.stage),
{
}

proof fn starting_makes_progress(s: Setup, h: HostView, o: OutcomeView)
    requires
        s.stage == Stage::DownloadArtifacts || s.stage == Stage::UnloadForStart || s.stage
            == Stage::LoadForStart || s.stage == Stage::Launch || s.stage
            == Stage::EnableSocketForStart || s.stage == Stage::EnableServiceForStart || s.stage
            == Stage::StartSocketForStart || s.stage == Stage::StartServiceForStart,
    ensures
        starting_next(s, h, o) matches Ok(next) ==> stages_left(next.stage) < stages_left(s.stage),
{
}

/// Every step of a setup brings it nearer to its end: it ends after finitely many, whatever the
/// host answers.
pub proof fn setup_makes_progress(s: Setup, h: HostView, o: OutcomeView)
    requires
        s.stage != Stage::Done,
    ensures
        setup_next(s, h, o) matches Ok(next) ==> stages_left(next.stage) < stages_left(s.stage),
{
    match s.stage {
        Stage::CheckMode | Stage::FindTarget | Stage::CopyOnMac | Stage::ChmodOnMac
            | Stage::ElevateOnMac | Stage::Copy | Stage::Chmod | Stage::FindPkexec | Stage::Pkexec
            | Stage::Sudo | Stage::ChooseExec => { program_makes_progress(s, h, o); },
        Stage::FindLogDir | Stage::MakeLogDir | Stage::ElevateLogDir | Stage::SudoLogDir
            | Stage::SudoChmodLogDir | Stage::MakeK3sDir | Stage::ElevateK3sDir | Stage::SudoK3sDir
            | Stage::FindVarLib | Stage::MakeVarLib | Stage::ElevateVarLib | Stage::OwnVarLib
            | Stage::StatVarLib | Stage::ChownVarLib | Stage::EnsureArtifacts
            | Stage::DeployCluster => { directories_makes_progress(s, h, o); },
        Stage::MakeAgentsDir | Stage::WritePlist | Stage::UnloadAgent | Stage::LoadAgent
            | Stage::MakeHomeData | Stage::WriteSocket | Stage::WriteUnit | Stage::ReloadUnits
            | Stage::EnableSocket | Stage::EnableService | Stage::StartSocket | Stage::StartService
            | Stage::MakeData => { service_makes_progress(s, h, o); },
        Stage::ReadMode | Stage::FindModeDir | Stage::MakeModeDir | Stage::ElevateMode
            | Stage::SudoModeDir | Stage::SudoModeFile | Stage::SudoChmodModeDir
            | Stage::SudoChmodModeFile | Stage::WriteMode => { saving_makes_progress(s, h, o); },
        Stage::DownloadArtifacts | Stage::UnloadForStart | Stage::LoadForStart | Stage::Launch
            | Stage::EnableSocketForStart | Stage::EnableServiceForStart
            | Stage::StartSocketForStart | Stage::StartServiceForStart =>
            { starting_makes_progress(s, h, o); },
        Stage::Done => {},
    }
}

/// A setup for a mode that is set already changes nothing: it looks, and is done.
pub proof fn nothing_to_do_twice(s: Setup, h: HostView, o: OutcomeView)
    requires
        s.stage == Stage::CheckMode,
        says_mode(s, o),
    ensures
        setup_next(s, h, o) == Ok::<Setup, Seq<char>>(at(s, Stage::Done)),
{
}

/// The stages from the start of the service on.
pub open spec fn is_starting(stage: Stage) -> bool {
    stages_left(stage) <= stages_left(Stage::DownloadArtifacts) && stage != Stage::Done
}

/// The outcome shows that the mode is saved.
pub open spec fn shows_saved(s: Setup, o: OutcomeView) -> bool {
    match s.stage {
        Stage::ReadMode => says_mode(s, o),
        Stage::ElevateMode | Stage::WriteMode => o.succeeded(),
        Stage::SudoChmodModeFile => true,
        _ => s.elevated,
    }
}

/// The service is started only once the mode is saved: by the step just taken, or by one before
/// it that took other rights.
pub proof fn service_starts_after_the_mode_is_saved(s: Setup, h: HostView, o: OutcomeView)
    requires
        s.purpose == Purpose::Configure,
        !is_starting(s.stage),
        s.stage != Stage::Done,
    ensures
        setup_next(s, h, o) matches Ok(next) && is_starting(next.stage) ==> shows_saved(s, o),
{
}

// ---------------------------------------------------------------------------------------------
// What a setup amounts to
// ---------------------------------------------------------------------------------------------

/// The task that follows the outcome of the one at hand, unless the setup fails.
pub open spec fn next_task(s: Setup, h: HostView, o: OutcomeView) -> Option<TaskView> {
    match setup_next(s, h, o) {
        Ok(t) => Some(setup_task(t, h)),
        Err(_) => None,
    }
}

/// A task that runs a program with these arguments.
pub open spec fn runs(program: Seq<char>, args: Seq<Seq<char>>) -> Option<TaskView> {
    Some(TaskView::Run { program, args })
}

/// A setup never changes what it is for, nor the mode that it sets up.
pub proof fn choices_are_kept(s: Setup, h: HostView, o: OutcomeView)
    ensures
        setup_next(s, h, o) matches Ok(t) ==> t.mode == s.mode && t.purpose == s.purpose
            && t.no_elevation == s.no_elevation && (s.elevated ==> t.elevated) && (s.stage
            != Stage::ChooseExec ==> t.in_place == s.in_place),
{
}

/// A mode that is set needs no setup; any other begins with what it needs: the program in its place, the
/// directory of the cluster, or only the mode itself.
pub proof fn setup_begins(s: Setup, h: HostView, o: OutcomeView)
    requires
        s.stage == Stage::CheckMode,
    ensures
        setup_task(s, h) == TaskView::ReadFile("/etc/dragonfly/mode"@),
        o matches OutcomeView::Ran { success: true, stdout, .. } && saved_mode(stdout) == Some(s.mode)
            ==> next_task(s, h, o) == Some(TaskView::Nothing),
        !o.succeeded() ==> {
            &&& s.mode == DeploymentMode::Simple ==> next_task(s, h, o) == Some(
                TaskView::Exists("/usr/local/bin/dragonfly"@),
            )
            &&& s.mode == DeploymentMode::Flight ==> next_task(s, h, o) == Some(
                TaskView::MakeDir("/etc/dragonfly/k3s"@),
            )
            &&& s.mode == DeploymentMode::Swarm && h.is_macos ==> next_task(s, h, o) == Some(
                TaskView::Exists("/var/lib/dragonfly"@),
            )
            &&& s.mode == DeploymentMode::Swarm && !h.is_macos && !s.elevated ==> next_task(s, h, o)
                == Some(TaskView::ReadFile("/etc/dragonfly/mode"@))
        },
{
}

/// A program that is not in its place is copied there and made executable: first as the user, and then
/// with the rights that can be had. Whether that helped is looked at, and decides what the service runs.
pub proof fn program_is_put_in_place(s: Setup, h: HostView, o: OutcomeView)
    ensures
        ({
            let target = "/usr/local/bin/dragonfly"@;
            let look = Some(TaskView::Exists(target));
            let next = next_task(s, h, o);
            let well = o.succeeded();
            &&& s.stage == Stage::FindTarget && well ==> next == look
            &&& s.stage == Stage::FindTarget && !well && !h.is_macos ==> next == Some(
                TaskView::CopyFile { from: h.exe, to: target },
            )
            &&& s.stage == Stage::FindTarget && !well && h.is_macos ==> next == runs(
                "cp"@,
                seq![h.exe, target],
            )
            &&& (s.stage == Stage::Copy || s.stage == Stage::CopyOnMac) && well ==> next == runs(
                "chmod"@,
                seq!["+x"@, target],
            )
            &&& s.stage == Stage::Copy && !well ==> next == runs("which"@, seq!["pkexec"@])
            &&& (s.stage == Stage::ChmodOnMac || (s.stage == Stage::Chmod && o is Ran) || (s.stage
                == Stage::Pkexec && well) || (s.stage == Stage::Sudo && well) || (s.stage
                == Stage::ElevateOnMac && well)) ==> next == look
            &&& s.stage == Stage::ChooseExec ==> (setup_next(s, h, o) matches Ok(t) && t.in_place
                == well)
            &&& exec_path(s, h) == (if s.in_place {
                target
            } else {
                h.exe
            })
        }),
{
}

/// Where the user may not put the program in its place, a command with other rights does: it copies the
/// running program, and saves the mode along the way, which is then not saved again.
pub proof fn rights_are_asked_for(s: Setup, h: HostView, o: OutcomeView)
    ensures
        ({
            let asks = (s.stage == Stage::FindPkexec) || (s.stage == Stage::Pkexec
                && !o.succeeded());
            &&& asks ==> (next_task(s, h, o) matches Some(TaskView::Run { program, args }) && program
                == "sh"@ && args.len() == 2 && args[0] == "-c"@ && is_part(h.exe, args[1])
                && is_part(h.log_dir, args[1]) && is_part(
                "echo simple > /etc/dragonfly/mode "@,
                args[1],
            ) && is_part(
                (if s.stage == Stage::FindPkexec && o.succeeded() {
                    "pkexec "@
                } else {
                    "sudo "@
                }),
                args[1],
            ))
            &&& (s.stage == Stage::Copy || s.stage == Stage::CopyOnMac) ==> (setup_next(s, h, o)
                matches Ok(t) && (t.elevated <==> s.elevated || !o.succeeded()))
            &&& (s.stage == Stage::SudoK3sDir || s.stage == Stage::ElevateK3sDir) && o.succeeded()
                ==> (setup_next(s, h, o) matches Ok(t) && t.elevated)
        }),
{
    let middle = "\" \"/usr/local/bin/dragonfly\" && chmod +x \"/usr/local/bin/dragonfly\" && mkdir -p /etc/dragonfly && echo simple > /etc/dragonfly/mode && chmod 755 /etc/dragonfly && mkdir -p "@;
    reveal_strlit(
        "\" \"/usr/local/bin/dragonfly\" && chmod +x \"/usr/local/bin/dragonfly\" && mkdir -p /etc/dragonfly && echo simple > /etc/dragonfly/mode && chmod 755 /etc/dragonfly && mkdir -p ",
    );
    reveal_strlit("echo simple > /etc/dragonfly/mode ");
    reveal_strlit("pkexec sh -c 'cp \"");
    reveal_strlit("sudo sh -c 'cp \"");
    reveal_strlit("pkexec ");
    reveal_strlit("sudo ");
    let echo = "echo simple > /etc/dragonfly/mode "@;
    assert(middle =~= middle.take(98) + echo + middle.skip(132));
    assert(is_part(echo, middle));
    let pkexec = "pkexec sh -c 'cp \""@;
    let sudo = "sudo sh -c 'cp \""@;
    assert(pkexec =~= "pkexec "@ + pkexec.skip(7));
    assert(sudo =~= "sudo "@ + sudo.skip(5));
    stand_together("pkexec "@, pkexec.skip(7));
    stand_together("sudo "@, sudo.skip(5));
    command_holds_its_parts(pkexec, "pkexec "@, h, middle, echo);
    command_holds_its_parts(sudo, "sudo "@, h, middle, echo);
}

proof fn command_holds_its_parts(
    start: Seq<char>,
    rights: Seq<char>,
    h: HostView,
    middle: Seq<char>,
    echo: Seq<char>,
)
    requires
        is_part(rights, start),
        is_part(echo, middle),
    ensures
        ({
            let command = start + h.exe + middle + h.log_dir + " && chmod 755 "@ + h.log_dir + "'"@;
            &&& is_part(rights, command)
            &&& is_part(h.exe, command)
            &&& is_part(echo, command)
            &&& is_part(h.log_dir, command)
        }),
{
    let a = start + h.exe;
    let b = a + middle;
    let c = b + h.log_dir;
    let d = c + " && chmod 755 "@;
    let e = d + h.log_dir;
    stand_together(start, h.exe);
    is_part_of_part(rights, start, a);
    stand_together(a, middle);
    is_part_of_part(rights, a, b);
    is_part_of_part(h.exe, a, b);
    is_part_of_part(echo, middle, b);
    stand_together(b, h.log_dir);
    is_part_of_part(rights, b, c);
    is_part_of_part(h.exe, b, c);
    is_part_of_part(echo, b, c);
    part_of_longer(rights, c, " && chmod 755 "@);
    part_of_longer(h.exe, c, " && chmod 755 "@);
    part_of_longer(echo, c, " && chmod 755 "@);
    part_of_longer(h.log_dir, c, " && chmod 755 "@);
    part_of_longer(rights, d, h.log_dir);
    part_of_longer(h.exe, d, h.log_dir);
    part_of_longer(echo, d, h.log_dir);
    part_of_longer(h.log_dir, d, h.log_dir);
    part_of_longer(rights, e, "'"@);
    part_of_longer(h.exe, e, "'"@);
    part_of_longer(echo, e, "'"@);
    part_of_longer(h.log_dir, e, "'"@);
}

/// The directories are made where they are missing, first as the user and then with other rights. The
/// one for logs is not worth a failure; that of the cluster is.
pub proof fn directories_are_made(s: Setup, h: HostView, o: OutcomeView)
    ensures
        ({
            let next = next_task(s, h, o);
            let well = o.succeeded();
            let logs = "/var/log/dragonfly"@;
            let onward = Some(setup_task(at(s, if h.is_macos {
                Stage::FindVarLib
            } else {
                Stage::WriteSocket
            }), h));
            &&& s.stage == Stage::FindLogDir && !well ==> next == Some(TaskView::MakeDir(logs))
            &&& (s.stage == Stage::FindLogDir || s.stage == Stage::MakeLogDir) && well ==> next
                == onward
            &&& s.stage == Stage::MakeLogDir && !well && !h.is_macos ==> next == runs(
                "sudo"@,
                seq!["mkdir"@, "-p"@, logs],
            )
            &&& s.stage == Stage::SudoLogDir ==> next == runs("sudo"@, seq!["chmod"@, "755"@, logs])
            &&& (s.stage == Stage::SudoChmodLogDir || s.stage == Stage::ElevateLogDir) ==> next
                == onward
            &&& (s.stage == Stage::MakeK3sDir || s.stage == Stage::SudoK3sDir) && well
                && !h.is_macos ==> next == Some(TaskView::Start(Job::EnsureArtifacts))
            &&& s.stage == Stage::MakeK3sDir && !well && !h.is_macos ==> next == runs(
                "sh"@,
                seq![
                    "-c"@,
                    "sudo sh -c 'mkdir -p /etc/dragonfly/k3s && mkdir -p /etc/dragonfly && echo flight > /etc/dragonfly/mode && chmod 755 /etc/dragonfly'"@,
                ],
            )
            &&& s.stage == Stage::EnsureArtifacts ==> next == Some(
                TaskView::Start(Job::DeployCluster),
            )
            &&& s.stage == Stage::DeployCluster && !s.elevated && !h.is_macos ==> next == Some(
                TaskView::ReadFile("/etc/dragonfly/mode"@),
            )
        }),
{
}

/// The data directory of a user on macOS belongs to that user in the end: one that is missing is made and
/// handed over, and one of somebody else is handed over. Nothing there is worth a failure.
pub proof fn data_directory_belongs_to_the_user(
    s: Setup,
    h: HostView,
    o: OutcomeView,
    user: Seq<char>,
)
    requires
        h.user == Some(user),
    ensures
        ({
            let next = setup_next(s, h, o);
            &&& s.stage == Stage::FindVarLib && !o.succeeded() ==> next_task(s, h, o) == Some(
                TaskView::MakeDir("/var/lib/dragonfly"@),
            )
            &&& s.stage == Stage::FindVarLib && o.succeeded() ==> next_task(s, h, o) == runs(
                "stat"@,
                seq!["-f"@, "%Su"@, "/var/lib/dragonfly"@],
            )
            &&& s.stage == Stage::MakeVarLib ==> (next_task(s, h, o) matches Some(TaskView::Run {
                program,
                args,
            }) && program == "osascript"@ && args.len() == 2 && is_part(user, args[1]))
            &&& s.stage == Stage::StatVarLib ==> {
                let owner_is_known = o matches OutcomeView::Ran { stdout, .. } && trimmed(stdout)
                    != user;
                &&& owner_is_known ==> (next matches Ok(t) && t.stage == Stage::ChownVarLib)
                &&& !owner_is_known ==> next == after_var_lib(s, h)
            }
            &&& (s.stage == Stage::ElevateVarLib || s.stage == Stage::OwnVarLib || s.stage
                == Stage::ChownVarLib) ==> next == after_var_lib(s, h)
            &&& s.mode == DeploymentMode::Flight ==> after_var_lib(s, h) == Ok::<Setup, Seq<char>>(
                at(s, Stage::EnsureArtifacts),
            )
            &&& s.mode == DeploymentMode::Simple ==> (after_var_lib(s, h) is Ok <==> h.home is Some)
        }),
{
    let make = "do shell script \"mkdir -p '/var/lib/dragonfly' && chown '"@;
    let own = "do shell script \"chown '"@;
    stand_together(make, user);
    stand_together(own, user);
    part_of_longer(
        user,
        make + user,
        "' '/var/lib/dragonfly' && chmod 755 '/var/lib/dragonfly'\" with administrator privileges with prompt \\\"Dragonfly needs permission to create data directory\\\""@,
    );
    part_of_longer(
        user,
        own + user,
        "' '/var/lib/dragonfly'\" with administrator privileges with prompt \\\"Dragonfly needs permission to set ownership of data directory\\\""@,
    );
}

/// The service is written, made known and enabled before it is started: the socket first, then the
/// program; and where a step cannot be carried out at all, the setup ends there.
pub proof fn service_is_defined_first(s: Setup, h: HostView, o: OutcomeView)
    ensures
        ({
            let next = next_task(s, h, o);
            let control = "systemctl"@;
            let ran = o is Ran;
            &&& s.stage == Stage::WriteSocket && o.succeeded() ==> next == Some(
                TaskView::WriteFile {
                    path: "/etc/systemd/system/dragonfly.service"@,
                    content: service_unit("dragonfly"@, exec_path(s, h), "Dragonfly Simple Mode"@),
                },
            )
            &&& (s.stage == Stage::WriteSocket || s.stage == Stage::WriteUnit || s.stage
                == Stage::WritePlist) && !o.succeeded() ==> next is None
            &&& s.stage == Stage::WriteUnit && o.succeeded() ==> next == runs(
                control,
                seq!["daemon-reload"@],
            )
            &&& s.stage == Stage::ReloadUnits && ran ==> next == runs(
                control,
                seq!["enable"@, "dragonfly.socket"@],
            )
            &&& s.stage == Stage::EnableSocket && ran ==> next == runs(
                control,
                seq!["enable"@, "dragonfly.service"@],
            )
            &&& s.stage == Stage::EnableService && ran ==> next == runs(
                control,
                seq!["start"@, "dragonfly.socket"@],
            )
            &&& s.stage == Stage::StartSocket && ran ==> next == runs(
                control,
                seq!["start"@, "dragonfly.service"@],
            )
            &&& s.stage == Stage::StartService && ran ==> next == Some(
                TaskView::MakeDir("/var/lib/dragonfly"@),
            )
            &&& (s.stage == Stage::ReloadUnits || s.stage == Stage::EnableSocket || s.stage
                == Stage::EnableService || s.stage == Stage::StartSocket || s.stage
                == Stage::StartService || s.stage == Stage::LoadAgent) && o is Broken ==> next
                is None
            &&& s.stage == Stage::MakeData && !s.elevated && !h.is_macos ==> next == Some(
                TaskView::ReadFile("/etc/dragonfly/mode"@),
            )
            &&& setup_task(at(s, Stage::WriteSocket), h) == (TaskView::WriteFile {
                path: "/etc/systemd/system/dragonfly.socket"@,
                content: socket_unit("Dragonfly Simple Mode"@),
            })
        }),
{
}

/// The same on macOS: the definition is written to the home of the user and loaded anew.
pub proof fn agent_is_defined_first(s: Setup, h: HostView, o: OutcomeView, home: Seq<char>)
    requires
        h.home == Some(home),
    ensures
        ({
            let next = next_task(s, h, o);
            let plist = home + "/Library/LaunchAgents/com.dragonfly.dragonfly.plist"@;
            &&& s.stage == Stage::MakeAgentsDir ==> next == Some(
                TaskView::WriteFile {
                    path: plist,
                    content: launchd_plist("dragonfly"@, exec_path(s, h), "Dragonfly Simple Mode"@),
                },
            )
            &&& (s.stage == Stage::WritePlist && o.succeeded()) ==> next == runs(
                "launchctl"@,
                seq!["unload"@, plist],
            )
            &&& s.stage == Stage::UnloadAgent || s.stage == Stage::UnloadForStart ==> next == runs(
                "launchctl"@,
                seq!["load"@, "-w"@, plist],
            )
            &&& s.stage == Stage::LoadAgent && o is Ran ==> next == Some(
                TaskView::MakeDir(home + "/.dragonfly"@),
            )
            &&& s.stage == Stage::LoadForStart && o.succeeded() ==> next == runs(
                "launchctl"@,
                seq!["start"@, "com.dragonfly.dragonfly"@],
            )
            &&& s.stage == Stage::Launch && o.succeeded() ==> next == Some(TaskView::Nothing)
            &&& after_var_lib(s, h) == (match s.mode {
                DeploymentMode::Simple => Ok(at(s, Stage::MakeAgentsDir)),
                DeploymentMode::Flight => Ok(at(s, Stage::EnsureArtifacts)),
                DeploymentMode::Swarm => to_save(s, h),
            })
        }),
{
}

/// The file of the mode gets the name of the mode, unless it says so already; its directory is made where
/// it is missing, with other rights where they may be asked for.
pub proof fn mode_is_saved(s: Setup, h: HostView, o: OutcomeView)
    ensures
        ({
            let next = next_task(s, h, o);
            let well = o.succeeded();
            let write = Some(
                TaskView::WriteFile { path: "/etc/dragonfly/mode"@, content: mode_name(s.mode) },
            );
            &&& s.stage == Stage::ReadMode && !says_mode(s, o) ==> next == Some(
                TaskView::Exists("/etc/dragonfly"@),
            )
            &&& s.stage == Stage::ReadMode && says_mode(s, o) ==> setup_next(s, h, o) == saved(s, h)
            &&& s.stage == Stage::FindModeDir && well ==> next == write
            &&& s.stage == Stage::FindModeDir && !well ==> next == Some(
                TaskView::MakeDir("/etc/dragonfly"@),
            )
            &&& s.stage == Stage::MakeModeDir && well ==> next == write
            &&& s.stage == Stage::MakeModeDir && !well && s.no_elevation ==> next is None
            &&& s.stage == Stage::MakeModeDir && !well && !s.no_elevation && !h.is_macos ==> next
                == runs("sudo"@, seq!["mkdir"@, "-p"@, "/etc/dragonfly"@])
            &&& s.stage == Stage::SudoModeDir && well ==> next == runs(
                "sh"@,
                seq![
                    "-c"@,
                    "echo "@ + mode_name(s.mode) + " | sudo tee /etc/dragonfly/mode > /dev/null"@,
                ],
            )
            &&& s.stage == Stage::SudoModeFile && well ==> next == runs(
                "sudo"@,
                seq!["chmod"@, "755"@, "/etc/dragonfly"@],
            )
            &&& s.stage == Stage::SudoChmodModeDir ==> next == runs(
                "sudo"@,
                seq!["chmod"@, "644"@, "/etc/dragonfly/mode"@],
            )
            &&& s.stage == Stage::SudoChmodModeFile || ((s.stage == Stage::WriteMode || s.stage
                == Stage::ElevateMode) && well) ==> setup_next(s, h, o) == saved(s, h)
            &&& s.stage == Stage::WriteMode && !well ==> next is None
            &&& says_mode(s, o) <==> (o matches OutcomeView::Ran { success: true, stdout, .. }
                && saved_mode(stdout) == Some(s.mode))
        }),
{
}

/// A saved mode is the end for one who only wanted that; else the service is started, and before that
/// what the mode needs is fetched.
pub proof fn service_is_started(s: Setup, h: HostView, o: OutcomeView)
    ensures
        ({
            let next = next_task(s, h, o);
            let well = o.succeeded();
            let control = "systemctl"@;
            let only_saving = s.purpose == Purpose::SaveMode;
            let flight = s.mode == DeploymentMode::Flight;
            &&& only_saving ==> saved(s, h) == Ok::<Setup, Seq<char>>(at(s, Stage::Done))
            &&& !only_saving && flight ==> saved(s, h) == Ok::<Setup, Seq<char>>(
                at(s, Stage::DownloadArtifacts),
            )
            &&& !only_saving && !flight && !h.is_macos ==> saved(s, h) == Ok::<Setup, Seq<char>>(
                at(s, Stage::EnableSocketForStart),
            )
            &&& !only_saving && !flight && h.is_macos ==> (saved(s, h) is Ok <==> h.home is Some)
            &&& setup_task(at(s, Stage::DownloadArtifacts), h) == TaskView::Start(
                Job::DownloadArtifacts,
            )
            &&& setup_task(at(s, Stage::EnableSocketForStart), h) == (TaskView::Run {
                program: control,
                args: seq!["enable"@, "dragonfly.socket"@],
            })
            &&& s.stage == Stage::DownloadArtifacts && !h.is_macos ==> next == runs(
                control,
                seq!["enable"@, "dragonfly.socket"@],
            )
            &&& s.stage == Stage::EnableSocketForStart && o is Ran ==> next == runs(
                control,
                seq!["enable"@, "dragonfly.service"@],
            )
            &&& s.stage == Stage::EnableServiceForStart && o is Ran ==> next == runs(
                control,
                seq!["start"@, "dragonfly.socket"@],
            )
            &&& s.stage == Stage::StartSocketForStart && well ==> next == runs(
                control,
                seq!["start"@, "dragonfly.service"@],
            )
            &&& s.stage == Stage::StartServiceForStart && well ==> next == Some(TaskView::Nothing)
            &&& s.elevated ==> to_save(s, h) == saved(s, h)
            &&& !s.elevated && h.is_macos ==> to_save(s, h) == Ok::<Setup, Seq<char>>(
                at(s, Stage::ElevateMode),
            )
        }),
{
}

/// The stage is one at which a setup cannot go on without success.
pub open spec fn is_decisive(stage: Stage) -> bool {
    stage == Stage::ElevateOnMac || stage == Stage::Sudo || stage == Stage::ElevateK3sDir || stage
        == Stage::SudoK3sDir || stage == Stage::ElevateMode || stage == Stage::SudoModeDir || stage
        == Stage::SudoModeFile || stage == Stage::LoadForStart || stage == Stage::Launch || stage
        == Stage::StartSocketForStart || stage == Stage::StartServiceForStart
}

/// Where a decisive step is refused, the setup fails, and says what the step said.
pub proof fn refusals_are_quoted(s: Setup, h: HostView, o: OutcomeView)
    requires
        is_decisive(s.stage),
    ensures
        !o.succeeded() ==> setup_next(s, h, o) is Err,
        o.succeeded() && h.home is Some ==> setup_next(s, h, o) is Ok,
        o matches OutcomeView::Ran { success: false, stderr, .. } ==> (setup_next(s, h, o)
            matches Err(m) && is_part(stderr, m)),
{
    let e = o.reason();
    stand_together("Failed to configure with admin privileges: "@, e);
    stand_together("Failed to configure with sudo: "@, e);
    stand_together("Failed to create directories with admin privileges: "@, e);
    stand_together("Failed to create directories with sudo: "@, e);
    stand_together("Failed to create mode directory with admin privileges: "@, e);
    stand_together("Failed to create mode directory with sudo: "@, e);
    stand_together("Failed to write mode file with sudo: "@, e);
    stand_together("Failed to load launchd service: "@, e);
    stand_together("Failed to start launchd service: "@, e);
    stand_together("Failed to start systemd socket: "@, e);
    stand_together("Failed to start systemd service: "@, e);
}

} // verus!
