//! Starting the server, and what it tells of its own installation.

use vstd::prelude::*;

use crate::auth::{Settings, SettingsView, default_settings, usable_settings};
use crate::install::mode::DeploymentMode;
use crate::json::{Json, JsonView};
use crate::store::records::{SettingsRow, save_app_settings};

verus! {

/// The port of the server.
pub const SERVER_PORT: u16 = 3000;

/// How far an installation has come.
#[derive(Clone, Debug, PartialEq, Eq)]
pub enum InstallationState {
    WaitingSudo,
    DetectingNetwork,
    InstallingK3s,
    WaitingK3s,
    DeployingTinkerbell,
    DeployingDragonfly,
    Ready,
    /// It failed, with this message.
    Failed(String),
}

/// What is told of a state.
pub open spec fn state_message(state: InstallationState) -> Seq<char> {
    match state {
        InstallationState::WaitingSudo =>
            "Dragonfly is ready to install. Enter your password in your install window — let's do this."@,
        InstallationState::DetectingNetwork => "Dragonfly is detecting network configuration..."@,
        InstallationState::InstallingK3s => "Dragonfly is installing k3s."@,
        InstallationState::WaitingK3s => "Dragonfly is waiting for k3s to be ready."@,
        InstallationState::DeployingTinkerbell => "Dragonfly is deploying Tinkerbell."@,
        InstallationState::DeployingDragonfly => "Dragonfly is deploying... Dragonfly."@,
        InstallationState::Ready => "Dragonfly is ready."@,
        InstallationState::Failed(_) => "Installation failed. Check installer logs for details."@,
    }
}

/// How a state is drawn.
pub open spec fn state_animation(state: InstallationState) -> Seq<char> {
    match state {
        InstallationState::WaitingSudo => "rocket-idle"@,
        InstallationState::DetectingNetwork => "rocket-scanning"@,
        InstallationState::InstallingK3s => "rocket-sparks"@,
        InstallationState::WaitingK3s => "rocket-glowing"@,
        InstallationState::DeployingTinkerbell => "rocket-smoke"@,
        InstallationState::DeployingDragonfly => "rocket-flicker"@,
        InstallationState::Ready => "rocket-fire rocket-shift"@,
        InstallationState::Failed(_) => "rocket-error"@,
    }
}

/// A state as JSON: its name, with the message of a failure.
pub open spec fn state_json(state: InstallationState) -> JsonView {
    match state {
        InstallationState::WaitingSudo => JsonView::Text("WaitingSudo"@),
        InstallationState::DetectingNetwork => JsonView::Text("DetectingNetwork"@),
        InstallationState::InstallingK3s => JsonView::Text("InstallingK3s"@),
        InstallationState::WaitingK3s => JsonView::Text("WaitingK3s"@),
        InstallationState::DeployingTinkerbell => JsonView::Text("DeployingTinkerbell"@),
        InstallationState::DeployingDragonfly => JsonView::Text("DeployingDragonfly"@),
        InstallationState::Ready => JsonView::Text("Ready"@),
        InstallationState::Failed(e) => JsonView::nothing().with("Failed"@, JsonView::Text(e@)),
    }
}

impl InstallationState {
    /// What is told of the state.
    pub fn get_message(&self) -> (r: &str)
        ensures
            r@ == state_message(*self),
    {
        match self {
            InstallationState::WaitingSudo =>
                "Dragonfly is ready to install. Enter your password in your install window — let's do this.",
            InstallationState::DetectingNetwork => "Dragonfly is detecting network configuration...",
            InstallationState::InstallingK3s => "Dragonfly is installing k3s.",
            InstallationState::WaitingK3s => "Dragonfly is waiting for k3s to be ready.",
            InstallationState::DeployingTinkerbell => "Dragonfly is deploying Tinkerbell.",
            InstallationState::DeployingDragonfly => "Dragonfly is deploying... Dragonfly.",
            InstallationState::Ready => "Dragonfly is ready.",
            InstallationState::Failed(_) => "Installation failed. Check installer logs for details.",
        }
    }

    /// How the state is drawn: the class of its animation.
    pub fn get_animation_class(&self) -> (r: &str)
        ensures
            r@ == state_animation(*self),
    {
        match self {
            InstallationState::WaitingSudo => "rocket-idle",
            InstallationState::DetectingNetwork => "rocket-scanning",
            InstallationState::InstallingK3s => "rocket-sparks",
            InstallationState::WaitingK3s => "rocket-glowing",
            InstallationState::DeployingTinkerbell => "rocket-smoke",
            InstallationState::DeployingDragonfly => "rocket-flicker",
            InstallationState::Ready => "rocket-fire rocket-shift",
            InstallationState::Failed(_) => "rocket-error",
        }
    }

    /// The state as JSON.
    pub fn to_json(&self) -> (r: Json)
        ensures
            r.deep_view() == state_json(*self),
    {
        match self {
            InstallationState::WaitingSudo => Json::text("WaitingSudo"),
            InstallationState::DetectingNetwork => Json::text("DetectingNetwork"),
            InstallationState::InstallingK3s => Json::text("InstallingK3s"),
            InstallationState::WaitingK3s => Json::text("WaitingK3s"),
            InstallationState::DeployingTinkerbell => Json::text("DeployingTinkerbell"),
            InstallationState::DeployingDragonfly => Json::text("DeployingDragonfly"),
            InstallationState::Ready => Json::text("Ready"),
            InstallationState::Failed(e) => Json::nothing().with("Failed", Json::text(e.as_str())),
        }
    }
}

/// What the server answers to one who asks how its installation goes.
pub open spec fn install_status(state: Option<InstallationState>) -> JsonView {
    match state {
        Some(s) => JsonView::nothing().with("status"@, state_json(s)).with(
            "message"@,
            JsonView::Text(state_message(s)),
        ).with("animation"@, JsonView::Text(state_animation(s))),
        None => JsonView::nothing().with("status"@, JsonView::Text("NotInstalling"@)).with(
            "message"@,
            JsonView::Text("Dragonfly is not currently installing."@),
        ).with("animation"@, JsonView::Text(""@)),
    }
}

/// What the server answers to one who asks how its installation goes; there is a state only
/// while it installs.
pub fn get_install_status(state: &Option<InstallationState>) -> (r: Json)
    ensures
        r.deep_view() == install_status(*state),
{
    match state {
        Some(s) => Json::nothing().with("status", s.to_json()).with(
            "message",
            Json::text(s.get_message()),
        ).with("animation", Json::text(s.get_animation_class())),
        None => Json::nothing().with("status", Json::text("NotInstalling")).with(
            "message",
            Json::text("Dragonfly is not currently installing."),
        ).with("animation", Json::text("")),
    }
}

/// The failure of an installation is told apart from every other state by the way it is drawn,
/// whatever its message.
pub proof fn failures_are_drawn_alike(a: InstallationState, b: InstallationState)
    requires
        a is Failed,
    ensures
        state_animation(a) == state_animation(b) <==> b is Failed,
{
    reveal_strlit("rocket-idle");
    reveal_strlit("rocket-scanning");
    reveal_strlit("rocket-sparks");
    reveal_strlit("rocket-glowing");
    reveal_strlit("rocket-smoke");
    reveal_strlit("rocket-flicker");
    reveal_strlit("rocket-fire rocket-shift");
    reveal_strlit("rocket-error");
    assert("rocket-error"@[7] == 'e');
    assert("rocket-idle"@[7] == 'i');
    assert("rocket-scanning"@[7] == 's');
    assert("rocket-sparks"@[7] == 's');
    assert("rocket-glowing"@[7] == 'g');
    assert("rocket-smoke"@[7] == 's');
    assert("rocket-flicker"@[7] == 'f');
    assert("rocket-fire rocket-shift"@[7] == 'f');
}

// ---------------------------------------------------------------------------------------------
// Starting
// ---------------------------------------------------------------------------------------------

/// What a start goes by.
#[derive(Debug, PartialEq, Eq)]
pub struct StartFacts {
    /// The server runs to show an installation.
    pub is_installation_server: bool,
    /// The setup is to be gone through again.
    pub setup_mode: bool,
    /// The stored settings, if they could be loaded.
    pub settings: Option<Settings>,
    /// There are installed page templates.
    pub templates_installed: bool,
    /// There are installed static files.
    pub static_installed: bool,
    /// How the server is deployed, if that is known.
    pub mode: Option<DeploymentMode>,
}

/// What a server starts with.
#[derive(Debug, PartialEq, Eq)]
pub struct StartPlan {
    /// The state of the installation that is shown, if one is.
    pub install_state: Option<InstallationState>,
    /// The templates of the operating systems are to be set up.
    pub init_os_templates: bool,
    /// The settings to work with.
    pub settings: Settings,
    /// The row of settings to store, if the setup is to be gone through again.
    pub settings_to_store: Option<SettingsRow>,
    /// The setup has yet to be gone through.
    pub first_run: bool,
    pub template_path: String,
    pub static_path: String,
    /// A cluster may take over: it is to be listened for.
    pub listen_for_handoff: bool,
    pub port: u16,
}

/// Where the page templates are.
pub open spec fn template_path(installed: bool) -> Seq<char> {
    if installed {
        "/opt/dragonfly/templates"@
    } else {
        "crates/dragonfly-server/templates"@
    }
}

/// Where the static files are.
pub open spec fn static_path(installed: bool) -> Seq<char> {
    if installed {
        "/opt/dragonfly/static"@
    } else {
        "crates/dragonfly-server/static"@
    }
}

/// The settings that a start works with.
pub open spec fn settings_at_start(facts: StartFacts) -> SettingsView {
    match facts.settings {
        Some(s) => s.deep_view(),
        None => default_settings(),
    }
}

/// What a server starts with. In setup mode the setup counts as not completed, in this run and
/// in the stored settings.
pub fn run(facts: StartFacts) -> (r: StartPlan)
    ensures
        r.install_state == (if facts.is_installation_server {
            Some(InstallationState::WaitingSudo)
        } else {
            None
        }),
        r.init_os_templates == !facts.is_installation_server,
        r.settings.deep_view() == settings_at_start(facts),
        r.settings_to_store is Some <==> facts.setup_mode,
        r.settings_to_store matches Some(row) ==> {
            &&& row.require_login == settings_at_start(facts).require_login
            &&& row.default_os.deep_view() == settings_at_start(facts).default_os
            &&& !row.setup_completed
        },
        r.first_run == (!settings_at_start(facts).setup_completed || facts.setup_mode),
        r.template_path@ == template_path(facts.templates_installed),
        r.static_path@ == static_path(facts.static_installed),
        r.listen_for_handoff == (facts.mode == Some(DeploymentMode::Flight)),
        r.port == SERVER_PORT,
{
    let settings = usable_settings(facts.settings);
    let settings_to_store = if facts.setup_mode {
        let mut row = save_app_settings(&settings);
        row.setup_completed = false;
        Some(row)
    } else {
        None
    };
    let first_run = !settings.setup_completed || facts.setup_mode;
    let template_path = if facts.templates_installed {
        "/opt/dragonfly/templates"
    } else {
        "crates/dragonfly-server/templates"
    };
    let static_path = if facts.static_installed {
        "/opt/dragonfly/static"
    } else {
        "crates/dragonfly-server/static"
    };
    StartPlan {
        install_state: if facts.is_installation_server {
            Some(InstallationState::WaitingSudo)
        } else {
            None
        },
        init_os_templates: !facts.is_installation_server,
        settings,
        settings_to_store,
        first_run,
        template_path: template_path.to_owned(),
        static_path: static_path.to_owned(),
        listen_for_handoff: matches!(facts.mode, Some(DeploymentMode::Flight)),
        port: SERVER_PORT,
    }
}

/// What is told when there are no credentials and none could be made.
pub fn credentials_failed(e: &str) -> (r: String)
    ensures
        r@ == "Failed to generate default credentials: "@ + e@,
{
    "Failed to generate default credentials: ".to_owned().concat(e)
}

/// What is told when the server cannot listen: that its port is taken, where it is known that no
/// socket was handed to it, or else the error itself.
pub fn bind_failed(sockets_were_checked: bool, address_in_use: bool, e: &str) -> (r: String)
    ensures
        r@ == (if sockets_were_checked && address_in_use {
            "Port 3000 is already in use..."@
        } else {
            "Failed to bind to address: "@ + e@
        }),
{
    if sockets_were_checked && address_in_use {
        "Port 3000 is already in use...".to_owned()
    } else {
        "Failed to bind to address: ".to_owned().concat(e)
    }
}

/// Where the icon of the site is.
pub fn favicon_path(installed: bool) -> (r: &'static str)
    ensures
        r@ == (if installed {
            "/opt/dragonfly/static/favicon/favicon.ico"@
        } else {
            "crates/dragonfly-server/static/favicon/favicon.ico"@
        }),
{
    if installed {
        "/opt/dragonfly/static/favicon/favicon.ico"
    } else {
        "crates/dragonfly-server/static/favicon/favicon.ico"
    }
}

/// The answer to a request for the icon of the site: its status, the type of what is sent, and
/// the bytes, if the file could be read.
pub fn handle_favicon(read: Option<Vec<u8>>) -> (r: (u16, &'static str, Option<Vec<u8>>))
    ensures
        r.0 == (if read is Some { 200u16 } else { 404u16 }),
        r.1@ == (if read is Some { "image/x-icon"@ } else { "Favicon not found"@ }),
        r.2 == read,
{
    match read {
        Some(bytes) => (200, "image/x-icon", Some(bytes)),
        None => (404, "Favicon not found", None),
    }
}

/// One who asks how the installation goes is told its state, in words and as it is drawn; the message of
/// a failure is told with it.
pub proof fn installation_is_told(state: InstallationState)
    ensures
        install_status(Some(state)).field("status"@) == Some(state_json(state)),
        install_status(Some(state)).text_at("message"@) == Some(state_message(state)),
        install_status(Some(state)).text_at("animation"@) == Some(state_animation(state)),
        install_status(None).text_at("status"@) == Some("NotInstalling"@),
        state matches InstallationState::Failed(e) ==> state_json(state).text_at("Failed"@) == Some(
            e@,
        ),
        state is Ready ==> state_json(state) == JsonView::Text("Ready"@),
{
    reveal_strlit("status");
    reveal_strlit("message");
    reveal_strlit("animation");
    assert("status"@.len() != "message"@.len());
    assert("status"@.len() != "animation"@.len());
    assert("message"@.len() != "animation"@.len());
    reveal_with_fuel(crate::json::field_place, 8);
}

} // verus!
