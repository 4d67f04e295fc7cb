//! The decisions and answers of the interface for programs.

use vstd::prelude::*;

use crate::json::{Json, JsonView};
use crate::machine::{BmcCredentials, BmcCredentialsView, BmcType, BmcTypeView, MachineStatus, StatusView};
use crate::text::{
    begins, cut, cut_at_first, cut_is_at_the_first, is_part, lowercase, part_of_longer, same,
    split_once, stand_together, starts_with, swap_char, swapped, to_lowercase,
};

verus! {

/// An answer: its status and its body.
#[derive(Debug, PartialEq, Eq)]
pub struct Reply {
    pub status: u16,
    pub body: Json,
}

/// `Reply` as a mathematical value.
pub struct ReplyView {
    pub status: u16,
    pub body: JsonView,
}

impl DeepView for Reply {
    type V = ReplyView;

    open spec fn deep_view(&self) -> ReplyView {
        ReplyView { status: self.status, body: self.body.deep_view() }
    }
}

/// An answer that says what went wrong.
pub open spec fn error_answer(status: u16, error: Seq<char>, message: Seq<char>) -> ReplyView {
    ReplyView {
        status,
        body: JsonView::nothing().with("error"@, JsonView::Text(error)).with(
            "message"@,
            JsonView::Text(message),
        ),
    }
}

/// The answer that there is no such machine.
pub open spec fn no_machine(id: Seq<char>) -> ReplyView {
    error_answer(404, "Not Found"@, "Machine with ID "@ + id + " not found"@)
}

/// The answer that the database failed.
pub open spec fn database_error(e: Seq<char>) -> ReplyView {
    error_answer(500, "Database Error"@, e)
}

/// An answer that all went well.
pub open spec fn success(message: Seq<char>) -> ReplyView {
    ReplyView {
        status: 200,
        body: JsonView::nothing().with("success"@, JsonView::Bool(true)).with(
            "message"@,
            JsonView::Text(message),
        ),
    }
}

/// An answer that says what went wrong.
pub fn error_reply(status: u16, error: &str, message: &str) -> (r: Reply)
    ensures
        r.deep_view() == error_answer(status, error@, message@),
{
    Reply {
        status,
        body: Json::nothing().with("error", Json::text(error)).with("message", Json::text(message)),
    }
}

/// The answer that there is no such machine.
pub fn machine_not_found(id: &str) -> (r: Reply)
    ensures
        r.deep_view() == no_machine(id@),
{
    error_reply(
        404,
        "Not Found",
        "Machine with ID ".to_owned().concat(id).concat(" not found").as_str(),
    )
}

/// The answer to someone who is no administrator.
pub fn unauthorized() -> (r: Reply)
    ensures
        r.deep_view() == error_answer(
            401,
            "Unauthorized"@,
            "Admin authentication required for this operation"@,
        ),
{
    error_reply(401, "Unauthorized", "Admin authentication required for this operation")
}

fn success_reply(message: &str) -> (r: Reply)
    ensures
        r.deep_view() == success(message@),
{
    Reply {
        status: 200,
        body: Json::nothing().with("success", Json::Bool(true)).with(
            "message",
            Json::text(message),
        ),
    }
}

/// An answer, and what is announced along with it.
#[derive(Debug, PartialEq, Eq)]
pub struct Answered {
    pub reply: Reply,
    pub announce: Option<String>,
}

/// `Answered` as a mathematical value.
pub struct AnsweredView {
    pub reply: ReplyView,
    pub announce: Option<Seq<char>>,
}

impl DeepView for Answered {
    type V = AnsweredView;

    open spec fn deep_view(&self) -> AnsweredView {
        AnsweredView { reply: self.reply.deep_view(), announce: self.announce.deep_view() }
    }
}

// ---------------------------------------------------------------------------------------------
// Changes to a machine
// ---------------------------------------------------------------------------------------------

/// What is answered to a registration: `entered` is the number of the machine, or the error.
pub open spec fn registration_answer(entered: Result<Seq<char>, Seq<char>>) -> AnsweredView {
    match entered {
        Ok(id) => AnsweredView {
            reply: ReplyView {
                status: 201,
                body: JsonView::nothing().with("machine_id"@, JsonView::Text(id)).with(
                    "next_step"@,
                    JsonView::Text("awaiting_os_assignment"@),
                ),
            },
            announce: Some("machine_discovered:"@ + id),
        },
        Err(e) => AnsweredView {
            reply: error_answer(500, "Registration Failed"@, e),
            announce: None,
        },
    }
}

/// Answers a registration.
pub fn register_machine(entered: Result<String, String>) -> (r: Answered)
    ensures
        r.deep_view() == registration_answer(
            match entered {
                Ok(id) => Ok(id@),
                Err(e) => Err(e@),
            },
        ),
{
    match entered {
        Ok(id) => Answered {
            reply: Reply {
                status: 201,
                body: Json::nothing().with("machine_id", Json::text(id.as_str())).with(
                    "next_step",
                    Json::text("awaiting_os_assignment"),
                ),
            },
            announce: Some("machine_discovered:".to_owned().concat(id.as_str())),
        },
        Err(e) => Answered {
            reply: error_reply(500, "Registration Failed", e.as_str()),
            announce: None,
        },
    }
}

/// A machine that was looked up: what is told of it, and whether it is installing.
#[derive(Debug, PartialEq, Eq)]
pub struct Found {
    pub machine: Json,
    pub is_installing: bool,
}

/// What is answered to one who asks for a machine: the machine, with its workflow while it is
/// installing, if that could be had.
pub open spec fn machine_answer(
    id: Seq<char>,
    found: Result<Option<(JsonView, bool)>, Seq<char>>,
    workflow: Option<JsonView>,
) -> ReplyView {
    match found {
        Ok(Some((machine, is_installing))) => ReplyView {
            status: 200,
            body: JsonView::nothing().with("machine"@, machine).with(
                "workflow_info"@,
                match workflow {
                    Some(info) if is_installing => info,
                    _ => JsonView::Null,
                },
            ),
        },
        Ok(None) => no_machine(id),
        Err(e) => database_error(e),
    }
}

/// Answers one who asks for a machine.
pub fn get_machine(id: &str, found: Result<Option<Found>, String>, workflow: Option<Json>) -> (r: Reply)
    ensures
        r.deep_view() == machine_answer(
            id@,
            match found {
                Ok(Some(f)) => Ok(Some((f.machine.deep_view(), f.is_installing))),
                Ok(None) => Ok(None),
                Err(e) => Err(e@),
            },
            workflow.deep_view(),
        ),
{
    match found {
        Ok(Some(f)) => {
            let info = match workflow {
                Some(info) => if f.is_installing {
                    info
                } else {
                    Json::Null
                },
                None => Json::Null,
            };
            Reply {
                status: 200,
                body: Json::nothing().with("machine", f.machine).with("workflow_info", info),
            }
        },
        Ok(None) => machine_not_found(id),
        Err(e) => error_reply(500, "Database Error", e.as_str()),
    }
}

/// What is changed of a machine.
#[derive(Clone, Copy, Debug, PartialEq, Eq, Structural)]
pub enum Change {
    Hostname,
    OsInstalled,
    Tags,
}

/// What is said of a change that was made.
pub open spec fn change_message(change: Change, id: Seq<char>) -> Seq<char> {
    match change {
        Change::Hostname => "Hostname updated for machine "@ + id,
        Change::OsInstalled => "OS installed updated for machine "@ + id,
        Change::Tags => "Tags updated"@,
    }
}

/// What is said of a change that the database failed at.
pub open spec fn change_failure(change: Change, e: Seq<char>) -> Seq<char> {
    match change {
        Change::Tags => "Failed to update tags: "@ + e,
        _ => e,
    }
}

/// What is answered to a change of a machine: `made` is whether there was such a machine, or the
/// error. Only a change that was made is announced.
pub open spec fn change_answer(
    change: Change,
    id: Seq<char>,
    made: Result<bool, Seq<char>>,
) -> AnsweredView {
    match made {
        Ok(true) => AnsweredView {
            reply: success(change_message(change, id)),
            announce: Some("machine_updated:"@ + id),
        },
        Ok(false) => AnsweredView { reply: no_machine(id), announce: None },
        Err(e) => AnsweredView {
            reply: database_error(change_failure(change, e)),
            announce: None,
        },
    }
}

/// Answers a change of a machine.
pub fn answer_change(change: Change, id: &str, made: Result<bool, String>) -> (r: Answered)
    ensures
        r.deep_view() == change_answer(
            change,
            id@,
            match made {
                Ok(b) => Ok(b),
                Err(e) => Err(e@),
            },
        ),
{
    match made {
        Ok(true) => {
            let message: String = match change {
                Change::Hostname => "Hostname updated for machine ".to_owned().concat(id),
                Change::OsInstalled => "OS installed updated for machine ".to_owned().concat(id),
                Change::Tags => "Tags updated".to_owned(),
            };
            Answered {
                reply: success_reply(message.as_str()),
                announce: Some("machine_updated:".to_owned().concat(id)),
            }
        },
        Ok(false) => Answered { reply: machine_not_found(id), announce: None },
        Err(e) => {
            let message: String = match change {
                Change::Tags => "Failed to update tags: ".to_owned().concat(e.as_str()),
                _ => e,
            };
            Answered { reply: error_reply(500, "Database Error", message.as_str()), announce: None }
        },
    }
}

/// What is answered to a report of progress.
pub open spec fn progress_answer(id: Seq<char>, made: Result<bool, Seq<char>>) -> AnsweredView {
    match made {
        Ok(true) => AnsweredView {
            reply: ReplyView {
                status: 200,
                body: JsonView::nothing().with(
                    "status"@,
                    JsonView::Text("progress_updated"@),
                ).with("machine_id"@, JsonView::Text(id)),
            },
            announce: Some("machine_updated:"@ + id),
        },
        Ok(false) => AnsweredView { reply: no_machine(id), announce: None },
        Err(e) => AnsweredView { reply: database_error(e), announce: None },
    }
}

/// Answers a report of progress.
pub fn update_installation_progress(id: &str, made: Result<bool, String>) -> (r: Answered)
    ensures
        r.deep_view() == progress_answer(
            id@,
            match made {
                Ok(b) => Ok(b),
                Err(e) => Err(e@),
            },
        ),
{
    match made {
        Ok(true) => Answered {
            reply: Reply {
                status: 200,
                body: Json::nothing().with("status", Json::text("progress_updated")).with(
                    "machine_id",
                    Json::text(id),
                ),
            },
            announce: Some("machine_updated:".to_owned().concat(id)),
        },
        Ok(false) => Answered { reply: machine_not_found(id), announce: None },
        Err(e) => Answered {
            reply: error_reply(500, "Database Error", e.as_str()),
            announce: None,
        },
    }
}

/// The name of a machine's resource as the deletion is given it.
pub fn name_to_delete(mac_address: &str) -> (r: String)
    ensures
        r@ == lowercase(swapped(mac_address@, ':', '-')),
{
    to_lowercase(swap_char(mac_address, ':', '-').as_str())
}

/// Answers the deletion of a machine that is not known.
pub fn nothing_to_delete() -> (r: Reply)
    ensures
        r.deep_view() == (ReplyView {
            status: 404,
            body: JsonView::nothing().with("error"@, JsonView::Text("Machine not found"@)),
        }),
{
    Reply {
        status: 404,
        body: Json::nothing().with("error", Json::text("Machine not found")),
    }
}

/// What is answered to the deletion of a machine: `deleted` is whether there was such a machine,
/// or the error, and `from_cluster` whether it is deleted from the cluster too.
pub open spec fn deletion_answer(
    id: Seq<char>,
    deleted: Result<bool, Seq<char>>,
    from_cluster: bool,
) -> AnsweredView {
    match deleted {
        Ok(true) => AnsweredView {
            reply: success(
                if from_cluster {
                    "Machine successfully deleted from Dragonfly and Tinkerbell."@
                } else {
                    "Machine deleted from Dragonfly but there was an issue removing it from Tinkerbell."@
                },
            ),
            announce: Some("machine_deleted:"@ + id),
        },
        Ok(false) => AnsweredView {
            reply: ReplyView {
                status: 404,
                body: JsonView::nothing().with(
                    "error"@,
                    JsonView::Text("Machine not found in database"@),
                ),
            },
            announce: None,
        },
        Err(e) => AnsweredView {
            reply: ReplyView {
                status: 500,
                body: JsonView::nothing().with("error"@, JsonView::Text("Database error: "@ + e)),
            },
            announce: None,
        },
    }
}

/// Answers the deletion of a machine.
pub fn delete_machine(id: &str, deleted: Result<bool, String>, from_cluster: bool) -> (r: Answered)
    ensures
        r.deep_view() == deletion_answer(
            id@,
            match deleted {
                Ok(b) => Ok(b),
                Err(e) => Err(e@),
            },
            from_cluster,
        ),
{
    match deleted {
        Ok(true) => {
            let message = if from_cluster {
                "Machine successfully deleted from Dragonfly and Tinkerbell."
            } else {
                "Machine deleted from Dragonfly but there was an issue removing it from Tinkerbell."
            };
            Answered {
                reply: success_reply(message),
                announce: Some("machine_deleted:".to_owned().concat(id)),
            }
        },
        Ok(false) => Answered {
            reply: Reply {
                status: 404,
                body: Json::nothing().with("error", Json::text("Machine not found in database")),
            },
            announce: None,
        },
        Err(e) => {
            let message = "Database error: ".to_owned().concat(e.as_str());
            Answered {
                reply: Reply {
                    status: 500,
                    body: Json::nothing().with("error", Json::text(message.as_str())),
                },
                announce: None,
            }
        },
    }
}

// ---------------------------------------------------------------------------------------------
// The update of a whole machine
// ---------------------------------------------------------------------------------------------

/// Who asks may update a machine: an administrator, or the machine itself, by its address.
/// `stored_ip` is the address that is recorded of it, if there is such a machine.
pub open spec fn may_update(
    is_admin: bool,
    stored_ip: Option<Seq<char>>,
    client_ip: Seq<char>,
) -> bool {
    is_admin || stored_ip == Some(client_ip)
}

/// Why an update is not carried out.
pub open spec fn update_refusal(
    is_admin: bool,
    stored_ip: Option<Seq<char>>,
    client_ip: Seq<char>,
    same_id: bool,
) -> Option<ReplyView> {
    if !may_update(is_admin, stored_ip, client_ip) {
        Some(
            error_answer(
                403,
                "Forbidden"@,
                "You are not authorized to update this machine."@,
            ),
        )
    } else if !same_id {
        Some(
            error_answer(
                400,
                "ID Mismatch"@,
                "The machine ID in the URL path does not match the ID in the request body."@,
            ),
        )
    } else {
        None
    }
}

/// Decides whether an update is carried out; else gives the answer. `same_id` is whether it names
/// the machine that it is sent to.
pub fn refuse_update(
    is_admin: bool,
    stored_ip: Option<&str>,
    client_ip: &str,
    same_id: bool,
) -> (r: Option<Reply>)
    ensures
        r.deep_view() == update_refusal(
            is_admin,
            match stored_ip {
                Some(ip) => Some(ip@),
                None => None,
            },
            client_ip@,
            same_id,
        ),
{
    let is_machine = match stored_ip {
        Some(ip) => same(ip, client_ip),
        None => false,
    };
    if !is_admin && !is_machine {
        return Some(
            error_reply(403, "Forbidden", "You are not authorized to update this machine."),
        );
    }
    if !same_id {
        return Some(
            error_reply(
                400,
                "ID Mismatch",
                "The machine ID in the URL path does not match the ID in the request body.",
            ),
        );
    }
    None
}

/// Only an administrator or the machine itself gets past the decision.
pub proof fn updates_need_a_right(
    is_admin: bool,
    stored_ip: Option<Seq<char>>,
    client_ip: Seq<char>,
    same_id: bool,
)
    ensures
        update_refusal(is_admin, stored_ip, client_ip, same_id) is None <==> same_id && (is_admin
            || stored_ip == Some(client_ip)),
{
}

/// Answers an update that was not carried out after all: `e` is the error, or none where the
/// machine was not found.
pub fn update_failed(id: &str, e: Option<&str>) -> (r: Reply)
    ensures
        r.deep_view() == (match e {
            None => error_answer(
                404,
                "Not Found"@,
                "Machine with ID "@ + id@ + " not found during update attempt."@,
            ),
            Some(e) => database_error(e@),
        }),
{
    match e {
        None => error_reply(
            404,
            "Not Found",
            "Machine with ID ".to_owned().concat(id).concat(
                " not found during update attempt.",
            ).as_str(),
        ),
        Some(e) => error_reply(500, "Database Error", e),
    }
}

// ---------------------------------------------------------------------------------------------
// Requests
// ---------------------------------------------------------------------------------------------

/// How the body of a request is read.
#[derive(Clone, Copy, Debug, PartialEq, Eq, Structural)]
pub enum BodyFormat {
    Json,
    Form,
    Unsupported,
}

/// How the body of an assignment is read, by its content type.
pub open spec fn assignment_format(content_type: Seq<char>) -> BodyFormat {
    if begins(content_type, "application/json"@) {
        BodyFormat::Json
    } else if begins(content_type, "application/x-www-form-urlencoded"@) {
        BodyFormat::Form
    } else {
        BodyFormat::Unsupported
    }
}

/// How the body of an assignment is read.
pub fn assign_os(content_type: &str) -> (r: BodyFormat)
    ensures
        r == assignment_format(content_type@),
{
    if starts_with(content_type, "application/json") {
        BodyFormat::Json
    } else if starts_with(content_type, "application/x-www-form-urlencoded") {
        BodyFormat::Form
    } else {
        BodyFormat::Unsupported
    }
}

/// How the body of an update of a status is read: as a form, unless it is JSON.
pub fn status_format(content_type: &str) -> (r: BodyFormat)
    ensures
        r == (if begins(content_type@, "application/json"@) {
            BodyFormat::Json
        } else {
            BodyFormat::Form
        }),
{
    if starts_with(content_type, "application/json") {
        BodyFormat::Json
    } else {
        BodyFormat::Form
    }
}

/// The answer to an assignment without an operating system.
pub fn missing_os_choice() -> (r: Reply)
    ensures
        r.deep_view() == error_answer(
            400,
            "Bad Request"@,
            "Failed to extract OS choice from request"@,
        ),
{
    error_reply(400, "Bad Request", "Failed to extract OS choice from request")
}

/// The status that a form asks for.
pub open spec fn form_status(field: Option<Seq<char>>) -> Option<StatusView> {
    match field {
        Some(s) => if s == "Ready"@ {
            Some(StatusView::Ready)
        } else if s == "AwaitingAssignment"@ {
            Some(StatusView::AwaitingAssignment)
        } else if s == "InstallingOS"@ {
            Some(StatusView::InstallingOS)
        } else if s == "Error"@ {
            Some(StatusView::Error("Manual error state"@))
        } else {
            None
        },
        None => None,
    }
}

/// Reads the status that a form asks for.
pub fn update_status(field: Option<&str>) -> (r: Option<MachineStatus>)
    ensures
        r.deep_view() == form_status(
            match field {
                Some(s) => Some(s@),
                None => None,
            },
        ),
{
    match field {
        Some(s) => if same(s, "Ready") {
            Some(MachineStatus::Ready)
        } else if same(s, "AwaitingAssignment") {
            Some(MachineStatus::AwaitingAssignment)
        } else if same(s, "InstallingOS") {
            Some(MachineStatus::InstallingOS)
        } else if same(s, "Error") {
            Some(MachineStatus::Error("Manual error state".to_owned()))
        } else {
            None
        },
        None => None,
    }
}

/// The operating system that a machine is given on its own: the default, where there is one and
/// the machine awaits an assignment.
pub fn default_assignment(status: &MachineStatus, default_os: Option<&str>) -> (r: Option<String>)
    ensures
        r.deep_view() == (match default_os {
            Some(os) if status.deep_view() == StatusView::AwaitingAssignment => Some(os@),
            _ => None,
        }),
{
    match default_os {
        Some(os) => match status {
            MachineStatus::AwaitingAssignment => Some(os.to_owned()),
            _ => None,
        },
        None => None,
    }
}

/// The kind of a management controller, by its name.
pub open spec fn bmc_kind(name: Seq<char>) -> BmcTypeView {
    if name == "IPMI"@ {
        BmcTypeView::IPMI
    } else if name == "Redfish"@ {
        BmcTypeView::Redfish
    } else {
        BmcTypeView::Other(name)
    }
}

/// The credentials that a form gives for a management controller.
pub fn bmc_credentials(
    address: String,
    username: String,
    password: String,
    kind: String,
) -> (r: BmcCredentials)
    ensures
        r.deep_view() == (BmcCredentialsView {
            address: address@,
            username: username@,
            password: Some(password@),
            bmc_type: bmc_kind(kind@),
        }),
{
    let bmc_type = if same(kind.as_str(), "IPMI") {
        BmcType::IPMI
    } else if same(kind.as_str(), "Redfish") {
        BmcType::Redfish
    } else {
        BmcType::Other(kind)
    };
    BmcCredentials { address, username, password: Some(password), bmc_type }
}

/// The address that a request is taken to come from: the one that a proxy gives, or that of the
/// connection.
pub fn track_client_ip(real_ip: Option<&str>, peer: &str) -> (r: String)
    ensures
        r@ == (match real_ip {
            Some(ip) => ip@,
            None => peer@,
        }),
{
    match real_ip {
        Some(ip) => ip.to_owned(),
        None => peer.to_owned(),
    }
}

// ---------------------------------------------------------------------------------------------
// Tags
// ---------------------------------------------------------------------------------------------

/// The tags without one of them.
pub fn remove_tag(tags: Vec<String>, tag: &str) -> (r: Vec<String>)
    ensures
        r.deep_view() == tags.deep_view().filter(|t: Seq<char>| t != tag@),
{
    let mut kept: Vec<String> = Vec::new();
    let ghost all = tags.deep_view();
    let ghost wanted = |t: Seq<char>| t != tag@;
    let mut i: usize = 0;
    proof {
        reveal(Seq::filter);
        assert(all.take(0) =~= Seq::empty());
        assert(kept.deep_view() =~= all.take(0).filter(wanted));
    }
    while i < tags.len()
        invariant
            i <= tags.len(),
            all == tags.deep_view(),
            wanted == (|t: Seq<char>| t != tag@),
            kept.deep_view() == all.take(i as int).filter(wanted),
        decreases tags.len() - i,
    {
        proof {
            reveal(Seq::filter);
            assert(all.take(i + 1).drop_last() =~= all.take(i as int));
            assert(all.take(i + 1).last() == tags@[i as int]@);
        }
        if !same(tags[i].as_str(), tag) {
            let ghost before = kept.deep_view();
            let copy: String = tags[i].clone();
            kept.push(copy);
            assert(kept.deep_view() =~= before.push(copy@));
        }
        i = i + 1;
    }
    assert(all.take(all.len() as int) =~= all);
    kept
}

/// What is answered to one who asks for the tags of a machine.
pub fn api_get_machine_tags(tags: Result<Vec<String>, String>) -> (r: Reply)
    ensures
        r.deep_view() == (match tags {
            Ok(tags) => ReplyView { status: 200, body: JsonView::texts(tags.deep_view()) },
            Err(e) => database_error("Failed to retrieve tags: "@ + e@),
        }),
{
    match tags {
        Ok(tags) => Reply { status: 200, body: Json::texts(&tags) },
        Err(e) => error_reply(
            500,
            "Database Error",
            "Failed to retrieve tags: ".to_owned().concat(e.as_str()).as_str(),
        ),
    }
}

/// What is answered to the deletion of a tag: `read` and `made` are how reading the tags and
/// writing the others went.
pub open spec fn tag_answer(
    id: Seq<char>,
    read: Result<(), Seq<char>>,
    made: Result<bool, Seq<char>>,
) -> AnsweredView {
    match read {
        Err(e) => AnsweredView {
            reply: error_answer(500, "Database error"@, "Failed to retrieve tags: "@ + e),
            announce: None,
        },
        Ok(_) => match made {
            Ok(true) => AnsweredView {
                reply: success("Tag deleted"@),
                announce: Some("machine_updated:"@ + id),
            },
            Ok(false) => AnsweredView {
                reply: ReplyView {
                    status: 404,
                    body: JsonView::nothing().with(
                        "error"@,
                        JsonView::Text("Machine not found"@),
                    ),
                },
                announce: None,
            },
            Err(e) => AnsweredView {
                reply: error_answer(500, "Database error"@, "Failed to update tags: "@ + e),
                announce: None,
            },
        },
    }
}

/// Answers the deletion of a tag.
pub fn api_delete_machine_tag(
    id: &str,
    read: Result<(), String>,
    made: Result<bool, String>,
) -> (r: Answered)
    ensures
        r.deep_view() == tag_answer(
            id@,
            match read {
                Ok(_) => Ok(()),
                Err(e) => Err(e@),
            },
            match made {
                Ok(b) => Ok(b),
                Err(e) => Err(e@),
            },
        ),
{
    match read {
        Err(e) => Answered {
            reply: error_reply(
                500,
                "Database error",
                "Failed to retrieve tags: ".to_owned().concat(e.as_str()).as_str(),
            ),
            announce: None,
        },
        Ok(_) => match made {
            Ok(true) => Answered {
                reply: success_reply("Tag deleted"),
                announce: Some("machine_updated:".to_owned().concat(id)),
            },
            Ok(false) => Answered {
                reply: Reply {
                    status: 404,
                    body: Json::nothing().with("error", Json::text("Machine not found")),
                },
                announce: None,
            },
            Err(e) => Answered {
                reply: error_reply(
                    500,
                    "Database error",
                    "Failed to update tags: ".to_owned().concat(e.as_str()).as_str(),
                ),
                announce: None,
            },
        },
    }
}

// ---------------------------------------------------------------------------------------------
// Events for browsers
// ---------------------------------------------------------------------------------------------

/// A message of a stream of events for browsers.
#[derive(Debug, PartialEq, Eq)]
pub enum SseMessage {
    /// An event of a kind with text as it is.
    Raw { kind: String, text: String },
    /// An event of a kind with a JSON value as its data.
    Json { kind: String, data: Json },
    /// A comment.
    Comment(String),
}

/// `SseMessage` as a mathematical value.
pub enum SseMessageView {
    Raw { kind: Seq<char>, text: Seq<char> },
    Json { kind: Seq<char>, data: JsonView },
    Comment(Seq<char>),
}

impl DeepView for SseMessage {
    type V = SseMessageView;

    open spec fn deep_view(&self) -> SseMessageView {
        match self {
            SseMessage::Raw { kind, text } => SseMessageView::Raw { kind: kind@, text: text@ },
            SseMessage::Json { kind, data } => SseMessageView::Json {
                kind: kind@,
                data: data.deep_view(),
            },
            SseMessage::Comment(text) => SseMessageView::Comment(text@),
        }
    }
}

/// The message about an event: its kind and what it is about; the progress of a download as it is.
pub open spec fn sse_message(event: Seq<char>) -> SseMessageView {
    match cut(event, ':') {
        Some((kind, about)) => if kind == "ip_download_progress"@ {
            SseMessageView::Raw { kind, text: about }
        } else {
            SseMessageView::Json {
                kind,
                data: JsonView::nothing().with("type"@, JsonView::Text(kind)).with(
                    "id"@,
                    JsonView::Text(about),
                ),
            }
        },
        None => if event == "ip_download_progress"@ {
            SseMessageView::Comment(
                "Warning: ip_download_progress event received without payload."@,
            )
        } else {
            SseMessageView::Json {
                kind: event,
                data: JsonView::nothing().with("type"@, JsonView::Text(event)),
            }
        },
    }
}

/// The message about an event.
pub fn machine_events(event_string: &str) -> (r: SseMessage)
    ensures
        r.deep_view() == sse_message(event_string@),
{
    match split_once(event_string, ':') {
        Some((kind, about)) => {
            if same(kind.as_str(), "ip_download_progress") {
                SseMessage::Raw { kind, text: about }
            } else {
                let data = Json::nothing().with("type", Json::text(kind.as_str())).with(
                    "id",
                    Json::text(about.as_str()),
                );
                SseMessage::Json { kind, data }
            }
        },
        None => {
            if same(event_string, "ip_download_progress") {
                SseMessage::Comment(
                    "Warning: ip_download_progress event received without payload.".to_owned(),
                )
            } else {
                SseMessage::Json {
                    kind: event_string.to_owned(),
                    data: Json::nothing().with("type", Json::text(event_string)),
                }
            }
        },
    }
}

/// A change to a machine is announced if and only if it was made.
pub proof fn only_changes_are_announced(change: Change, id: Seq<char>, made: Result<bool, Seq<char>>)
    ensures
        change_answer(change, id, made).announce is Some <==> made == Ok::<bool, Seq<char>>(true),
        change_answer(change, id, made).announce is Some <==> change_answer(
            change,
            id,
            made,
        ).reply.status == 200,
{
}

// ---------------------------------------------------------------------------------------------
// What the answers say
// ---------------------------------------------------------------------------------------------

/// The answer says that something went wrong with `about`, under that status.
pub open spec fn says_failed(reply: ReplyView, status: u16, about: Seq<char>) -> bool {
    reply.status == status && (reply.body.text_at("message"@) matches Some(m) && is_part(about, m))
}

proof fn errors_are_said(status: u16, error: Seq<char>, message: Seq<char>, about: Seq<char>)
    requires
        is_part(about, message),
    ensures
        says_failed(error_answer(status, error, message), status, about),
        error_answer(status, error, message).body.text_at("error"@) == Some(error),
{
    reveal_strlit("error");
    reveal_strlit("message");
    assert("error"@.len() != "message"@.len());    reveal_with_fuel(crate::json::field_place, 8);
}

proof fn missing_machines_are_named(id: Seq<char>)
    ensures
        says_failed(no_machine(id), 404, id),
{
    stand_together("Machine with ID "@, id);
    part_of_longer(id, "Machine with ID "@ + id, " not found"@);
    errors_are_said(404, "Not Found"@, "Machine with ID "@ + id + " not found"@, id);
}

/// A machine that was registered is told its number and what comes next, and everybody that it is
/// there; one that was not is told why.
pub proof fn registrations_are_answered(entered: Result<Seq<char>, Seq<char>>)
    ensures
        match entered {
            Ok(id) => {
                let a = registration_answer(entered);
                &&& a.reply.status == 201
                &&& a.reply.body.text_at("machine_id"@) == Some(id)
                &&& a.reply.body.text_at("next_step"@) == Some("awaiting_os_assignment"@)
                &&& a.announce == Some("machine_discovered"@ + seq![':'] + id)
            },
            Err(e) => says_failed(registration_answer(entered).reply, 500, e)
                && registration_answer(entered).announce is None,
        },
{
    reveal_strlit("machine_id");
    reveal_strlit("next_step");
    assert("machine_id"@.len() != "next_step"@.len());    reveal_with_fuel(crate::json::field_place, 8);
    reveal_strlit("machine_discovered");
    reveal_strlit("machine_discovered:");
    match entered {
        Ok(id) => {
            assert("machine_discovered:"@ + id =~= "machine_discovered"@ + seq![':'] + id);
        },
        Err(e) => {
            is_part_of_itself(e);
            errors_are_said(500, "Registration Failed"@, e, e);
        },
    }
}

proof fn is_part_of_itself(s: Seq<char>)
    ensures
        is_part(s, s),
{
    stand_together(Seq::empty(), s);
    assert(Seq::<char>::empty() + s =~= s);
}

/// One who asks for a machine gets it, with its workflow exactly while it is installing.
pub proof fn machines_are_shown(
    id: Seq<char>,
    found: Result<Option<(JsonView, bool)>, Seq<char>>,
    workflow: Option<JsonView>,
)
    ensures
        match found {
            Ok(Some((machine, installing))) => {
                let a = machine_answer(id, found, workflow);
                &&& a.status == 200
                &&& a.body.field("machine"@) == Some(machine)
                &&& installing && workflow is Some ==> a.body.field("workflow_info"@) == workflow
                &&& !installing || workflow is None ==> a.body.field("workflow_info"@) == Some(
                    JsonView::Null,
                )
            },
            Ok(None) => says_failed(machine_answer(id, found, workflow), 404, id),
            Err(e) => says_failed(machine_answer(id, found, workflow), 500, e),
        },
{
    reveal_strlit("machine");
    reveal_strlit("workflow_info");
    assert("machine"@.len() != "workflow_info"@.len());    reveal_with_fuel(crate::json::field_place, 8);
    missing_machines_are_named(id);
    if found is Err {
        is_part_of_itself(found->Err_0);
        errors_are_said(500, "Database Error"@, found->Err_0, found->Err_0);
    }
}

/// The answer says that all went well, and that the machine was announced as changed in this way.
pub open spec fn says_done(a: AnsweredView, what: Seq<char>, id: Seq<char>) -> bool {
    a.reply.status == 200 && a.announce == Some(what + seq![':'] + id)
}

proof fn announced(id: Seq<char>)
    ensures
        "machine_updated:"@ + id == "machine_updated"@ + seq![':'] + id,
        "machine_deleted:"@ + id == "machine_deleted"@ + seq![':'] + id,
{
    reveal_strlit("machine_updated");
    reveal_strlit("machine_updated:");
    reveal_strlit("machine_deleted");
    reveal_strlit("machine_deleted:");
    assert("machine_updated:"@ + id =~= "machine_updated"@ + seq![':'] + id);
    assert("machine_deleted:"@ + id =~= "machine_deleted"@ + seq![':'] + id);
}

/// A change that was made is confirmed and announced with the machine; one to a machine that is not
/// there, or that the database failed at, is answered with that and announced to nobody.
pub proof fn changes_are_answered(change: Change, id: Seq<char>, made: Result<bool, Seq<char>>)
    ensures
        ({
            let a = change_answer(change, id, made);
            match made {
                Ok(true) => says_done(a, "machine_updated"@, id) && a.reply.body.field("success"@)
                    == Some(JsonView::Bool(true)) && (change != Change::Tags ==> (
                a.reply.body.text_at("message"@) matches Some(m) && is_part(id, m))),
                Ok(false) => says_failed(a.reply, 404, id) && a.announce is None,
                Err(e) => says_failed(a.reply, 500, e) && a.announce is None,
            }
        }),
{
    reveal_strlit("success");
    reveal_strlit("message");
    assert("success"@[0] != "message"@[0]);    reveal_with_fuel(crate::json::field_place, 8);
    announced(id);
    missing_machines_are_named(id);
    stand_together("Hostname updated for machine "@, id);
    stand_together("OS installed updated for machine "@, id);
    if made is Err {
        let e = made->Err_0;
        is_part_of_itself(e);
        stand_together("Failed to update tags: "@, e);
        errors_are_said(500, "Database Error"@, change_failure(change, e), e);
    }
}

/// A report of progress is answered as a change is.
pub proof fn reports_are_answered(id: Seq<char>, made: Result<bool, Seq<char>>)
    ensures
        ({
            let a = progress_answer(id, made);
            match made {
                Ok(true) => says_done(a, "machine_updated"@, id) && a.reply.body.text_at("status"@)
                    == Some("progress_updated"@) && a.reply.body.text_at("machine_id"@) == Some(id),
                Ok(false) => says_failed(a.reply, 404, id) && a.announce is None,
                Err(e) => says_failed(a.reply, 500, e) && a.announce is None,
            }
        }),
{
    reveal_strlit("status");
    reveal_strlit("machine_id");
    assert("status"@.len() != "machine_id"@.len());    reveal_with_fuel(crate::json::field_place, 8);
    announced(id);
    missing_machines_are_named(id);
    if made is Err {
        let e = made->Err_0;
        is_part_of_itself(e);
        errors_are_said(500, "Database Error"@, e, e);
    }
}

/// A machine that was deleted is announced as deleted, whether or not it is gone from the cluster too,
/// which the answer tells apart; nothing else is announced.
pub proof fn deletions_are_answered(
    id: Seq<char>,
    deleted: Result<bool, Seq<char>>,
    from_cluster: bool,
)
    ensures
        ({
            let a = deletion_answer(id, deleted, from_cluster);
            match deleted {
                Ok(true) => says_done(a, "machine_deleted"@, id) && a.reply.body.field("success"@)
                    == Some(JsonView::Bool(true)) && a.reply.body.text_at("message"@)
                    != deletion_answer(id, deleted, !from_cluster).reply.body.text_at("message"@),
                Ok(false) => a.reply.status == 404 && a.announce is None,
                Err(e) => a.reply.status == 500 && a.announce is None && (a.reply.body.text_at(
                    "error"@,
                ) matches Some(m) && is_part(e, m)),
            }
        }),
{
    reveal_strlit("success");
    reveal_strlit("message");
    assert("success"@[0] != "message"@[0]);    reveal_with_fuel(crate::json::field_place, 8);
    announced(id);
    reveal_strlit("Machine successfully deleted from Dragonfly and Tinkerbell.");
    reveal_strlit(
        "Machine deleted from Dragonfly but there was an issue removing it from Tinkerbell.",
    );
    assert("Machine successfully deleted from Dragonfly and Tinkerbell."@.len() == 59);
    assert("Machine deleted from Dragonfly but there was an issue removing it from Tinkerbell."@.len()
        == 82);
    if deleted is Err {
        stand_together("Database error: "@, deleted->Err_0);
    }
}

/// One without the right to update a machine is refused before anything else is looked at; one who has
/// it, but names another machine, asked for something that cannot be.
pub proof fn updates_are_refused(
    stored_ip: Option<Seq<char>>,
    client_ip: Seq<char>,
    same_id: bool,
)
    ensures
        may_update(true, stored_ip, client_ip),
        may_update(false, Some(client_ip), client_ip),
        stored_ip != Some(client_ip) ==> !may_update(false, stored_ip, client_ip),
        stored_ip != Some(client_ip) ==> (update_refusal(false, stored_ip, client_ip, same_id)
            matches Some(reply) && reply.status == 403),
        update_refusal(true, stored_ip, client_ip, false) matches Some(reply) && reply.status == 400,
        update_refusal(false, Some(client_ip), client_ip, false) matches Some(reply) && reply.status
            == 400,
        update_refusal(true, stored_ip, client_ip, true) is None,
{
}

/// A body is read as what its content type begins with; what follows, such as a character set, does not
/// count.
pub proof fn bodies_are_read_by_their_type(more: Seq<char>)
    ensures
        assignment_format("application/json"@ + more) == BodyFormat::Json,
        assignment_format("application/x-www-form-urlencoded"@ + more) == BodyFormat::Form,
        forall|t: Seq<char>|
            !begins(t, "application/"@) ==> #[trigger] assignment_format(t)
                == BodyFormat::Unsupported,
{
    reveal_strlit("application/json");
    reveal_strlit("application/x-www-form-urlencoded");
    reveal_strlit("application/");
    let json = "application/json"@;
    let form = "application/x-www-form-urlencoded"@;
    let slash = "application/"@;
    assert((json + more).subrange(0, json.len() as int) =~= json);
    assert((form + more).subrange(0, form.len() as int) =~= form);
    assert((form + more)[12] == 'x');
    if begins(form + more, json) {
        assert((form + more).subrange(0, json.len() as int)[12] == json[12]);
    }
    assert forall|t: Seq<char>| !begins(t, slash) implies #[trigger] assignment_format(t)
        == BodyFormat::Unsupported by {
        assert(json.subrange(0, 12) =~= slash);
        assert(form.subrange(0, 12) =~= slash);
        if begins(t, json) {
            assert(t.subrange(0, json.len() as int).subrange(0, 12) =~= t.subrange(0, 12));
        }
        if begins(t, form) {
            assert(t.subrange(0, form.len() as int).subrange(0, 12) =~= t.subrange(0, 12));
        }
    }
}

/// The deletion of a tag is announced exactly where it was made; what went wrong is told.
pub proof fn tag_deletions_are_answered(
    id: Seq<char>,
    read: Result<(), Seq<char>>,
    made: Result<bool, Seq<char>>,
)
    ensures
        ({
            let a = tag_answer(id, read, made);
            match (read, made) {
                (Err(e), _) => says_failed(a.reply, 500, e) && a.announce is None,
                (Ok(_), Ok(true)) => says_done(a, "machine_updated"@, id),
                (Ok(_), Ok(false)) => a.reply.status == 404 && a.announce is None,
                (Ok(_), Err(e)) => says_failed(a.reply, 500, e) && a.announce is None,
            }
        }),
{
    announced(id);
    if read is Err {
        let e = read->Err_0;
        stand_together("Failed to retrieve tags: "@, e);
        errors_are_said(500, "Database error"@, "Failed to retrieve tags: "@ + e, e);
    }
    if made is Err {
        let e = made->Err_0;
        stand_together("Failed to update tags: "@, e);
        errors_are_said(500, "Database error"@, "Failed to update tags: "@ + e, e);
    }
}

/// An event such as `machine_updated:<id>` is told to browsers under its kind, with that and what it is
/// about as fields; the progress of a download as it is.
pub proof fn browsers_are_told(kind: Seq<char>, about: Seq<char>)
    requires
        !kind.contains(':'),
    ensures
        kind != "ip_download_progress"@ ==> {
            &&& sse_message(kind + seq![':'] + about) matches SseMessageView::Json { kind: k, data }
                && k == kind && data.text_at("type"@) == Some(kind) && data.text_at("id"@) == Some(
                about,
            )
            &&& sse_message(kind) matches SseMessageView::Json { kind: k, data } && k == kind
                && data.text_at("type"@) == Some(kind) && data.field("id"@) is None
        },
        kind == "ip_download_progress"@ ==> sse_message(kind + seq![':'] + about) == (
        SseMessageView::Raw { kind, text: about }) && sse_message(kind) is Comment,
{
    reveal_strlit("type");
    reveal_strlit("id");
    assert("type"@.len() != "id"@.len());    reveal_with_fuel(crate::json::field_place, 8);
    reveal_strlit(":");
    assert(":"@ =~= seq![':']);
    cut_at_first(kind + seq![':'] + about, kind, about);
    cut_is_at_the_first(kind, ':', about);
}

/// The status that a form asks for is the one that it names.
pub proof fn forms_name_statuses(s: Seq<char>)
    ensures
        form_status(None) is None,
        form_status(Some("Ready"@)) == Some(StatusView::Ready),
        form_status(Some("AwaitingAssignment"@)) == Some(StatusView::AwaitingAssignment),
        form_status(Some("InstallingOS"@)) == Some(StatusView::InstallingOS),
        form_status(Some("Error"@)) == Some(StatusView::Error("Manual error state"@)),
        s != "Ready"@ && s != "AwaitingAssignment"@ && s != "InstallingOS"@ && s != "Error"@
            ==> form_status(Some(s)) is None,
{
    reveal_strlit("Ready");
    reveal_strlit("AwaitingAssignment");
    reveal_strlit("InstallingOS");
    reveal_strlit("Error");
    assert("Ready"@[0] == 'R');
    assert("AwaitingAssignment"@[0] == 'A');
    assert("InstallingOS"@[0] == 'I');
    assert("Error"@[0] == 'E');
}

} // verus!
