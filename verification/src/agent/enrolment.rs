//! How the agent makes its machine known to the server, and what it does afterwards.

use vstd::prelude::*;

use crate::machine::{MachineStatus, StatusView};
use crate::text::same;

verus! {

/// Where the server is: as the command line says, else as the environment says, else here.
pub fn server_url(argument: &Option<String>, variable: &Option<String>) -> (r: String)
    ensures
        r@ == (match (argument.deep_view(), variable.deep_view()) {
            (Some(url), _) => url,
            (None, Some(url)) => url,
            (None, None) => "http://localhost:3000"@,
        }),
{
    match argument {
        Some(url) => url.clone(),
        None => match variable {
            Some(url) => url.clone(),
            None => "http://localhost:3000".to_owned(),
        },
    }
}

/// The machine counts as one with a system of its own: in setup mode if it can boot one, and
/// else if what runs is neither the system of the agent nor unknown.
pub open spec fn has_own_os(setup: bool, bootable: bool, os_name: Seq<char>) -> bool {
    if setup {
        bootable
    } else {
        os_name != "Alpine"@ && os_name != "Unknown"@
    }
}

/// Whether the machine counts as one with a system of its own.
pub fn judge_os(setup: bool, bootable: bool, os_name: &str) -> (r: bool)
    ensures
        r == has_own_os(setup, bootable, os_name@),
{
    if setup {
        bootable
    } else {
        !same(os_name, "Alpine") && !same(os_name, "Unknown")
    }
}

/// A machine that the server knows.
#[derive(Clone, Debug, PartialEq, Eq)]
pub struct Known {
    pub id: String,
    pub mac_address: String,
}

/// `Known` as a mathematical value.
pub struct KnownView {
    pub id: Seq<char>,
    pub mac_address: Seq<char>,
}

impl DeepView for Known {
    type V = KnownView;

    open spec fn deep_view(&self) -> KnownView {
        KnownView { id: self.id@, mac_address: self.mac_address@ }
    }
}

/// The place of the first machine with a hardware address.
pub open spec fn known_as(machines: Seq<KnownView>, mac: Seq<char>) -> Option<Seq<char>>
    decreases machines.len(),
{
    if machines.len() == 0 {
        None
    } else if machines[0].mac_address == mac {
        Some(machines[0].id)
    } else {
        known_as(machines.drop_first(), mac)
    }
}

/// What the agent does next.
#[derive(Clone, Debug, PartialEq, Eq)]
pub enum EnrolStep {
    /// Ask which machines the server knows.
    List,
    /// Register the machine.
    Register,
    /// Report the status of the machine of this number.
    ReportStatus(String),
    /// Report the operating system of the machine of this number.
    ReportOs(String),
    /// Boot the system that is there.
    Chainload,
    /// Start anew, from the network.
    Reboot,
    /// Nothing.
    Finished,
    /// Give up, for this reason.
    Failed(String),
}

/// `EnrolStep` as a mathematical value.
pub enum EnrolStepView {
    List,
    Register,
    ReportStatus(Seq<char>),
    ReportOs(Seq<char>),
    Chainload,
    Reboot,
    Finished,
    Failed(Seq<char>),
}

impl DeepView for EnrolStep {
    type V = EnrolStepView;

    open spec fn deep_view(&self) -> EnrolStepView {
        match self {
            EnrolStep::List => EnrolStepView::List,
            EnrolStep::Register => EnrolStepView::Register,
            EnrolStep::ReportStatus(id) => EnrolStepView::ReportStatus(id@),
            EnrolStep::ReportOs(id) => EnrolStepView::ReportOs(id@),
            EnrolStep::Chainload => EnrolStepView::Chainload,
            EnrolStep::Reboot => EnrolStepView::Reboot,
            EnrolStep::Finished => EnrolStepView::Finished,
            EnrolStep::Failed(why) => EnrolStepView::Failed(why@),
        }
    }
}

/// How the server answered.
#[derive(Clone, Debug, PartialEq, Eq)]
pub enum EnrolEvent {
    /// It could not be asked.
    NotSent,
    /// It refused, with this text.
    Refused(String),
    /// It answered something that could not be read.
    Unreadable,
    /// It knows these machines.
    Listed(Vec<Known>),
    /// It registered the machine under this number.
    Registered(String),
    /// It took the report.
    Accepted,
}

/// `EnrolEvent` as a mathematical value.
pub enum EnrolEventView {
    NotSent,
    Refused(Seq<char>),
    Unreadable,
    Listed(Seq<KnownView>),
    Registered(Seq<char>),
    Accepted,
}

impl DeepView for EnrolEvent {
    type V = EnrolEventView;

    open spec fn deep_view(&self) -> EnrolEventView {
        match self {
            EnrolEvent::NotSent => EnrolEventView::NotSent,
            EnrolEvent::Refused(text) => EnrolEventView::Refused(text@),
            EnrolEvent::Unreadable => EnrolEventView::Unreadable,
            EnrolEvent::Listed(machines) => EnrolEventView::Listed(machines.deep_view()),
            EnrolEvent::Registered(id) => EnrolEventView::Registered(id@),
            EnrolEvent::Accepted => EnrolEventView::Accepted,
        }
    }
}

/// An enrolment under way.
#[derive(Debug, PartialEq, Eq)]
pub struct Enrolment {
    pub api_url: String,
    pub mac_address: String,
    /// The agent was started to set up the machine.
    pub setup: bool,
    /// The machine has a system of its own.
    pub has_os: bool,
    /// The name and the version of the system.
    pub os_full_name: String,
    pub step: EnrolStep,
}

/// `Enrolment` as a mathematical value.
pub struct EnrolmentView {
    pub api_url: Seq<char>,
    pub mac_address: Seq<char>,
    pub setup: bool,
    pub has_os: bool,
    pub os_full_name: Seq<char>,
    pub step: EnrolStepView,
}

impl DeepView for Enrolment {
    type V = EnrolmentView;

    open spec fn deep_view(&self) -> EnrolmentView {
        EnrolmentView {
            api_url: self.api_url@,
            mac_address: self.mac_address@,
            setup: self.setup,
            has_os: self.has_os,
            os_full_name: self.os_full_name@,
            step: self.step.deep_view(),
        }
    }
}

/// What the agent does once all is reported: in setup mode it boots the system that is there, or
/// starts anew.
pub open spec fn last_step(e: EnrolmentView) -> EnrolStepView {
    if !e.setup {
        EnrolStepView::Finished
    } else if e.has_os {
        EnrolStepView::Chainload
    } else {
        EnrolStepView::Reboot
    }
}

/// What the agent does after an answer.
pub open spec fn enrol_next(e: EnrolmentView, event: EnrolEventView) -> EnrolStepView {
    match (e.step, event) {
        (EnrolStepView::List, EnrolEventView::NotSent) => EnrolStepView::Failed(
            "Failed to fetch existing machines"@,
        ),
        (EnrolStepView::List, EnrolEventView::Refused(text)) => EnrolStepView::Failed(
            "Failed to fetch existing machines: "@ + text,
        ),
        (EnrolStepView::List, EnrolEventView::Unreadable) => EnrolStepView::Failed(
            "Failed to parse existing machines response"@,
        ),
        (EnrolStepView::List, EnrolEventView::Listed(machines)) => match known_as(
            machines,
            e.mac_address,
        ) {
            Some(id) => EnrolStepView::ReportStatus(id),
            None => EnrolStepView::Register,
        },
        (EnrolStepView::Register, EnrolEventView::NotSent) => EnrolStepView::Failed(
            "Failed to send registration request"@,
        ),
        (EnrolStepView::Register, EnrolEventView::Refused(text)) => EnrolStepView::Failed(
            "Failed to register machine: "@ + text,
        ),
        (EnrolStepView::Register, EnrolEventView::Unreadable) => EnrolStepView::Failed(
            "Failed to parse registration response"@,
        ),
        (EnrolStepView::Register, EnrolEventView::Registered(id)) => EnrolStepView::ReportStatus(id),
        (EnrolStepView::ReportStatus(_), EnrolEventView::NotSent) => EnrolStepView::Failed(
            "Failed to send status update"@,
        ),
        (EnrolStepView::ReportStatus(_), EnrolEventView::Refused(text)) => EnrolStepView::Failed(
            "Failed to update machine status: "@ + text,
        ),
        (EnrolStepView::ReportStatus(id), EnrolEventView::Accepted) => if e.has_os {
            EnrolStepView::ReportOs(id)
        } else {
            last_step(e)
        },
        (EnrolStepView::ReportOs(_), EnrolEventView::NotSent) => EnrolStepView::Failed(
            "Failed to send OS installed update"@,
        ),
        (EnrolStepView::ReportOs(_), EnrolEventView::Refused(text)) => EnrolStepView::Failed(
            "Failed to update OS installed: "@ + text,
        ),
        (EnrolStepView::ReportOs(_), EnrolEventView::Accepted) => last_step(e),
        (step, _) => step,
    }
}

/// What the agent asks the server, and where: the path below the address of the server.
pub open spec fn request_url(e: EnrolmentView) -> Option<Seq<char>> {
    match e.step {
        EnrolStepView::List => Some(e.api_url + "/api/machines"@),
        EnrolStepView::Register => Some(e.api_url + "/api/machines"@),
        EnrolStepView::ReportStatus(id) => Some(e.api_url + "/api/machines/"@ + id + "/status"@),
        EnrolStepView::ReportOs(id) => Some(e.api_url + "/api/machines/"@ + id + "/os_installed"@),
        _ => None,
    }
}

fn find_known(machines: &Vec<Known>, mac: &str) -> (r: Option<String>)
    ensures
        r.deep_view() == known_as(machines.deep_view(), mac@),
{
    let ghost all = machines.deep_view();
    let mut i: usize = 0;
    assert(all.skip(0) =~= all);
    while i < machines.len()
        invariant
            i <= machines.len(),
            all == machines.deep_view(),
            known_as(all, mac@) == known_as(all.skip(i as int), mac@),
        decreases machines.len() - i,
    {
        assert(all[i as int] == machines@[i as int].deep_view());
        assert(all.skip(i as int).drop_first() =~= all.skip(i + 1));
        if same(machines[i].mac_address.as_str(), mac) {
            return Some(machines[i].id.clone());
        }
        i = i + 1;
    }
    None
}

impl Enrolment {
    /// Starts to enrol a machine on which a system was found, or is about to be.
    pub fn start(
        api_url: String,
        mac_address: String,
        setup: bool,
        bootable: bool,
        os_name: &str,
        os_version: &str,
    ) -> (r: Enrolment)
        ensures
            r.deep_view() == (EnrolmentView {
                api_url: api_url@,
                mac_address: mac_address@,
                setup,
                has_os: has_own_os(setup, bootable, os_name@),
                os_full_name: os_name@ + " "@ + os_version@,
                step: EnrolStepView::List,
            }),
    {
        Enrolment {
            api_url,
            mac_address,
            setup,
            has_os: judge_os(setup, bootable, os_name),
            os_full_name: os_name.to_owned().concat(" ").concat(os_version),
            step: EnrolStep::List,
        }
    }

    /// The status that is reported.
    pub fn status(&self) -> (r: MachineStatus)
        ensures
            r.deep_view() == (if self.has_os {
                StatusView::ExistingOS
            } else {
                StatusView::AwaitingAssignment
            }),
    {
        if self.has_os {
            MachineStatus::ExistingOS
        } else {
            MachineStatus::AwaitingAssignment
        }
    }

    /// Where the next request goes, if one is made.
    pub fn url(&self) -> (r: Option<String>)
        ensures
            r.deep_view() == request_url(self.deep_view()),
    {
        let base: String = self.api_url.clone();
        match &self.step {
            EnrolStep::List => Some(base.concat("/api/machines")),
            EnrolStep::Register => Some(base.concat("/api/machines")),
            EnrolStep::ReportStatus(id) => Some(
                base.concat("/api/machines/").concat(id.as_str()).concat("/status"),
            ),
            EnrolStep::ReportOs(id) => Some(
                base.concat("/api/machines/").concat(id.as_str()).concat("/os_installed"),
            ),
            _ => None,
        }
    }

    fn last(&self) -> (r: EnrolStep)
        ensures
            r.deep_view() == last_step(self.deep_view()),
    {
        if !self.setup {
            EnrolStep::Finished
        } else if self.has_os {
            EnrolStep::Chainload
        } else {
            EnrolStep::Reboot
        }
    }

    fn after_list(&self, event: EnrolEvent) -> (r: EnrolStep)
        requires
            self.step is List,
        ensures
            r.deep_view() == enrol_next(self.deep_view(), event.deep_view()),
    {
        match event {
            EnrolEvent::NotSent => EnrolStep::Failed(
                "Failed to fetch existing machines".to_owned(),
            ),
            EnrolEvent::Refused(text) => EnrolStep::Failed(
                "Failed to fetch existing machines: ".to_owned().concat(text.as_str()),
            ),
            EnrolEvent::Unreadable => EnrolStep::Failed(
                "Failed to parse existing machines response".to_owned(),
            ),
            EnrolEvent::Listed(machines) => match find_known(&machines, self.mac_address.as_str()) {
                Some(id) => EnrolStep::ReportStatus(id),
                None => EnrolStep::Register,
            },
            _ => EnrolStep::List,
        }
    }

    fn after_register(&self, event: EnrolEvent) -> (r: EnrolStep)
        requires
            self.step is Register,
        ensures
            r.deep_view() == enrol_next(self.deep_view(), event.deep_view()),
    {
        match event {
            EnrolEvent::NotSent => EnrolStep::Failed(
                "Failed to send registration request".to_owned(),
            ),
            EnrolEvent::Refused(text) => EnrolStep::Failed(
                "Failed to register machine: ".to_owned().concat(text.as_str()),
            ),
            EnrolEvent::Unreadable => EnrolStep::Failed(
                "Failed to parse registration response".to_owned(),
            ),
            EnrolEvent::Registered(id) => EnrolStep::ReportStatus(id),
            _ => EnrolStep::Register,
        }
    }

    fn after_status(&self, id: &String, event: EnrolEvent) -> (r: EnrolStep)
        requires
            self.step.deep_view() == EnrolStepView::ReportStatus(id@),
        ensures
            r.deep_view() == enrol_next(self.deep_view(), event.deep_view()),
    {
        match event {
            EnrolEvent::NotSent => EnrolStep::Failed("Failed to send status update".to_owned()),
            EnrolEvent::Refused(text) => EnrolStep::Failed(
                "Failed to update machine status: ".to_owned().concat(text.as_str()),
            ),
            EnrolEvent::Accepted => if self.has_os {
                EnrolStep::ReportOs(id.clone())
            } else {
                self.last()
            },
            _ => EnrolStep::ReportStatus(id.clone()),
        }
    }

    fn after_os(&self, id: &String, event: EnrolEvent) -> (r: EnrolStep)
        requires
            self.step.deep_view() == EnrolStepView::ReportOs(id@),
        ensures
            r.deep_view() == enrol_next(self.deep_view(), event.deep_view()),
    {
        match event {
            EnrolEvent::NotSent => EnrolStep::Failed("Failed to send OS installed update".to_owned()),
            EnrolEvent::Refused(text) => EnrolStep::Failed(
                "Failed to update OS installed: ".to_owned().concat(text.as_str()),
            ),
            EnrolEvent::Accepted => self.last(),
            _ => EnrolStep::ReportOs(id.clone()),
        }
    }

    /// Goes on after an answer.
    pub fn next(&mut self, event: EnrolEvent)
        ensures
            final(self).deep_view() == (EnrolmentView {
                step: enrol_next(old(self).deep_view(), event.deep_view()),
                ..old(self).deep_view()
            }),
    {
        let step = match &self.step {
            EnrolStep::List => self.after_list(event),
            EnrolStep::Register => self.after_register(event),
            EnrolStep::ReportStatus(id) => self.after_status(id, event),
            EnrolStep::ReportOs(id) => self.after_os(id, event),
            _ => {
                return;
            },
        };
        self.step = step;
    }
}

/// A machine that the server knows is not registered again.
pub proof fn known_machines_are_not_registered(e: EnrolmentView, machines: Seq<KnownView>, i: int)
    requires
        e.step is List,
        0 <= i < machines.len(),
        machines[i].mac_address == e.mac_address,
    ensures
        enrol_next(e, EnrolEventView::Listed(machines)) is ReportStatus,
    decreases machines.len(),
{
    if machines[0].mac_address != e.mac_address {
        assert(machines.drop_first()[i - 1] == machines[i]);
        known_machines_are_not_registered(e, machines.drop_first(), i - 1);
    }
}

/// The machine is booted only after a report of its status was taken, in setup mode, and after
/// one of its operating system where it has one.
pub proof fn reports_come_before_booting(e: EnrolmentView, event: EnrolEventView)
    requires
        !(e.step is Chainload) && !(e.step is Reboot),
        enrol_next(e, event) is Chainload || enrol_next(e, event) is Reboot,
    ensures
        e.setup,
        event is Accepted,
        e.has_os ==> e.step is ReportOs,
        !e.has_os ==> e.step is ReportStatus || e.step is ReportOs,
        enrol_next(e, event) is Chainload <==> e.has_os,
{
}

/// A failed enrolment stays failed.
pub proof fn failed_enrolment_stays_failed(e: EnrolmentView, event: EnrolEventView)
    requires
        e.step is Failed,
    ensures
        enrol_next(e, event) == e.step,
{
}

/// A machine is reported under the number that the server has for its hardware address: that of the
/// first machine in its list with that address. It is registered exactly where there is none.
pub proof fn machine_is_found_by_its_address(
    e: EnrolmentView,
    machines: Seq<KnownView>,
    i: int,
)
    requires
        e.step is List,
    ensures
        0 <= i < machines.len() && machines[i].mac_address == e.mac_address && (forall|j: int|
            0 <= j < i ==> (#[trigger] machines[j]).mac_address != e.mac_address) ==> enrol_next(
            e,
            EnrolEventView::Listed(machines),
        ) == EnrolStepView::ReportStatus(machines[i].id),
        (forall|j: int|
            0 <= j < machines.len() ==> (#[trigger] machines[j]).mac_address != e.mac_address)
            ==> enrol_next(e, EnrolEventView::Listed(machines)) is Register,
    decreases machines.len(),
{
    if machines.len() > 0 && machines[0].mac_address != e.mac_address {
        let rest = machines.drop_first();
        machine_is_found_by_its_address(e, rest, i - 1);
        if forall|j: int|
            0 <= j < machines.len() ==> (#[trigger] machines[j]).mac_address != e.mac_address {
            assert forall|j: int| 0 <= j < rest.len() implies (#[trigger] rest[j]).mac_address
                != e.mac_address by {
                assert(machines[j + 1].mac_address != e.mac_address);
            }
        }
        if 0 < i < machines.len() && (forall|j: int|
            0 <= j < i ==> (#[trigger] machines[j]).mac_address != e.mac_address) {
            assert(rest[i - 1] == machines[i]);
            assert forall|j: int| 0 <= j < i - 1 implies (#[trigger] rest[j]).mac_address
                != e.mac_address by {
                assert(machines[j + 1].mac_address != e.mac_address);
            }
        }
    }
}

/// An enrolment that is accepted goes its way: a machine that is registered is reported under its new
/// number, its status first and then, if it has one, its own system; then a machine that is being set
/// up boots that system, or starts anew if it has none.
pub proof fn enrolment_goes_its_way(e: EnrolmentView, id: Seq<char>)
    ensures
        e.step is Register ==> enrol_next(e, EnrolEventView::Registered(id))
            == EnrolStepView::ReportStatus(id),
        e.step == EnrolStepView::ReportStatus(id) ==> enrol_next(e, EnrolEventView::Accepted) == (
        if e.has_os {
            EnrolStepView::ReportOs(id)
        } else if e.setup {
            EnrolStepView::Reboot
        } else {
            EnrolStepView::Finished
        }),
        e.step == EnrolStepView::ReportOs(id) && e.has_os ==> enrol_next(
            e,
            EnrolEventView::Accepted,
        ) == (if e.setup {
            EnrolStepView::Chainload
        } else {
            EnrolStepView::Finished
        }),
{
}

/// What cannot be sent, is refused or cannot be read ends an enrolment, and a refusal is told with the
/// text that came with it.
pub proof fn refusal_ends_the_enrolment(e: EnrolmentView, text: Seq<char>)
    requires
        e.step is List || e.step is Register || e.step is ReportStatus || e.step is ReportOs,
    ensures
        enrol_next(e, EnrolEventView::NotSent) is Failed,
        enrol_next(e, EnrolEventView::Refused(text)) matches EnrolStepView::Failed(why)
            && why.skip(why.len() - text.len()) == text,
        e.step is List || e.step is Register ==> enrol_next(e, EnrolEventView::Unreadable) is Failed,
{
    if let EnrolStepView::Failed(why) = enrol_next(e, EnrolEventView::Refused(text)) {
        assert(why.skip(why.len() - text.len()) =~= text);
    }
}

/// The agent asks the server at its address: for the machines and to register at one place, and to
/// report at the place of the machine.
pub proof fn server_is_asked_at_its_address(e: EnrolmentView, id: Seq<char>)
    ensures
        e.step is List || e.step is Register ==> request_url(e) == Some(
            e.api_url + "/api/machines"@,
        ),
        e.step == EnrolStepView::ReportStatus(id) ==> request_url(e) == Some(
            e.api_url + "/api/machines/"@ + id + "/status"@,
        ),
        e.step == EnrolStepView::ReportOs(id) ==> request_url(e) == Some(
            e.api_url + "/api/machines/"@ + id + "/os_installed"@,
        ),
        e.step is Chainload || e.step is Reboot || e.step is Finished || e.step is Failed
            ==> request_url(e) is None,
{
}

/// In setup mode a machine has a system of its own if one can be booted, whatever runs; otherwise if
/// what runs is known and not the system of the agent.
pub proof fn own_system(setup: bool, bootable: bool, os_name: Seq<char>)
    ensures
        setup ==> has_own_os(setup, bootable, os_name) == bootable,
        !setup ==> (has_own_os(setup, bootable, os_name) <==> os_name != "Alpine"@ && os_name
            != "Unknown"@),
{
}

} // verus!
