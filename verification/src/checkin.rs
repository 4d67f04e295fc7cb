//! What agents are told when they check in.

use vstd::prelude::*;

verus! {

/// What an agent is to do.
#[derive(Clone, Copy, Debug, PartialEq, Eq, Structural)]
pub enum AgentAction {
    /// Nothing yet.
    Wait,
    /// Carry out a workflow.
    Execute,
    /// Restart the machine.
    Reboot,
    /// Boot the system that is installed.
    LocalBoot,
}

/// The answer to a check-in.
#[derive(Clone, Debug, PartialEq, Eq)]
pub struct CheckInResponse {
    pub machine_id: String,
    pub memorable_name: String,
    pub is_new: bool,
    pub action: AgentAction,
    pub workflow_id: Option<String>,
}

/// `CheckInResponse` as a mathematical value.
pub struct CheckInView {
    pub machine_id: Seq<char>,
    pub memorable_name: Seq<char>,
    pub is_new: bool,
    pub action: AgentAction,
    pub workflow_id: Option<Seq<char>>,
}

impl DeepView for CheckInResponse {
    type V = CheckInView;

    open spec fn deep_view(&self) -> CheckInView {
        CheckInView {
            machine_id: self.machine_id@,
            memorable_name: self.memorable_name@,
            is_new: self.is_new,
            action: self.action,
            workflow_id: self.workflow_id.deep_view(),
        }
    }
}

} // verus!
