//! What a workflow says of the installation that it carries out.

use vstd::prelude::*;

use crate::clock::{Instant, instant_of, read_instant, seconds_between, seconds_from};
use crate::json::{Json, JsonView, list_view};
use crate::machine::{MachineStatus, StatusView};
use crate::text::{decimal, decimal_of, same};
use crate::tinkerbell::timings::{ActionRun, TimesOutOfRange, Timings, is_average, runs_view};

verus! {

/// An action of a workflow, and how long it takes, in seconds.
#[derive(Clone, Debug, PartialEq, Eq)]
pub struct TaskInfo {
    pub name: String,
    pub status: String,
    pub started_at: String,
    pub duration: u64,
    pub reported_duration: u64,
    pub estimated_duration: u64,
}

/// `TaskInfo` as a mathematical value.
pub struct TaskView {
    pub name: Seq<char>,
    pub status: Seq<char>,
    pub started_at: Seq<char>,
    pub duration: u64,
    pub reported_duration: u64,
    pub estimated_duration: u64,
}

impl DeepView for TaskInfo {
    type V = TaskView;

    open spec fn deep_view(&self) -> TaskView {
        TaskView {
            name: self.name@,
            status: self.status@,
            started_at: self.started_at@,
            duration: self.duration,
            reported_duration: self.reported_duration,
            estimated_duration: self.estimated_duration,
        }
    }
}

/// What is shown of a workflow.
#[derive(Clone, Debug, PartialEq, Eq)]
pub struct WorkflowInfo {
    pub state: String,
    pub current_action: Option<String>,
    pub progress: u8,
    pub tasks: Vec<TaskInfo>,
    pub estimated_completion: Option<String>,
    pub template_name: String,
}

/// `WorkflowInfo` as a mathematical value.
pub struct WorkflowInfoView {
    pub state: Seq<char>,
    pub current_action: Option<Seq<char>>,
    pub progress: u8,
    pub tasks: Seq<TaskView>,
    pub estimated_completion: Option<Seq<char>>,
    pub template_name: Seq<char>,
}

impl DeepView for WorkflowInfo {
    type V = WorkflowInfoView;

    open spec fn deep_view(&self) -> WorkflowInfoView {
        WorkflowInfoView {
            state: self.state@,
            current_action: self.current_action.deep_view(),
            progress: self.progress,
            tasks: self.tasks.deep_view(),
            estimated_completion: self.estimated_completion.deep_view(),
            template_name: self.template_name@,
        }
    }
}

// ---------------------------------------------------------------------------------------------
// Remaining time
// ---------------------------------------------------------------------------------------------

/// The ending of a noun that is counted.
pub open spec fn plural(n: int) -> Seq<char> {
    if n == 1 {
        ""@
    } else {
        "s"@
    }
}

/// So many seconds in words.
pub open spec fn remaining_words(seconds: i64) -> Seq<char> {
    let minutes = seconds as int / 60;
    let hours = minutes / 60;
    if seconds <= 0 {
        "Completing soon"@
    } else if seconds < 60 {
        "Less than a minute remaining"@
    } else if minutes < 60 {
        "Approximately "@ + decimal(minutes as nat) + " minute"@ + plural(minutes) + " remaining"@
    } else if minutes % 60 == 0 {
        "Approximately "@ + decimal(hours as nat) + " hour"@ + plural(hours) + " remaining"@
    } else {
        "Approximately "@ + decimal(hours as nat) + " hour"@ + plural(hours) + " and "@ + decimal(
            (minutes % 60) as nat,
        ) + " minute"@ + plural(minutes % 60) + " remaining"@
    }
}

fn plural_of(n: i64) -> (r: &'static str)
    ensures
        r@ == plural(n as int),
{
    if n == 1 {
        ""
    } else {
        "s"
    }
}

/// So many seconds in words.
pub fn format_remaining_time(seconds: i64) -> (r: Option<String>)
    ensures
        r.deep_view() == Some(remaining_words(seconds)),
{
    if seconds <= 0 {
        return Some("Completing soon".to_owned());
    }
    if seconds < 60 {
        return Some("Less than a minute remaining".to_owned());
    }
    let minutes: i64 = seconds / 60;
    let mut words = "Approximately ".to_owned();
    if minutes < 60 {
        words.append(decimal_of(minutes as u64).as_str());
        words.append(" minute");
        words.append(plural_of(minutes));
        words.append(" remaining");
        return Some(words);
    }
    let hours: i64 = minutes / 60;
    let remaining_minutes: i64 = minutes % 60;
    words.append(decimal_of(hours as u64).as_str());
    words.append(" hour");
    words.append(plural_of(hours));
    if remaining_minutes != 0 {
        words.append(" and ");
        words.append(decimal_of(remaining_minutes as u64).as_str());
        words.append(" minute");
        words.append(plural_of(remaining_minutes));
    }
    words.append(" remaining");
    Some(words)
}

// ---------------------------------------------------------------------------------------------
// Actions
// ---------------------------------------------------------------------------------------------

/// An action as a workflow reports it.
#[derive(Debug, PartialEq, Eq)]
pub struct ActionReport {
    pub name: String,
    pub status: String,
    pub started_at: String,
    pub seconds: u64,
}

/// `ActionReport` as a mathematical value.
pub struct ActionReportView {
    pub name: Seq<char>,
    pub status: Seq<char>,
    pub started_at: Seq<char>,
    pub seconds: u64,
}

impl DeepView for ActionReport {
    type V = ActionReportView;

    open spec fn deep_view(&self) -> ActionReportView {
        ActionReportView {
            name: self.name@,
            status: self.status@,
            started_at: self.started_at@,
            seconds: self.seconds,
        }
    }
}

/// What an action reports.
pub open spec fn action_report(action: JsonView) -> ActionReportView {
    ActionReportView {
        name: action.text_at("name"@).unwrap_or("unknown"@),
        status: action.text_at("status"@).unwrap_or("UNKNOWN"@),
        started_at: action.text_at("startedAt"@).unwrap_or(""@),
        seconds: (match action.field("seconds"@) {
            Some(v) => v.signed().unwrap_or(0),
            None => 0,
        }) as u64,
    }
}

/// The actions of several tasks, one after the other.
pub open spec fn actions_of(tasks: Seq<JsonView>) -> Seq<JsonView>
    decreases tasks.len(),
{
    if tasks.len() == 0 {
        Seq::empty()
    } else {
        actions_of(tasks.drop_last()) + tasks.last().items_at("actions"@).unwrap_or(Seq::empty())
    }
}

/// What the actions of a workflow report.
pub open spec fn action_reports(status: JsonView) -> Seq<ActionReportView> {
    actions_of(status.items_at("tasks"@).unwrap_or(Seq::empty())).map_values(
        |a: JsonView| action_report(a),
    )
}

#[verifier::truncate]
fn as_unsigned(n: i64) -> (r: u64)
    ensures
        r == n as u64,
{
    n as u64
}

#[verifier::truncate]
fn as_signed(n: u64) -> (r: i64)
    ensures
        r == n as i64,
{
    n as i64
}

fn read_action(action: &Json) -> (r: ActionReport)
    ensures
        r.deep_view() == action_report(action.deep_view()),
{
    let name = match action.text_at("name") {
        Some(s) => s,
        None => "unknown",
    };
    let status = match action.text_at("status") {
        Some(s) => s,
        None => "UNKNOWN",
    };
    let started_at = match action.text_at("startedAt") {
        Some(s) => s,
        None => "",
    };
    let seconds: i64 = match action.get("seconds") {
        Some(v) => match v.as_i64() {
            Some(n) => n,
            None => 0,
        },
        None => 0,
    };
    ActionReport {
        name: name.to_owned(),
        status: status.to_owned(),
        started_at: started_at.to_owned(),
        seconds: as_unsigned(seconds),
    }
}

/// Reads what the actions of a workflow report.
pub fn read_actions(status: &Json) -> (r: Vec<ActionReport>)
    ensures
        r.deep_view() == action_reports(status.deep_view()),
{
    let mut reports: Vec<ActionReport> = Vec::new();
    let ghost f = |a: JsonView| action_report(a);
    match status.items_at("tasks") {
        Some(tasks) => {
            let ghost all = list_view(tasks@);
            let mut i: usize = 0;
            assert(all.take(0) =~= Seq::empty());
            assert(reports.deep_view() =~= actions_of(all.take(0)).map_values(f));
            while i < tasks.len()
                invariant
                    i <= tasks.len(),
                    all == list_view(tasks@),
                    f == (|a: JsonView| action_report(a)),
                    reports.deep_view() == actions_of(all.take(i as int)).map_values(f),
                decreases tasks.len() - i,
            {
                let ghost so_far = actions_of(all.take(i as int));
                proof {
                    assert(all.take(i + 1).drop_last() =~= all.take(i as int));
                    assert(all.take(i + 1).last() == tasks@[i as int].deep_view());
                }
                match tasks[i].items_at("actions") {
                    Some(actions) => {
                        let ghost new = list_view(actions@);
                        let mut k: usize = 0;
                        assert(so_far + new.take(0) =~= so_far);
                        while k < actions.len()
                            invariant
                                k <= actions.len(),
                                new == list_view(actions@),
                                f == (|a: JsonView| action_report(a)),
                                reports.deep_view() == (so_far + new.take(k as int)).map_values(f),
                            decreases actions.len() - k,
                        {
                            let ghost before = reports.deep_view();
                            let report = read_action(&actions[k]);
                            reports.push(report);
                            proof {
                                assert(new[k as int] == actions@[k as int].deep_view());
                                assert(reports.deep_view() =~= before.push(report.deep_view()));
                                assert(so_far + new.take(k + 1) =~= (so_far + new.take(
                                    k as int,
                                )).push(new[k as int]));
                                assert(reports.deep_view() =~= (so_far + new.take(
                                    k + 1,
                                )).map_values(f));
                            }
                            k = k + 1;
                        }
                        assert(new.take(new.len() as int) =~= new);
                    },
                    None => {
                        assert(so_far + Seq::<JsonView>::empty() =~= so_far);
                    },
                }
                i = i + 1;
            }
            assert(all.take(all.len() as int) =~= all);
        },
        None => {
            assert(reports.deep_view() =~= actions_of(Seq::empty()).map_values(f));
        },
    }
    reports
}

// ---------------------------------------------------------------------------------------------
// Tasks
// ---------------------------------------------------------------------------------------------

/// What is known of an action, given an average for it: it is planned with the average, or with
/// what it reports where there is none; once it has succeeded, with what it reports.
pub open spec fn task_of(report: ActionReportView, average: Option<u64>) -> TaskView {
    let estimated = average.unwrap_or(report.seconds);
    TaskView {
        name: report.name,
        status: report.status,
        started_at: report.started_at,
        duration: if report.status == "STATE_SUCCESS"@ {
            report.seconds
        } else {
            estimated
        },
        reported_duration: report.seconds,
        estimated_duration: estimated,
    }
}

/// The task is what is known of an action, by an average for it.
pub open spec fn is_task(
    report: ActionReportView,
    m: Map<Seq<char>, Map<Seq<char>, Seq<u64>>>,
    template: Seq<char>,
    task: TaskView,
) -> bool {
    exists|average: Option<u64>| #[trigger]
        is_average(m, template, report.name, Ok(average)) && task == task_of(report, average)
}

/// The tasks are what is known of the actions, by averages for them.
pub open spec fn is_plan(
    reports: Seq<ActionReportView>,
    m: Map<Seq<char>, Map<Seq<char>, Seq<u64>>>,
    template: Seq<char>,
    tasks: Seq<TaskView>,
) -> bool {
    &&& tasks.len() == reports.len()
    &&& forall|i: int|
        0 <= i < tasks.len() ==> is_task(reports[i], m, template, #[trigger] tasks[i])
}

/// A sum that an average for some of the actions takes cannot be formed.
pub open spec fn is_beyond_plan(
    reports: Seq<ActionReportView>,
    m: Map<Seq<char>, Map<Seq<char>, Seq<u64>>>,
    template: Seq<char>,
) -> bool {
    exists|i: int|
        0 <= i < reports.len() && is_average(
            m,
            template,
            (#[trigger] reports[i]).name,
            Err(TimesOutOfRange {  }),
        )
}

/// What is known of the actions, by averages for them, if these can be formed.
pub fn plan_tasks(reports: &Vec<ActionReport>, template_name: &str, timings: &Timings) -> (r:
    Result<Vec<TaskInfo>, TimesOutOfRange>)
    requires
        timings.wf(),
    ensures
        match r {
            Ok(tasks) => is_plan(
                reports.deep_view(),
                timings@,
                template_name@,
                tasks.deep_view(),
            ),
            Err(_) => is_beyond_plan(reports.deep_view(), timings@, template_name@),
        },
{
    let mut tasks: Vec<TaskInfo> = Vec::new();
    let mut i: usize = 0;
    while i < reports.len()
        invariant
            i <= reports.len(),
            timings.wf(),
            is_plan(
                reports.deep_view().take(i as int),
                timings@,
                template_name@,
                tasks.deep_view(),
            ),
        decreases reports.len() - i,
    {
        let report = &reports[i];
        assert(reports.deep_view()[i as int] == report.deep_view());
        let average: Option<u64> = match timings.average(template_name, report.name.as_str()) {
            Ok(average) => average,
            Err(e) => {
                return Err(e);
            },
        };
        let estimated: u64 = match average {
            Some(n) => n,
            None => report.seconds,
        };
        let task = TaskInfo {
            name: report.name.clone(),
            status: report.status.clone(),
            started_at: report.started_at.clone(),
            duration: if same(report.status.as_str(), "STATE_SUCCESS") {
                report.seconds
            } else {
                estimated
            },
            reported_duration: report.seconds,
            estimated_duration: estimated,
        };
        let ghost before = tasks.deep_view();
        tasks.push(task);
        proof {
            let all = reports.deep_view();
            let now = tasks.deep_view();
            assert(now =~= before.push(task.deep_view()));
            assert(task.deep_view() == task_of(all[i as int], average));
            assert(is_average(timings@, template_name@, all[i as int].name, Ok(average)));
            assert forall|j: int| 0 <= j < now.len() implies is_task(
                all.take(i + 1)[j],
                timings@,
                template_name@,
                #[trigger] now[j],
            ) by {
                if j < i {
                    assert(now[j] == before[j]);
                    assert(all.take(i + 1)[j] == all.take(i as int)[j]);
                }
            }
        }
        i = i + 1;
    }
    assert(reports.deep_view().take(reports@.len() as int) =~= reports.deep_view());
    Ok(tasks)
}

/// The seconds of the tasks together; of those with a status, where one is given.
pub open spec fn seconds_of(tasks: Seq<TaskView>, status: Option<Seq<char>>) -> nat
    decreases tasks.len(),
{
    if tasks.len() == 0 {
        0
    } else {
        seconds_of(tasks.drop_last(), status) + (if status is None || status == Some(
            tasks.last().status,
        ) {
            tasks.last().duration as nat
        } else {
            0
        })
    }
}

/// How many tasks have succeeded.
pub open spec fn succeeded_count(tasks: Seq<TaskView>) -> nat
    decreases tasks.len(),
{
    if tasks.len() == 0 {
        0
    } else {
        succeeded_count(tasks.drop_last()) + (if tasks.last().status == "STATE_SUCCESS"@ {
            1nat
        } else {
            0nat
        })
    }
}

/// The place of the last task that is running.
pub open spec fn running_place(tasks: Seq<TaskView>) -> Option<int>
    decreases tasks.len(),
{
    if tasks.len() == 0 {
        None
    } else if tasks.last().status == "STATE_RUNNING"@ {
        Some(tasks.len() - 1)
    } else {
        running_place(tasks.drop_last())
    }
}

proof fn running_place_is_one(tasks: Seq<TaskView>)
    ensures
        running_place(tasks) matches Some(p) ==> 0 <= p < tasks.len() && tasks[p].status
            == "STATE_RUNNING"@,
    decreases tasks.len(),
{
    if tasks.len() > 0 {
        running_place_is_one(tasks.drop_last());
    }
}

proof fn completed_seconds_are_some(tasks: Seq<TaskView>, status: Seq<char>)
    ensures
        seconds_of(tasks, Some(status)) <= seconds_of(tasks, None),
        succeeded_count(tasks) <= tasks.len(),
    decreases tasks.len(),
{
    if tasks.len() > 0 {
        completed_seconds_are_some(tasks.drop_last(), status);
    }
}

proof fn seconds_grow(tasks: Seq<TaskView>, k: int)
    requires
        0 <= k <= tasks.len(),
    ensures
        seconds_of(tasks.take(k), None) <= seconds_of(tasks, None),
    decreases tasks.len() - k,
{
    if k < tasks.len() {
        seconds_grow(tasks, k + 1);
        assert(tasks.take(k + 1).drop_last() =~= tasks.take(k));
    } else {
        assert(tasks.take(k) =~= tasks);
    }
}

/// What the progress of a workflow is reckoned from.
#[derive(Clone, Copy, Debug, PartialEq, Eq)]
pub struct ProgressBasis {
    pub total_tasks: usize,
    pub completed_tasks: usize,
    pub total_seconds: u64,
    pub completed_seconds: u64,
    /// The planned seconds of the running task, and those that have passed since it began.
    pub running: Option<(u64, i64)>,
}

/// The seconds since a task began, where it says when.
pub open spec fn elapsed(started_at: Seq<char>, now: Instant) -> Option<i64> {
    if started_at.len() == 0 {
        None
    } else {
        match instant_of(started_at) {
            Some(t) => seconds_from(t, now),
            None => None,
        }
    }
}

/// The planned and the passed seconds of the running task, where there is one that says when it
/// began.
pub open spec fn running_times(tasks: Seq<TaskView>, now: Instant) -> Option<(u64, i64)> {
    match running_place(tasks) {
        Some(p) => match elapsed(tasks[p].started_at, now) {
            Some(e) => Some((tasks[p].duration, e)),
            None => None,
        },
        None => None,
    }
}

/// What the progress is reckoned from: nothing where the seconds cannot be added up.
pub open spec fn progress_basis(tasks: Seq<TaskView>, now: Instant) -> Option<ProgressBasis> {
    if seconds_of(tasks, None) > u64::MAX {
        None
    } else {
        Some(
            ProgressBasis {
                total_tasks: tasks.len() as usize,
                completed_tasks: succeeded_count(tasks) as usize,
                total_seconds: seconds_of(tasks, None) as u64,
                completed_seconds: seconds_of(tasks, Some("STATE_SUCCESS"@)) as u64,
                running: running_times(tasks, now),
            },
        )
    }
}

fn find_running(tasks: &Vec<TaskInfo>) -> (r: Option<usize>)
    ensures
        (match r {
            Some(p) => Some(p as int),
            None => None,
        }) == running_place(tasks.deep_view()),
        r matches Some(p) ==> p < tasks@.len() && tasks@[p as int].status@ == "STATE_RUNNING"@,
{
    let ghost all = tasks.deep_view();
    let mut n: usize = tasks.len();
    assert(all.take(n as int) =~= all);
    while n > 0
        invariant
            n <= tasks.len(),
            all == tasks.deep_view(),
            running_place(all) == running_place(all.take(n as int)),
        decreases n,
    {
        assert(all.take(n as int).drop_last() =~= all.take(n - 1));
        assert(all.take(n as int).last() == tasks@[n - 1].deep_view());
        if same(tasks[n - 1].status.as_str(), "STATE_RUNNING") {
            return Some(n - 1);
        }
        n = n - 1;
    }
    None
}

fn time_since(started_at: &str, now: Instant) -> (r: Option<i64>)
    ensures
        r == elapsed(started_at@, now),
{
    if started_at.is_empty() {
        return None;
    }
    match read_instant(started_at) {
        Some(t) => seconds_between(t, now),
        None => None,
    }
}

/// What the progress of a workflow is reckoned from; nothing where the seconds of its tasks
/// cannot be added up.
pub fn measure_progress(tasks: &Vec<TaskInfo>, now: Instant) -> (r: Option<ProgressBasis>)
    ensures
        r == progress_basis(tasks.deep_view(), now),
{
    let ghost all = tasks.deep_view();
    let mut total: u64 = 0;
    let mut completed: u64 = 0;
    let mut count: usize = 0;
    let mut i: usize = 0;
    assert(all.take(0) =~= Seq::empty());
    while i < tasks.len()
        invariant
            i <= tasks.len(),
            all == tasks.deep_view(),
            total == seconds_of(all.take(i as int), None),
            completed == seconds_of(all.take(i as int), Some("STATE_SUCCESS"@)),
            count == succeeded_count(all.take(i as int)),
        decreases tasks.len() - i,
    {
        proof {
            assert(all.take(i + 1).drop_last() =~= all.take(i as int));
            assert(all.take(i + 1).last() == tasks@[i as int].deep_view());
            seconds_grow(all, i + 1);
            completed_seconds_are_some(all.take(i + 1), "STATE_SUCCESS"@);
        }
        match total.checked_add(tasks[i].duration) {
            Some(t) => {
                total = t;
            },
            None => {
                return None;
            },
        }
        if same(tasks[i].status.as_str(), "STATE_SUCCESS") {
            completed = completed + tasks[i].duration;
            count = count + 1;
        }
        i = i + 1;
    }
    assert(all.take(all.len() as int) =~= all);
    let running: Option<(u64, i64)> = match find_running(tasks) {
        Some(p) => match time_since(tasks[p].started_at.as_str(), now) {
            Some(e) => Some((tasks[p].duration, e)),
            None => None,
        },
        None => None,
    };
    Some(
        ProgressBasis {
            total_tasks: tasks.len(),
            completed_tasks: count,
            total_seconds: total,
            completed_seconds: completed,
            running,
        },
    )
}

/// Of the tasks of a workflow no more have succeeded than there are, and they took no longer than
/// all of them together.
pub proof fn progress_is_a_part(tasks: Seq<TaskView>, now: Instant)
    requires
        tasks.len() <= usize::MAX,
    ensures
        progress_basis(tasks, now) matches Some(b) ==> b.completed_tasks <= b.total_tasks
            && b.completed_seconds <= b.total_seconds,
{
    completed_seconds_are_some(tasks, "STATE_SUCCESS"@);
}

// ---------------------------------------------------------------------------------------------
// When it will be done
// ---------------------------------------------------------------------------------------------

/// Adds durations to a number of seconds; nothing where that goes out of range.
pub open spec fn added(start: int, durations: Seq<u64>) -> Option<int>
    decreases durations.len(),
{
    if durations.len() == 0 {
        Some(start)
    } else {
        match added(start, durations.drop_last()) {
            Some(s) => {
                let t = s + durations.last() as i64;
                if i64::MIN <= t <= i64::MAX {
                    Some(t)
                } else {
                    None
                }
            },
            None => None,
        }
    }
}

/// The place of the first task with a name that is running.
pub open spec fn current_place(tasks: Seq<TaskView>, name: Seq<char>, from: int) -> int
    decreases tasks.len() - from,
{
    if from < 0 || from >= tasks.len() {
        tasks.len() as int
    } else if tasks[from].name == name && tasks[from].status == "STATE_RUNNING"@ {
        from
    } else {
        current_place(tasks, name, from + 1)
    }
}

/// The durations of the tasks behind a place.
pub open spec fn durations_behind(tasks: Seq<TaskView>, place: int) -> Seq<u64> {
    if place + 1 <= tasks.len() {
        tasks.skip(place + 1).map_values(|t: TaskView| t.duration)
    } else {
        Seq::empty()
    }
}

/// The seconds that remain of a task; nothing where that goes out of range.
pub open spec fn seconds_left(expected: u64, elapsed: i64) -> Option<i64> {
    let left = expected as i64 - elapsed;
    if left < i64::MIN || left > i64::MAX {
        None
    } else if left < 0 {
        Some(0)
    } else {
        Some(left as i64)
    }
}

/// The seconds to tell of: those of the running task, and those of the tasks behind it as well
/// where it has less than ten to go.
pub open spec fn seconds_to_tell(tasks: Seq<TaskView>, place: int, elapsed: i64) -> Option<int> {
    match seconds_left(tasks[place].duration, elapsed) {
        Some(left) => if left < 10 {
            added(
                left as int,
                durations_behind(tasks, current_place(tasks, tasks[place].name, 0)),
            )
        } else {
            Some(left as int)
        },
        None => None,
    }
}

/// When a workflow will be done, in words: nothing where its times go out of range, else words
/// where it is under way with a running task that says when it began.
pub open spec fn completion(state: Seq<char>, tasks: Seq<TaskView>, now: Instant) -> Option<
    Option<Seq<char>>,
> {
    if state == "STATE_SUCCESS"@ || state == "STATE_FAILED"@ {
        Some(None)
    } else {
        match running_place(tasks) {
            Some(p) => match elapsed(tasks[p].started_at, now) {
                Some(e) => match seconds_to_tell(tasks, p, e) {
                    Some(s) => Some(Some(remaining_words(s as i64))),
                    None => None,
                },
                None => Some(None),
            },
            None => Some(None),
        }
    }
}

proof fn added_is_in_range(start: int, durations: Seq<u64>)
    requires
        i64::MIN <= start <= i64::MAX,
    ensures
        added(start, durations) matches Some(s) ==> i64::MIN <= s <= i64::MAX,
    decreases durations.len(),
{
    if durations.len() > 0 {
        added_is_in_range(start, durations.drop_last());
    }
}

proof fn added_stops(start: int, durations: Seq<u64>, k: int)
    requires
        0 <= k <= durations.len(),
        added(start, durations.take(k)) is None,
    ensures
        added(start, durations) is None,
    decreases durations.len() - k,
{
    if k < durations.len() {
        assert(durations.take(k + 1).drop_last() =~= durations.take(k));
        added_stops(start, durations, k + 1);
    } else {
        assert(durations.take(k) =~= durations);
    }
}

fn find_current(tasks: &Vec<TaskInfo>, name: &str) -> (r: usize)
    ensures
        r == current_place(tasks.deep_view(), name@, 0),
        r <= tasks@.len(),
{
    let ghost all = tasks.deep_view();
    let mut i: usize = 0;
    while i < tasks.len()
        invariant
            i <= tasks.len(),
            all == tasks.deep_view(),
            current_place(all, name@, 0) == current_place(all, name@, i as int),
        decreases tasks.len() - i,
    {
        assert(all[i as int] == tasks@[i as int].deep_view());
        if same(tasks[i].name.as_str(), name) && same(tasks[i].status.as_str(), "STATE_RUNNING") {
            return i;
        }
        i = i + 1;
    }
    tasks.len()
}

fn add_behind(tasks: &Vec<TaskInfo>, place: usize, start: i64) -> (r: Option<i64>)
    requires
        place <= tasks@.len(),
    ensures
        (match r {
            Some(s) => Some(s as int),
            None => None,
        }) == added(start as int, durations_behind(tasks.deep_view(), place as int)),
{
    let ghost behind = durations_behind(tasks.deep_view(), place as int);
    let n: usize = tasks.len();
    if place == n {
        return Some(start);
    }
    let mut total: i64 = start;
    let mut i: usize = place + 1;
    assert(behind.take(0) =~= Seq::empty());
    while i < n
        invariant
            place + 1 <= i <= n,
            n == tasks@.len(),
            behind == durations_behind(tasks.deep_view(), place as int),
            behind.len() == n - place - 1,
            added(start as int, behind.take(i - place - 1)) == Some(total as int),
        decreases n - i,
    {
        let ghost k = i - place - 1;
        proof {
            assert(behind[k] == tasks@[i as int].duration);
            assert(behind.take(k + 1).drop_last() =~= behind.take(k));
            assert(behind.take(k + 1).last() == behind[k]);
        }
        match total.checked_add(as_signed(tasks[i].duration)) {
            Some(t) => {
                total = t;
            },
            None => {
                proof {
                    added_stops(start as int, behind, k + 1);
                }
                return None;
            },
        }
        i = i + 1;
    }
    assert(behind.take(behind.len() as int) =~= behind);
    Some(total)
}

fn left_of(expected: u64, elapsed: i64) -> (r: Option<i64>)
    ensures
        r == seconds_left(expected, elapsed),
{
    match as_signed(expected).checked_sub(elapsed) {
        Some(left) => if left < 0 {
            Some(0)
        } else {
            Some(left)
        },
        None => None,
    }
}

/// Estimates when a workflow will be done. Gives nothing where the times of its tasks go out of
/// range.
pub fn estimate_completion(state: &str, tasks: &Vec<TaskInfo>, now: Instant) -> (r: Option<
    Option<String>,
>)
    ensures
        r.deep_view() == completion(state@, tasks.deep_view(), now),
{
    if same(state, "STATE_SUCCESS") || same(state, "STATE_FAILED") {
        return Some(None);
    }
    let place = match find_running(tasks) {
        Some(p) => p,
        None => {
            return Some(None);
        },
    };
    assert(tasks.deep_view()[place as int] == tasks@[place as int].deep_view());
    let elapsed = match time_since(tasks[place].started_at.as_str(), now) {
        Some(e) => e,
        None => {
            return Some(None);
        },
    };
    let left = match left_of(tasks[place].duration, elapsed) {
        Some(l) => l,
        None => {
            return None;
        },
    };
    if left < 10 {
        let current: usize = find_current(tasks, tasks[place].name.as_str());
        match add_behind(tasks, current, left) {
            Some(total) => Some(format_remaining_time(total)),
            None => None,
        }
    } else {
        Some(format_remaining_time(left))
    }
}

// ---------------------------------------------------------------------------------------------
// Machines that have booted already
// ---------------------------------------------------------------------------------------------

/// The name of the action that boots into the installed system.
pub open spec fn boot_action() -> Seq<char> {
    "kexec to boot OS"@
}

/// The last action of a task is the boot, and began more than thirty minutes ago.
pub open spec fn boot_overdue(task: JsonView, now: Instant) -> bool {
    match task.items_at("actions"@) {
        Some(actions) if actions.len() > 0 => actions.last().text_at("name"@) == Some(boot_action())
            && match actions.last().text_at("startedAt"@) {
            Some(started_at) => match instant_of(started_at) {
                Some(t) => match seconds_from(t, now) {
                    Some(s) => s >= 31 * 60,
                    None => false,
                },
                None => false,
            },
            None => false,
        },
        _ => false,
    }
}

/// The boot of one of the tasks is overdue.
pub open spec fn any_overdue(tasks: Seq<JsonView>, now: Instant) -> bool {
    exists|i: int| 0 <= i < tasks.len() && boot_overdue(#[trigger] tasks[i], now)
}

/// The workflow is running, at the boot into the installed system, and that is overdue.
pub open spec fn has_timed_out(
    status: JsonView,
    current_action: Option<Seq<char>>,
    now: Instant,
) -> bool {
    &&& status.text_at("state"@) == Some("STATE_RUNNING"@)
    &&& current_action == Some(boot_action())
    &&& status.items_at("tasks"@) matches Some(tasks) && any_overdue(tasks, now)
}

fn is_overdue(task: &Json, now: Instant) -> (r: bool)
    ensures
        r == boot_overdue(task.deep_view(), now),
{
    match task.items_at("actions") {
        Some(actions) => {
            let n: usize = actions.len();
            if n == 0 {
                return false;
            }
            let last = &actions[n - 1];
            assert(list_view(actions@).last() == last.deep_view());
            let boots = match last.text_at("name") {
                Some(name) => same(name, "kexec to boot OS"),
                None => false,
            };
            if !boots {
                return false;
            }
            match last.text_at("startedAt") {
                Some(started_at) => match read_instant(started_at) {
                    Some(t) => match seconds_between(t, now) {
                        Some(s) => s >= 31 * 60,
                        None => false,
                    },
                    None => false,
                },
                None => false,
            }
        },
        None => false,
    }
}

/// Whether a workflow is running, at the boot into the installed system, and that is overdue.
pub fn is_workflow_timed_out(status: &Json, current_action: Option<&str>, now: Instant) -> (r: bool)
    ensures
        r == has_timed_out(
            status.deep_view(),
            match current_action {
                Some(a) => Some(a@),
                None => None,
            },
            now,
        ),
{
    let running = match status.text_at("state") {
        Some(state) => same(state, "STATE_RUNNING"),
        None => false,
    };
    let boots = match current_action {
        Some(action) => same(action, "kexec to boot OS"),
        None => false,
    };
    if !running || !boots {
        return false;
    }
    match status.items_at("tasks") {
        Some(tasks) => {
            let ghost all = list_view(tasks@);
            let mut i: usize = 0;
            while i < tasks.len()
                invariant
                    i <= tasks.len(),
                    all == list_view(tasks@),
                    running,
                    boots,
                    status.deep_view().items_at("tasks"@) == Some(all),
                    status.deep_view().text_at("state"@) == Some("STATE_RUNNING"@),
                    current_action matches Some(a) && a@ == boot_action(),
                    forall|j: int| 0 <= j < i ==> !boot_overdue(#[trigger] all[j], now),
                decreases tasks.len() - i,
            {
                assert(all[i as int] == tasks@[i as int].deep_view());
                if is_overdue(&tasks[i], now) {
                    return true;
                }
                i = i + 1;
            }
            false
        },
        None => false,
    }
}

/// A workflow whose machine has booted into the installed system, as far as can be told.
pub open spec fn has_booted(status: JsonView, now: Instant) -> bool {
    let action = status.text_at("currentAction"@);
    (status.text_at("state"@) == Some("STATE_RUNNING"@) && action == Some(boot_action()))
        || has_timed_out(status, action, now)
}

// ---------------------------------------------------------------------------------------------
// The whole
// ---------------------------------------------------------------------------------------------

/// What a workflow under way, or at its end, says.
#[derive(Debug, PartialEq, Eq)]
pub struct WorkflowStatus {
    pub state: String,
    pub current_action: Option<String>,
    pub template_name: String,
    pub tasks: Vec<TaskInfo>,
    pub progress: ProgressBasis,
    pub estimated_completion: Option<String>,
    /// It succeeded, with all of its tasks: the times are to be kept, and the machine is ready.
    pub succeeded: bool,
    /// It failed: so has the machine.
    pub failed: bool,
}

/// `WorkflowStatus` as a mathematical value.
pub struct WorkflowStatusView {
    pub state: Seq<char>,
    pub current_action: Option<Seq<char>>,
    pub template_name: Seq<char>,
    pub tasks: Seq<TaskView>,
    pub progress: ProgressBasis,
    pub estimated_completion: Option<Seq<char>>,
    pub succeeded: bool,
    pub failed: bool,
}

impl DeepView for WorkflowStatus {
    type V = WorkflowStatusView;

    open spec fn deep_view(&self) -> WorkflowStatusView {
        WorkflowStatusView {
            state: self.state@,
            current_action: self.current_action.deep_view(),
            template_name: self.template_name@,
            tasks: self.tasks.deep_view(),
            progress: self.progress,
            estimated_completion: self.estimated_completion.deep_view(),
            succeeded: self.succeeded,
            failed: self.failed,
        }
    }
}

/// What a workflow says.
#[derive(Debug, PartialEq, Eq)]
pub enum WorkflowReading {
    /// Its machine has booted already: the machine is ready, and the workflow can go.
    Booted(WorkflowInfo),
    /// Where it stands.
    Status(WorkflowStatus),
}

/// `WorkflowReading` as a mathematical value.
pub enum WorkflowReadingView {
    Booted(WorkflowInfoView),
    Status(WorkflowStatusView),
}

impl DeepView for WorkflowReading {
    type V = WorkflowReadingView;

    open spec fn deep_view(&self) -> WorkflowReadingView {
        match self {
            WorkflowReading::Booted(info) => WorkflowReadingView::Booted(info.deep_view()),
            WorkflowReading::Status(status) => WorkflowReadingView::Status(status.deep_view()),
        }
    }
}

/// The template of a workflow.
pub open spec fn template_of(workflow: JsonView) -> Seq<char> {
    match workflow.field2("spec"@, "templateRef"@) {
        Some(v) => v.text().unwrap_or("unknown"@),
        None => "unknown"@,
    }
}

/// All of the tasks have succeeded.
pub open spec fn all_succeeded(tasks: Seq<TaskView>) -> bool {
    forall|i: int| 0 <= i < tasks.len() ==> (#[trigger] tasks[i]).status == "STATE_SUCCESS"@
}

/// What is shown of a workflow whose machine has booted already.
pub open spec fn booted_info(template: Seq<char>) -> WorkflowInfoView {
    WorkflowInfoView {
        state: "STATE_SUCCESS"@,
        current_action: Some("Completed via kexec detection"@),
        progress: 100,
        tasks: Seq::empty(),
        estimated_completion: Some("Deployment complete"@),
        template_name: template,
    }
}

/// What a workflow with these tasks says.
pub open spec fn status_of(
    status: JsonView,
    template: Seq<char>,
    tasks: Seq<TaskView>,
    now: Instant,
) -> Result<WorkflowStatusView, TimesOutOfRange> {
    let state = status.text_at("state"@).unwrap_or("UNKNOWN"@);
    match (progress_basis(tasks, now), completion(state, tasks, now)) {
        (Some(progress), Some(estimated_completion)) => Ok(
            WorkflowStatusView {
                state,
                current_action: status.text_at("currentAction"@),
                template_name: template,
                tasks,
                progress,
                estimated_completion,
                succeeded: state == "STATE_SUCCESS"@ && all_succeeded(tasks),
                failed: state == "STATE_FAILED"@,
            },
        ),
        _ => Err(TimesOutOfRange {  }),
    }
}

/// `r` is what a workflow says: nothing without a status. Where averages for its actions can come
/// from more than one template, they come from any of them. It is an error where a sum that one of
/// these averages takes cannot be formed, or where the times of the tasks cannot be reckoned with.
pub open spec fn is_reading(
    workflow: JsonView,
    m: Map<Seq<char>, Map<Seq<char>, Seq<u64>>>,
    now: Instant,
    r: Result<Option<WorkflowReadingView>, TimesOutOfRange>,
) -> bool {
    match workflow.field("status"@) {
        None => r == Ok::<Option<WorkflowReadingView>, TimesOutOfRange>(None),
        Some(status) => if has_booted(status, now) {
            r == Ok::<_, TimesOutOfRange>(
                Some(WorkflowReadingView::Booted(booted_info(template_of(workflow)))),
            )
        } else {
            ||| r is Err && is_beyond_plan(action_reports(status), m, template_of(workflow))
            ||| exists|tasks: Seq<TaskView>| #[trigger]
                is_plan(action_reports(status), m, template_of(workflow), tasks) && r == (
                match status_of(status, template_of(workflow), tasks, now) {
                    Ok(s) => Ok(Some(WorkflowReadingView::Status(s))),
                    Err(e) => Err(e),
                })
        },
    }
}

fn have_all_succeeded(tasks: &Vec<TaskInfo>) -> (r: bool)
    ensures
        r == all_succeeded(tasks.deep_view()),
{
    let mut i: usize = 0;
    while i < tasks.len()
        invariant
            i <= tasks.len(),
            forall|j: int|
                0 <= j < i ==> (#[trigger] tasks.deep_view()[j]).status == "STATE_SUCCESS"@,
        decreases tasks.len() - i,
    {
        assert(tasks.deep_view()[i as int] == tasks@[i as int].deep_view());
        if !same(tasks[i].status.as_str(), "STATE_SUCCESS") {
            return false;
        }
        i = i + 1;
    }
    true
}

/// What a workflow with these tasks says.
pub fn read_status(status: &Json, template: &str, tasks: Vec<TaskInfo>, now: Instant) -> (r: Result<
    WorkflowStatus,
    TimesOutOfRange,
>)
    ensures
        (match r {
            Ok(s) => Ok(s.deep_view()),
            Err(e) => Err(e),
        }) == status_of(status.deep_view(), template@, tasks.deep_view(), now),
{
    let state = match status.text_at("state") {
        Some(s) => s,
        None => "UNKNOWN",
    };
    let progress = match measure_progress(&tasks, now) {
        Some(p) => p,
        None => {
            return Err(TimesOutOfRange {  });
        },
    };
    let estimated_completion: Option<String> = match estimate_completion(state, &tasks, now) {
        Some(e) => e,
        None => {
            return Err(TimesOutOfRange {  });
        },
    };
    let current_action: Option<String> = match status.text_at("currentAction") {
        Some(a) => Some(a.to_owned()),
        None => None,
    };
    let succeeded = same(state, "STATE_SUCCESS") && have_all_succeeded(&tasks);
    Ok(
        WorkflowStatus {
            state: state.to_owned(),
            current_action,
            template_name: template.to_owned(),
            tasks,
            progress,
            estimated_completion,
            succeeded,
            failed: same(state, "STATE_FAILED"),
        },
    )
}

/// What a workflow says of the installation that it carries out.
pub fn get_workflow_info(workflow: &Json, timings: &Timings, now: Instant) -> (r: Result<
    Option<WorkflowReading>,
    TimesOutOfRange,
>)
    requires
        timings.wf(),
    ensures
        is_reading(
            workflow.deep_view(),
            timings@,
            now,
            match r {
                Ok(reading) => Ok(reading.deep_view()),
                Err(e) => Err(e),
            },
        ),
{
    let template: String = match workflow.get2("spec", "templateRef") {
        Some(v) => match v.as_str() {
            Some(t) => t.to_owned(),
            None => "unknown".to_owned(),
        },
        None => "unknown".to_owned(),
    };
    let status = match workflow.get("status") {
        Some(s) => s,
        None => {
            return Ok(None);
        },
    };
    let action = status.text_at("currentAction");
    let running = match status.text_at("state") {
        Some(state) => same(state, "STATE_RUNNING"),
        None => false,
    };
    let boots = match action {
        Some(a) => same(a, "kexec to boot OS"),
        None => false,
    };
    if (running && boots) || is_workflow_timed_out(status, action, now) {
        let tasks: Vec<TaskInfo> = Vec::new();
        assert(tasks.deep_view() =~= Seq::empty());
        return Ok(
            Some(
                WorkflowReading::Booted(
                    WorkflowInfo {
                        state: "STATE_SUCCESS".to_owned(),
                        current_action: Some("Completed via kexec detection".to_owned()),
                        progress: 100,
                        tasks,
                        estimated_completion: Some("Deployment complete".to_owned()),
                        template_name: template,
                    },
                ),
            ),
        );
    }
    let reports: Vec<ActionReport> = read_actions(status);
    let tasks: Vec<TaskInfo> = match plan_tasks(&reports, template.as_str(), timings) {
        Ok(tasks) => tasks,
        Err(e) => {
            return Err(e);
        },
    };
    let ghost planned = tasks.deep_view();
    match read_status(status, template.as_str(), tasks, now) {
        Ok(s) => {
            assert(is_plan(
                action_reports(status.deep_view()),
                timings@,
                template_of(workflow.deep_view()),
                planned,
            ));
            Ok(Some(WorkflowReading::Status(s)))
        },
        Err(e) => {
            assert(is_plan(
                action_reports(status.deep_view()),
                timings@,
                template_of(workflow.deep_view()),
                planned,
            ));
            Err(e)
        },
    }
}

impl WorkflowStatus {
    /// What is shown of the workflow, with its progress in percent.
    pub fn into_info(self, progress: u8) -> (r: WorkflowInfo)
        ensures
            r.deep_view() == (WorkflowInfoView {
                state: self.state@,
                current_action: self.current_action.deep_view(),
                progress,
                tasks: self.tasks.deep_view(),
                estimated_completion: self.estimated_completion.deep_view(),
                template_name: self.template_name@,
            }),
    {
        WorkflowInfo {
            state: self.state,
            current_action: self.current_action,
            progress,
            tasks: self.tasks,
            estimated_completion: self.estimated_completion,
            template_name: self.template_name,
        }
    }

    /// The runs to be recorded of the workflow: what each of its actions reported.
    pub fn runs(&self) -> (r: Vec<ActionRun>)
        ensures
            runs_view(r@) == self.tasks.deep_view().map_values(
                |t: TaskView| (t.name, t.reported_duration),
            ),
    {
        let ghost want = self.tasks.deep_view().map_values(
            |t: TaskView| (t.name, t.reported_duration),
        );
        let mut runs: Vec<ActionRun> = Vec::new();
        let mut i: usize = 0;
        while i < self.tasks.len()
            invariant
                i <= self.tasks.len(),
                want == self.tasks.deep_view().map_values(
                    |t: TaskView| (t.name, t.reported_duration),
                ),
                runs_view(runs@) == want.take(i as int),
            decreases self.tasks.len() - i,
        {
            let ghost before = runs_view(runs@);
            let run = ActionRun {
                action: self.tasks[i].name.clone(),
                duration: self.tasks[i].reported_duration,
            };
            runs.push(run);
            i = i + 1;
            assert(runs_view(runs@) =~= before.push((run.action@, run.duration)));
            assert(runs_view(runs@) =~= want.take(i as int));
        }
        assert(want.take(want.len() as int) =~= want);
        runs
    }
}

/// The status of the machine after its workflow: ready where that succeeded with all of its
/// tasks, in error where it failed; else it stays as it is.
pub open spec fn status_after(succeeded: bool, failed: bool) -> Option<StatusView> {
    if failed {
        Some(StatusView::Error("OS installation failed"@))
    } else if succeeded {
        Some(StatusView::Ready)
    } else {
        None
    }
}

/// The status to be recorded for the machine of a workflow, if it changes.
pub fn machine_status_after(succeeded: bool, failed: bool) -> (r: Option<MachineStatus>)
    ensures
        r.deep_view() == status_after(succeeded, failed),
{
    if failed {
        Some(MachineStatus::Error("OS installation failed".to_owned()))
    } else if succeeded {
        Some(MachineStatus::Ready)
    } else {
        None
    }
}

/// A workflow never both succeeds and fails, and one that failed tells no time of completion.
pub proof fn no_success_with_failure(
    status: JsonView,
    template: Seq<char>,
    tasks: Seq<TaskView>,
    now: Instant,
)
    ensures
        status_of(status, template, tasks, now) matches Ok(s) ==> !(s.succeeded && s.failed) && (
        s.failed || s.succeeded ==> s.estimated_completion is None),
{
    reveal_strlit("STATE_SUCCESS");
    reveal_strlit("STATE_FAILED");
    assert("STATE_SUCCESS"@[6] != "STATE_FAILED"@[6]);
}

// ---------------------------------------------------------------------------------------------
// What following an installation amounts to
// ---------------------------------------------------------------------------------------------

/// The seconds that remain of a task are those that it is expected to take without those that have
/// passed, and none once it is overdue: never more than expected, and never more later on.
pub proof fn time_left_falls(expected: u64, elapsed: i64, later: i64)
    requires
        expected <= i64::MAX,
        elapsed <= later,
        expected - elapsed <= i64::MAX,
    ensures
        seconds_left(expected, elapsed) matches Some(left) && (if elapsed < expected {
            left + elapsed == expected
        } else {
            left == 0
        }),
        elapsed >= 0 ==> seconds_left(expected, elapsed)->0 <= expected,
        seconds_left(expected, later) matches Some(left) && left <= seconds_left(
            expected,
            elapsed,
        )->0,
{
}

proof fn running_place_is_last(tasks: Seq<TaskView>, p: int)
    requires
        0 <= p < tasks.len(),
        tasks[p].status == "STATE_RUNNING"@,
        forall|j: int| p < j < tasks.len() ==> (#[trigger] tasks[j]).status != "STATE_RUNNING"@,
    ensures
        running_place(tasks) == Some(p),
    decreases tasks.len(),
{
    if p < tasks.len() - 1 {
        assert(tasks[tasks.len() - 1].status != "STATE_RUNNING"@);
        running_place_is_last(tasks.drop_last(), p);
    }
}

proof fn current_place_is_found(tasks: Seq<TaskView>, p: int, from: int)
    requires
        0 <= from <= p < tasks.len(),
        tasks[p].status == "STATE_RUNNING"@,
        forall|j: int| 0 <= j < p ==> (#[trigger] tasks[j]).status != "STATE_RUNNING"@,
    ensures
        current_place(tasks, tasks[p].name, from) == p,
    decreases p - from,
{
    if from < p {
        assert(tasks[from].status != "STATE_RUNNING"@);
        current_place_is_found(tasks, p, from + 1);
    }
}

proof fn added_is_the_sum(start: int, tasks: Seq<TaskView>)
    requires
        0 <= start,
        start + seconds_of(tasks, None) <= i64::MAX,
    ensures
        added(start, tasks.map_values(|t: TaskView| t.duration)) == Some(
            start + seconds_of(tasks, None),
        ),
    decreases tasks.len(),
{
    let durations = tasks.map_values(|t: TaskView| t.duration);
    if tasks.len() > 0 {
        added_is_the_sum(start, tasks.drop_last());
        assert(durations.drop_last() =~= tasks.drop_last().map_values(|t: TaskView| t.duration));
        assert(durations.last() == tasks.last().duration);
    }
}

/// What is told of a workflow under way is the time that remains: of its running task and, where that
/// has less than ten seconds to go, of the tasks behind it too. An overdue task has nothing left, so an
/// overdue last task is about to complete.
pub proof fn remaining_time_is_told(
    state: Seq<char>,
    tasks: Seq<TaskView>,
    now: Instant,
    p: int,
    e: i64,
)
    requires
        state != "STATE_SUCCESS"@,
        state != "STATE_FAILED"@,
        0 <= p < tasks.len(),
        tasks[p].status == "STATE_RUNNING"@,
        forall|j: int|
            0 <= j < tasks.len() && j != p ==> (#[trigger] tasks[j]).status != "STATE_RUNNING"@,
        elapsed(tasks[p].started_at, now) == Some(e),
        tasks[p].duration <= i64::MAX,
        tasks[p].duration - e + seconds_of(tasks.skip(p + 1), None) <= i64::MAX,
        seconds_of(tasks.skip(p + 1), None) <= i64::MAX,
    ensures
        tasks[p].duration - e >= 10 ==> completion(state, tasks, now) == Some(
            Some(remaining_words((tasks[p].duration - e) as i64)),
        ),
        0 <= tasks[p].duration - e < 10 ==> completion(state, tasks, now) == Some(
            Some(
                remaining_words(
                    (tasks[p].duration - e + seconds_of(tasks.skip(p + 1), None)) as i64,
                ),
            ),
        ),
        e >= tasks[p].duration ==> completion(state, tasks, now) == Some(
            Some(remaining_words(seconds_of(tasks.skip(p + 1), None) as i64)),
        ),
        e >= tasks[p].duration && p == tasks.len() - 1 ==> completion(state, tasks, now) == Some(
            Some("Completing soon"@),
        ),
{
    running_place_is_last(tasks, p);
    current_place_is_found(tasks, p, 0);
    let left = if tasks[p].duration >= e {
        tasks[p].duration - e
    } else {
        0
    };
    let behind = tasks.skip(p + 1);
    added_is_the_sum(left, behind);
    if p == tasks.len() - 1 {
        assert(behind.len() == 0);
    }
}

/// A workflow that has ended tells no time, and neither does one without a running task.
pub proof fn no_time_is_told_at_the_end(state: Seq<char>, tasks: Seq<TaskView>, now: Instant)
    ensures
        state == "STATE_SUCCESS"@ || state == "STATE_FAILED"@ ==> completion(state, tasks, now)
            == Some(None::<Seq<char>>),
        (forall|j: int|
            0 <= j < tasks.len() ==> (#[trigger] tasks[j]).status != "STATE_RUNNING"@)
            ==> completion(state, tasks, now) == Some(None::<Seq<char>>),
{
    running_place_is_one(tasks);
}

/// How a time reads: hours and minutes, each only where there are some, in the singular or the plural.
pub proof fn times_are_read_as_hours_and_minutes(h: nat, m: nat, rest: nat)
    requires
        m < 60,
        rest < 60,
        0 < h + m,
        h * 3600 + m * 60 + rest <= i64::MAX,
    ensures
        remaining_words((h * 3600 + m * 60 + rest) as i64) == "Approximately "@ + (if h == 0 {
            Seq::empty()
        } else if h == 1 {
            "1 hour"@
        } else {
            decimal(h) + " hours"@
        }) + (if h > 0 && m > 0 {
            " and "@
        } else {
            Seq::empty()
        }) + (if m == 0 {
            Seq::empty()
        } else if m == 1 {
            "1 minute"@
        } else {
            decimal(m) + " minutes"@
        }) + " remaining"@,
{
    let s = (h * 3600 + m * 60 + rest) as i64;
    assert(s as int / 60 == h * 60 + m);
    assert((h * 60 + m) / 60 == h);
    assert((h * 60 + m) % 60 == m);
    reveal_strlit("1 hour");
    reveal_strlit(" hour");
    reveal_strlit(" hours");
    reveal_strlit("1 minute");
    reveal_strlit(" minute");
    reveal_strlit(" minutes");
    reveal_strlit("");
    reveal_strlit("s");
    assert(decimal(1) =~= seq!['1']);
    let a = "Approximately "@;
    assert(decimal(1) + " hour"@ =~= "1 hour"@);
    assert(decimal(1) + " minute"@ =~= "1 minute"@);
    assert(" hour"@ + "s"@ =~= " hours"@);
    assert(" minute"@ + "s"@ =~= " minutes"@);
    assert(remaining_words(s) =~= a + (if h == 0 {
        Seq::empty()
    } else if h == 1 {
        "1 hour"@
    } else {
        decimal(h) + " hours"@
    }) + (if h > 0 && m > 0 {
        " and "@
    } else {
        Seq::empty()
    }) + (if m == 0 {
        Seq::empty()
    } else if m == 1 {
        "1 minute"@
    } else {
        decimal(m) + " minutes"@
    }) + " remaining"@);
}

/// Less than a minute is told as that, and no time at all as the end.
pub proof fn short_times_are_told(seconds: i64)
    ensures
        seconds <= 0 <==> remaining_words(seconds) == "Completing soon"@,
        0 < seconds < 60 <==> remaining_words(seconds) == "Less than a minute remaining"@,
{
    reveal_strlit("Completing soon");
    reveal_strlit("Less than a minute remaining");
    reveal_strlit("Approximately ");
    assert("Completing soon"@[0] == 'C');
    assert("Less than a minute remaining"@[0] == 'L');
    assert("Approximately "@[0] == 'A');
    if seconds >= 60 {
        assert(remaining_words(seconds)[0] == "Approximately "@[0]);
    }
}

/// The actions of a workflow are those of its tasks, task after task.
pub proof fn actions_come_in_order(tasks: Seq<JsonView>, more: Seq<JsonView>)
    ensures
        actions_of(tasks + more) == actions_of(tasks) + actions_of(more),
        tasks.len() == 1 ==> actions_of(tasks) == (match tasks[0].items_at("actions"@) {
            Some(actions) => actions,
            None => Seq::empty(),
        }),
    decreases more.len(),
{
    if tasks.len() == 1 {
        assert(tasks.drop_last() =~= Seq::empty());
        assert(actions_of(tasks.drop_last()) == Seq::<JsonView>::empty());
        assert(actions_of(tasks) =~= tasks[0].items_at("actions"@).unwrap_or(Seq::empty()));
    }
    if more.len() == 0 {
        assert(tasks + more =~= tasks);
        assert(actions_of(tasks) + actions_of(more) =~= actions_of(tasks));
    } else {
        actions_come_in_order(tasks, more.drop_last());
        assert((tasks + more).drop_last() =~= tasks + more.drop_last());
        assert((tasks + more).last() == more.last());
        assert(actions_of(tasks + more) =~= actions_of(tasks) + actions_of(more));
    }
}

/// Every action of a workflow is reported, at its place, with what its own fields say.
pub proof fn actions_are_reported(status: JsonView, tasks: Seq<JsonView>, i: int)
    requires
        status.items_at("tasks"@) == Some(tasks),
        0 <= i < actions_of(tasks).len(),
    ensures
        action_reports(status).len() == actions_of(tasks).len(),
        ({
            let action = actions_of(tasks)[i];
            let report = action_reports(status)[i];
            &&& action.text_at("name"@) matches Some(name) ==> report.name == name
            &&& action.text_at("status"@) matches Some(s) ==> report.status == s
            &&& action.text_at("startedAt"@) matches Some(s) ==> report.started_at == s
            &&& match action.field("seconds"@) {
                Some(JsonView::Number { signed: Some(n), .. }) => n >= 0 ==> report.seconds == n,
                _ => report.seconds == 0,
            }
            &&& action.text_at("name"@) is None ==> report.name == "unknown"@
            &&& action.text_at("status"@) is None ==> report.status == "UNKNOWN"@
            &&& action.text_at("startedAt"@) is None ==> report.started_at == ""@
        }),
{
}

/// A task keeps what its action reports. It is planned with the mean of the past runs of the action
/// under the same template, or with what it reports itself where no template has any; once it has
/// succeeded it counts with the time that it took.
pub proof fn tasks_are_planned_from_the_past(
    report: ActionReportView,
    m: Map<Seq<char>, Map<Seq<char>, Seq<u64>>>,
    template: Seq<char>,
    task: TaskView,
)
    requires
        is_task(report, m, template, task),
    ensures
        task.name == report.name,
        task.status == report.status,
        task.started_at == report.started_at,
        task.reported_duration == report.seconds,
        report.status == "STATE_SUCCESS"@ ==> task.duration == report.seconds,
        report.status != "STATE_SUCCESS"@ ==> task.duration == task.estimated_duration,
        m.contains_key(template) && m[template].contains_key(report.name)
            && m[template][report.name].len() > 0 ==> task.estimated_duration as int
            == crate::tinkerbell::timings::sum(m[template][report.name]) as int
            / m[template][report.name].len() as int,
        (forall|t: Seq<char>| !crate::tinkerbell::timings::has_data(m, t, report.name))
            ==> task.estimated_duration == report.seconds,
{
    if m.contains_key(template) && m[template].contains_key(report.name)
        && m[template][report.name].len() > 0 {
        let d = m[template][report.name];
        let total = crate::tinkerbell::timings::sum(d) as int;
        let n = d.len() as int;
        assert(0 <= total / n <= total) by (nonlinear_arith)
            requires
                total >= 0,
                n >= 1,
        ;
        assert(crate::tinkerbell::timings::has_data(m, template, report.name));
    }
}

/// One task more counts once: its seconds are added to all, and to those completed, along with the
/// task, exactly if it has succeeded.
pub proof fn progress_counts_each_task_once(tasks: Seq<TaskView>, task: TaskView, now: Instant)
    requires
        tasks.len() < usize::MAX,
        progress_basis(tasks.push(task), now) is Some,
    ensures
        ({
            let before = progress_basis(tasks, now)->0;
            let after = progress_basis(tasks.push(task), now)->0;
            let succeeded = task.status == "STATE_SUCCESS"@;
            &&& progress_basis(tasks, now) is Some
            &&& after.total_tasks == before.total_tasks + 1
            &&& after.total_seconds == before.total_seconds + task.duration
            &&& after.completed_tasks == before.completed_tasks + (if succeeded {
                1int
            } else {
                0
            })
            &&& after.completed_seconds == before.completed_seconds + (if succeeded {
                task.duration as int
            } else {
                0
            })
        }),
        progress_basis(Seq::empty(), now) == Some(
            ProgressBasis {
                total_tasks: 0,
                completed_tasks: 0,
                total_seconds: 0,
                completed_seconds: 0,
                running: None,
            },
        ),
{
    assert(tasks.push(task).drop_last() =~= tasks);
    completed_seconds_are_some(tasks, "STATE_SUCCESS"@);
    completed_seconds_are_some(tasks.push(task), "STATE_SUCCESS"@);
}

/// The running task is told with the time that it is planned with, and the time since it began.
pub proof fn running_task_is_told(tasks: Seq<TaskView>, now: Instant, p: int)
    requires
        0 <= p < tasks.len(),
        tasks[p].status == "STATE_RUNNING"@,
        forall|j: int| p < j < tasks.len() ==> (#[trigger] tasks[j]).status != "STATE_RUNNING"@,
        progress_basis(tasks, now) is Some,
    ensures
        progress_basis(tasks, now)->0.running == (match instant_of(tasks[p].started_at) {
            Some(t) => if tasks[p].started_at.len() == 0 {
                None
            } else {
                match seconds_from(t, now) {
                    Some(e) => Some((tasks[p].duration, e)),
                    None => None,
                }
            },
            None => None,
        }),
{
    running_place_is_last(tasks, p);
}

/// A workflow counts as booted exactly where it is running and has come to the boot into the
/// installed system.
pub proof fn boot_is_the_end(status: JsonView, now: Instant)
    ensures
        has_booted(status, now) <==> status.text_at("state"@) == Some("STATE_RUNNING"@)
            && status.text_at("currentAction"@) == Some("kexec to boot OS"@),
{
}

/// The boot of a workflow has timed out exactly where it is at the boot, and a task ends with a boot
/// that began more than thirty full minutes ago.
pub proof fn boot_times_out(status: JsonView, action: Option<Seq<char>>, now: Instant)
    ensures
        has_timed_out(status, action, now) <==> (status.text_at("state"@) == Some(
            "STATE_RUNNING"@,
        ) && action == Some("kexec to boot OS"@) && status.items_at("tasks"@) is Some && exists|
            i: int,
        |
            0 <= i < status.items_at("tasks"@)->0.len() && ({
                let actions = (#[trigger] status.items_at("tasks"@)->0[i]).items_at("actions"@);
                &&& actions is Some
                &&& actions->0.len() > 0
                &&& actions->0.last().text_at("name"@) == Some("kexec to boot OS"@)
                &&& actions->0.last().text_at("startedAt"@) is Some
                &&& instant_of(actions->0.last().text_at("startedAt"@)->0) is Some
                &&& seconds_from(
                    instant_of(actions->0.last().text_at("startedAt"@)->0)->0,
                    now,
                ) matches Some(s) && s as int / 60 > 30
            })),
{
    if let Some(tasks) = status.items_at("tasks"@) {
        assert forall|i: int| 0 <= i < tasks.len() implies (boot_overdue(#[trigger] tasks[i], now)
            <==> ({
            let actions = tasks[i].items_at("actions"@);
            &&& actions is Some
            &&& actions->0.len() > 0
            &&& actions->0.last().text_at("name"@) == Some("kexec to boot OS"@)
            &&& actions->0.last().text_at("startedAt"@) is Some
            &&& instant_of(actions->0.last().text_at("startedAt"@)->0) is Some
            &&& seconds_from(
                instant_of(actions->0.last().text_at("startedAt"@)->0)->0,
                now,
            ) matches Some(s) && s as int / 60 > 30
        })) by {}
    }
}

/// What a workflow says: its own state, action and template, a task for each of its actions, and
/// success exactly where it and all of its tasks succeeded. Failure is that of the workflow itself.
pub proof fn reading_says_what_the_workflow_says(
    workflow: JsonView,
    m: Map<Seq<char>, Map<Seq<char>, Seq<u64>>>,
    now: Instant,
    r: Result<Option<WorkflowReadingView>, TimesOutOfRange>,
)
    requires
        is_reading(workflow, m, now, r),
    ensures
        workflow.field("status"@) is None <==> r == Ok::<_, TimesOutOfRange>(
            None::<WorkflowReadingView>,
        ),
        r matches Ok(Some(WorkflowReadingView::Booted(info))) ==> info.state == "STATE_SUCCESS"@
            && info.progress == 100 && info.tasks.len() == 0 && info.template_name
            == template_of(workflow) && info.estimated_completion == Some("Deployment complete"@)
            && workflow.field2("status"@, "state"@) == Some(JsonView::Text("STATE_RUNNING"@))
            && workflow.field2("status"@, "currentAction"@) == Some(
            JsonView::Text("kexec to boot OS"@),
        ),
        r matches Ok(Some(WorkflowReadingView::Status(s))) ==> {
            let status = workflow.field("status"@)->0;
            let reports = action_reports(status);
            &&& s.state == status.text_at("state"@).unwrap_or("UNKNOWN"@)
            &&& s.current_action == status.text_at("currentAction"@)
            &&& s.template_name == template_of(workflow)
            &&& s.tasks.len() == reports.len()
            &&& forall|i: int|
                0 <= i < s.tasks.len() ==> (#[trigger] s.tasks[i]).name == reports[i].name
                    && s.tasks[i].status == reports[i].status && s.tasks[i].reported_duration
                    == reports[i].seconds
            &&& s.failed <==> s.state == "STATE_FAILED"@
            &&& s.succeeded <==> s.state == "STATE_SUCCESS"@ && forall|i: int|
                0 <= i < reports.len() ==> (#[trigger] reports[i]).status == "STATE_SUCCESS"@
            &&& s.progress.total_tasks == s.tasks.len() as usize
        },
{
    if let Some(status) = workflow.field("status"@) {
        boot_is_the_end(status, now);
        if !has_booted(status, now) {
            if let Ok(Some(WorkflowReadingView::Status(s))) = r {
                let reports = action_reports(status);
                let tasks = choose|tasks: Seq<TaskView>| #[trigger]
                    is_plan(reports, m, template_of(workflow), tasks) && r == (
                    match status_of(status, template_of(workflow), tasks, now) {
                        Ok(s) => Ok(Some(WorkflowReadingView::Status(s))),
                        Err(e) => Err(e),
                    });
                assert(s.tasks == tasks);
                assert forall|i: int| 0 <= i < tasks.len() implies (#[trigger] tasks[i]).name
                    == reports[i].name && tasks[i].status == reports[i].status
                    && tasks[i].reported_duration == reports[i].seconds by {
                    tasks_are_planned_from_the_past(
                        reports[i],
                        m,
                        template_of(workflow),
                        tasks[i],
                    );
                }
                if s.state == "STATE_SUCCESS"@ {
                    if all_succeeded(tasks) {
                        assert forall|i: int| 0 <= i < reports.len() implies (
                        #[trigger] reports[i]).status == "STATE_SUCCESS"@ by {
                            assert(tasks[i].status == "STATE_SUCCESS"@);
                        }
                    } else if forall|i: int|
                        0 <= i < reports.len() ==> (#[trigger] reports[i]).status
                            == "STATE_SUCCESS"@ {
                        assert forall|i: int| 0 <= i < tasks.len() implies (
                        #[trigger] tasks[i]).status == "STATE_SUCCESS"@ by {
                            assert(reports[i].status == "STATE_SUCCESS"@);
                        }
                    }
                }
            }
        }
    }
}

/// The template of a workflow is the one that it refers to.
pub proof fn template_is_the_one_referred_to(workflow: JsonView, name: Seq<char>)
    ensures
        workflow.field2("spec"@, "templateRef"@) == Some(JsonView::Text(name)) ==> template_of(
            workflow,
        ) == name,
        workflow.field2("spec"@, "templateRef"@) is None ==> template_of(workflow) == "unknown"@,
{
}

/// The machine of a workflow becomes ready exactly where that succeeded, and goes into error exactly
/// where it failed.
pub proof fn machine_follows_its_workflow(succeeded: bool, failed: bool)
    requires
        !(succeeded && failed),
    ensures
        status_after(succeeded, failed) == Some(StatusView::Ready) <==> succeeded,
        status_after(succeeded, failed) == Some(StatusView::Error("OS installation failed"@))
            <==> failed,
        status_after(succeeded, failed) is None <==> !succeeded && !failed,
{
}

} // verus!
