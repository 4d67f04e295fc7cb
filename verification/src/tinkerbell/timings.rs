//! How long the actions of workflows took, by template.

use vstd::prelude::*;

use crate::store::records::{
    MAX_TIMING_HISTORY, TemplateTiming, kept_durations, save_template_timing,
};
use crate::text::same;

verus! {

/// How long the runs of an action took, in seconds.
#[derive(Debug, PartialEq, Eq)]
pub struct ActionTimings {
    pub name: String,
    pub durations: Vec<u64>,
}

/// The actions of a template.
#[derive(Debug, PartialEq, Eq)]
pub struct TemplateTimings {
    pub name: String,
    pub actions: Vec<ActionTimings>,
}

/// How long the actions of workflows took: by template, then by action.
#[derive(Debug, PartialEq, Eq)]
pub struct Timings {
    pub templates: Vec<TemplateTimings>,
}

/// Durations by the name of the action.
pub open spec fn actions_map(actions: Seq<ActionTimings>) -> Map<Seq<char>, Seq<u64>>
    decreases actions.len(),
{
    if actions.len() == 0 {
        Map::empty()
    } else {
        actions_map(actions.drop_last()).insert(actions.last().name@, actions.last().durations@)
    }
}

/// Durations by the name of the template, then by that of the action.
pub open spec fn templates_map(templates: Seq<TemplateTimings>) -> Map<
    Seq<char>,
    Map<Seq<char>, Seq<u64>>,
>
    decreases templates.len(),
{
    if templates.len() == 0 {
        Map::empty()
    } else {
        templates_map(templates.drop_last()).insert(
            templates.last().name@,
            actions_map(templates.last().actions@),
        )
    }
}

/// No two actions share a name.
pub open spec fn actions_distinct(actions: Seq<ActionTimings>) -> bool {
    forall|i: int, j: int|
        0 <= i < j < actions.len() ==> #[trigger] actions[i].name@ != #[trigger] actions[j].name@
}

/// No two templates share a name, and within each no two actions do.
pub open spec fn templates_distinct(templates: Seq<TemplateTimings>) -> bool {
    &&& forall|i: int, j: int|
        0 <= i < j < templates.len() ==> #[trigger] templates[i].name@
            != #[trigger] templates[j].name@
    &&& forall|i: int|
        0 <= i < templates.len() ==> actions_distinct((#[trigger] templates[i]).actions@)
}

impl View for Timings {
    type V = Map<Seq<char>, Map<Seq<char>, Seq<u64>>>;

    open spec fn view(&self) -> Self::V {
        templates_map(self.templates@)
    }
}

/// The sum of durations.
pub open spec fn sum(durations: Seq<u64>) -> nat
    decreases durations.len(),
{
    if durations.len() == 0 {
        0
    } else {
        sum(durations.drop_last()) + durations.last() as nat
    }
}

/// The mean of durations, without its fraction.
pub open spec fn mean(durations: Seq<u64>) -> u64 {
    (sum(durations) / durations.len()) as u64
}

/// There are durations of an action of a template.
pub open spec fn has_data(
    m: Map<Seq<char>, Map<Seq<char>, Seq<u64>>>,
    template: Seq<char>,
    action: Seq<char>,
) -> bool {
    m.contains_key(template) && m[template].contains_key(action) && m[template][action].len() > 0
}

/// Seconds that are too many to be added up, or to be reckoned with.
#[derive(Clone, Copy, Debug, PartialEq, Eq, Structural)]
pub struct TimesOutOfRange {}

/// The mean of durations, if their sum can be formed.
pub open spec fn averaged(durations: Seq<u64>) -> Result<Option<u64>, TimesOutOfRange> {
    if sum(durations) <= u64::MAX {
        Ok(Some(mean(durations)))
    } else {
        Err(TimesOutOfRange {  })
    }
}

/// `r` is an average for an action of a template: the mean of its durations, if there are any,
/// and otherwise the mean of the durations that some other template has for the action. There is
/// no average of an action that no template has durations of, and none is formed where the sum
/// that it takes cannot be.
pub open spec fn is_average(
    m: Map<Seq<char>, Map<Seq<char>, Seq<u64>>>,
    template: Seq<char>,
    action: Seq<char>,
    r: Result<Option<u64>, TimesOutOfRange>,
) -> bool {
    if has_data(m, template, action) {
        r == averaged(m[template][action])
    } else if exists|t: Seq<char>| has_data(m, t, action) {
        exists|t: Seq<char>| #[trigger] has_data(m, t, action) && r == averaged(m[t][action])
    } else {
        r == Ok::<Option<u64>, TimesOutOfRange>(None)
    }
}

/// The sums that an average for an action of a template may take can be formed.
pub open spec fn average_fits(
    m: Map<Seq<char>, Map<Seq<char>, Seq<u64>>>,
    template: Seq<char>,
    action: Seq<char>,
) -> bool {
    if has_data(m, template, action) {
        sum(m[template][action]) <= u64::MAX
    } else {
        forall|t: Seq<char>| #[trigger] has_data(m, t, action) ==> sum(m[t][action]) <= u64::MAX
    }
}

// ---------------------------------------------------------------------------------------------
// Looking things up
// ---------------------------------------------------------------------------------------------

proof fn action_in_map(actions: Seq<ActionTimings>, i: int)
    requires
        actions_distinct(actions),
        0 <= i < actions.len(),
    ensures
        actions_map(actions).contains_key(actions[i].name@),
        actions_map(actions)[actions[i].name@] == actions[i].durations@,
    decreases actions.len(),
{
    if i < actions.len() - 1 {
        let front = actions.drop_last();
        assert(actions_distinct(front)) by {
            assert forall|a: int, b: int| 0 <= a < b < front.len() implies #[trigger] front[a].name@
                != #[trigger] front[b].name@ by {
                assert(actions[a].name@ != actions[b].name@);
            }
        }
        action_in_map(front, i);
        assert(front[i] == actions[i]);
        assert(actions[i].name@ != actions[actions.len() - 1].name@);
    }
}

proof fn action_not_in_map(actions: Seq<ActionTimings>, name: Seq<char>)
    requires
        forall|i: int| 0 <= i < actions.len() ==> (#[trigger] actions[i]).name@ != name,
    ensures
        !actions_map(actions).contains_key(name),
    decreases actions.len(),
{
    if actions.len() > 0 {
        let front = actions.drop_last();
        assert forall|i: int| 0 <= i < front.len() implies (#[trigger] front[i]).name@ != name by {
            assert(front[i] == actions[i]);
        }
        action_not_in_map(front, name);
        assert(actions[actions.len() - 1].name@ != name);
    }
}

proof fn template_in_map(templates: Seq<TemplateTimings>, i: int)
    requires
        templates_distinct(templates),
        0 <= i < templates.len(),
    ensures
        templates_map(templates).contains_key(templates[i].name@),
        templates_map(templates)[templates[i].name@] == actions_map(templates[i].actions@),
    decreases templates.len(),
{
    if i < templates.len() - 1 {
        let front = templates.drop_last();
        front_is_distinct(templates);
        template_in_map(front, i);
        assert(front[i] == templates[i]);
        assert(templates[i].name@ != templates[templates.len() - 1].name@);
    }
}

proof fn front_is_distinct(templates: Seq<TemplateTimings>)
    requires
        templates_distinct(templates),
        templates.len() > 0,
    ensures
        templates_distinct(templates.drop_last()),
{
    let front = templates.drop_last();
    assert forall|a: int, b: int| 0 <= a < b < front.len() implies #[trigger] front[a].name@
        != #[trigger] front[b].name@ by {
        assert(templates[a].name@ != templates[b].name@);
    }
    assert forall|a: int| 0 <= a < front.len() implies actions_distinct(
        (#[trigger] front[a]).actions@,
    ) by {
        assert(front[a] == templates[a]);
    }
}

proof fn template_not_in_map(templates: Seq<TemplateTimings>, name: Seq<char>)
    requires
        forall|i: int| 0 <= i < templates.len() ==> (#[trigger] templates[i]).name@ != name,
    ensures
        !templates_map(templates).contains_key(name),
    decreases templates.len(),
{
    if templates.len() > 0 {
        let front = templates.drop_last();
        assert forall|i: int| 0 <= i < front.len() implies (#[trigger] front[i]).name@ != name by {
            assert(front[i] == templates[i]);
        }
        template_not_in_map(front, name);
        assert(templates[templates.len() - 1].name@ != name);
    }
}

/// A template in the map is one of the list.
proof fn template_from_map(templates: Seq<TemplateTimings>, name: Seq<char>)
    requires
        templates_map(templates).contains_key(name),
    ensures
        exists|i: int| 0 <= i < templates.len() && (#[trigger] templates[i]).name@ == name,
{
    if forall|i: int| 0 <= i < templates.len() ==> (#[trigger] templates[i]).name@ != name {
        template_not_in_map(templates, name);
    }
}

/// The place of an action.
fn find_action(actions: &Vec<ActionTimings>, name: &str) -> (r: Option<usize>)
    requires
        actions_distinct(actions@),
    ensures
        match r {
            Some(i) => i < actions@.len() && actions@[i as int].name@ == name@ && actions_map(
                actions@,
            ).contains_key(name@) && actions_map(actions@)[name@]
                == actions@[i as int].durations@,
            None => !actions_map(actions@).contains_key(name@) && forall|i: int|
                0 <= i < actions@.len() ==> (#[trigger] actions@[i]).name@ != name@,
        },
{
    let mut i: usize = 0;
    while i < actions.len()
        invariant
            i <= actions.len(),
            actions_distinct(actions@),
            forall|j: int| 0 <= j < i ==> (#[trigger] actions@[j]).name@ != name@,
        decreases actions.len() - i,
    {
        if same(actions[i].name.as_str(), name) {
            proof {
                action_in_map(actions@, i as int);
            }
            return Some(i);
        }
        i = i + 1;
    }
    proof {
        action_not_in_map(actions@, name@);
    }
    None
}

/// The place of a template.
fn find_template(templates: &Vec<TemplateTimings>, name: &str) -> (r: Option<usize>)
    requires
        templates_distinct(templates@),
    ensures
        match r {
            Some(i) => i < templates@.len() && templates@[i as int].name@ == name@
                && templates_map(templates@).contains_key(name@) && templates_map(templates@)[name@]
                == actions_map(templates@[i as int].actions@),
            None => !templates_map(templates@).contains_key(name@) && forall|i: int|
                0 <= i < templates@.len() ==> (#[trigger] templates@[i]).name@ != name@,
        },
{
    let mut i: usize = 0;
    while i < templates.len()
        invariant
            i <= templates.len(),
            templates_distinct(templates@),
            forall|j: int| 0 <= j < i ==> (#[trigger] templates@[j]).name@ != name@,
        decreases templates.len() - i,
    {
        if same(templates[i].name.as_str(), name) {
            proof {
                template_in_map(templates@, i as int);
            }
            return Some(i);
        }
        i = i + 1;
    }
    proof {
        template_not_in_map(templates@, name@);
    }
    None
}

/// More durations never make a smaller sum.
proof fn sum_grows(durations: Seq<u64>, k: int)
    requires
        0 <= k <= durations.len(),
    ensures
        sum(durations.take(k)) <= sum(durations),
    decreases durations.len() - k,
{
    if k < durations.len() {
        sum_grows(durations, k + 1);
        assert(durations.take(k + 1).drop_last() =~= durations.take(k));
    } else {
        assert(durations.take(k) =~= durations);
    }
}

/// The sum of durations, if it can be formed.
fn add_up(durations: &Vec<u64>) -> (r: Option<u64>)
    ensures
        r == (if sum(durations@) <= u64::MAX {
            Some(sum(durations@) as u64)
        } else {
            None
        }),
{
    let mut total: u64 = 0;
    let mut i: usize = 0;
    assert(durations@.take(0) =~= Seq::empty());
    while i < durations.len()
        invariant
            i <= durations.len(),
            total == sum(durations@.take(i as int)),
        decreases durations.len() - i,
    {
        proof {
            sum_grows(durations@, i + 1);
            assert(durations@.take(i + 1).drop_last() =~= durations@.take(i as int));
        }
        match total.checked_add(durations[i]) {
            Some(t) => {
                total = t;
            },
            None => {
                return None;
            },
        }
        i = i + 1;
    }
    assert(durations@.take(durations@.len() as int) =~= durations@);
    Some(total)
}

fn mean_of(durations: &Vec<u64>) -> (r: Result<Option<u64>, TimesOutOfRange>)
    requires
        durations@.len() > 0,
    ensures
        r == averaged(durations@),
{
    let n: u64 = durations.len() as u64;
    match add_up(durations) {
        Some(total) => Ok(Some(total / n)),
        None => Err(TimesOutOfRange {  }),
    }
}

impl Timings {
    /// No two templates share a name, and within each no two actions do.
    pub open spec fn wf(&self) -> bool {
        templates_distinct(self.templates@)
    }

    /// No timings at all.
    pub fn new() -> (r: Timings)
        ensures
            r.wf(),
            r@ == Map::<Seq<char>, Map<Seq<char>, Seq<u64>>>::empty(),
    {
        Timings { templates: Vec::new() }
    }

    /// An average for an action of a template: that of the template itself or, where it has no
    /// durations of the action, that of some other template. Without it where a sum that it takes
    /// cannot be formed.
    pub fn average(&self, template_name: &str, action_name: &str) -> (r: Result<
        Option<u64>,
        TimesOutOfRange,
    >)
        requires
            self.wf(),
        ensures
            is_average(self@, template_name@, action_name@, r),
    {
        match find_template(&self.templates, template_name) {
            Some(place) => match find_action(&self.templates[place].actions, action_name) {
                Some(k) => {
                    let durations = &self.templates[place].actions[k].durations;
                    if durations.len() > 0 {
                        assert(has_data(self@, template_name@, action_name@));
                        return mean_of(durations);
                    }
                },
                None => {},
            },
            None => {},
        }
        let mut i: usize = 0;
        while i < self.templates.len()
            invariant
                i <= self.templates.len(),
                self.wf(),
                !has_data(self@, template_name@, action_name@),
                forall|j: int|
                    0 <= j < i ==> !has_data(
                        self@,
                        (#[trigger] self.templates@[j]).name@,
                        action_name@,
                    ),
            decreases self.templates.len() - i,
        {
            proof {
                template_in_map(self.templates@, i as int);
            }
            match find_action(&self.templates[i].actions, action_name) {
                Some(k) => {
                    let durations = &self.templates[i].actions[k].durations;
                    if durations.len() > 0 {
                        assert(has_data(self@, self.templates@[i as int].name@, action_name@));
                        return mean_of(durations);
                    }
                },
                None => {},
            }
            i = i + 1;
        }
        assert(forall|t: Seq<char>| !has_data(self@, t, action_name@)) by {
            assert forall|t: Seq<char>| !has_data(self@, t, action_name@) by {
                if has_data(self@, t, action_name@) {
                    template_from_map(self.templates@, t);
                }
            }
        }
        Ok(None)
    }

    /// An average for an action of a template: that of the template itself or, where it has no
    /// durations of the action, that of some other template.
    pub fn get_avg_time_for_action(&self, template_name: &str, action_name: &str) -> (r: Option<u64>)
        requires
            self.wf(),
            average_fits(self@, template_name@, action_name@),
        ensures
            is_average(self@, template_name@, action_name@, Ok(r)),
    {
        match self.average(template_name, action_name) {
            Ok(r) => r,
            Err(_) => None,
        }
    }
}

// ---------------------------------------------------------------------------------------------
// Recording
// ---------------------------------------------------------------------------------------------

/// The actions of a template in a map, or none.
pub open spec fn actions_in(
    m: Map<Seq<char>, Map<Seq<char>, Seq<u64>>>,
    template: Seq<char>,
) -> Map<Seq<char>, Seq<u64>> {
    if m.contains_key(template) {
        m[template]
    } else {
        Map::empty()
    }
}

/// The durations of an action in a map, or none.
pub open spec fn durations_in(m: Map<Seq<char>, Seq<u64>>, action: Seq<char>) -> Seq<u64> {
    if m.contains_key(action) {
        m[action]
    } else {
        Seq::empty()
    }
}

/// The actions with one more run of an action: its last durations are kept.
pub open spec fn with_run(m: Map<Seq<char>, Seq<u64>>, action: Seq<char>, duration: u64) -> Map<
    Seq<char>,
    Seq<u64>,
> {
    m.insert(action, kept_durations(durations_in(m, action).push(duration)))
}

/// The actions with one more run of each of several actions.
pub open spec fn with_runs(m: Map<Seq<char>, Seq<u64>>, runs: Seq<(Seq<char>, u64)>) -> Map<
    Seq<char>,
    Seq<u64>,
>
    decreases runs.len(),
{
    if runs.len() == 0 {
        m
    } else {
        with_run(with_runs(m, runs.drop_last()), runs.last().0, runs.last().1)
    }
}

/// Replacing the durations of an action in the list replaces them in the map.
proof fn update_in_map(actions: Seq<ActionTimings>, i: int, new: ActionTimings)
    requires
        actions_distinct(actions),
        0 <= i < actions.len(),
        new.name@ == actions[i].name@,
    ensures
        actions_distinct(actions.update(i, new)),
        actions_map(actions.update(i, new)) == actions_map(actions).insert(
            new.name@,
            new.durations@,
        ),
    decreases actions.len(),
{
    let after = actions.update(i, new);
    assert(actions_distinct(after)) by {
        assert forall|a: int, b: int| 0 <= a < b < after.len() implies #[trigger] after[a].name@
            != #[trigger] after[b].name@ by {
            assert(actions[a].name@ != actions[b].name@);
        }
    }
    if i == actions.len() - 1 {
        assert(after.drop_last() =~= actions.drop_last());
        assert(actions_map(after) =~= actions_map(actions).insert(new.name@, new.durations@));
    } else {
        let front = actions.drop_last();
        assert(actions_distinct(front)) by {
            assert forall|a: int, b: int| 0 <= a < b < front.len() implies #[trigger] front[a].name@
                != #[trigger] front[b].name@ by {
                assert(actions[a].name@ != actions[b].name@);
            }
        }
        update_in_map(front, i, new);
        assert(after.drop_last() =~= front.update(i, new));
        assert(actions[i].name@ != actions[actions.len() - 1].name@);
        assert(actions_map(after) =~= actions_map(actions).insert(new.name@, new.durations@));
    }
}

/// A new action at the end of the list is a new one in the map.
proof fn push_in_map(actions: Seq<ActionTimings>, new: ActionTimings)
    requires
        actions_distinct(actions),
        forall|i: int| 0 <= i < actions.len() ==> (#[trigger] actions[i]).name@ != new.name@,
    ensures
        actions_distinct(actions.push(new)),
        actions_map(actions.push(new)) == actions_map(actions).insert(new.name@, new.durations@),
{
    assert(actions.push(new).drop_last() =~= actions);
    let after = actions.push(new);
    assert forall|a: int, b: int| 0 <= a < b < after.len() implies #[trigger] after[a].name@
        != #[trigger] after[b].name@ by {
        if b < actions.len() {
            assert(actions[a].name@ != actions[b].name@);
        } else {
            assert(actions[a].name@ != new.name@);
        }
    }
}

/// Replacing the actions of a template in the list replaces them in the map.
proof fn update_template_in_map(templates: Seq<TemplateTimings>, i: int, new: TemplateTimings)
    requires
        templates_distinct(templates),
        0 <= i < templates.len(),
        new.name@ == templates[i].name@,
        actions_distinct(new.actions@),
    ensures
        templates_distinct(templates.update(i, new)),
        templates_map(templates.update(i, new)) == templates_map(templates).insert(
            new.name@,
            actions_map(new.actions@),
        ),
    decreases templates.len(),
{
    let after = templates.update(i, new);
    assert(templates_distinct(after)) by {
        assert forall|a: int, b: int| 0 <= a < b < after.len() implies #[trigger] after[a].name@
            != #[trigger] after[b].name@ by {
            assert(templates[a].name@ != templates[b].name@);
        }
        assert forall|a: int| 0 <= a < after.len() implies actions_distinct(
            (#[trigger] after[a]).actions@,
        ) by {
            if a != i {
                assert(after[a] == templates[a]);
            }
        }
    }
    if i == templates.len() - 1 {
        assert(after.drop_last() =~= templates.drop_last());
        assert(templates_map(after) =~= templates_map(templates).insert(
            new.name@,
            actions_map(new.actions@),
        ));
    } else {
        let front = templates.drop_last();
        front_is_distinct(templates);
        update_template_in_map(front, i, new);
        assert(after.drop_last() =~= front.update(i, new));
        assert(templates[i].name@ != templates[templates.len() - 1].name@);
        assert(templates_map(after) =~= templates_map(templates).insert(
            new.name@,
            actions_map(new.actions@),
        ));
    }
}

/// A new template at the end of the list is a new one in the map.
proof fn push_template_in_map(templates: Seq<TemplateTimings>, new: TemplateTimings)
    requires
        templates_distinct(templates),
        actions_distinct(new.actions@),
        forall|i: int| 0 <= i < templates.len() ==> (#[trigger] templates[i]).name@ != new.name@,
    ensures
        templates_distinct(templates.push(new)),
        templates_map(templates.push(new)) == templates_map(templates).insert(
            new.name@,
            actions_map(new.actions@),
        ),
{
    assert(templates.push(new).drop_last() =~= templates);
    let after = templates.push(new);
    assert forall|a: int, b: int| 0 <= a < b < after.len() implies #[trigger] after[a].name@
        != #[trigger] after[b].name@ by {
        if b < templates.len() {
            assert(templates[a].name@ != templates[b].name@);
        } else {
            assert(templates[a].name@ != new.name@);
        }
    }
    assert forall|a: int| 0 <= a < after.len() implies actions_distinct(
        (#[trigger] after[a]).actions@,
    ) by {
        if a < templates.len() {
            assert(after[a] == templates[a]);
        }
    }
}

/// Puts the durations of an action in place of those that were there.
fn put_action(actions: Vec<ActionTimings>, name: &str, durations: Vec<u64>) -> (r: Vec<
    ActionTimings,
>)
    requires
        actions_distinct(actions@),
    ensures
        actions_distinct(r@),
        actions_map(r@) == actions_map(actions@).insert(name@, durations@),
{
    let mut actions = actions;
    let ghost before = actions@;
    match find_action(&actions, name) {
        Some(i) => {
            let new = ActionTimings { name: name.to_owned(), durations };
            proof {
                update_in_map(before, i as int, new);
            }
            actions.set(i, new);
        },
        None => {
            let new = ActionTimings { name: name.to_owned(), durations };
            proof {
                push_in_map(before, new);
            }
            actions.push(new);
        },
    }
    actions
}

fn copy_of(durations: &Vec<u64>) -> (r: Vec<u64>)
    ensures
        r@ == durations@,
{
    let mut copy: Vec<u64> = Vec::new();
    let mut i: usize = 0;
    while i < durations.len()
        invariant
            i <= durations.len(),
            copy@ == durations@.take(i as int),
        decreases durations.len() - i,
    {
        copy.push(durations[i]);
        i = i + 1;
        assert(copy@ =~= durations@.take(i as int));
    }
    assert(durations@.take(durations@.len() as int) =~= durations@);
    copy
}

/// The durations of an action with one more run: the last ones are kept.
fn longer(actions: &Vec<ActionTimings>, name: &str, duration: u64) -> (r: Vec<u64>)
    requires
        actions_distinct(actions@),
    ensures
        r@ == kept_durations(durations_in(actions_map(actions@), name@).push(duration)),
{
    let mut durations: Vec<u64> = match find_action(actions, name) {
        Some(i) => copy_of(&actions[i].durations),
        None => Vec::new(),
    };
    assert(durations@ =~= durations_in(actions_map(actions@), name@));
    durations.push(duration);
    save_template_timing(&durations)
}

/// The actions with the durations of each that are kept.
pub open spec fn trimmed_actions(m: Map<Seq<char>, Seq<u64>>) -> Map<Seq<char>, Seq<u64>> {
    m.map_values(|durations: Seq<u64>| kept_durations(durations))
}

/// The templates with the durations of each of their actions that are kept.
pub open spec fn trimmed(m: Map<Seq<char>, Map<Seq<char>, Seq<u64>>>) -> Map<
    Seq<char>,
    Map<Seq<char>, Seq<u64>>,
> {
    m.map_values(|actions: Map<Seq<char>, Seq<u64>>| trimmed_actions(actions))
}

/// The actions of a list are those of another one, each with the durations that are kept.
spec fn are_trimmed(actions: Seq<ActionTimings>, from: Seq<ActionTimings>) -> bool {
    &&& actions.len() == from.len()
    &&& forall|i: int|
        0 <= i < actions.len() ==> (#[trigger] actions[i]).name@ == from[i].name@
            && actions[i].durations@ == kept_durations(from[i].durations@)
}

proof fn trimmed_list_is_trimmed_map(actions: Seq<ActionTimings>, from: Seq<ActionTimings>)
    requires
        are_trimmed(actions, from),
    ensures
        actions_map(actions) == trimmed_actions(actions_map(from)),
        actions_distinct(from) ==> actions_distinct(actions),
    decreases actions.len(),
{
    if actions.len() > 0 {
        let a = actions.drop_last();
        let f = from.drop_last();
        assert forall|i: int| 0 <= i < a.len() implies (#[trigger] a[i]).name@ == f[i].name@
            && a[i].durations@ == kept_durations(f[i].durations@) by {
            assert(a[i] == actions[i] && f[i] == from[i]);
        }
        trimmed_list_is_trimmed_map(a, f);
        assert(actions[actions.len() - 1].name@ == from[from.len() - 1].name@);
    }
    assert(actions_map(actions) =~= trimmed_actions(actions_map(from)));
    if actions_distinct(from) {
        assert forall|i: int, j: int| 0 <= i < j < actions.len() implies #[trigger] actions[i].name@
            != #[trigger] actions[j].name@ by {
            assert(from[i].name@ != from[j].name@);
        }
    }
}

/// The templates of a list are those of another one, each with the durations that are kept.
spec fn are_all_trimmed(templates: Seq<TemplateTimings>, from: Seq<TemplateTimings>) -> bool {
    &&& templates.len() == from.len()
    &&& forall|i: int|
        0 <= i < templates.len() ==> (#[trigger] templates[i]).name@ == from[i].name@
            && are_trimmed(templates[i].actions@, from[i].actions@)
}

proof fn trimmed_lists_are_trimmed_map(
    templates: Seq<TemplateTimings>,
    from: Seq<TemplateTimings>,
)
    requires
        are_all_trimmed(templates, from),
    ensures
        templates_map(templates) == trimmed(templates_map(from)),
        templates_distinct(from) ==> templates_distinct(templates),
    decreases templates.len(),
{
    if templates.len() > 0 {
        let a = templates.drop_last();
        let f = from.drop_last();
        assert forall|i: int| 0 <= i < a.len() implies (#[trigger] a[i]).name@ == f[i].name@
            && are_trimmed(a[i].actions@, f[i].actions@) by {
            assert(a[i] == templates[i] && f[i] == from[i]);
        }
        trimmed_lists_are_trimmed_map(a, f);
        let last = templates[templates.len() - 1];
        assert(last.name@ == from.last().name@);
        trimmed_list_is_trimmed_map(last.actions@, from.last().actions@);
    }
    assert(templates_map(templates) =~= trimmed(templates_map(from)));
    if templates_distinct(from) {
        assert forall|i: int, j: int|
            0 <= i < j < templates.len() implies #[trigger] templates[i].name@
            != #[trigger] templates[j].name@ by {
            assert(from[i].name@ != from[j].name@);
        }
        assert forall|i: int| 0 <= i < templates.len() implies actions_distinct(
            (#[trigger] templates[i]).actions@,
        ) by {
            assert(actions_distinct(from[i].actions@));
            trimmed_list_is_trimmed_map(templates[i].actions@, from[i].actions@);
        }
    }
}

/// The actions, each with the durations that are kept.
fn trim_actions(actions: &Vec<ActionTimings>) -> (r: Vec<ActionTimings>)
    ensures
        are_trimmed(r@, actions@),
{
    let mut kept: Vec<ActionTimings> = Vec::new();
    let mut i: usize = 0;
    while i < actions.len()
        invariant
            i <= actions.len(),
            are_trimmed(kept@, actions@.take(i as int)),
        decreases actions.len() - i,
    {
        let ghost before = kept@;
        let action = ActionTimings {
            name: actions[i].name.clone(),
            durations: save_template_timing(&actions[i].durations),
        };
        kept.push(action);
        assert forall|j: int| 0 <= j < kept@.len() implies (#[trigger] kept@[j]).name@
            == actions@.take(i + 1)[j].name@ && kept@[j].durations@ == kept_durations(
            actions@.take(i + 1)[j].durations@,
        ) by {
            if j < i {
                assert(kept@[j] == before[j]);
                assert(actions@.take(i + 1)[j] == actions@.take(i as int)[j]);
            }
        }
        i = i + 1;
    }
    assert(actions@.take(actions@.len() as int) =~= actions@);
    kept
}

/// An action that was run, and how long it took.
#[derive(Debug, PartialEq, Eq)]
pub struct ActionRun {
    pub action: String,
    pub duration: u64,
}

/// The runs as a mathematical value.
pub open spec fn runs_view(runs: Seq<ActionRun>) -> Seq<(Seq<char>, u64)> {
    runs.map_values(|r: ActionRun| (r.action@, r.duration))
}

impl Timings {
    /// Takes the actions of a template out, to be put back changed: its place, and the actions.
    fn take_actions(&mut self, template_name: &str) -> (r: (usize, Vec<ActionTimings>))
        requires
            old(self).wf(),
        ensures
            actions_distinct(r.1@),
            actions_map(r.1@) == actions_in(old(self)@, template_name@),
            r.0 < final(self).templates@.len(),
            final(self).wf(),
            final(self).templates@[r.0 as int].name@ == template_name@,
            final(self)@ == old(self)@.insert(template_name@, Map::empty()),
    {
        match find_template(&self.templates, template_name) {
            Some(i) => {
                let ghost before = self.templates@;
                let empty = TemplateTimings { name: template_name.to_owned(), actions: Vec::new() };
                proof {
                    assert(actions_map(empty.actions@) =~= Map::empty());
                    update_template_in_map(before, i as int, empty);
                }
                let taken: TemplateTimings = self.templates.remove(i);
                self.templates.insert(i, empty);
                assert(self.templates@ =~= before.update(i as int, empty));
                (i, taken.actions)
            },
            None => {
                let ghost before = self.templates@;
                let empty = TemplateTimings { name: template_name.to_owned(), actions: Vec::new() };
                proof {
                    assert(actions_map(empty.actions@) =~= Map::empty());
                    push_template_in_map(before, empty);
                }
                let i: usize = self.templates.len();
                self.templates.push(empty);
                let none: Vec<ActionTimings> = Vec::new();
                assert(actions_map(none@) =~= Map::empty());
                (i, none)
            },
        }
    }

    fn put_actions(&mut self, i: usize, template_name: &str, actions: Vec<ActionTimings>)
        requires
            old(self).wf(),
            i < old(self).templates@.len(),
            old(self).templates@[i as int].name@ == template_name@,
            actions_distinct(actions@),
        ensures
            final(self).wf(),
            final(self)@ == old(self)@.insert(template_name@, actions_map(actions@)),
    {
        let new = TemplateTimings { name: template_name.to_owned(), actions };
        proof {
            update_template_in_map(self.templates@, i as int, new);
        }
        self.templates.set(i, new);
    }

    /// Enters what was stored of an action, in place of what was there.
    pub fn load(&mut self, timing: TemplateTiming)
        requires
            old(self).wf(),
        ensures
            final(self).wf(),
            final(self)@ == old(self)@.insert(
                timing.template_name@,
                actions_in(old(self)@, timing.template_name@).insert(
                    timing.action_name@,
                    timing.durations@,
                ),
            ),
    {
        let ghost before = self@;
        let (i, actions) = self.take_actions(timing.template_name.as_str());
        let actions: Vec<ActionTimings> = put_action(
            actions,
            timing.action_name.as_str(),
            timing.durations,
        );
        self.put_actions(i, timing.template_name.as_str(), actions);
        assert(self@ =~= before.insert(timing.template_name@, actions_map(actions@)));
    }

    /// Records the runs of a workflow that succeeded. Gives what is now to be stored of each of
    /// the actions.
    pub fn store_timing_info(&mut self, template_name: &str, runs: &Vec<ActionRun>) -> (r: Vec<
        TemplateTiming,
    >)
        requires
            old(self).wf(),
        ensures
            final(self).wf(),
            final(self)@ == old(self)@.insert(
                template_name@,
                with_runs(actions_in(old(self)@, template_name@), runs_view(runs@)),
            ),
            r@.len() == runs@.len(),
            forall|k: int|
                0 <= k < runs@.len() ==> (#[trigger] r@[k]).template_name@ == template_name@
                    && r@[k].action_name@ == runs@[k].action@ && r@[k].durations@ == durations_in(
                    with_runs(
                        actions_in(old(self)@, template_name@),
                        runs_view(runs@).take(k + 1),
                    ),
                    runs@[k].action@,
                ),
    {
        let ghost before = self@;
        let ghost first = actions_in(self@, template_name@);
        let ghost all = runs_view(runs@);
        let (i, taken) = self.take_actions(template_name);
        let mut actions: Vec<ActionTimings> = taken;
        let mut to_store: Vec<TemplateTiming> = Vec::new();
        let mut k: usize = 0;
        assert(all.take(0) =~= Seq::empty());
        while k < runs.len()
            invariant
                k <= runs.len(),
                all == runs_view(runs@),
                actions_distinct(actions@),
                actions_map(actions@) == with_runs(first, all.take(k as int)),
                to_store@.len() == k,
                forall|j: int|
                    0 <= j < k ==> (#[trigger] to_store@[j]).template_name@ == template_name@
                        && to_store@[j].action_name@ == runs@[j].action@ && to_store@[j].durations@
                        == durations_in(with_runs(first, all.take(j + 1)), runs@[j].action@),
            decreases runs.len() - k,
        {
            let name = runs[k].action.as_str();
            let durations: Vec<u64> = longer(&actions, name, runs[k].duration);
            let copy: Vec<u64> = copy_of(&durations);
            proof {
                assert(all.take(k + 1).drop_last() =~= all.take(k as int));
                assert(all.take(k + 1).last() == (runs@[k as int].action@, runs@[k as int].duration));
            }
            actions = put_action(actions, name, durations);
            to_store.push(
                TemplateTiming {
                    template_name: template_name.to_owned(),
                    action_name: name.to_owned(),
                    durations: copy,
                },
            );
            k = k + 1;
        }
        proof {
            assert(all.take(all.len() as int) =~= all);
        }
        self.put_actions(i, template_name, actions);
        assert(self@ =~= before.insert(template_name@, actions_map(actions@)));
        to_store
    }

    /// Forgets the durations of each action that are not kept.
    fn trim(&mut self)
        requires
            old(self).wf(),
        ensures
            final(self).wf(),
            final(self)@ == trimmed(old(self)@),
    {
        let mut kept: Vec<TemplateTimings> = Vec::new();
        let mut i: usize = 0;
        while i < self.templates.len()
            invariant
                i <= self.templates.len(),
                *self == *old(self),
                are_all_trimmed(kept@, self.templates@.take(i as int)),
            decreases self.templates.len() - i,
        {
            let ghost before = kept@;
            let template = TemplateTimings {
                name: self.templates[i].name.clone(),
                actions: trim_actions(&self.templates[i].actions),
            };
            kept.push(template);
            assert forall|j: int| 0 <= j < kept@.len() implies (#[trigger] kept@[j]).name@
                == self.templates@.take(i + 1)[j].name@ && are_trimmed(
                kept@[j].actions@,
                self.templates@.take(i + 1)[j].actions@,
            ) by {
                if j < i {
                    assert(kept@[j] == before[j]);
                    assert(self.templates@.take(i + 1)[j] == self.templates@.take(i as int)[j]);
                }
            }
            i = i + 1;
        }
        proof {
            assert(self.templates@.take(self.templates@.len() as int) =~= self.templates@);
            trimmed_lists_are_trimmed_map(kept@, self.templates@);
        }
        self.templates = kept;
    }

    /// Forgets the durations of each action that are not kept, and hands out the others, each
    /// action of each template once, to be stored.
    pub fn cleanup_historical_timings(&mut self) -> (r: Vec<TemplateTiming>)
        requires
            old(self).wf(),
        ensures
            final(self).wf(),
            final(self)@ == trimmed(old(self)@),
            has_all_of(r@, final(self)@),
            all_from(r@, final(self)@),
            no_repeats(r@),
    {
        self.trim();
        let ghost now = *self;
        let mut out: Vec<TemplateTiming> = Vec::new();
        let mut i: usize = 0;
        while i < self.templates.len()
            invariant
                i <= self.templates.len(),
                self.wf(),
                *self == now,
                forall|t: int, a: int|
                    0 <= t < i && 0 <= a < self.templates@[t].actions@.len() ==> handed_out(
                        out@,
                        self.templates@[t],
                        #[trigger] self.templates@[t].actions@[a],
                    ),
                all_from(out@, self@),
                no_repeats(out@),
                forall|k: int, t: int, b: int|
                    0 <= k < out@.len() && i <= t < self.templates@.len() && 0 <= b
                        < self.templates@[t].actions@.len() ==> !is_of(
                        #[trigger] out@[k],
                        self.templates@[t],
                        #[trigger] self.templates@[t].actions@[b],
                    ),
            decreases self.templates.len() - i,
        {
            let mut a: usize = 0;
            while a < self.templates[i].actions.len()
                invariant
                    i < self.templates.len(),
                    a <= self.templates@[i as int].actions@.len(),
                    self.wf(),
                    *self == now,
                    forall|t: int, b: int|
                        0 <= t < i && 0 <= b < self.templates@[t].actions@.len() ==> handed_out(
                            out@,
                            self.templates@[t],
                            #[trigger] self.templates@[t].actions@[b],
                        ),
                    forall|b: int|
                        0 <= b < a ==> handed_out(
                            out@,
                            self.templates@[i as int],
                            #[trigger] self.templates@[i as int].actions@[b],
                        ),
                    all_from(out@, self@),
                    no_repeats(out@),
                    forall|k: int, t: int, b: int|
                        0 <= k < out@.len() && i <= t < self.templates@.len() && 0 <= b
                            < self.templates@[t].actions@.len() && (t > i || b >= a) ==> !is_of(
                            #[trigger] out@[k],
                            self.templates@[t],
                            #[trigger] self.templates@[t].actions@[b],
                        ),
                decreases self.templates@[i as int].actions@.len() - a,
            {
                let template = &self.templates[i];
                let action = &template.actions[a];
                let entry = TemplateTiming {
                    template_name: template.name.clone(),
                    action_name: action.name.clone(),
                    durations: copy_of(&action.durations),
                };
                proof {
                    template_in_map(self.templates@, i as int);
                    action_in_map(template.actions@, a as int);
                }
                let ghost before = out@;
                out.push(entry);
                proof {
                    assert(entry_is(out@[before.len() as int], *template, *action));
                    assert forall|k: int, l: int|
                        0 <= k < l < out@.len() implies #[trigger] out@[k].template_name@
                        != #[trigger] out@[l].template_name@ || out@[k].action_name@
                        != out@[l].action_name@ by {
                        assert(out@[k] == before[k]);
                        if l < before.len() {
                            assert(out@[l] == before[l]);
                        } else {
                            assert(!is_of(
                                before[k],
                                self.templates@[i as int],
                                self.templates@[i as int].actions@[a as int],
                            ));
                        }
                    }
                    assert forall|k: int, t: int, b: int|
                        0 <= k < out@.len() && i <= t < self.templates@.len() && 0 <= b
                            < self.templates@[t].actions@.len() && (t > i || b >= a
                            + 1) implies !is_of(
                        #[trigger] out@[k],
                        self.templates@[t],
                        #[trigger] self.templates@[t].actions@[b],
                    ) by {
                        if k < before.len() {
                            assert(out@[k] == before[k]);
                        } else if t > i {
                            assert(self.templates@[i as int].name@ != self.templates@[t].name@);
                        } else {
                            assert(actions_distinct(self.templates@[i as int].actions@));
                        }
                    }
                    assert forall|t: int, b: int|
                        0 <= t < i && 0 <= b < self.templates@[t].actions@.len() implies handed_out(
                        out@,
                        self.templates@[t],
                        #[trigger] self.templates@[t].actions@[b],
                    ) by {
                        still_handed_out(
                            before,
                            entry,
                            self.templates@[t],
                            self.templates@[t].actions@[b],
                        );
                    }
                    assert forall|b: int| 0 <= b < a + 1 implies handed_out(
                        out@,
                        self.templates@[i as int],
                        #[trigger] self.templates@[i as int].actions@[b],
                    ) by {
                        if b < a {
                            still_handed_out(
                                before,
                                entry,
                                self.templates@[i as int],
                                self.templates@[i as int].actions@[b],
                            );
                        }
                    }
                }
                a = a + 1;
            }
            i = i + 1;
        }
        proof {
            assert forall|t: Seq<char>, a: Seq<char>|
                #[trigger] self@.contains_key(t)
                    && #[trigger] self@[t].contains_key(a) implies exists|k: int|
                0 <= k < out@.len() && (#[trigger] out@[k]).template_name@ == t
                    && out@[k].action_name@ == a && out@[k].durations@ == self@[t][a] by {
                template_from_map(self.templates@, t);
                let p = choose|p: int|
                    0 <= p < self.templates@.len() && (#[trigger] self.templates@[p]).name@ == t;
                template_in_map(self.templates@, p);
                let actions = self.templates@[p].actions@;
                if forall|q: int| 0 <= q < actions.len() ==> (#[trigger] actions[q]).name@ != a {
                    action_not_in_map(actions, a);
                }
                let q = choose|q: int| 0 <= q < actions.len() && (#[trigger] actions[q]).name@ == a;
                action_in_map(actions, q);
                assert(handed_out(out@, self.templates@[p], self.templates@[p].actions@[q]));
                let k = choose|k: int|
                    0 <= k < out@.len() && entry_is(
                        #[trigger] out@[k],
                        self.templates@[p],
                        self.templates@[p].actions@[q],
                    );
                assert(out@[k].template_name@ == t);
            }
        }
        out
    }
}

spec fn handed_out(out: Seq<TemplateTiming>, t: TemplateTimings, a: ActionTimings) -> bool {
    exists|k: int| 0 <= k < out.len() && entry_is(#[trigger] out[k], t, a)
}

proof fn still_handed_out(
    out: Seq<TemplateTiming>,
    e: TemplateTiming,
    t: TemplateTimings,
    a: ActionTimings,
)
    requires
        handed_out(out, t, a),
    ensures
        handed_out(out.push(e), t, a),
{
    let k = choose|k: int| 0 <= k < out.len() && entry_is(#[trigger] out[k], t, a);
    assert(out.push(e)[k] == out[k]);
}

/// Every action of every template in the map has an entry.
pub open spec fn has_all_of(
    entries: Seq<TemplateTiming>,
    m: Map<Seq<char>, Map<Seq<char>, Seq<u64>>>,
) -> bool {
    forall|t: Seq<char>, a: Seq<char>|
        #[trigger] m.contains_key(t) && #[trigger] m[t].contains_key(a) ==> exists|k: int|
            0 <= k < entries.len() && (#[trigger] entries[k]).template_name@ == t
                && entries[k].action_name@ == a && entries[k].durations@ == m[t][a]
}

/// Every entry is from the map.
pub open spec fn all_from(
    entries: Seq<TemplateTiming>,
    m: Map<Seq<char>, Map<Seq<char>, Seq<u64>>>,
) -> bool {
    forall|k: int|
        0 <= k < entries.len() ==> m.contains_key((#[trigger] entries[k]).template_name@)
            && m[entries[k].template_name@].contains_key(entries[k].action_name@)
            && entries[k].durations@ == m[entries[k].template_name@][entries[k].action_name@]
}

/// No two entries are of the same action of the same template.
pub open spec fn no_repeats(entries: Seq<TemplateTiming>) -> bool {
    forall|k: int, l: int|
        0 <= k < l < entries.len() ==> #[trigger] entries[k].template_name@
            != #[trigger] entries[l].template_name@ || entries[k].action_name@
            != entries[l].action_name@
}

spec fn is_of(e: TemplateTiming, t: TemplateTimings, a: ActionTimings) -> bool {
    e.template_name@ == t.name@ && e.action_name@ == a.name@
}

spec fn entry_is(e: TemplateTiming, t: TemplateTimings, a: ActionTimings) -> bool {
    e.template_name@ == t.name@ && e.action_name@ == a.name@ && e.durations@ == a.durations@
}

// ---------------------------------------------------------------------------------------------
// What recording keeps
// ---------------------------------------------------------------------------------------------

/// No action has more durations than are kept.
pub open spec fn is_bounded(m: Map<Seq<char>, Seq<u64>>) -> bool {
    forall|a: Seq<char>| #[trigger] m.contains_key(a) ==> m[a].len() <= MAX_TIMING_HISTORY
}

/// What is kept of each action of each template after a clean-up is the last of its durations, in
/// their order, and no more than are kept; every template and every action stays.
pub proof fn cleanup_keeps_the_latest(
    m: Map<Seq<char>, Map<Seq<char>, Seq<u64>>>,
    template: Seq<char>,
    action: Seq<char>,
)
    ensures
        trimmed(m).contains_key(template) <==> m.contains_key(template),
        m.contains_key(template) ==> is_bounded(trimmed(m)[template]) && (
        trimmed(m)[template].contains_key(action) <==> m[template].contains_key(action)),
        m.contains_key(template) && m[template].contains_key(action) ==> {
            let durations = m[template][action];
            let n = if durations.len() > MAX_TIMING_HISTORY {
                MAX_TIMING_HISTORY as int
            } else {
                durations.len() as int
            };
            trimmed(m)[template][action] == durations.skip(durations.len() - n)
        },
        trimmed(trimmed(m)) == trimmed(m),
{
    if m.contains_key(template) && m[template].contains_key(action) {
        assert(m[template][action].skip(0) =~= m[template][action]);
    }
    assert forall|t: Seq<char>| m.contains_key(t) implies trimmed_actions(
        #[trigger] trimmed(m)[t],
    ) == trimmed(m)[t] by {
        assert(trimmed_actions(trimmed(m)[t]) =~= trimmed(m)[t]);
    }
    assert(trimmed(trimmed(m)) =~= trimmed(m));
}

/// Recording runs never makes the history of an action longer than what is kept of it, and the
/// run recorded last is the last that is kept.
pub proof fn history_stays_bounded(m: Map<Seq<char>, Seq<u64>>, runs: Seq<(Seq<char>, u64)>)
    requires
        is_bounded(m),
    ensures
        is_bounded(with_runs(m, runs)),
        runs.len() > 0 ==> durations_in(with_runs(m, runs), runs.last().0).len() > 0
            && durations_in(with_runs(m, runs), runs.last().0).last() == runs.last().1,
    decreases runs.len(),
{
    if runs.len() > 0 {
        history_stays_bounded(m, runs.drop_last());
        let before = with_runs(m, runs.drop_last());
        let longer = durations_in(before, runs.last().0).push(runs.last().1);
        assert(longer.len() > 0);
    }
}

/// Recording runs of other actions leaves the history of an action alone.
pub proof fn other_histories_are_kept(
    m: Map<Seq<char>, Seq<u64>>,
    runs: Seq<(Seq<char>, u64)>,
    action: Seq<char>,
)
    requires
        forall|i: int| 0 <= i < runs.len() ==> (#[trigger] runs[i]).0 != action,
    ensures
        durations_in(with_runs(m, runs), action) == durations_in(m, action),
    decreases runs.len(),
{
    if runs.len() > 0 {
        let front = runs.drop_last();
        assert forall|i: int| 0 <= i < front.len() implies (#[trigger] front[i]).0 != action by {
            assert(front[i] == runs[i]);
        }
        other_histories_are_kept(m, front, action);
        assert(runs[runs.len() - 1].0 != action);
    }
}

/// The mean of durations is their sum by their number: each counts once.
pub proof fn mean_counts_each_once(durations: Seq<u64>, more: u64)
    ensures
        sum(durations.push(more)) == sum(durations) + more,
        sum(Seq::empty()) == 0,
        durations.len() > 0 && sum(durations) <= u64::MAX ==> averaged(durations) == Ok::<
            _,
            TimesOutOfRange,
        >(Some((sum(durations) as int / durations.len() as int) as u64)),
        sum(durations) > u64::MAX ==> averaged(durations) is Err,
{
    assert(durations.push(more).drop_last() =~= durations);
}

/// A template with durations of its own for an action goes by them. One without them goes by those of
/// another template, whether it is known or not; and without any there is no average.
pub proof fn averages_fall_back(
    m: Map<Seq<char>, Map<Seq<char>, Seq<u64>>>,
    template: Seq<char>,
    other: Seq<char>,
    action: Seq<char>,
    r: Result<Option<u64>, TimesOutOfRange>,
)
    requires
        is_average(m, template, action, r),
    ensures
        has_data(m, template, action) ==> r == averaged(m[template][action]),
        !has_data(m, template, action) && has_data(m, other, action) && (forall|t: Seq<char>|
            has_data(m, t, action) ==> t == other) ==> r == averaged(m[other][action]),
        (forall|t: Seq<char>| !has_data(m, t, action)) ==> r == Ok::<_, TimesOutOfRange>(
            None::<u64>,
        ),
        has_data(m, other, action) ==> r != Ok::<_, TimesOutOfRange>(None::<u64>),
{
}

/// A run that is recorded is the last of its action, behind those that were there; the other actions
/// stay as they are.
pub proof fn run_is_recorded_last(m: Map<Seq<char>, Seq<u64>>, action: Seq<char>, duration: u64)
    ensures
        ({
            let after = with_runs(m, seq![(action, duration)]);
            let before = if m.contains_key(action) {
                m[action]
            } else {
                Seq::empty()
            };
            &&& after.contains_key(action)
            &&& after[action].last() == duration
            &&& before.len() < 50 ==> after[action] == before.push(duration)
            &&& before.len() >= 50 ==> after[action] == before.push(duration).skip(
                before.len() - 49,
            )
            &&& forall|a: Seq<char>|
                a != action ==> (#[trigger] after.contains_key(a) <==> m.contains_key(a))
            &&& forall|a: Seq<char>| a != action && m.contains_key(a) ==> #[trigger] after[a] == m[a]
        }),
{
    let runs = seq![(action, duration)];
    assert(runs.drop_last() =~= Seq::empty());
    assert(with_runs(m, runs.drop_last()) == m);
}

} // verus!
