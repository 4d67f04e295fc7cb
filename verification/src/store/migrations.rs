//! Bringing the schema of an older database up to date.

use vstd::prelude::*;

use crate::text::{begins, only_the_prefix_is_peeled, peeled, same, starts_with, trim_prefix};

verus! {

/// The columns that a database has: those of the machines, and those of the settings where there
/// is a table of them.
#[derive(Debug, PartialEq, Eq)]
pub struct Schema {
    pub machines: Vec<String>,
    pub settings: Option<Vec<String>>,
}

/// `Schema` as a mathematical value.
pub struct SchemaView {
    pub machines: Seq<Seq<char>>,
    pub settings: Option<Seq<Seq<char>>>,
}

impl DeepView for Schema {
    type V = SchemaView;

    open spec fn deep_view(&self) -> SchemaView {
        SchemaView {
            machines: self.machines.deep_view(),
            settings: self.settings.deep_view(),
        }
    }
}

/// A column that databases did not always have.
#[derive(Clone, Copy, Debug, PartialEq, Eq, Structural)]
pub enum Column {
    OsInstalled,
    BmcCredentials,
    InstallationProgress,
    InstallationStep,
    LastDeploymentDuration,
    DefaultOs,
    SetupCompleted,
    CpuModel,
    CpuCores,
    TotalRamBytes,
    ProxmoxVmid,
    ProxmoxNode,
    MemorableName,
    IsProxmoxHost,
}

/// The columns in the order in which they are added.
pub open spec fn all_columns() -> Seq<Column> {
    seq![
        Column::OsInstalled,
        Column::BmcCredentials,
        Column::InstallationProgress,
        Column::InstallationStep,
        Column::LastDeploymentDuration,
        Column::DefaultOs,
        Column::SetupCompleted,
        Column::CpuModel,
        Column::CpuCores,
        Column::TotalRamBytes,
        Column::ProxmoxVmid,
        Column::ProxmoxNode,
        Column::MemorableName,
        Column::IsProxmoxHost,
    ]
}

/// The column is one of the settings.
pub open spec fn is_setting(c: Column) -> bool {
    c == Column::DefaultOs || c == Column::SetupCompleted
}

/// The name of a column.
pub open spec fn column_name(c: Column) -> Seq<char> {
    match c {
        Column::OsInstalled => "os_installed"@,
        Column::BmcCredentials => "bmc_credentials"@,
        Column::InstallationProgress => "installation_progress"@,
        Column::InstallationStep => "installation_step"@,
        Column::LastDeploymentDuration => "last_deployment_duration"@,
        Column::DefaultOs => "default_os"@,
        Column::SetupCompleted => "setup_completed"@,
        Column::CpuModel => "cpu_model"@,
        Column::CpuCores => "cpu_cores"@,
        Column::TotalRamBytes => "total_ram_bytes"@,
        Column::ProxmoxVmid => "proxmox_vmid"@,
        Column::ProxmoxNode => "proxmox_node"@,
        Column::MemorableName => "memorable_name"@,
        Column::IsProxmoxHost => "is_proxmox_host"@,
    }
}

/// The definition of a column.
pub open spec fn column_definition(c: Column) -> Seq<char> {
    match c {
        Column::OsInstalled => "TEXT"@,
        Column::BmcCredentials => "TEXT"@,
        Column::InstallationProgress => "INTEGER DEFAULT 0"@,
        Column::InstallationStep => "TEXT"@,
        Column::LastDeploymentDuration => "INTEGER"@,
        Column::DefaultOs => "TEXT"@,
        Column::SetupCompleted => "BOOLEAN NOT NULL DEFAULT 0"@,
        Column::CpuModel => "TEXT"@,
        Column::CpuCores => "INTEGER"@,
        Column::TotalRamBytes => "INTEGER"@,
        Column::ProxmoxVmid => "INTEGER"@,
        Column::ProxmoxNode => "TEXT"@,
        Column::MemorableName => "TEXT"@,
        Column::IsProxmoxHost => "BOOLEAN DEFAULT FALSE NOT NULL"@,
    }
}

/// A step of a migration.
#[derive(Clone, Copy, Debug, PartialEq, Eq, Structural)]
pub enum MigrationStep {
    /// Add a column.
    AddColumn(Column),
    /// Take the operating systems of machines out of their statuses.
    MoveExistingOs,
    /// Mark the machines that are Proxmox nodes.
    MarkProxmoxHosts,
}

/// The column is missing, and there is a table that it belongs to.
pub open spec fn is_missing(s: SchemaView, c: Column) -> bool {
    if is_setting(c) {
        s.settings matches Some(columns) && !columns.contains(column_name(c))
    } else {
        !s.machines.contains(column_name(c))
    }
}

/// What follows the addition of a column.
pub open spec fn follow_up(c: Column) -> Seq<MigrationStep> {
    if c == Column::OsInstalled {
        seq![MigrationStep::MoveExistingOs]
    } else if c == Column::IsProxmoxHost {
        seq![MigrationStep::MarkProxmoxHosts]
    } else {
        Seq::empty()
    }
}

/// The steps for one column: none where it is there.
pub open spec fn column_steps(s: SchemaView, c: Column) -> Seq<MigrationStep> {
    if is_missing(s, c) {
        seq![MigrationStep::AddColumn(c)] + follow_up(c)
    } else {
        Seq::empty()
    }
}

/// The steps for several columns.
pub open spec fn steps_for(s: SchemaView, columns: Seq<Column>) -> Seq<MigrationStep>
    decreases columns.len(),
{
    if columns.len() == 0 {
        Seq::empty()
    } else {
        steps_for(s, columns.drop_last()) + column_steps(s, columns.last())
    }
}

/// The migration of a database: the steps for each column that it lacks.
pub open spec fn migration(s: SchemaView) -> Seq<MigrationStep> {
    steps_for(s, all_columns())
}

/// The schema after a step.
pub open spec fn after_step(s: SchemaView, step: MigrationStep) -> SchemaView {
    match step {
        MigrationStep::AddColumn(c) => if is_setting(c) {
            SchemaView {
                settings: match s.settings {
                    Some(columns) => Some(columns.push(column_name(c))),
                    None => None,
                },
                ..s
            }
        } else {
            SchemaView { machines: s.machines.push(column_name(c)), ..s }
        },
        _ => s,
    }
}

/// The schema after several steps.
pub open spec fn after_steps(s: SchemaView, steps: Seq<MigrationStep>) -> SchemaView
    decreases steps.len(),
{
    if steps.len() == 0 {
        s
    } else {
        after_step(after_steps(s, steps.drop_last()), steps.last())
    }
}

/// The statement that carries out a step, but for the part of moving operating systems, which
/// goes row by row.
pub open spec fn step_statement(step: MigrationStep) -> Seq<char> {
    match step {
        MigrationStep::AddColumn(c) => "ALTER TABLE "@ + (if is_setting(c) {
            "app_settings"@
        } else {
            "machines"@
        }) + " ADD COLUMN "@ + column_name(c) + " "@ + column_definition(c),
        MigrationStep::MoveExistingOs =>
            "UPDATE machines SET os_installed = ?, updated_at = ?, status = ? WHERE id = ?"@,
        MigrationStep::MarkProxmoxHosts =>
            "UPDATE machines SET is_proxmox_host = TRUE WHERE proxmox_node IS NOT NULL AND proxmox_vmid IS NULL"@,
    }
}

fn contains_column(columns: &Vec<String>, name: &str) -> (r: bool)
    ensures
        r == columns.deep_view().contains(name@),
{
    let mut i: usize = 0;
    while i < columns.len()
        invariant
            i <= columns.len(),
            forall|j: int| 0 <= j < i ==> columns.deep_view()[j] != name@,
        decreases columns.len() - i,
    {
        assert(columns.deep_view()[i as int] == columns@[i as int]@);
        if same(columns[i].as_str(), name) {
            return true;
        }
        i = i + 1;
    }
    false
}

impl Column {
    /// The name of the column.
    pub fn name(self) -> (r: &'static str)
        ensures
            r@ == column_name(self),
    {
        match self {
            Column::OsInstalled => "os_installed",
            Column::BmcCredentials => "bmc_credentials",
            Column::InstallationProgress => "installation_progress",
            Column::InstallationStep => "installation_step",
            Column::LastDeploymentDuration => "last_deployment_duration",
            Column::DefaultOs => "default_os",
            Column::SetupCompleted => "setup_completed",
            Column::CpuModel => "cpu_model",
            Column::CpuCores => "cpu_cores",
            Column::TotalRamBytes => "total_ram_bytes",
            Column::ProxmoxVmid => "proxmox_vmid",
            Column::ProxmoxNode => "proxmox_node",
            Column::MemorableName => "memorable_name",
            Column::IsProxmoxHost => "is_proxmox_host",
        }
    }

    fn definition(self) -> (r: &'static str)
        ensures
            r@ == column_definition(self),
    {
        match self {
            Column::OsInstalled => "TEXT",
            Column::BmcCredentials => "TEXT",
            Column::InstallationProgress => "INTEGER DEFAULT 0",
            Column::InstallationStep => "TEXT",
            Column::LastDeploymentDuration => "INTEGER",
            Column::DefaultOs => "TEXT",
            Column::SetupCompleted => "BOOLEAN NOT NULL DEFAULT 0",
            Column::CpuModel => "TEXT",
            Column::CpuCores => "INTEGER",
            Column::TotalRamBytes => "INTEGER",
            Column::ProxmoxVmid => "INTEGER",
            Column::ProxmoxNode => "TEXT",
            Column::MemorableName => "TEXT",
            Column::IsProxmoxHost => "BOOLEAN DEFAULT FALSE NOT NULL",
        }
    }

    fn belongs_to_settings(self) -> (r: bool)
        ensures
            r == is_setting(self),
    {
        match self {
            Column::DefaultOs | Column::SetupCompleted => true,
            _ => false,
        }
    }
}

impl MigrationStep {
    /// The statement that carries out the step.
    pub fn statement(self) -> (r: String)
        ensures
            r@ == step_statement(self),
    {
        match self {
            MigrationStep::AddColumn(c) => {
                let mut s = "ALTER TABLE ".to_owned();
                s.append(if c.belongs_to_settings() { "app_settings" } else { "machines" });
                s.append(" ADD COLUMN ");
                s.append(c.name());
                s.append(" ");
                s.append(c.definition());
                s
            },
            MigrationStep::MoveExistingOs =>
                "UPDATE machines SET os_installed = ?, updated_at = ?, status = ? WHERE id = ?".to_owned(),
            MigrationStep::MarkProxmoxHosts =>
                "UPDATE machines SET is_proxmox_host = TRUE WHERE proxmox_node IS NOT NULL AND proxmox_vmid IS NULL".to_owned(),
        }
    }
}

impl Schema {
    fn lacks(&self, c: Column) -> (r: bool)
        ensures
            r == is_missing(self.deep_view(), c),
    {
        if c.belongs_to_settings() {
            match &self.settings {
                Some(columns) => !contains_column(columns, c.name()),
                None => false,
            }
        } else {
            !contains_column(&self.machines, c.name())
        }
    }
}

/// The steps that bring a database up to date.
pub fn migrate_db(schema: &Schema) -> (r: Vec<MigrationStep>)
    ensures
        r@ == migration(schema.deep_view()),
{
    let columns: [Column; 14] = [
        Column::OsInstalled,
        Column::BmcCredentials,
        Column::InstallationProgress,
        Column::InstallationStep,
        Column::LastDeploymentDuration,
        Column::DefaultOs,
        Column::SetupCompleted,
        Column::CpuModel,
        Column::CpuCores,
        Column::TotalRamBytes,
        Column::ProxmoxVmid,
        Column::ProxmoxNode,
        Column::MemorableName,
        Column::IsProxmoxHost,
    ];
    let ghost all = all_columns();
    assert(columns@ =~= all);
    let mut steps: Vec<MigrationStep> = Vec::new();
    let mut i: usize = 0;
    assert(all.take(0) =~= Seq::empty());
    while i < 14
        invariant
            i <= 14,
            columns@ == all,
            all == all_columns(),
            steps@ == steps_for(schema.deep_view(), all.take(i as int)),
        decreases 14 - i,
    {
        let ghost before = steps@;
        let column: Column = columns[i];
        proof {
            assert(all.take(i + 1).drop_last() =~= all.take(i as int));
            assert(all.take(i + 1).last() == column);
        }
        if schema.lacks(column) {
            steps.push(MigrationStep::AddColumn(column));
            match column {
                Column::OsInstalled => {
                    steps.push(MigrationStep::MoveExistingOs);
                },
                Column::IsProxmoxHost => {
                    steps.push(MigrationStep::MarkProxmoxHosts);
                },
                _ => {},
            }
        }
        assert(steps@ =~= before + column_steps(schema.deep_view(), column));
        i = i + 1;
    }
    assert(all.take(14) =~= all);
    steps
}

/// The operating system of a machine, by a status from before it was kept on its own.
pub open spec fn os_in_status(status: Seq<char>) -> Seq<char> {
    if begins(status, "ExistingOS: "@) {
        peeled(status, "ExistingOS: "@)
    } else {
        "Unknown"@
    }
}

/// The operating system and the status to be kept of a machine with a status from before the
/// operating system was kept on its own.
pub fn split_existing_os(status: &str) -> (r: (String, String))
    ensures
        r.0@ == os_in_status(status@),
        r.1@ == "Existing OS"@,
{
    let os = if starts_with(status, "ExistingOS: ") {
        trim_prefix(status, "ExistingOS: ")
    } else {
        "Unknown".to_owned()
    };
    (os, "Existing OS".to_owned())
}

// ---------------------------------------------------------------------------------------------
// What a migration achieves
// ---------------------------------------------------------------------------------------------

/// No two columns share a name.
proof fn column_names_differ(c: Column, d: Column)
    requires
        column_name(c) == column_name(d),
    ensures
        c == d,
{
    reveal_strlit("os_installed");
    reveal_strlit("bmc_credentials");
    reveal_strlit("installation_progress");
    reveal_strlit("installation_step");
    reveal_strlit("last_deployment_duration");
    reveal_strlit("default_os");
    reveal_strlit("setup_completed");
    reveal_strlit("cpu_model");
    reveal_strlit("cpu_cores");
    reveal_strlit("total_ram_bytes");
    reveal_strlit("proxmox_vmid");
    reveal_strlit("proxmox_node");
    reveal_strlit("memorable_name");
    reveal_strlit("is_proxmox_host");
    let a = column_name(c);
    let b = column_name(d);
    assert(a.len() == b.len());
    assert(a[0] == b[0] && a[4] == b[4] && a[8] == b[8]);
}

proof fn after_steps_of_two(s: SchemaView, a: Seq<MigrationStep>, b: Seq<MigrationStep>)
    ensures
        after_steps(s, a + b) == after_steps(after_steps(s, a), b),
    decreases b.len(),
{
    if b.len() == 0 {
        assert(a + b =~= a);
    } else {
        after_steps_of_two(s, a, b.drop_last());
        assert((a + b).drop_last() =~= a + b.drop_last());
        assert((a + b).last() == b.last());
    }
}

/// Adding a column changes nothing about the others.
proof fn adding_one_column(s: SchemaView, c: Column)
    ensures
        ({
            let t = after_steps(s, column_steps(s, c));
            &&& !is_missing(t, c)
            &&& forall|d: Column| d != c ==> (is_missing(t, d) <==> is_missing(s, d))
            &&& s.settings is Some <==> t.settings is Some
            &&& s.machines.is_prefix_of(t.machines)
            &&& s.settings matches Some(x) ==> x.is_prefix_of(t.settings->0)
        }),
{
    let steps = column_steps(s, c);
    let t = after_steps(s, steps);
    if is_missing(s, c) {
        let one = seq![MigrationStep::AddColumn(c)];
        let added = after_step(s, MigrationStep::AddColumn(c));
        after_steps_of_two(s, one, follow_up(c));
        assert(one.drop_last() =~= Seq::empty());
        assert(after_steps(s, one) == added) by {
            assert(after_steps(s, Seq::empty()) == s);
        }
        assert(t == added) by {
            let f = follow_up(c);
            if f.len() > 0 {
                assert(f.drop_last() =~= Seq::empty());
                assert(after_steps(added, Seq::empty()) == added);
            }
        }
        let before = if is_setting(c) {
            s.settings->0
        } else {
            s.machines
        };
        let grown = before.push(column_name(c));
        assert(grown[before.len() as int] == column_name(c));
        assert forall|d: Column| d != c implies (is_missing(t, d) <==> is_missing(s, d)) by {
            if column_name(d) == column_name(c) {
                column_names_differ(c, d);
            }
            assert(grown.contains(column_name(d)) <==> before.contains(column_name(d))) by {
                if before.contains(column_name(d)) {
                    let i = choose|i: int| 0 <= i < before.len() && before[i] == column_name(d);
                    assert(grown[i] == column_name(d));
                }
                if grown.contains(column_name(d)) {
                    let i = choose|i: int| 0 <= i < grown.len() && grown[i] == column_name(d);
                    assert(before[i] == column_name(d));
                }
            }
        }
    } else {
        assert(after_steps(s, Seq::empty()) == s);
    }
}

proof fn columns_are_added(s: SchemaView, columns: Seq<Column>)
    requires
        columns.no_duplicates(),
    ensures
        ({
            let t = after_steps(s, steps_for(s, columns));
            &&& forall|i: int| 0 <= i < columns.len() ==> !is_missing(t, #[trigger] columns[i])
            &&& forall|d: Column|
                !columns.contains(d) ==> (#[trigger] is_missing(t, d) <==> is_missing(s, d))
            &&& s.machines.is_prefix_of(t.machines)
            &&& s.settings matches Some(x) ==> t.settings is Some && x.is_prefix_of(t.settings->0)
        }),
    decreases columns.len(),
{
    if columns.len() > 0 {
        let front = columns.drop_last();
        let c = columns.last();
        columns_are_added(s, front);
        let mid = after_steps(s, steps_for(s, front));
        assert(!front.contains(c));
        assert(is_missing(mid, c) <==> is_missing(s, c));
        assert(column_steps(mid, c) == column_steps(s, c));
        after_steps_of_two(s, steps_for(s, front), column_steps(s, c));
        adding_one_column(mid, c);
        let t = after_steps(mid, column_steps(s, c));
        assert forall|i: int| 0 <= i < columns.len() implies !is_missing(t, #[trigger] columns[i]) by {
            if i < front.len() {
                assert(front[i] == columns[i]);
                assert(columns[i] != c);
            }
        }
        assert forall|d: Column| !columns.contains(d) implies (#[trigger] is_missing(t, d)
            <==> is_missing(s, d)) by {
            assert(columns[columns.len() - 1] == c);
            if front.contains(d) {
                let i = choose|i: int| 0 <= i < front.len() && front[i] == d;
                assert(columns[i] == d);
            }
        }
        assert(s.machines =~= mid.machines.subrange(0, s.machines.len() as int));
        assert(s.machines =~= t.machines.subrange(0, s.machines.len() as int));
        if let Some(x) = s.settings {
            assert(x =~= (mid.settings->0).subrange(0, x.len() as int));
            assert(x =~= (t.settings->0).subrange(0, x.len() as int));
        }
    } else {
        assert(after_steps(s, Seq::empty()) == s);
        assert(s.machines =~= s.machines.subrange(0, s.machines.len() as int));
        if let Some(x) = s.settings {
            assert(x =~= x.subrange(0, x.len() as int));
        }
    }
}

proof fn columns_are_listed(c: Column)
    ensures
        all_columns().contains(c),
        all_columns().no_duplicates(),
{
    let all = all_columns();
    let i: int = match c {
        Column::OsInstalled => 0,
        Column::BmcCredentials => 1,
        Column::InstallationProgress => 2,
        Column::InstallationStep => 3,
        Column::LastDeploymentDuration => 4,
        Column::DefaultOs => 5,
        Column::SetupCompleted => 6,
        Column::CpuModel => 7,
        Column::CpuCores => 8,
        Column::TotalRamBytes => 9,
        Column::ProxmoxVmid => 10,
        Column::ProxmoxNode => 11,
        Column::MemorableName => 12,
        Column::IsProxmoxHost => 13,
    };
    assert(all[i] == c);
}

/// After its migration a database lacks no column, and it has kept those that it had.
pub proof fn migration_completes_the_schema(s: SchemaView, c: Column)
    ensures
        !is_missing(after_steps(s, migration(s)), c),
        s.machines.is_prefix_of(after_steps(s, migration(s)).machines),
        s.settings matches Some(x) ==> after_steps(s, migration(s)).settings matches Some(y)
            && x.is_prefix_of(y),
{
    columns_are_listed(c);
    columns_are_added(s, all_columns());
    let i = choose|i: int| 0 <= i < all_columns().len() && all_columns()[i] == c;
    assert(!is_missing(after_steps(s, migration(s)), all_columns()[i]));
}

proof fn nothing_to_add(s: SchemaView, columns: Seq<Column>)
    requires
        forall|i: int| 0 <= i < columns.len() ==> !is_missing(s, #[trigger] columns[i]),
    ensures
        steps_for(s, columns) == Seq::<MigrationStep>::empty(),
    decreases columns.len(),
{
    if columns.len() > 0 {
        assert forall|i: int| 0 <= i < columns.drop_last().len() implies !is_missing(
            s,
            #[trigger] columns.drop_last()[i],
        ) by {
            assert(columns.drop_last()[i] == columns[i]);
        }
        nothing_to_add(s, columns.drop_last());
        assert(columns[columns.len() - 1] == columns.last());
        assert(steps_for(s, columns) =~= Seq::empty());
    }
}

/// A database that has been migrated needs no second migration.
pub proof fn migration_happens_once(s: SchemaView)
    ensures
        migration(after_steps(s, migration(s))) == Seq::<MigrationStep>::empty(),
{
    let t = after_steps(s, migration(s));
    assert forall|i: int| 0 <= i < all_columns().len() implies !is_missing(
        t,
        #[trigger] all_columns()[i],
    ) by {
        migration_completes_the_schema(s, all_columns()[i]);
    }
    nothing_to_add(t, all_columns());
}

// ---------------------------------------------------------------------------------------------
// What a migration does to the machines that are there
// ---------------------------------------------------------------------------------------------

/// What the row of a machine says of Proxmox.
pub struct ProxmoxRow {
    pub node: Option<Seq<char>>,
    pub vmid: Option<int>,
    pub is_host: bool,
}

/// The row after the statement of a step was carried out: a column that is added is null, or has
/// its default, and a machine with a node but without a machine number is marked.
pub open spec fn row_after_step(row: ProxmoxRow, step: MigrationStep) -> ProxmoxRow {
    match step {
        MigrationStep::AddColumn(Column::ProxmoxNode) => ProxmoxRow { node: None, ..row },
        MigrationStep::AddColumn(Column::ProxmoxVmid) => ProxmoxRow { vmid: None, ..row },
        MigrationStep::AddColumn(Column::IsProxmoxHost) => ProxmoxRow { is_host: false, ..row },
        MigrationStep::MarkProxmoxHosts => if row.node is Some && row.vmid is None {
            ProxmoxRow { is_host: true, ..row }
        } else {
            row
        },
        _ => row,
    }
}

/// The row after several steps.
pub open spec fn row_after(row: ProxmoxRow, steps: Seq<MigrationStep>) -> ProxmoxRow
    decreases steps.len(),
{
    if steps.len() == 0 {
        row
    } else {
        row_after_step(row_after(row, steps.drop_last()), steps.last())
    }
}

proof fn row_after_two(row: ProxmoxRow, a: Seq<MigrationStep>, b: Seq<MigrationStep>)
    ensures
        row_after(row, a + b) == row_after(row_after(row, a), b),
    decreases b.len(),
{
    if b.len() == 0 {
        assert(a + b =~= a);
    } else {
        row_after_two(row, a, b.drop_last());
        assert((a + b).drop_last() =~= a + b.drop_last());
        assert((a + b).last() == b.last());
    }
}

/// The steps for one column change nothing in a row but that column.
proof fn row_after_column(s: SchemaView, c: Column, row: ProxmoxRow)
    ensures
        ({
            let done = row_after(row, column_steps(s, c));
            &&& done.node == (if c == Column::ProxmoxNode && is_missing(s, c) {
                None
            } else {
                row.node
            })
            &&& done.vmid == (if c == Column::ProxmoxVmid && is_missing(s, c) {
                None
            } else {
                row.vmid
            })
            &&& done.is_host == (if c == Column::IsProxmoxHost && is_missing(s, c) {
                row.node is Some && row.vmid is None
            } else {
                row.is_host
            })
        }),
{
    assert(row_after(row, Seq::empty()) == row);
    if is_missing(s, c) {
        let one = seq![MigrationStep::AddColumn(c)];
        assert(one.drop_last() =~= Seq::empty());
        let added = row_after(row, one);
        assert(added == row_after_step(row, MigrationStep::AddColumn(c)));
        let more = follow_up(c);
        row_after_two(row, one, more);
        assert(row_after(added, Seq::empty()) == added);
        if more.len() > 0 {
            assert(more.drop_last() =~= Seq::empty());
        }
    }
}

proof fn row_after_columns(s: SchemaView, columns: Seq<Column>, row: ProxmoxRow)
    requires
        !columns.contains(Column::IsProxmoxHost),
    ensures
        ({
            let done = row_after(row, steps_for(s, columns));
            &&& done.is_host == row.is_host
            &&& !is_missing(s, Column::ProxmoxNode) ==> done.node == row.node
            &&& !is_missing(s, Column::ProxmoxVmid) ==> done.vmid == row.vmid
        }),
    decreases columns.len(),
{
    if columns.len() > 0 {
        let front = columns.drop_last();
        let c = columns.last();
        assert(columns[columns.len() - 1] == c);
        if front.contains(Column::IsProxmoxHost) {
            let i = front.index_of(Column::IsProxmoxHost);
            assert(columns[i] == Column::IsProxmoxHost);
        }
        row_after_columns(s, front, row);
        row_after_two(row, steps_for(s, front), column_steps(s, c));
        row_after_column(s, c, row_after(row, steps_for(s, front)));
    }
}

/// A migration that adds the mark of Proxmox hosts sets it on the machines that have a node but no
/// machine number, and on no others. Any other migration leaves the marks as they are, and none
/// changes a node or a machine number that was there.
pub proof fn migration_marks_hosts(s: SchemaView, row: ProxmoxRow)
    ensures
        ({
            let done = row_after(row, migration(s));
            &&& done.is_host == (if is_missing(s, Column::IsProxmoxHost) {
                done.node is Some && done.vmid is None
            } else {
                row.is_host
            })
            &&& !is_missing(s, Column::ProxmoxNode) ==> done.node == row.node
            &&& !is_missing(s, Column::ProxmoxVmid) ==> done.vmid == row.vmid
        }),
{
    let all = all_columns();
    let front = all.drop_last();
    columns_are_listed(Column::IsProxmoxHost);
    assert(all.last() == Column::IsProxmoxHost);
    if front.contains(Column::IsProxmoxHost) {
        let i = front.index_of(Column::IsProxmoxHost);
        assert(all[i] == all[13]);
    }
    row_after_columns(s, front, row);
    row_after_two(row, steps_for(s, front), column_steps(s, Column::IsProxmoxHost));
    row_after_column(s, Column::IsProxmoxHost, row_after(row, steps_for(s, front)));
}

/// A second migration changes no row.
pub proof fn second_migration_changes_no_row(s: SchemaView, row: ProxmoxRow)
    ensures
        row_after(row, migration(after_steps(s, migration(s)))) == row,
{
    migration_happens_once(s);
}

// ---------------------------------------------------------------------------------------------
// What the steps are
// ---------------------------------------------------------------------------------------------

/// A column is added exactly where it is missing from the table that it belongs to.
pub proof fn missing_columns_are_added(s: SchemaView, c: Column)
    ensures
        migration(s).contains(MigrationStep::AddColumn(c)) <==> is_missing(s, c),
        migration(s).contains(MigrationStep::MoveExistingOs) <==> !s.machines.contains(
            "os_installed"@,
        ),
        migration(s).contains(MigrationStep::MarkProxmoxHosts) <==> !s.machines.contains(
            "is_proxmox_host"@,
        ),
        !is_setting(c) ==> (is_missing(s, c) <==> !s.machines.contains(column_name(c))),
        is_setting(c) && s.settings is None ==> !is_missing(s, c),
{
    columns_are_listed(c);
    columns_are_listed(Column::OsInstalled);
    columns_are_listed(Column::IsProxmoxHost);
    steps_are_those_of_the_columns(s, all_columns(), MigrationStep::AddColumn(c));
    steps_are_those_of_the_columns(s, all_columns(), MigrationStep::MoveExistingOs);
    steps_are_those_of_the_columns(s, all_columns(), MigrationStep::MarkProxmoxHosts);
}

/// The column whose addition brings a step.
pub open spec fn column_of(step: MigrationStep) -> Column {
    match step {
        MigrationStep::AddColumn(c) => c,
        MigrationStep::MoveExistingOs => Column::OsInstalled,
        MigrationStep::MarkProxmoxHosts => Column::IsProxmoxHost,
    }
}

proof fn steps_are_those_of_the_columns(s: SchemaView, columns: Seq<Column>, step: MigrationStep)
    ensures
        steps_for(s, columns).contains(step) <==> columns.contains(column_of(step)) && is_missing(
            s,
            column_of(step),
        ),
    decreases columns.len(),
{
    if columns.len() > 0 {
        let front = columns.drop_last();
        let last = columns.last();
        steps_are_those_of_the_columns(s, front, step);
        let a = steps_for(s, front);
        let b = column_steps(s, last);
        let all = a + b;
        let one = seq![MigrationStep::AddColumn(last)];
        assert(columns =~= front.push(last));
        assert(columns.contains(column_of(step)) <==> front.contains(column_of(step)) || last
            == column_of(step)) by {
            assert(columns[columns.len() - 1] == last);
            if front.contains(column_of(step)) {
                let i = choose|i: int| 0 <= i < front.len() && front[i] == column_of(step);
                assert(columns[i] == column_of(step));
            }
            if columns.contains(column_of(step)) {
                let i = choose|i: int| 0 <= i < columns.len() && columns[i] == column_of(step);
                if i < front.len() {
                    assert(front[i] == column_of(step));
                }
            }
        }
        assert(b.contains(step) <==> last == column_of(step) && is_missing(s, last)) by {
            if is_missing(s, last) {
                assert(b == one + follow_up(last));
                assert(b[0] == MigrationStep::AddColumn(last));
                if follow_up(last).len() > 0 {
                    assert(b[1] == follow_up(last)[0]);
                }
            }
        }
        assert(all.contains(step) <==> a.contains(step) || b.contains(step)) by {
            if a.contains(step) {
                let i = choose|i: int| 0 <= i < a.len() && a[i] == step;
                assert(all[i] == step);
            }
            if b.contains(step) {
                let i = choose|i: int| 0 <= i < b.len() && b[i] == step;
                assert(all[a.len() + i] == step);
            }
            if all.contains(step) {
                let i = choose|i: int| 0 <= i < all.len() && all[i] == step;
                if i < a.len() {
                    assert(a[i] == step);
                } else {
                    assert(b[i - a.len()] == step);
                }
            }
        }
    }
}

/// The statement for a column names its table, the column and its definition, in this order.
pub proof fn columns_are_added_to_their_tables(c: Column)
    ensures
        is_setting(c) ==> step_statement(MigrationStep::AddColumn(c))
            == "ALTER TABLE app_settings ADD COLUMN "@ + (column_name(c) + " "@ + column_definition(
            c,
        )),
        !is_setting(c) ==> step_statement(MigrationStep::AddColumn(c))
            == "ALTER TABLE machines ADD COLUMN "@ + (column_name(c) + " "@ + column_definition(c)),
{
    reveal_strlit("ALTER TABLE ");
    reveal_strlit("app_settings");
    reveal_strlit("machines");
    reveal_strlit(" ADD COLUMN ");
    reveal_strlit("ALTER TABLE app_settings ADD COLUMN ");
    reveal_strlit("ALTER TABLE machines ADD COLUMN ");
    assert("ALTER TABLE app_settings ADD COLUMN "@ =~= "ALTER TABLE "@ + "app_settings"@
        + " ADD COLUMN "@);
    assert("ALTER TABLE machines ADD COLUMN "@ =~= "ALTER TABLE "@ + "machines"@ + " ADD COLUMN "@);
    let rest = column_name(c) + " "@ + column_definition(c);
    if is_setting(c) {
        assert(step_statement(MigrationStep::AddColumn(c))
            =~= "ALTER TABLE app_settings ADD COLUMN "@ + rest);
    } else {
        assert(step_statement(MigrationStep::AddColumn(c)) =~= "ALTER TABLE machines ADD COLUMN "@
            + rest);
    }
}

/// The operating system of an older status is what stands behind its name; without that it is unknown.
pub proof fn older_statuses_name_the_system(os: Seq<char>)
    requires
        !begins(os, "ExistingOS: "@),
    ensures
        os_in_status("ExistingOS: "@ + os) == os,
        os_in_status(os) == "Unknown"@,
{
    let mark = "ExistingOS: "@;
    assert((mark + os).subrange(0, mark.len() as int) =~= mark);
    reveal_strlit("ExistingOS: ");
    only_the_prefix_is_peeled(os, mark);
}

/// The machines that are marked are those with a node and without a machine number, by the names of these
/// columns.
pub proof fn hosts_are_marked_by_their_columns()
    ensures
        step_statement(MigrationStep::MarkProxmoxHosts) == "UPDATE machines SET "@ + column_name(
            Column::IsProxmoxHost,
        ) + " = TRUE WHERE "@ + column_name(Column::ProxmoxNode) + " IS NOT NULL AND "@
            + column_name(Column::ProxmoxVmid) + " IS NULL"@,
        step_statement(MigrationStep::MoveExistingOs) == "UPDATE machines SET "@ + column_name(
            Column::OsInstalled,
        ) + " = ?, updated_at = ?, status = ? WHERE id = ?"@,
{
    reveal_strlit("UPDATE machines SET ");
    reveal_strlit("is_proxmox_host");
    reveal_strlit(" = TRUE WHERE ");
    reveal_strlit("proxmox_node");
    reveal_strlit(" IS NOT NULL AND ");
    reveal_strlit("proxmox_vmid");
    reveal_strlit(" IS NULL");
    reveal_strlit("os_installed");
    reveal_strlit(" = ?, updated_at = ?, status = ? WHERE id = ?");
    reveal_strlit("UPDATE machines SET os_installed = ?, updated_at = ?, status = ? WHERE id = ?");
    reveal_strlit(
        "UPDATE machines SET is_proxmox_host = TRUE WHERE proxmox_node IS NOT NULL AND proxmox_vmid IS NULL",
    );
    assert(step_statement(MigrationStep::MarkProxmoxHosts) =~= "UPDATE machines SET "@ + column_name(
        Column::IsProxmoxHost,
    ) + " = TRUE WHERE "@ + column_name(Column::ProxmoxNode) + " IS NOT NULL AND "@ + column_name(
        Column::ProxmoxVmid,
    ) + " IS NULL"@);
    assert(step_statement(MigrationStep::MoveExistingOs) =~= "UPDATE machines SET "@ + column_name(
        Column::OsInstalled,
    ) + " = ?, updated_at = ?, status = ? WHERE id = ?"@);
}

} // verus!
