//! What a setup asks of the host, and how the host answers.

use vstd::prelude::*;

verus! {

/// Work that goes on beside a setup.
#[derive(Clone, Copy, Debug, PartialEq, Eq, Structural)]
pub enum Job {
    /// Download the boot images unless they are there.
    EnsureArtifacts,
    /// Deploy the cluster and hand over to it.
    DeployCluster,
    /// Download the boot images.
    DownloadArtifacts,
}

/// Something to be done on the host.
#[derive(Clone, Debug, PartialEq, Eq)]
pub enum Task {
    /// Read a file.
    ReadFile(String),
    /// See whether a path exists.
    Exists(String),
    /// Make a directory and those above it.
    MakeDir(String),
    /// Copy a file.
    CopyFile { from: String, to: String },
    /// Write a file.
    WriteFile { path: String, content: String },
    /// Remove a file.
    RemoveFile(String),
    /// Run a program.
    Run { program: String, args: Vec<String> },
    /// Run `kubectl` against the cluster of a configuration file.
    Kubectl { kubeconfig: String, args: Vec<String> },
    /// Set a variable of the environment.
    SetVar { name: String, value: String },
    /// Wait for so many seconds.
    Sleep(u64),
    /// Wait for an acknowledgement, at most so many seconds.
    AwaitAck(u64),
    /// Start a job beside this setup.
    Start(Job),
    /// Nothing.
    Nothing,
}

/// `Task` as a mathematical value.
pub enum TaskView {
    ReadFile(Seq<char>),
    Exists(Seq<char>),
    MakeDir(Seq<char>),
    CopyFile { from: Seq<char>, to: Seq<char> },
    WriteFile { path: Seq<char>, content: Seq<char> },
    RemoveFile(Seq<char>),
    Run { program: Seq<char>, args: Seq<Seq<char>> },
    Kubectl { kubeconfig: Seq<char>, args: Seq<Seq<char>> },
    SetVar { name: Seq<char>, value: Seq<char> },
    Sleep(u64),
    AwaitAck(u64),
    Start(Job),
    Nothing,
}

impl DeepView for Task {
    type V = TaskView;

    open spec fn deep_view(&self) -> TaskView {
        match self {
            Task::ReadFile(p) => TaskView::ReadFile(p@),
            Task::Exists(p) => TaskView::Exists(p@),
            Task::MakeDir(p) => TaskView::MakeDir(p@),
            Task::CopyFile { from, to } => TaskView::CopyFile { from: from@, to: to@ },
            Task::WriteFile { path, content } => TaskView::WriteFile {
                path: path@,
                content: content@,
            },
            Task::RemoveFile(p) => TaskView::RemoveFile(p@),
            Task::Run { program, args } => TaskView::Run {
                program: program@,
                args: args.deep_view(),
            },
            Task::Kubectl { kubeconfig, args } => TaskView::Kubectl {
                kubeconfig: kubeconfig@,
                args: args.deep_view(),
            },
            Task::SetVar { name, value } => TaskView::SetVar { name: name@, value: value@ },
            Task::Sleep(s) => TaskView::Sleep(*s),
            Task::AwaitAck(s) => TaskView::AwaitAck(*s),
            Task::Start(j) => TaskView::Start(*j),
            Task::Nothing => TaskView::Nothing,
        }
    }
}

/// How a task ended. A file that was read is the output; a path that does not exist is a task
/// without success.
#[derive(Clone, Debug, PartialEq, Eq)]
pub enum Outcome {
    /// It was carried out, with or without success.
    Ran { success: bool, stdout: String, stderr: String },
    /// It could not be carried out.
    Broken(String),
}

/// `Outcome` as a mathematical value.
pub enum OutcomeView {
    Ran { success: bool, stdout: Seq<char>, stderr: Seq<char> },
    Broken(Seq<char>),
}

impl DeepView for Outcome {
    type V = OutcomeView;

    open spec fn deep_view(&self) -> OutcomeView {
        match self {
            Outcome::Ran { success, stdout, stderr } => OutcomeView::Ran {
                success: *success,
                stdout: stdout@,
                stderr: stderr@,
            },
            Outcome::Broken(e) => OutcomeView::Broken(e@),
        }
    }
}

impl OutcomeView {
    /// It was carried out with success.
    pub open spec fn succeeded(self) -> bool {
        self matches OutcomeView::Ran { success: true, .. }
    }

    /// What it said of its failure.
    pub open spec fn reason(self) -> Seq<char> {
        match self {
            OutcomeView::Ran { stderr, .. } => stderr,
            OutcomeView::Broken(e) => e,
        }
    }
}

impl Outcome {
    /// It was carried out with success.
    pub fn succeeded(&self) -> (r: bool)
        ensures
            r == self.deep_view().succeeded(),
    {
        match self {
            Outcome::Ran { success, .. } => *success,
            Outcome::Broken(_) => false,
        }
    }

    /// It could not be carried out.
    pub fn broken(&self) -> (r: bool)
        ensures
            r == (self.deep_view() is Broken),
    {
        match self {
            Outcome::Ran { .. } => false,
            Outcome::Broken(_) => true,
        }
    }

    /// What it said of its failure.
    pub fn reason(&self) -> (r: &str)
        ensures
            r@ == self.deep_view().reason(),
    {
        match self {
            Outcome::Ran { stderr, .. } => stderr.as_str(),
            Outcome::Broken(e) => e.as_str(),
        }
    }
}

/// The program with one argument.
pub open spec fn run1(program: Seq<char>, a: Seq<char>) -> TaskView {
    TaskView::Run { program, args: seq![a] }
}

/// The program with two arguments.
pub open spec fn run2(program: Seq<char>, a: Seq<char>, b: Seq<char>) -> TaskView {
    TaskView::Run { program, args: seq![a, b] }
}

/// The program with three arguments.
pub open spec fn run3(program: Seq<char>, a: Seq<char>, b: Seq<char>, c: Seq<char>) -> TaskView {
    TaskView::Run { program, args: seq![a, b, c] }
}

/// The program with one argument.
pub(crate) fn task1(program: &str, a: &str) -> (r: Task)
    ensures
        r.deep_view() == run1(program@, a@),
{
    let args: Vec<String> = vec![a.to_owned()];
    assert(args.deep_view() =~= seq![a@]);
    Task::Run { program: program.to_owned(), args }
}

/// The program with two arguments.
pub(crate) fn task2(program: &str, a: &str, b: &str) -> (r: Task)
    ensures
        r.deep_view() == run2(program@, a@, b@),
{
    let args: Vec<String> = vec![a.to_owned(), b.to_owned()];
    assert(args.deep_view() =~= seq![a@, b@]);
    Task::Run { program: program.to_owned(), args }
}

/// The program with three arguments.
pub(crate) fn task3(program: &str, a: &str, b: &str, c: &str) -> (r: Task)
    ensures
        r.deep_view() == run3(program@, a@, b@, c@),
{
    let args: Vec<String> = vec![a.to_owned(), b.to_owned(), c.to_owned()];
    assert(args.deep_view() =~= seq![a@, b@, c@]);
    Task::Run { program: program.to_owned(), args }
}

/// These texts as a list of arguments.
pub(crate) fn arguments(parts: &[&str]) -> (r: Vec<String>)
    ensures
        r.deep_view() == Seq::new(parts@.len(), |i: int| parts@[i]@),
{
    let mut args: Vec<String> = Vec::new();
    let mut i: usize = 0;
    while i < parts.len()
        invariant
            i <= parts.len(),
            args.deep_view() == Seq::new(i as nat, |j: int| parts@[j]@),
        decreases parts.len() - i,
    {
        let ghost before = args.deep_view();
        let part: &str = parts[i];
        let arg: String = part.to_owned();
        args.push(arg);
        i = i + 1;
        assert(args.deep_view() =~= before.push(arg@));
        assert(args.deep_view() =~= Seq::new(i as nat, |j: int| parts@[j]@));
    }
    args
}

} // verus!
