//! Which operating system a machine runs.

use vstd::prelude::*;

use crate::seqs::{
    ends_of, first_some, first_some_step, last_some, last_some_step, nothing_is_last, this_is_first,
    this_is_last,
};
use crate::text::{
    begins, blank, contains, counted_is_held, held_is_a_part, holds, is_part, lines,
    only_the_prefix_is_peeled, part_at, parted, parted_here, parted_is_at_the_first, peeled,
    split_lines, stands_at, starts_with, stripped, stripped_end, stripped_start, trim, trim_char,
    trim_prefix, trimmed, trimmed_text_stays,
};

verus! {

/// A file that was looked for.
#[derive(Clone, Debug, PartialEq, Eq)]
pub enum FoundFile {
    /// It does not exist.
    Missing,
    /// It exists and could not be read.
    Unreadable,
    /// It holds this text.
    Text(String),
}

/// `FoundFile` as a mathematical value.
pub enum FileView {
    Missing,
    Unreadable,
    Text(Seq<char>),
}

impl DeepView for FoundFile {
    type V = FileView;

    open spec fn deep_view(&self) -> FileView {
        match self {
            FoundFile::Missing => FileView::Missing,
            FoundFile::Unreadable => FileView::Unreadable,
            FoundFile::Text(text) => FileView::Text(text@),
        }
    }
}

/// The name and the version of an operating system.
pub open spec fn os_view(r: (String, String)) -> (Seq<char>, Seq<char>) {
    (r.0@, r.1@)
}

/// A result that may be missing, as a mathematical value.
pub open spec fn found_view(r: Option<(String, String)>) -> Option<(Seq<char>, Seq<char>)> {
    match r {
        Some(os) => Some(os_view(os)),
        None => None,
    }
}

/// What surrounds a value in a line, apart from its key.
#[derive(Clone, Copy, Debug, PartialEq, Eq, Structural)]
pub enum Wrapping {
    /// Quotes.
    Quotes,
    /// Blanks.
    Blanks,
    /// Nothing.
    Nothing,
}

/// The value that a line gives to a key at its start.
pub open spec fn line_value(line: Seq<char>, key: Seq<char>, wrapping: Wrapping) -> Option<
    Seq<char>,
> {
    if begins(line, key) {
        let value = peeled(line, key);
        Some(
            match wrapping {
                Wrapping::Quotes => stripped(value, '"'),
                Wrapping::Blanks => trimmed(value),
                Wrapping::Nothing => value,
            },
        )
    } else {
        None
    }
}

/// The values that the lines of a text give to a key.
pub open spec fn values(text: Seq<char>, key: Seq<char>, wrapping: Wrapping) -> Seq<
    Option<Seq<char>>,
> {
    Seq::new(lines(text).len(), |i: int| line_value(lines(text)[i], key, wrapping))
}

/// The value that the last line with a key gives to it.
pub open spec fn last_value(text: Seq<char>, key: Seq<char>, wrapping: Wrapping) -> Option<Seq<char>> {
    last_some(values(text, key, wrapping))
}

/// The value that the first line with a key gives to it.
pub open spec fn first_value(text: Seq<char>, key: Seq<char>, wrapping: Wrapping) -> Option<Seq<char>> {
    first_some(values(text, key, wrapping))
}

/// The value that a line gives to a key at its start.
fn read_line(line: &str, key: &str, wrapping: Wrapping) -> (r: Option<String>)
    ensures
        r.deep_view() == line_value(line@, key@, wrapping),
{
    if !starts_with(line, key) {
        return None;
    }
    let value = trim_prefix(line, key);
    Some(
        match wrapping {
            Wrapping::Quotes => trim_char(value.as_str(), '"'),
            Wrapping::Blanks => trim(value.as_str()),
            Wrapping::Nothing => value,
        },
    )
}

/// The value that the last line with a key gives to it.
fn read_last(text: &str, key: &str, wrapping: Wrapping) -> (r: Option<String>)
    ensures
        r.deep_view() == last_value(text@, key@, wrapping),
{
    let all = split_lines(text);
    let ghost given = values(text@, key@, wrapping);
    let mut last: Option<String> = None;
    let mut i: usize = 0;
    proof {
        ends_of(given);
    }
    while i < all.len()
        invariant
            i <= all.len(),
            all.deep_view() == lines(text@),
            given == values(text@, key@, wrapping),
            last.deep_view() == last_some(given.take(i as int)),
        decreases all.len() - i,
    {
        proof {
            last_some_step(given, i as int);
            assert(all.deep_view()[i as int] == all@[i as int]@);
        }
        let value = read_line(all[i].as_str(), key, wrapping);
        if value.is_some() {
            last = value;
        }
        i = i + 1;
    }
    proof {
        assert(given.len() == all.len());
        ends_of(given);
    }
    last
}

/// The value that the first line with a key gives to it.
fn read_first(text: &str, key: &str, wrapping: Wrapping) -> (r: Option<String>)
    ensures
        r.deep_view() == first_value(text@, key@, wrapping),
{
    let all = split_lines(text);
    let ghost given = values(text@, key@, wrapping);
    let mut i: usize = 0;
    proof {
        ends_of(given);
    }
    while i < all.len()
        invariant
            i <= all.len(),
            all.deep_view() == lines(text@),
            given == values(text@, key@, wrapping),
            first_some(given) == first_some(given.skip(i as int)),
        decreases all.len() - i,
    {
        proof {
            first_some_step(given, i as int);
            assert(all.deep_view()[i as int] == all@[i as int]@);
        }
        let value = read_line(all[i].as_str(), key, wrapping);
        if value.is_some() {
            return value;
        }
        i = i + 1;
    }
    proof {
        assert(given.len() == all.len());
        ends_of(given);
    }
    None
}

/// A value, or `Unknown` where there is none or it is empty.
pub open spec fn known(value: Option<Seq<char>>) -> Seq<char> {
    match value {
        Some(v) if v.len() > 0 => v,
        _ => "Unknown"@,
    }
}

fn or_unknown(value: Option<String>) -> (r: String)
    ensures
        r@ == known(value.deep_view()),
{
    match value {
        Some(v) => if v.as_str().is_empty() {
            "Unknown".to_owned()
        } else {
            v
        },
        None => "Unknown".to_owned(),
    }
}

/// What an `os-release` file says: the last name and the last version in it.
pub open spec fn os_release(content: Seq<char>) -> (Seq<char>, Seq<char>) {
    (
        known(last_value(content, "NAME="@, Wrapping::Quotes)),
        known(last_value(content, "VERSION_ID="@, Wrapping::Quotes)),
    )
}

/// Reads an `os-release` file.
pub fn parse_os_release(content: &str) -> (r: (String, String))
    ensures
        os_view(r) == os_release(content@),
{
    let name = or_unknown(read_last(content, "NAME=", Wrapping::Quotes));
    let version = or_unknown(read_last(content, "VERSION_ID=", Wrapping::Quotes));
    (name, version)
}

/// What the `os-release` files say: the one under `/etc` if it exists, else the one under
/// `/usr/lib`.
pub open spec fn release_file(etc: FileView, usr_lib: FileView) -> Option<(Seq<char>, Seq<char>)> {
    match etc {
        FileView::Text(content) => Some(os_release(content)),
        FileView::Unreadable => None,
        FileView::Missing => match usr_lib {
            FileView::Text(content) => Some(os_release(content)),
            _ => None,
        },
    }
}

/// Reads the `os-release` files.
pub fn detect_os_from_release_file(etc: &FoundFile, usr_lib: &FoundFile) -> (r: Option<
    (String, String),
>)
    ensures
        found_view(r) == release_file(etc.deep_view(), usr_lib.deep_view()),
{
    match etc {
        FoundFile::Text(content) => Some(parse_os_release(content.as_str())),
        FoundFile::Unreadable => None,
        FoundFile::Missing => match usr_lib {
            FoundFile::Text(content) => Some(parse_os_release(content.as_str())),
            _ => None,
        },
    }
}

/// A text, empty where there is none.
pub open spec fn or_empty(value: Option<Seq<char>>) -> Seq<char> {
    match value {
        Some(v) => v,
        None => Seq::empty(),
    }
}

/// What `lsb_release -a` prints, if it ran with success and prints a name.
pub open spec fn lsb_report(output: Option<Seq<char>>) -> Option<(Seq<char>, Seq<char>)> {
    match output {
        Some(text) => {
            let name = or_empty(last_value(text, "Distributor ID:"@, Wrapping::Blanks));
            let version = or_empty(last_value(text, "Release:"@, Wrapping::Blanks));
            if name.len() > 0 {
                Some((name, version))
            } else {
                None
            }
        },
        None => None,
    }
}

fn or_nothing(value: Option<String>) -> (r: String)
    ensures
        r@ == or_empty(value.deep_view()),
{
    match value {
        Some(v) => v,
        None => String::new(),
    }
}

/// Reads what `lsb_release -a` prints, if it ran with success.
pub fn detect_os_from_lsb_release(output: &Option<String>) -> (r: Option<(String, String)>)
    ensures
        found_view(r) == lsb_report(output.deep_view()),
{
    match output {
        Some(text) => {
            let name = or_nothing(read_last(text.as_str(), "Distributor ID:", Wrapping::Blanks));
            let version = or_nothing(read_last(text.as_str(), "Release:", Wrapping::Blanks));
            if name.as_str().is_empty() {
                None
            } else {
                Some((name, version))
            }
        },
        None => None,
    }
}

/// The files by which distributions are told apart.
#[derive(Debug, PartialEq, Eq)]
pub struct DistroFiles {
    /// `/etc/lsb-release`
    pub lsb_release: FoundFile,
    /// `/etc/debian_version`
    pub debian_version: FoundFile,
    /// `/etc/redhat-release`
    pub redhat_release: FoundFile,
    /// `/etc/SuSE-release`
    pub suse_release: FoundFile,
    /// `/etc/SUSE-release`
    pub suse_release_capitals: FoundFile,
    /// `/etc/alpine-release`
    pub alpine_release: FoundFile,
    /// `/etc/arch-release`
    pub has_arch_release: bool,
}

/// What a file says of the distribution.
pub enum Finding {
    /// It is this one, of this version.
    Is(Seq<char>, Seq<char>),
    /// The search fails.
    Fails,
    /// The next file is to be looked at.
    Open,
}

/// What `/etc/lsb-release` says: Ubuntu, or nothing.
pub open spec fn ubuntu(file: FileView) -> Finding {
    match file {
        FileView::Missing => Finding::Open,
        FileView::Unreadable => Finding::Fails,
        FileView::Text(text) => if holds(text, "Ubuntu"@) {
            Finding::Is(
                "Ubuntu"@,
                or_empty(first_value(text, "DISTRIB_RELEASE="@, Wrapping::Quotes)),
            )
        } else {
            Finding::Open
        },
    }
}

/// A file that holds nothing but the version of a distribution.
pub open spec fn version_file(file: FileView, name: Seq<char>) -> Finding {
    match file {
        FileView::Missing => Finding::Open,
        FileView::Unreadable => Finding::Fails,
        FileView::Text(text) => Finding::Is(name, trimmed(text)),
    }
}

/// The version in the line of a Red Hat system: the word behind `release `.
pub open spec fn release_version(line: Seq<char>) -> Seq<char> {
    match parted(line, "release "@) {
        Some((_, rest)) => match parted(rest, " "@) {
            Some((version, _)) => version,
            None => rest,
        },
        None => "Unknown"@,
    }
}

/// What `/etc/redhat-release` says: one of the family, or nothing.
pub open spec fn red_hat(file: FileView) -> Finding {
    match file {
        FileView::Missing => Finding::Open,
        FileView::Unreadable => Finding::Fails,
        FileView::Text(text) => {
            let line = trimmed(text);
            if holds(line, "CentOS"@) {
                Finding::Is("CentOS"@, release_version(line))
            } else if holds(line, "Red Hat Enterprise Linux"@) || holds(line, "RHEL"@) {
                Finding::Is("RHEL"@, release_version(line))
            } else if holds(line, "Fedora"@) {
                Finding::Is("Fedora"@, release_version(line))
            } else {
                Finding::Open
            }
        },
    }
}

/// The first line of a text.
pub open spec fn first_line(text: Seq<char>) -> Seq<char> {
    if lines(text).len() == 0 {
        Seq::empty()
    } else {
        lines(text)[0]
    }
}

/// The version that a SUSE file gives.
pub open spec fn suse_version(text: Seq<char>) -> Seq<char> {
    match first_value(text, "VERSION = "@, Wrapping::Nothing) {
        Some(version) => version,
        None => "Unknown"@,
    }
}

/// What a SUSE file says: one of the family, or nothing.
pub open spec fn suse(file: FileView) -> Finding {
    match file {
        FileView::Missing => Finding::Open,
        FileView::Unreadable => Finding::Fails,
        FileView::Text(text) => if holds(first_line(text), "openSUSE"@) {
            Finding::Is("openSUSE"@, suse_version(text))
        } else if holds(first_line(text), "SUSE Linux Enterprise"@) {
            Finding::Is("SLES"@, suse_version(text))
        } else {
            Finding::Open
        },
    }
}

/// What is found first, of two files that are looked at in turn.
pub open spec fn either(first: Finding, second: Finding) -> Finding {
    if first is Open {
        second
    } else {
        first
    }
}

/// What the files of distributions say, looked at in turn. Ubuntu comes before Debian, of which
/// it has the file too.
pub open spec fn distro(files: DistroFiles) -> Option<(Seq<char>, Seq<char>)> {
    let suse_file = if files.suse_release is Missing {
        files.suse_release_capitals.deep_view()
    } else {
        files.suse_release.deep_view()
    };
    let found = either(
        ubuntu(files.lsb_release.deep_view()),
        either(
            version_file(files.debian_version.deep_view(), "Debian"@),
            either(
                red_hat(files.redhat_release.deep_view()),
                either(suse(suse_file), version_file(files.alpine_release.deep_view(), "Alpine"@)),
            ),
        ),
    );
    match found {
        Finding::Is(name, version) => Some((name, version)),
        Finding::Fails => None,
        Finding::Open => if files.has_arch_release {
            Some(("Arch Linux"@, "Rolling"@))
        } else {
            None
        },
    }
}

/// What a file says of the distribution; nothing where the next file is to be looked at.
enum Clue {
    Is(&'static str, String),
    Fails,
    Open,
}

impl Clue {
    spec fn means(self, f: Finding) -> bool {
        match self {
            Clue::Is(name, version) => f == Finding::Is(name@, version@),
            Clue::Fails => f is Fails,
            Clue::Open => f is Open,
        }
    }
}

fn look_for_ubuntu(file: &FoundFile) -> (r: Clue)
    ensures
        r.means(ubuntu(file.deep_view())),
{
    match file {
        FoundFile::Missing => Clue::Open,
        FoundFile::Unreadable => Clue::Fails,
        FoundFile::Text(text) => if contains(text.as_str(), "Ubuntu") {
            Clue::Is(
                "Ubuntu",
                or_nothing(read_first(text.as_str(), "DISTRIB_RELEASE=", Wrapping::Quotes)),
            )
        } else {
            Clue::Open
        },
    }
}

fn look_for_version(file: &FoundFile, name: &'static str) -> (r: Clue)
    ensures
        r.means(version_file(file.deep_view(), name@)),
{
    match file {
        FoundFile::Missing => Clue::Open,
        FoundFile::Unreadable => Clue::Fails,
        FoundFile::Text(text) => Clue::Is(name, trim(text.as_str())),
    }
}

fn read_release_version(line: &str) -> (r: String)
    ensures
        r@ == release_version(line@),
{
    match part_at(line, "release ") {
        Some((_, rest)) => match part_at(rest.as_str(), " ") {
            Some((version, _)) => version,
            None => rest,
        },
        None => "Unknown".to_owned(),
    }
}

fn look_for_red_hat(file: &FoundFile) -> (r: Clue)
    ensures
        r.means(red_hat(file.deep_view())),
{
    match file {
        FoundFile::Missing => Clue::Open,
        FoundFile::Unreadable => Clue::Fails,
        FoundFile::Text(text) => {
            let line = trim(text.as_str());
            let version = read_release_version(line.as_str());
            if contains(line.as_str(), "CentOS") {
                Clue::Is("CentOS", version)
            } else if contains(line.as_str(), "Red Hat Enterprise Linux") || contains(
                line.as_str(),
                "RHEL",
            ) {
                Clue::Is("RHEL", version)
            } else if contains(line.as_str(), "Fedora") {
                Clue::Is("Fedora", version)
            } else {
                Clue::Open
            }
        },
    }
}

fn look_for_suse(file: &FoundFile) -> (r: Clue)
    ensures
        r.means(suse(file.deep_view())),
{
    match file {
        FoundFile::Missing => Clue::Open,
        FoundFile::Unreadable => Clue::Fails,
        FoundFile::Text(text) => {
            let all = split_lines(text.as_str());
            let ghost first = first_line(text@);
            let line = if all.len() == 0 {
                String::new()
            } else {
                assert(all.deep_view()[0] == all@[0]@);
                all[0].clone()
            };
            assert(line@ =~= first);
            let version = match read_first(text.as_str(), "VERSION = ", Wrapping::Nothing) {
                Some(version) => version,
                None => "Unknown".to_owned(),
            };
            if contains(line.as_str(), "openSUSE") {
                Clue::Is("openSUSE", version)
            } else if contains(line.as_str(), "SUSE Linux Enterprise") {
                Clue::Is("SLES", version)
            } else {
                Clue::Open
            }
        },
    }
}

/// Tells distributions apart by the files that they have.
pub fn detect_specific_distros(files: &DistroFiles) -> (r: Option<(String, String)>)
    ensures
        found_view(r) == distro(*files),
{
    match look_for_ubuntu(&files.lsb_release) {
        Clue::Is(name, version) => { return Some((name.to_owned(), version)); },
        Clue::Fails => { return None; },
        Clue::Open => {},
    }
    match look_for_version(&files.debian_version, "Debian") {
        Clue::Is(name, version) => { return Some((name.to_owned(), version)); },
        Clue::Fails => { return None; },
        Clue::Open => {},
    }
    match look_for_red_hat(&files.redhat_release) {
        Clue::Is(name, version) => { return Some((name.to_owned(), version)); },
        Clue::Fails => { return None; },
        Clue::Open => {},
    }
    let suse_file = match &files.suse_release {
        FoundFile::Missing => &files.suse_release_capitals,
        _ => &files.suse_release,
    };
    match look_for_suse(suse_file) {
        Clue::Is(name, version) => { return Some((name.to_owned(), version)); },
        Clue::Fails => { return None; },
        Clue::Open => {},
    }
    match look_for_version(&files.alpine_release, "Alpine") {
        Clue::Is(name, version) => { return Some((name.to_owned(), version)); },
        Clue::Fails => { return None; },
        Clue::Open => {},
    }
    if files.has_arch_release {
        Some(("Arch Linux".to_owned(), "Rolling".to_owned()))
    } else {
        None
    }
}

/// All that the operating system is known by.
#[derive(Debug, PartialEq, Eq)]
pub struct OsEvidence {
    /// `/etc/os-release`
    pub etc_release: FoundFile,
    /// `/usr/lib/os-release`
    pub usr_lib_release: FoundFile,
    /// What `lsb_release -a` prints, if it ran with success.
    pub lsb_output: Option<String>,
    pub distro_files: DistroFiles,
    /// What the system says of itself.
    pub system_name: Option<String>,
    pub system_version: Option<String>,
}

/// The operating system that the evidence speaks for: the release files first, then what
/// `lsb_release` prints, then the files of distributions, and last what the system says itself.
pub open spec fn detected_os(e: OsEvidence) -> (Seq<char>, Seq<char>) {
    match release_file(e.etc_release.deep_view(), e.usr_lib_release.deep_view()) {
        Some(os) => os,
        None => match lsb_report(e.lsb_output.deep_view()) {
            Some(os) => os,
            None => match distro(e.distro_files) {
                Some(os) => os,
                None => (
                    match e.system_name {
                        Some(name) => name@,
                        None => "Unknown"@,
                    },
                    match e.system_version {
                        Some(version) => version@,
                        None => "Unknown"@,
                    },
                ),
            },
        },
    }
}

/// Finds out the operating system: its name and its version.
pub fn detect_os(e: &OsEvidence) -> (r: (String, String))
    ensures
        os_view(r) == detected_os(*e),
{
    match detect_os_from_release_file(&e.etc_release, &e.usr_lib_release) {
        Some(os) => { return os; },
        None => {},
    }
    match detect_os_from_lsb_release(&e.lsb_output) {
        Some(os) => { return os; },
        None => {},
    }
    match detect_specific_distros(&e.distro_files) {
        Some(os) => { return os; },
        None => {},
    }
    let name = match &e.system_name {
        Some(name) => name.clone(),
        None => "Unknown".to_owned(),
    };
    let version = match &e.system_version {
        Some(version) => version.clone(),
        None => "Unknown".to_owned(),
    };
    (name, version)
}

/// A readable `/etc/os-release` settles which operating system it is, whatever else there is, and
/// neither the name nor the version is then empty.
pub proof fn release_file_settles_it(e: OsEvidence, other: OsEvidence)
    requires
        e.etc_release is Text,
        e.etc_release.deep_view() == other.etc_release.deep_view(),
    ensures
        detected_os(e) == detected_os(other),
        detected_os(e).0.len() > 0,
        detected_os(e).1.len() > 0,
{
    reveal_strlit("Unknown");
}

/// A machine with the file of Debian is taken for Ubuntu if `/etc/lsb-release` says so.
pub proof fn ubuntu_is_not_taken_for_debian(files: DistroFiles, text: String)
    requires
        files.lsb_release == FoundFile::Text(text),
        holds(text@, "Ubuntu"@),
    ensures
        distro(files) matches Some(os) && os.0 == "Ubuntu"@,
{
}

// ---------------------------------------------------------------------------------------------
// What the detection amounts to
// ---------------------------------------------------------------------------------------------

/// A line that gives a value to a key gives what stands behind the key, without the quotes around it;
/// a line that does not begin with the key gives nothing.
pub proof fn value_stands_behind_its_key(key: Seq<char>, value: Seq<char>, line: Seq<char>)
    requires
        key.len() > 0,
        !begins(value, key),
        !begins(seq!['"'] + value + seq!['"'], key),
        value.len() > 0 ==> value[0] != '"' && value.last() != '"',
        value.len() > 0 ==> !blank(value[0]) && !blank(value.last()),
    ensures
        line_value(key + (seq!['"'] + value + seq!['"']), key, Wrapping::Quotes) == Some(value),
        line_value(key + value, key, Wrapping::Quotes) == Some(value),
        line_value(key + value, key, Wrapping::Blanks) == Some(value),
        line_value(key + value, key, Wrapping::Nothing) == Some(value),
        !begins(line, key) ==> line_value(line, key, Wrapping::Quotes) is None && line_value(
            line,
            key,
            Wrapping::Blanks,
        ) is None && line_value(line, key, Wrapping::Nothing) is None,
{
    let quoted = seq!['"'] + value + seq!['"'];
    only_the_prefix_is_peeled(value, key);
    only_the_prefix_is_peeled(quoted, key);
    assert((key + value).subrange(0, key.len() as int) =~= key);
    assert((key + quoted).subrange(0, key.len() as int) =~= key);
    trimmed_text_stays(value);
    unquoted(value);
}

proof fn unquoted(value: Seq<char>)
    requires
        value.len() > 0 ==> value[0] != '"' && value.last() != '"',
    ensures
        stripped(seq!['"'] + value + seq!['"'], '"') == value,
        stripped(value, '"') == value,
{
    let q = '"';
    let quoted = seq![q] + value + seq![q];
    let rest = value + seq![q];
    assert(quoted.drop_first() =~= rest);
    assert(stripped_start(value, q) == value);
    assert(stripped_end(value, q) == value);
    if value.len() == 0 {
        assert(rest.drop_first() =~= Seq::empty());
        assert(stripped_start(rest, q) == stripped_start(rest.drop_first(), q));
        assert(stripped_start(Seq::empty(), q) == Seq::<char>::empty());
        assert(value =~= Seq::empty());
        assert(stripped_start(quoted, q) == Seq::<char>::empty());
        assert(stripped_end(Seq::empty(), q) == Seq::<char>::empty());
    } else {
        assert(rest[0] == value[0]);
        assert(stripped_start(rest, q) == rest);
        assert(stripped_start(quoted, q) == rest);
        assert(rest.drop_last() =~= value);
        assert(stripped_end(rest, q) == stripped_end(value, q));
    }
}

/// The name and the version in an `os-release` file are those on the last lines that give them, and
/// unknown where no line does, or with nothing.
pub proof fn last_lines_count(content: Seq<char>, i: int, j: int, name: Seq<char>, version: Seq<char>)
    requires
        0 <= i < lines(content).len(),
        0 <= j < lines(content).len(),
        line_value(lines(content)[i], "NAME="@, Wrapping::Quotes) == Some(name),
        line_value(lines(content)[j], "VERSION_ID="@, Wrapping::Quotes) == Some(version),
        forall|k: int| i < k < lines(content).len() ==> !begins(#[trigger] lines(content)[k], "NAME="@),
        forall|k: int|
            j < k < lines(content).len() ==> !begins(
                #[trigger] lines(content)[k],
                "VERSION_ID="@,
            ),
    ensures
        os_release(content).0 == (if name.len() > 0 {
            name
        } else {
            "Unknown"@
        }),
        os_release(content).1 == (if version.len() > 0 {
            version
        } else {
            "Unknown"@
        }),
{
    let names = values(content, "NAME="@, Wrapping::Quotes);
    let versions = values(content, "VERSION_ID="@, Wrapping::Quotes);
    assert forall|k: int| i < k < names.len() implies (#[trigger] names[k]) is None by {
        assert(!begins(lines(content)[k], "NAME="@));
    }
    assert forall|k: int| j < k < versions.len() implies (#[trigger] versions[k]) is None by {
        assert(!begins(lines(content)[k], "VERSION_ID="@));
    }
    this_is_last(names, i);
    this_is_last(versions, j);
}

/// A file without a name or a version says that they are unknown.
pub proof fn missing_values_are_unknown(content: Seq<char>)
    ensures
        (forall|k: int| 0 <= k < lines(content).len() ==> !begins(#[trigger] lines(content)[k], "NAME="@))
            ==> os_release(content).0 == "Unknown"@,
        (forall|k: int|
            0 <= k < lines(content).len() ==> !begins(#[trigger] lines(content)[k], "VERSION_ID="@))
            ==> os_release(content).1 == "Unknown"@,
{
    let names = values(content, "NAME="@, Wrapping::Quotes);
    let versions = values(content, "VERSION_ID="@, Wrapping::Quotes);
    nothing_is_last(names);
    nothing_is_last(versions);
}

/// The release file under `/etc` counts before the one under `/usr/lib`; only where neither can be used
/// does the report of `lsb_release` count, then the files of distributions, and last what the system
/// says of itself.
pub proof fn evidence_counts_in_order(e: OsEvidence, text: Seq<char>, os: (Seq<char>, Seq<char>))
    ensures
        e.etc_release.deep_view() == FileView::Text(text) ==> detected_os(e) == os_release(text),
        e.etc_release.deep_view() == FileView::Missing && e.usr_lib_release.deep_view()
            == FileView::Text(text) ==> detected_os(e) == os_release(text),
        e.etc_release.deep_view() == FileView::Missing && e.usr_lib_release.deep_view()
            == FileView::Missing ==> {
            &&& lsb_report(e.lsb_output.deep_view()) == Some(os) ==> detected_os(e) == os
            &&& lsb_report(e.lsb_output.deep_view()) is None && distro(e.distro_files) == Some(os)
                ==> detected_os(e) == os
            &&& lsb_report(e.lsb_output.deep_view()) is None && distro(e.distro_files) is None ==> (
            e.system_name matches Some(name) ==> detected_os(e).0 == name@)
        },
{
}

/// The files of distributions are looked at in turn, and each says which one it is: Ubuntu, Debian, one
/// of the family of Red Hat, one of SUSE, Alpine, and Arch.
pub proof fn distributions_are_told_apart(files: DistroFiles, text: Seq<char>)
    ensures
        ({
            let lsb = files.lsb_release.deep_view();
            let debian = files.debian_version.deep_view();
            let red = files.redhat_release.deep_view();
            let suse_file = files.suse_release.deep_view();
            let capitals = files.suse_release_capitals.deep_view();
            let alpine = files.alpine_release.deep_view();
            let missing = FileView::Missing;
            &&& lsb == missing && debian == FileView::Text(text) ==> distro(files) == Some(
                ("Debian"@, trimmed(text)),
            )
            &&& lsb == missing && debian == missing && red == FileView::Text(text) && is_part(
                "CentOS"@,
                trimmed(text),
            ) ==> distro(files) == Some(("CentOS"@, release_version(trimmed(text))))
            &&& lsb == missing && debian == missing && red == FileView::Text(text) && is_part(
                "Fedora"@,
                trimmed(text),
            ) && !is_part("CentOS"@, trimmed(text)) && !is_part("RHEL"@, trimmed(text)) && !is_part(
                "Red Hat Enterprise Linux"@,
                trimmed(text),
            ) ==> distro(files) == Some(("Fedora"@, release_version(trimmed(text))))
            &&& lsb == missing && debian == missing && red == FileView::Text(text) && (is_part(
                "RHEL"@,
                trimmed(text),
            ) || is_part("Red Hat Enterprise Linux"@, trimmed(text))) && !is_part(
                "CentOS"@,
                trimmed(text),
            ) ==> distro(files) == Some(("RHEL"@, release_version(trimmed(text))))
            &&& lsb == missing && debian == missing && red == missing && suse_file == missing
                && capitals == missing && alpine == FileView::Text(text) ==> distro(files) == Some(
                ("Alpine"@, trimmed(text)),
            )
            &&& lsb == missing && debian == missing && red == missing && suse_file == missing
                && capitals == missing && alpine == missing ==> distro(files) == (
            if files.has_arch_release {
                Some(("Arch Linux"@, "Rolling"@))
            } else {
                None
            })
        }),
{
    let line = trimmed(text);
    held_is_a_part(line, "CentOS"@);
    held_is_a_part(line, "Fedora"@);
    held_is_a_part(line, "RHEL"@);
    held_is_a_part(line, "Red Hat Enterprise Linux"@);
}

/// The version of a system of Red Hat is the word behind `release `.
pub proof fn version_stands_behind_release(before: Seq<char>, version: Seq<char>, rest: Seq<char>)
    requires
        !version.contains(' '),
        forall|i: int|
            0 <= i < before.len() ==> !#[trigger] stands_at(
                before + "release "@ + (version + " "@ + rest),
                "release "@,
                i,
            ),
        forall|i: int|
            0 <= i < before.len() ==> !#[trigger] stands_at(
                before + "release "@ + version,
                "release "@,
                i,
            ),
    ensures
        release_version(before + "release "@ + (version + " "@ + rest)) == version,
        release_version(before + "release "@ + version) == version,
{
    reveal_strlit(" ");
    let tail = version + " "@ + rest;
    parted_here(before, "release "@, tail);
    parted_here(before, "release "@, version);
    assert forall|i: int| 0 <= i < version.len() implies !#[trigger] stands_at(tail, " "@, i) by {
        if stands_at(tail, " "@, i) {
            assert(tail.subrange(i, i + 1)[0] == ' ');
            assert(version[i] == ' ');
            assert(version.contains(version[i]));
        }
    }
    parted_here(version, " "@, rest);
    parted_is_at_the_first(version, " "@);
    if holds(version, " "@) {
        assert(" "@ =~= seq![' ']);
        counted_is_held(version, ' ');
    }
}

/// The report of `lsb_release` counts where it names a distribution, on the last line that does, with the
/// version on the last line that gives one.
pub proof fn report_names_the_distribution(
    text: Seq<char>,
    i: int,
    j: int,
    name: Seq<char>,
    version: Seq<char>,
)
    requires
        0 <= i < lines(text).len(),
        0 <= j < lines(text).len(),
        name.len() > 0,
        line_value(lines(text)[i], "Distributor ID:"@, Wrapping::Blanks) == Some(name),
        line_value(lines(text)[j], "Release:"@, Wrapping::Blanks) == Some(version),
        forall|k: int|
            i < k < lines(text).len() ==> !begins(#[trigger] lines(text)[k], "Distributor ID:"@),
        forall|k: int| j < k < lines(text).len() ==> !begins(#[trigger] lines(text)[k], "Release:"@),
    ensures
        lsb_report(Some(text)) == Some((name, version)),
        lsb_report(None) is None,
{
    let names = values(text, "Distributor ID:"@, Wrapping::Blanks);
    let versions = values(text, "Release:"@, Wrapping::Blanks);
    assert forall|k: int| i < k < names.len() implies (#[trigger] names[k]) is None by {
        assert(!begins(lines(text)[k], "Distributor ID:"@));
    }
    assert forall|k: int| j < k < versions.len() implies (#[trigger] versions[k]) is None by {
        assert(!begins(lines(text)[k], "Release:"@));
    }
    this_is_last(names, i);
    this_is_last(versions, j);
}

/// A report without a distribution does not count.
pub proof fn report_without_a_name_does_not_count(text: Seq<char>)
    requires
        forall|k: int|
            0 <= k < lines(text).len() ==> !begins(#[trigger] lines(text)[k], "Distributor ID:"@),
    ensures
        lsb_report(Some(text)) is None,
{
    nothing_is_last(values(text, "Distributor ID:"@, Wrapping::Blanks));
}

/// A file that speaks of Ubuntu makes it Ubuntu, of the first release that the file gives, whatever the
/// other files say; one that does not speak of it leaves that open.
pub proof fn ubuntu_has_its_first_release(text: Seq<char>, i: int, version: Seq<char>)
    requires
        0 <= i < lines(text).len(),
        line_value(lines(text)[i], "DISTRIB_RELEASE="@, Wrapping::Quotes) == Some(version),
        forall|k: int| 0 <= k < i ==> !begins(#[trigger] lines(text)[k], "DISTRIB_RELEASE="@),
    ensures
        is_part("Ubuntu"@, text) ==> ubuntu(FileView::Text(text)) == Finding::Is(
            "Ubuntu"@,
            version,
        ),
        !is_part("Ubuntu"@, text) ==> ubuntu(FileView::Text(text)) is Open,
        ubuntu(FileView::Missing) is Open,
        ubuntu(FileView::Unreadable) is Fails,
{
    let all = values(text, "DISTRIB_RELEASE="@, Wrapping::Quotes);
    assert forall|k: int| 0 <= k < i implies (#[trigger] all[k]) is None by {
        assert(!begins(lines(text)[k], "DISTRIB_RELEASE="@));
    }
    this_is_first(all, i);
    held_is_a_part(text, "Ubuntu"@);
}

/// A system of SUSE is told by the first line of its file, and has the first version that the file gives.
pub proof fn suse_is_on_the_first_line(text: Seq<char>, i: int, version: Seq<char>)
    requires
        0 <= i < lines(text).len(),
        line_value(lines(text)[i], "VERSION = "@, Wrapping::Nothing) == Some(version),
        forall|k: int| 0 <= k < i ==> !begins(#[trigger] lines(text)[k], "VERSION = "@),
    ensures
        is_part("openSUSE"@, lines(text)[0]) ==> suse(FileView::Text(text)) == Finding::Is(
            "openSUSE"@,
            version,
        ),
        !is_part("openSUSE"@, lines(text)[0]) && is_part("SUSE Linux Enterprise"@, lines(text)[0])
            ==> suse(FileView::Text(text)) == Finding::Is("SLES"@, version),
        !is_part("openSUSE"@, lines(text)[0]) && !is_part("SUSE Linux Enterprise"@, lines(text)[0])
            ==> suse(FileView::Text(text)) is Open,
        suse(FileView::Missing) is Open,
        suse(FileView::Unreadable) is Fails,
{
    let all = values(text, "VERSION = "@, Wrapping::Nothing);
    assert forall|k: int| 0 <= k < i implies (#[trigger] all[k]) is None by {
        assert(!begins(lines(text)[k], "VERSION = "@));
    }
    this_is_first(all, i);
    held_is_a_part(lines(text)[0], "openSUSE"@);
    held_is_a_part(lines(text)[0], "SUSE Linux Enterprise"@);
}

/// The first file that says something decides, and a file that cannot be read is an end too.
pub proof fn first_finding_decides(a: Finding, b: Finding, file: FileView, name: Seq<char>)
    ensures
        a is Open ==> either(a, b) == b,
        !(a is Open) ==> either(a, b) == a,
        file is Missing ==> version_file(file, name) is Open && red_hat(file) is Open,
        file is Unreadable ==> version_file(file, name) is Fails && red_hat(file) is Fails,
{
}

} // verus!
