//! Installing or updating the editor's extension: whether to try, with which command line tool,
//! and whether the installed version is recent enough.
use vstd::prelude::*;
use vstd::string::*;

use crate::text::{
    lines, lines_of, natural_of, parse_natural, same_text, split, split_on, strip_prefix, trim,
    trimmed,
};

verus! {

// ---------------------------------------------------------------------------
// Versions
// ---------------------------------------------------------------------------

/// A version: major, minor and patch number.
pub type Version = (u64, u64, u64);

/// A part of a version text as a number; zero where it is missing or no number.
pub open spec fn version_part(parts: Seq<Seq<char>>, i: int) -> u64 {
    if 0 <= i < parts.len() {
        match natural_of(parts[i]) {
            Some(n) => n,
            None => 0,
        }
    } else {
        0
    }
}

/// The version that a text denotes: the first three of its parts between dots.
pub open spec fn version_of(text: Seq<char>) -> Version {
    let parts = split_on(text, '.');
    (version_part(parts, 0), version_part(parts, 1), version_part(parts, 2))
}

/// `a` is an earlier version than `b`.
pub open spec fn earlier(a: Version, b: Version) -> bool {
    ||| a.0 < b.0
    ||| a.0 == b.0 && a.1 < b.1
    ||| a.0 == b.0 && a.1 == b.1 && a.2 < b.2
}

fn part_number(parts: &Vec<String>, i: usize) -> (r: u64)
    ensures
        r == version_part(parts.deep_view(), i as int),
{
    if i < parts.len() {
        match parse_natural(parts[i].as_str()) {
            Some(n) => n,
            None => 0,
        }
    } else {
        0
    }
}

/// The version that a text denotes.
pub fn parse_version(text: &str) -> (r: Version)
    ensures
        r == version_of(text@),
{
    let parts = split(text, '.');
    (part_number(&parts, 0), part_number(&parts, 1), part_number(&parts, 2))
}

/// Whether `a` is an earlier version than `b`.
pub fn is_earlier(a: Version, b: Version) -> (r: bool)
    ensures
        r == earlier(a, b),
{
    a.0 < b.0 || (a.0 == b.0 && (a.1 < b.1 || (a.1 == b.1 && a.2 < b.2)))
}

// ---------------------------------------------------------------------------
// The installed version
// ---------------------------------------------------------------------------

/// The version that a line of the list of extensions gives for the extension, if the line is
/// about it. A line that names it without a version counts as version `0.0.0`.
pub open spec fn version_on_line(line: Seq<char>) -> Option<Seq<char>> {
    let prefix = "openai.codex-vscode@"@;
    if prefix.is_prefix_of(line) {
        Some(trimmed(line.skip(prefix.len() as int)))
    } else if trimmed(line) == "openai.codex-vscode"@ {
        Some("0.0.0"@)
    } else {
        None
    }
}

/// The version on the first of the lines that gives one.
pub open spec fn first_version(lines: Seq<Seq<char>>) -> Option<Seq<char>>
    decreases lines.len(),
{
    if lines.len() == 0 {
        None
    } else {
        match version_on_line(lines[0]) {
            Some(version) => Some(version),
            None => first_version(lines.drop_first()),
        }
    }
}

/// The version of the extension according to a list of extensions.
pub open spec fn listed_version(listing: Seq<char>) -> Option<Seq<char>> {
    first_version(lines_of(listing))
}

/// Whether the extension has to be installed or updated: it has unless the list of extensions
/// could be had and gives it in the required version or a later one.
pub open spec fn needs_install(listing: Option<Seq<char>>) -> bool {
    match listing {
        Some(listing) => match listed_version(listing) {
            Some(version) => earlier(version_of(version), version_of("0.0.1"@)),
            None => true,
        },
        None => true,
    }
}

fn line_version(line: &str) -> (r: Option<String>)
    ensures
        r.deep_view() == version_on_line(line@),
{
    let ghost prefix = "openai.codex-vscode@"@;
    match strip_prefix(line, "openai.codex-vscode@") {
        Some(rest) => {
            assert(prefix.is_prefix_of(line@));
            assert(line@.skip(prefix.len() as int) =~= rest@);
            Some(trim(rest.as_str()))
        },
        None => {
            if same_text(trim(line).as_str(), "openai.codex-vscode") {
                Some("0.0.0".to_string())
            } else {
                None
            }
        },
    }
}

/// The version of the extension according to a list of extensions.
pub fn installed_version(listing: &str) -> (r: Option<String>)
    ensures
        r.deep_view() == listed_version(listing@),
{
    let all = lines(listing);
    let ghost view = lines_of(listing@);
    let mut i: usize = 0;
    assert(view.skip(0) =~= view);
    while i < all.len()
        invariant
            all.deep_view() == view,
            view == lines_of(listing@),
            i <= all.len(),
            first_version(view) == first_version(view.skip(i as int)),
        decreases all.len() - i,
    {
        assert(view[i as int] == all[i as int]@);
        let version = line_version(all[i].as_str());
        if version.is_some() {
            return version;
        }
        assert(view.skip(i as int).drop_first() =~= view.skip(i + 1));
        i += 1;
    }
    None
}

/// Whether the extension has to be installed or updated. No listing means that it could not be
/// had.
pub fn need_install_or_update(listing: Option<&str>) -> (r: bool)
    ensures
        r == needs_install(listing.deep_view()),
{
    match listing {
        Some(listing) => match installed_version(listing) {
            Some(version) => is_earlier(
                parse_version(version.as_str()),
                parse_version("0.0.1"),
            ),
            None => true,
        },
        None => true,
    }
}

// ---------------------------------------------------------------------------
// The installer
// ---------------------------------------------------------------------------

/// Whether the process runs in a terminal of the editor, by the value of `TERM_PROGRAM` and by
/// whether `VSCODE_PID` is set.
pub fn in_vscode_terminal(term_program: Option<&str>, vscode_pid: bool) -> (r: bool)
    ensures
        r == (term_program.deep_view() == Some("vscode"@) || vscode_pid),
{
    match term_program {
        Some(program) => same_text(program, "vscode") || vscode_pid,
        None => vscode_pid,
    }
}

/// The command line tools of the editor's stable edition.
pub open spec fn stable_tools(windows: bool) -> Seq<Seq<char>> {
    if windows {
        seq!["code.cmd"@, "code.exe"@]
    } else {
        seq!["code"@]
    }
}

/// The command line tools of the editor's insiders edition.
pub open spec fn insiders_tools(windows: bool) -> Seq<Seq<char>> {
    if windows {
        seq!["code-insiders.cmd"@, "code-insiders.exe"@]
    } else {
        seq!["code-insiders"@]
    }
}

/// The editor's command line tools, in the order in which they are tried: the stable edition is
/// preferred, and the insiders edition is the fallback.
pub open spec fn candidates(windows: bool) -> Seq<Seq<char>> {
    stable_tools(windows) + insiders_tools(windows)
}

/// The editor's command line tools, in the order in which they are tried.
pub fn cli_candidates(windows: bool) -> (r: Vec<String>)
    ensures
        r.deep_view() == candidates(windows),
{
    let mut r: Vec<String> = Vec::new();
    if windows {
        r.push("code.cmd".to_string());
        r.push("code.exe".to_string());
        r.push("code-insiders.cmd".to_string());
        r.push("code-insiders.exe".to_string());
    } else {
        r.push("code".to_string());
        r.push("code-insiders".to_string());
    }
    assert(r.deep_view() =~= candidates(windows));
    r
}

/// Why the extension was neither found recent nor brought up to date.
#[derive(Clone, Copy, Debug, PartialEq, Eq, Structural)]
pub enum InstallFailure {
    /// None of the candidates works.
    NoTool,
    /// The installation could not be started.
    NotStarted,
}

/// How far the installer has come; the numbers are places in the list of candidates.
#[derive(Clone, Copy, Debug, PartialEq, Eq, Structural)]
pub enum InstallState {
    /// Find out whether this candidate works.
    Probe(usize),
    /// Ask this tool for the installed extensions.
    List(usize),
    /// Have this tool install the extension, without waiting for it.
    Install(usize),
    /// There is nothing more to do.
    Done,
    /// The installer has given up. That is to be logged, and is otherwise ignored.
    Failed(InstallFailure),
}

/// The arguments with which a tool is run in a state.
pub open spec fn arguments_in(state: InstallState) -> Seq<Seq<char>> {
    match state {
        InstallState::Probe(_) => seq!["--version"@],
        InstallState::List(_) => seq!["--list-extensions"@, "--show-versions"@],
        InstallState::Install(_) => seq![
            "--install-extension"@,
            "openai.codex-vscode"@,
            "--force"@,
        ],
        InstallState::Done | InstallState::Failed(_) => Seq::empty(),
    }
}

/// The place in the list of candidates of the tool to run in a state.
pub open spec fn tool_in(state: InstallState) -> Option<usize> {
    match state {
        InstallState::Probe(i) => Some(i),
        InstallState::List(i) => Some(i),
        InstallState::Install(i) => Some(i),
        InstallState::Done | InstallState::Failed(_) => None,
    }
}

/// The state after a candidate has been tried, of `count` candidates. The first that works is
/// used; if none does, the installer gives up.
pub open spec fn after_probe(state: InstallState, count: nat, works: bool) -> InstallState {
    match state {
        InstallState::Probe(i) => if works {
            InstallState::List(i)
        } else if i + 1 < count {
            InstallState::Probe((i + 1) as usize)
        } else {
            InstallState::Failed(InstallFailure::NoTool)
        },
        other => other,
    }
}

/// The state after the list of extensions has been asked for.
pub open spec fn after_list(state: InstallState, listing: Option<Seq<char>>) -> InstallState {
    match state {
        InstallState::List(i) => if needs_install(listing) {
            InstallState::Install(i)
        } else {
            InstallState::Done
        },
        other => other,
    }
}

/// The state after an attempt to start the installation.
pub open spec fn after_start(state: InstallState, started: bool) -> InstallState {
    match state {
        InstallState::Install(_) => if started {
            InstallState::Done
        } else {
            InstallState::Failed(InstallFailure::NotStarted)
        },
        other => other,
    }
}

/// Brings the editor's extension up to date, one run of a command line tool after the other.
#[derive(Debug)]
pub struct Installer {
    candidates: Vec<String>,
    state: InstallState,
}

/// What an installer holds: the candidates, and how far it has come.
pub struct InstallerView {
    pub candidates: Seq<Seq<char>>,
    pub state: InstallState,
}

impl View for Installer {
    type V = InstallerView;

    closed spec fn view(&self) -> InstallerView {
        InstallerView { candidates: self.candidates.deep_view(), state: self.state }
    }
}

impl Installer {
    /// The installer's state names a candidate where there is a tool to run.
    #[verifier::type_invariant]
    spec fn wf(self) -> bool {
        match tool_in(self.state) {
            Some(i) => i < self.candidates@.len(),
            None => true,
        }
    }

    /// An installer. It does nothing outside of a terminal of the editor, nor where the
    /// extension is active already.
    pub fn new(windows: bool, in_terminal: bool, extension_active: bool) -> (r: Installer)
        ensures
            r@.candidates == candidates(windows),
            r@.state == (if in_terminal && !extension_active {
                InstallState::Probe(0)
            } else {
                InstallState::Done
            }),
    {
        let list = cli_candidates(windows);
        assert(list.deep_view().len() == list@.len());
        let state = if in_terminal && !extension_active {
            InstallState::Probe(0)
        } else {
            InstallState::Done
        };
        Installer { candidates: list, state }
    }

    /// How far the installer has come.
    pub fn state(&self) -> (r: InstallState)
        ensures
            r == self@.state,
    {
        self.state
    }

    /// The tool to run next, if there is one to run.
    pub fn program(&self) -> (r: Option<String>)
        ensures
            match tool_in(self@.state) {
                Some(i) => i < self@.candidates.len() && r.deep_view() == Some(
                    self@.candidates[i as int],
                ),
                None => r is None,
            },
    {
        proof {
            use_type_invariant(self);
        }
        match self.state {
            InstallState::Probe(i) => Some(self.candidates[i].clone()),
            InstallState::List(i) => Some(self.candidates[i].clone()),
            InstallState::Install(i) => Some(self.candidates[i].clone()),
            InstallState::Done => None,
            InstallState::Failed(_) => None,
        }
    }

    /// The arguments with which to run it.
    pub fn arguments(&self) -> (r: Vec<String>)
        ensures
            r.deep_view() == arguments_in(self@.state),
    {
        let mut r: Vec<String> = Vec::new();
        match self.state {
            InstallState::Probe(_) => {
                r.push("--version".to_string());
            },
            InstallState::List(_) => {
                r.push("--list-extensions".to_string());
                r.push("--show-versions".to_string());
            },
            InstallState::Install(_) => {
                r.push("--install-extension".to_string());
                r.push("openai.codex-vscode".to_string());
                r.push("--force".to_string());
            },
            InstallState::Done => {},
            InstallState::Failed(_) => {},
        }
        assert(r.deep_view() =~= arguments_in(self.state));
        r
    }

    /// Takes whether the candidate works.
    pub fn probed(&mut self, works: bool)
        ensures
            final(self)@.candidates == old(self)@.candidates,
            final(self)@.state == after_probe(
                old(self)@.state,
                old(self)@.candidates.len(),
                works,
            ),
    {
        proof {
            use_type_invariant(&*self);
        }
        if let InstallState::Probe(i) = self.state {
            if works {
                self.state = InstallState::List(i);
            } else if i < self.candidates.len() - 1 {
                self.state = InstallState::Probe(i + 1);
            } else {
                self.state = InstallState::Failed(InstallFailure::NoTool);
            }
        }
    }

    /// Takes the list of extensions, if it could be had.
    pub fn listed(&mut self, listing: Option<&str>)
        ensures
            final(self)@.candidates == old(self)@.candidates,
            final(self)@.state == after_list(old(self)@.state, listing.deep_view()),
    {
        proof {
            use_type_invariant(&*self);
        }
        if let InstallState::List(i) = self.state {
            if need_install_or_update(listing) {
                self.state = InstallState::Install(i);
            } else {
                self.state = InstallState::Done;
            }
        }
    }

    /// Takes whether the installation could be started.
    pub fn started(&mut self, ok: bool)
        ensures
            final(self)@.candidates == old(self)@.candidates,
            final(self)@.state == after_start(old(self)@.state, ok),
    {
        if let InstallState::Install(_) = self.state {
            if ok {
                self.state = InstallState::Done;
            } else {
                self.state = InstallState::Failed(InstallFailure::NotStarted);
            }
        }
    }
}

} // verus!
