//! The manifest of a package: who wrote it, and the commands that set it
//! up, run it and check what it needs, for each platform.
use vstd::prelude::*;

verus! {

/// A platform that a manifest can give commands for.
#[derive(Debug, PartialEq, Eq, Clone, Copy)]
pub enum Platform {
    Win,
    Linux,
    Mac,
}

/// A program and the arguments it is run with.
#[derive(Debug, PartialEq, Eq)]
pub struct Command {
    /// Program to run
    pub program: String,
    /// Arguments to pass to the program, in order
    pub args: Vec<String>,
}

/// A `Command` as a mathematical value.
pub struct CommandView {
    pub program: Seq<char>,
    pub args: Seq<Seq<char>>,
}

/// The texts that a list of strings holds.
pub open spec fn texts(v: Seq<String>) -> Seq<Seq<char>> {
    v.map_values(|s: String| s@)
}

impl View for Command {
    type V = CommandView;

    open spec fn view(&self) -> CommandView {
        CommandView { program: self.program@, args: texts(self.args@) }
    }
}

/// The commands that a list holds, as mathematical values.
pub open spec fn commands(v: Seq<Command>) -> Seq<CommandView> {
    v.map_values(|c: Command| c@)
}

/// A copy of a list of strings.
pub fn clone_texts(v: &Vec<String>) -> (copy: Vec<String>)
    ensures
        copy@ == v@,
{
    let mut copy: Vec<String> = Vec::new();
    let mut i: usize = 0;
    while i < v.len()
        invariant
            i <= v.len(),
            copy@ == v@.take(i as int),
        decreases v.len() - i,
    {
        copy.push(v[i].clone());
        i += 1;
    }
    copy
}

impl Clone for Command {
    fn clone(&self) -> (copy: Self)
        ensures
            copy@ == self@,
            copy.program == self.program,
            copy.args@ == self.args@,
    {
        Command { program: self.program.clone(), args: clone_texts(&self.args) }
    }
}

/// Appends copies of the commands in `from` to `to`.
fn extend_commands(to: &mut Vec<Command>, from: &Vec<Command>)
    ensures
        commands(final(to)@) == commands(old(to)@) + commands(from@),
        final(to)@.len() == old(to)@.len() + from@.len(),
{
    let mut i: usize = 0;
    while i < from.len()
        invariant
            i <= from.len(),
            to@.len() == old(to)@.len() + i,
            commands(to@) == commands(old(to)@) + commands(from@.take(i as int)),
        decreases from.len() - i,
    {
        let ghost before = to@;
        to.push(from[i].clone());
        assert(commands(to@) =~= commands(before).push(from@[i as int]@));
        i += 1;
    }
}

/// A copy of a list of commands.
pub fn clone_commands(v: &Vec<Command>) -> (copy: Vec<Command>)
    ensures
        commands(copy@) == commands(v@),
        copy@.len() == v@.len(),
{
    let mut copy: Vec<Command> = Vec::new();
    extend_commands(&mut copy, v);
    copy
}

/// Commands that add up: those for every platform, and those for one
/// platform only.
#[derive(Debug, PartialEq, Eq)]
pub struct CommandSet {
    /// Commands for every platform
    pub global: Vec<Command>,
    /// Commands for windows only
    pub win: Vec<Command>,
    /// Commands for linux only
    pub linux: Vec<Command>,
    /// Commands for mac only
    pub mac: Vec<Command>,
}

/// A `CommandSet` as a mathematical value.
pub struct CommandSetView {
    pub global: Seq<CommandView>,
    pub win: Seq<CommandView>,
    pub linux: Seq<CommandView>,
    pub mac: Seq<CommandView>,
}

impl CommandSetView {
    /// The commands for `platform` only.
    pub open spec fn on(self, platform: Platform) -> Seq<CommandView> {
        match platform {
            Platform::Win => self.win,
            Platform::Linux => self.linux,
            Platform::Mac => self.mac,
        }
    }

    /// The commands that count on `platform`: first those for every
    /// platform, then those for `platform` only.
    pub open spec fn resolved(self, platform: Platform) -> Seq<CommandView> {
        self.global + self.on(platform)
    }
}

impl View for CommandSet {
    type V = CommandSetView;

    open spec fn view(&self) -> CommandSetView {
        CommandSetView {
            global: commands(self.global@),
            win: commands(self.win@),
            linux: commands(self.linux@),
            mac: commands(self.mac@),
        }
    }
}

impl Clone for CommandSet {
    fn clone(&self) -> (copy: Self)
        ensures
            copy@ == self@,
    {
        CommandSet {
            global: clone_commands(&self.global),
            win: clone_commands(&self.win),
            linux: clone_commands(&self.linux),
            mac: clone_commands(&self.mac),
        }
    }
}

impl Default for CommandSet {
    /// The set without any command.
    fn default() -> (set: Self)
        ensures
            set.global@.len() == 0,
            set.win@.len() == 0,
            set.linux@.len() == 0,
            set.mac@.len() == 0,
    {
        CommandSet { global: Vec::new(), win: Vec::new(), linux: Vec::new(), mac: Vec::new() }
    }
}

/// How a package is run on one platform.
#[derive(Debug, PartialEq, Eq)]
pub enum RunCommand {
    /// The package cannot be run on this platform
    Null,
    /// The package is run as on any other platform
    Default,
    /// The package is run with a command of this platform's own
    Custom(Command),
}

/// A `RunCommand` as a mathematical value.
pub enum RunCommandView {
    Null,
    Default,
    Custom(CommandView),
}

impl View for RunCommand {
    type V = RunCommandView;

    open spec fn view(&self) -> RunCommandView {
        match self {
            RunCommand::Null => RunCommandView::Null,
            RunCommand::Default => RunCommandView::Default,
            RunCommand::Custom(c) => RunCommandView::Custom(c@),
        }
    }
}

impl Clone for RunCommand {
    fn clone(&self) -> (copy: Self)
        ensures
            copy@ == self@,
    {
        match self {
            RunCommand::Null => RunCommand::Null,
            RunCommand::Default => RunCommand::Default,
            RunCommand::Custom(c) => RunCommand::Custom(c.clone()),
        }
    }
}

impl Default for RunCommand {
    /// A platform that the manifest says nothing of runs the default command.
    fn default() -> (run: Self)
        ensures
            run == RunCommand::Default,
    {
        RunCommand::Default
    }
}

/// An optional command as a mathematical value.
pub open spec fn command_view(c: Option<Command>) -> Option<CommandView> {
    match c {
        Some(c) => Some(c@),
        None => None,
    }
}

/// Commands of which one counts: the default, or what a platform puts in
/// its place.
#[derive(Debug, PartialEq, Eq)]
pub struct RunCommands {
    /// Command to run where a platform has none of its own
    pub default: Option<Command>,
    /// Command to run on windows
    pub win: RunCommand,
    /// Command to run on linux
    pub linux: RunCommand,
    /// Command to run on mac
    pub mac: RunCommand,
}

/// A `RunCommands` as a mathematical value.
pub struct RunCommandsView {
    pub default: Option<CommandView>,
    pub win: RunCommandView,
    pub linux: RunCommandView,
    pub mac: RunCommandView,
}

impl RunCommandsView {
    /// What the manifest says of `platform`.
    pub open spec fn on(self, platform: Platform) -> RunCommandView {
        match platform {
            Platform::Win => self.win,
            Platform::Linux => self.linux,
            Platform::Mac => self.mac,
        }
    }

    /// The one command that runs the package on `platform`, if any: none
    /// where the platform cannot run it, the default where the platform
    /// takes the default, and the platform's own command in place of the
    /// default where it has one.
    pub open spec fn resolved(self, platform: Platform) -> Option<CommandView> {
        match self.on(platform) {
            RunCommandView::Null => None,
            RunCommandView::Default => self.default,
            RunCommandView::Custom(c) => Some(c),
        }
    }
}

impl View for RunCommands {
    type V = RunCommandsView;

    open spec fn view(&self) -> RunCommandsView {
        RunCommandsView {
            default: command_view(self.default),
            win: self.win@,
            linux: self.linux@,
            mac: self.mac@,
        }
    }
}

impl Clone for RunCommands {
    fn clone(&self) -> (copy: Self)
        ensures
            copy@ == self@,
    {
        RunCommands {
            default: match &self.default {
                Some(c) => Some(c.clone()),
                None => None,
            },
            win: self.win.clone(),
            linux: self.linux.clone(),
            mac: self.mac.clone(),
        }
    }
}

impl Default for RunCommands {
    /// No default command, and every platform takes the default.
    fn default() -> (run: Self)
        ensures
            run.default is None,
            run.win == RunCommand::Default,
            run.linux == RunCommand::Default,
            run.mac == RunCommand::Default,
    {
        RunCommands {
            default: None,
            win: RunCommand::Default,
            linux: RunCommand::Default,
            mac: RunCommand::Default,
        }
    }
}

/// A package as its manifest declares it.
#[derive(Debug, PartialEq, Eq)]
pub struct Package {
    /// Name of the package
    pub name: String,
    /// Description of the package
    pub description: String,
    /// Authors of the package
    pub authors: Vec<String>,
    /// Commands to run once the package's files are there
    pub init: CommandSet,
    /// Commands that run the package
    pub run: RunCommands,
    /// Commands that check whether the programs it needs are there
    pub checks: CommandSet,
}

/// A `Package` as a mathematical value.
pub struct PackageView {
    pub name: Seq<char>,
    pub description: Seq<char>,
    pub authors: Seq<Seq<char>>,
    pub init: CommandSetView,
    pub run: RunCommandsView,
    pub checks: CommandSetView,
}

impl View for Package {
    type V = PackageView;

    open spec fn view(&self) -> PackageView {
        PackageView {
            name: self.name@,
            description: self.description@,
            authors: texts(self.authors@),
            init: self.init@,
            run: self.run@,
            checks: self.checks@,
        }
    }
}

impl Clone for Package {
    fn clone(&self) -> (copy: Self)
        ensures
            copy@ == self@,
    {
        Package {
            name: self.name.clone(),
            description: self.description.clone(),
            authors: clone_texts(&self.authors),
            init: self.init.clone(),
            run: self.run.clone(),
            checks: self.checks.clone(),
        }
    }
}

/// The commands of an additive set that count on `platform`: those for
/// every platform first, then those for `platform` only, each list in its
/// own order and nothing left out.
fn resolve_set(set: &CommandSet, platform: Platform) -> (list: Vec<Command>)
    ensures
        commands(list@) == set@.resolved(platform),
        list@.len() == set@.global.len() + set@.on(platform).len(),
        forall|i: int| 0 <= i < set@.global.len() ==> (#[trigger] list@[i])@ == set@.global[i],
        forall|j: int|
            0 <= j < set@.on(platform).len() ==> (#[trigger] list@[set@.global.len() + j])@
                == set@.on(platform)[j],
{
    let mut list = clone_commands(&set.global);
    match platform {
        Platform::Win => extend_commands(&mut list, &set.win),
        Platform::Linux => extend_commands(&mut list, &set.linux),
        Platform::Mac => extend_commands(&mut list, &set.mac),
    }
    proof {
        let all = commands(list@);
        assert forall|i: int| 0 <= i < set@.global.len() implies (#[trigger] list@[i])@
            == set@.global[i] by {
            assert(all[i] == list@[i]@);
        }
        assert forall|j: int| 0 <= j < set@.on(platform).len() implies (#[trigger] list@[set@.global.len()
            + j])@ == set@.on(platform)[j] by {
            assert(all[set@.global.len() + j] == list@[set@.global.len() + j]@);
        }
    }
    list
}

/// The checks to make on `platform` before a package is installed.
pub fn resolve_checks(set: &CommandSet, platform: Platform) -> (list: Vec<Command>)
    ensures
        commands(list@) == set@.resolved(platform),
        list@.len() == set@.global.len() + set@.on(platform).len(),
        forall|i: int| 0 <= i < set@.global.len() ==> (#[trigger] list@[i])@ == set@.global[i],
        forall|j: int|
            0 <= j < set@.on(platform).len() ==> (#[trigger] list@[set@.global.len() + j])@
                == set@.on(platform)[j],
{
    resolve_set(set, platform)
}

/// The commands to run on `platform` once a package's files are there.
pub fn resolve_init(set: &CommandSet, platform: Platform) -> (list: Vec<Command>)
    ensures
        commands(list@) == set@.resolved(platform),
        list@.len() == set@.global.len() + set@.on(platform).len(),
        forall|i: int| 0 <= i < set@.global.len() ==> (#[trigger] list@[i])@ == set@.global[i],
        forall|j: int|
            0 <= j < set@.on(platform).len() ==> (#[trigger] list@[set@.global.len() + j])@
                == set@.on(platform)[j],
{
    resolve_set(set, platform)
}

/// The command that runs a package on `platform`, or `None` where the
/// package cannot be run there or the manifest names no command for it.
pub fn resolve_run(cmds: &RunCommands, platform: Platform) -> (run: Option<Command>)
    ensures
        command_view(run) == cmds@.resolved(platform),
        match cmds@.on(platform) {
            RunCommandView::Null => run is None,
            RunCommandView::Default => command_view(run) == cmds@.default,
            RunCommandView::Custom(c) => run matches Some(r) && r@ == c,
        },
{
    let choice = match platform {
        Platform::Win => &cmds.win,
        Platform::Linux => &cmds.linux,
        Platform::Mac => &cmds.mac,
    };
    match choice {
        RunCommand::Null => None,
        RunCommand::Default => match &cmds.default {
            Some(c) => Some(c.clone()),
            None => None,
        },
        RunCommand::Custom(c) => Some(c.clone()),
    }
}

} // verus!
