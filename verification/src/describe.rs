//! A package's manifest in words, for a terminal.
//!
//! `layout` writes a value out exactly as its texts stand. `painted` makes a
//! copy whose texts are marked for the terminal: the package's name, its
//! authors and every word of a command are styled, and an argument that holds
//! a space is put between double quotes. `describe` lays out the painted
//! copy.
//!
//! Whether a text is marked at all is the terminal's affair and is decided
//! outside this library. What is known of a marked text is stated by
//! `is_marked`.
use crate::package::{
    commands, texts, Command, CommandSet, CommandSetView, CommandView, Package, PackageView,
    RunCommand, RunCommandView, RunCommands, RunCommandsView,
};
use vstd::prelude::*;
use vstd::string::*;

verus! {

/// The code that switches bright red on.
pub open spec fn red_on() -> Seq<char> {
    "\u{1b}[91m"@
}

/// The code that switches bright green on.
pub open spec fn green_on() -> Seq<char> {
    "\u{1b}[92m"@
}

/// The code that switches underlining on.
pub open spec fn underline_on() -> Seq<char> {
    "\u{1b}[4m"@
}

/// The code that switches every marking off.
pub open spec fn all_off() -> Seq<char> {
    "\u{1b}[0m"@
}

/// `marked` is `text` as it is written for a terminal with the marking that
/// `on` switches on: `text` itself where the terminal takes no codes, and
/// `text` between `on` and the code that switches all off where it does.
/// Where the switch is thrown while the text is written, `text` may come
/// with the closing code alone. Of a text that holds an escape character
/// itself nothing is said.
pub open spec fn is_marked(text: Seq<char>, on: Seq<char>, marked: Seq<char>) -> bool {
    ||| text.contains('\u{1b}')
    ||| marked == text
    ||| marked == on + text + all_off()
    ||| marked == text + all_off()
}

/// Calls `colored::Colorize::bright_red` and writes the result out.
/// Trusted: the text that comes back is `text` marked bright red, as
/// `is_marked` says. Whether the codes are written depends on the
/// environment, so no more is claimed.
#[verifier::external_body]
fn bright_red(text: &str) -> (marked: String)
    ensures
        is_marked(text@, red_on(), marked@),
{
    colored::Colorize::bright_red(text).to_string()
}

/// Calls `colored::Colorize::bright_green` and writes the result out.
/// Trusted: the text that comes back is `text` marked bright green, as
/// `is_marked` says. Whether the codes are written depends on the
/// environment, so no more is claimed.
#[verifier::external_body]
fn bright_green(text: &str) -> (marked: String)
    ensures
        is_marked(text@, green_on(), marked@),
{
    colored::Colorize::bright_green(text).to_string()
}

/// Calls `colored::Colorize::underline` and writes the result out.
/// Trusted: the text that comes back is `text` underlined, as `is_marked`
/// says. Whether the codes are written depends on the environment, so no
/// more is claimed.
#[verifier::external_body]
fn underline(text: &str) -> (marked: String)
    ensures
        is_marked(text@, underline_on(), marked@),
{
    colored::Colorize::underline(text).to_string()
}

/// Each of `args` behind a space.
pub open spec fn spaced(args: Seq<Seq<char>>) -> Seq<char>
    decreases args.len(),
{
    if args.len() == 0 {
        Seq::empty()
    } else {
        spaced(args.drop_last()) + " "@ + args.last()
    }
}

/// Each of `cmds` on a line of its own, behind two spaces and a tab.
pub open spec fn entries(cmds: Seq<CommandView>) -> Seq<char>
    decreases cmds.len(),
{
    if cmds.len() == 0 {
        Seq::empty()
    } else {
        entries(cmds.drop_last()) + "  \t"@ + cmds.last().layout() + "\n"@
    }
}

/// Each of `authors` on a line of its own, behind a tab.
pub open spec fn author_lines(authors: Seq<Seq<char>>) -> Seq<char>
    decreases authors.len(),
{
    if authors.len() == 0 {
        Seq::empty()
    } else {
        author_lines(authors.drop_last()) + "\t"@ + authors.last() + "\n"@
    }
}

/// One list of a command set: `none` on a line where the list is empty, else
/// `title` on a line, the commands, and an empty line.
pub open spec fn section(none: Seq<char>, title: Seq<char>, cmds: Seq<CommandView>) -> Seq<char> {
    if cmds.len() == 0 {
        none + "\n"@
    } else {
        title + "\n"@ + entries(cmds) + "\n"@
    }
}

/// The line or lines that name the authors.
pub open spec fn authors_text(authors: Seq<Seq<char>>) -> Seq<char> {
    if authors.len() == 0 {
        "No authors\n"@
    } else if authors.len() == 1 {
        "Author: "@ + authors[0] + "\n"@
    } else {
        "Authors:\n"@ + author_lines(authors)
    }
}

/// An argument as it is printed: its marked text, between double quotes
/// if and only if the argument itself holds a space.
pub open spec fn printed_argument(raw: Seq<char>, marked: Seq<char>) -> Seq<char> {
    if raw.contains(' ') {
        "\""@ + marked + "\""@
    } else {
        marked
    }
}

/// `painted` is the argument `raw` as it is printed, marked bright green.
pub open spec fn paints_argument(painted: Seq<char>, raw: Seq<char>) -> bool {
    exists|marked: Seq<char>| #[trigger]
        is_marked(raw, green_on(), marked) && painted == printed_argument(raw, marked)
}

/// `painted` has a text for each of `raw`, and each is its own underlined.
pub open spec fn underlines_each(painted: Seq<Seq<char>>, raw: Seq<Seq<char>>) -> bool {
    &&& painted.len() == raw.len()
    &&& forall|i: int|
        0 <= i < raw.len() ==> is_marked(raw[i], underline_on(), #[trigger] painted[i])
}

impl CommandView {
    /// The program, then each argument behind a space.
    pub open spec fn layout(self) -> Seq<char> {
        self.program + spaced(self.args)
    }

    /// The program of `self` is that of `raw` marked bright green, and
    /// `self` has each argument of `raw` as it is printed, in order.
    pub open spec fn paints(self, raw: CommandView) -> bool {
        &&& is_marked(raw.program, green_on(), self.program)
        &&& self.args.len() == raw.args.len()
        &&& forall|i: int|
            0 <= i < raw.args.len() ==> paints_argument(#[trigger] self.args[i], raw.args[i])
    }
}

impl CommandView {
    /// The command with each argument as it is printed without marking:
    /// between double quotes if and only if it holds a space.
    pub open spec fn quoted(self) -> CommandView {
        CommandView {
            program: self.program,
            args: Seq::new(self.args.len(), |i: int| printed_argument(self.args[i], self.args[i])),
        }
    }

    /// Neither the program nor an argument holds an escape character.
    pub open spec fn is_plain(self) -> bool {
        &&& !self.program.contains('\u{1b}')
        &&& forall|i: int| 0 <= i < self.args.len() ==> !(#[trigger] self.args[i]).contains('\u{1b}')
    }
}

/// `painted` has a command for each of `raw`, and each paints its own.
pub open spec fn paint_each(painted: Seq<CommandView>, raw: Seq<CommandView>) -> bool {
    &&& painted.len() == raw.len()
    &&& forall|i: int| 0 <= i < raw.len() ==> (#[trigger] painted[i]).paints(raw[i])
}

impl RunCommandView {
    /// The sentence for a platform that cannot run the package or takes the
    /// default, or the platform's own command.
    pub open spec fn layout(self) -> Seq<char> {
        match self {
            RunCommandView::Null => "Repo cannot be run on this platform"@,
            RunCommandView::Default => "Same as default command"@,
            RunCommandView::Custom(c) => c.layout(),
        }
    }

    /// `self` says of the platform what `raw` says, with a painted command
    /// where `raw` has a command.
    pub open spec fn paints(self, raw: RunCommandView) -> bool {
        match raw {
            RunCommandView::Null => self is Null,
            RunCommandView::Default => self is Default,
            RunCommandView::Custom(c) => self matches RunCommandView::Custom(p) && p.paints(c),
        }
    }
}

impl RunCommandsView {
    /// Four lines: the default command, then windows, linux and mac.
    pub open spec fn layout(self) -> Seq<char> {
        "  Default: "@ + (match self.default {
            Some(c) => c.layout(),
            None => "  No default run command"@,
        }) + "\n"@ + "  Windows: "@ + self.win.layout() + "\n"@ + "  Linux: "@
            + self.linux.layout() + "\n"@ + "  Mac: "@ + self.mac.layout() + "\n"@
    }

    /// `self` has a default where `raw` has one, and each of its commands
    /// paints that of `raw`.
    pub open spec fn paints(self, raw: RunCommandsView) -> bool {
        &&& match raw.default {
            Some(c) => self.default matches Some(p) && p.paints(c),
            None => self.default is None,
        }
        &&& self.win.paints(raw.win)
        &&& self.linux.paints(raw.linux)
        &&& self.mac.paints(raw.mac)
    }
}

impl CommandSetView {
    /// Four lists: the commands for every platform, then those for windows,
    /// for linux and for mac.
    pub open spec fn layout(self) -> Seq<char> {
        section("  No global commands"@, "  Global commands:"@, self.global) + section(
            "  No windows specific commands"@,
            "  Windows commands:"@,
            self.win,
        ) + section("  No linux specific commands"@, "  Linux commands:"@, self.linux) + section(
            "  No mac specific commands"@,
            "  Mac commands:"@,
            self.mac,
        )
    }

    /// Each list of `self` paints that of `raw`, command by command.
    pub open spec fn paints(self, raw: CommandSetView) -> bool {
        &&& paint_each(self.global, raw.global)
        &&& paint_each(self.win, raw.win)
        &&& paint_each(self.linux, raw.linux)
        &&& paint_each(self.mac, raw.mac)
    }
}

impl PackageView {
    /// Name, description and authors, an empty line, then the commands that
    /// set the package up, run it and check what it needs, each under its
    /// heading.
    pub open spec fn layout(self) -> Seq<char> {
        "Name: "@ + self.name + "\n"@ + "Description: "@ + self.description + "\n"@ + authors_text(
            self.authors,
        ) + "\n"@ + "Commands run after cloning the repo:\n"@ + self.init.layout() + "\n"@
            + "Commands used to actually run the repo:\n"@ + self.run.layout() + "\n"@
            + "Commands run to check before installing:\n"@ + self.checks.layout() + "\n"@
    }

    /// `self` has the name of `raw` marked bright red, its description as
    /// it is, each of its authors underlined, and commands that paint those
    /// of `raw`.
    pub open spec fn paints(self, raw: PackageView) -> bool {
        &&& is_marked(raw.name, red_on(), self.name)
        &&& self.description == raw.description
        &&& underlines_each(self.authors, raw.authors)
        &&& self.init.paints(raw.init)
        &&& self.run.paints(raw.run)
        &&& self.checks.paints(raw.checks)
    }
}

/// Whether `text` holds a space.
pub fn contains_space(text: &str) -> (found: bool)
    ensures
        found == text@.contains(' '),
{
    let n: usize = text.unicode_len();
    let mut i: usize = 0;
    while i < n
        invariant
            n == text@.len(),
            i <= n,
            forall|j: int| 0 <= j < i ==> text@[j] != ' ',
        decreases n - i,
    {
        if text.get_char(i) == ' ' {
            return true;
        }
        i += 1;
    }
    false
}

/// An argument as it is printed, given the argument and its marked text:
/// the marked text, between double quotes if and only if the argument
/// holds a space.
pub fn print_argument(raw: &str, marked: &str) -> (out: String)
    ensures
        out@ == printed_argument(raw@, marked@),
{
    if contains_space(raw) {
        let mut out: String = "\"".to_owned();
        out.append(marked);
        out.append("\"");
        out
    } else {
        marked.to_owned()
    }
}

/// A marked text that holds no escape character is the text itself.
pub proof fn lemma_unmarked(text: Seq<char>, on: Seq<char>, marked: Seq<char>)
    requires
        is_marked(text, on, marked),
        !text.contains('\u{1b}'),
        !marked.contains('\u{1b}'),
    ensures
        marked == text,
{
    reveal_strlit("\u{1b}[0m");
    let off = all_off();
    if marked == on + text + off {
        assert(marked[(on.len() + text.len()) as int] == off[0]);
    } else if marked == text + off {
        assert(marked[text.len() as int] == off[0]);
    }
}

/// Where the terminal takes no codes a command is printed exactly so: the
/// program, then each argument behind a space, in order, an argument between
/// double quotes if and only if it holds a space. That is, a painting of a
/// plain command that is plain itself is the command with its arguments
/// quoted, and is laid out as such.
pub proof fn lemma_plain_painting(painted: CommandView, raw: CommandView)
    requires
        painted.paints(raw),
        raw.is_plain(),
        painted.is_plain(),
    ensures
        painted == raw.quoted(),
        painted.layout() == raw.program + spaced(raw.quoted().args),
{
    lemma_unmarked(raw.program, green_on(), painted.program);
    assert forall|i: int| 0 <= i < raw.args.len() implies painted.args[i]
        == raw.quoted().args[i] by {
        let arg = raw.args[i];
        let marked = choose|marked: Seq<char>| #[trigger]
            is_marked(arg, green_on(), marked) && painted.args[i] == printed_argument(arg, marked);
        assert forall|k: int| 0 <= k < marked.len() implies marked[k] != '\u{1b}' by {
            if arg.contains(' ') {
                assert(painted.args[i][("\""@.len() + k) as int] == marked[k]);
            }
        }
        lemma_unmarked(arg, green_on(), marked);
    }
    assert(painted.args =~= raw.quoted().args);
}

/// One more argument adds a space and the argument.
proof fn lemma_spaced_push(args: Seq<Seq<char>>, arg: Seq<char>)
    ensures
        spaced(args.push(arg)) == spaced(args) + " "@ + arg,
{
    assert(args.push(arg).drop_last() =~= args);
}

/// One more command adds its line.
proof fn lemma_entries_push(cmds: Seq<CommandView>, c: CommandView)
    ensures
        entries(cmds.push(c)) == entries(cmds) + "  \t"@ + c.layout() + "\n"@,
{
    assert(cmds.push(c).drop_last() =~= cmds);
}

/// One more author adds a line.
proof fn lemma_author_lines_push(authors: Seq<Seq<char>>, author: Seq<char>)
    ensures
        author_lines(authors.push(author)) == author_lines(authors) + "\t"@ + author + "\n"@,
{
    assert(authors.push(author).drop_last() =~= authors);
}

impl Command {
    /// The command on one line.
    pub fn layout(&self) -> (out: String)
        ensures
            out@ == self@.layout(),
    {
        let mut out: String = self.program.clone();
        let mut i: usize = 0;
        while i < self.args.len()
            invariant
                i <= self.args.len(),
                out@ == self.program@ + spaced(texts(self.args@).take(i as int)),
            decreases self.args.len() - i,
        {
            proof {
                let all = texts(self.args@);
                lemma_spaced_push(all.take(i as int), all[i as int]);
                assert(all.take(i + 1) =~= all.take(i as int).push(all[i as int]));
            }
            out.append(" ");
            out.append(self.args[i].as_str());
            i += 1;
        }
        assert(texts(self.args@).take(self.args.len() as int) =~= texts(self.args@));
        out
    }

    /// A copy for the terminal: program and arguments styled, and each
    /// argument that holds a space between double quotes.
    pub fn painted(&self) -> (copy: Command)
        ensures
            copy@.paints(self@),
    {
        let mut args: Vec<String> = Vec::new();
        let mut i: usize = 0;
        while i < self.args.len()
            invariant
                i <= self.args.len(),
                args@.len() == i,
                forall|j: int|
                    0 <= j < i ==> paints_argument((#[trigger] args@[j])@, self.args@[j]@),
            decreases self.args.len() - i,
        {
            let raw: &str = self.args[i].as_str();
            let marked: String = bright_green(raw);
            let printed: String = print_argument(raw, marked.as_str());
            assert(paints_argument(printed@, raw@)) by {
                assert(is_marked(raw@, green_on(), marked@));
            }
            args.push(printed);
            i += 1;
        }
        let copy = Command { program: bright_green(self.program.as_str()), args };
        assert forall|j: int| 0 <= j < self@.args.len() implies paints_argument(
            #[trigger] copy@.args[j],
            self@.args[j],
        ) by {
            assert(paints_argument(copy.args@[j]@, self.args@[j]@));
        }
        copy
    }

    /// The command on one line, for the terminal.
    pub fn describe(&self) -> (out: String)
        ensures
            exists|p: CommandView| #[trigger] p.paints(self@) && out@ == p.layout(),
    {
        let copy = self.painted();
        copy.layout()
    }
}

/// A painted copy of each command of `list`.
fn painted_commands(list: &Vec<Command>) -> (copy: Vec<Command>)
    ensures
        paint_each(commands(copy@), commands(list@)),
{
    let mut copy: Vec<Command> = Vec::new();
    let mut i: usize = 0;
    while i < list.len()
        invariant
            i <= list.len(),
            copy@.len() == i,
            forall|j: int| 0 <= j < i ==> (#[trigger] copy@[j])@.paints(list@[j]@),
        decreases list.len() - i,
    {
        copy.push(list[i].painted());
        i += 1;
    }
    copy
}

/// One list of a command set, laid out.
fn append_section(out: &mut String, none: &str, title: &str, list: &Vec<Command>)
    ensures
        final(out)@ == old(out)@ + section(none@, title@, commands(list@)),
{
    let ghost start = out@;
    if list.len() == 0 {
        out.append(none);
        out.append("\n");
    } else {
        out.append(title);
        out.append("\n");
        let mut i: usize = 0;
        while i < list.len()
            invariant
                i <= list.len(),
                out@ == start + title@ + "\n"@ + entries(commands(list@).take(i as int)),
            decreases list.len() - i,
        {
            proof {
                let all = commands(list@);
                lemma_entries_push(all.take(i as int), all[i as int]);
                assert(all.take(i + 1) =~= all.take(i as int).push(all[i as int]));
            }
            let line: String = list[i].layout();
            out.append("  \t");
            out.append(line.as_str());
            out.append("\n");
            i += 1;
        }
        assert(commands(list@).take(list.len() as int) =~= commands(list@));
        out.append("\n");
    }
}

impl CommandSet {
    /// The four lists of the set, one after the other.
    pub fn layout(&self) -> (out: String)
        ensures
            out@ == self@.layout(),
    {
        let mut out: String = String::new();
        append_section(&mut out, "  No global commands", "  Global commands:", &self.global);
        append_section(
            &mut out,
            "  No windows specific commands",
            "  Windows commands:",
            &self.win,
        );
        append_section(&mut out, "  No linux specific commands", "  Linux commands:", &self.linux);
        append_section(&mut out, "  No mac specific commands", "  Mac commands:", &self.mac);
        out
    }

    /// A copy for the terminal, with every command painted.
    pub fn painted(&self) -> (copy: CommandSet)
        ensures
            copy@.paints(self@),
    {
        CommandSet {
            global: painted_commands(&self.global),
            win: painted_commands(&self.win),
            linux: painted_commands(&self.linux),
            mac: painted_commands(&self.mac),
        }
    }

    /// The four lists of the set, for the terminal.
    pub fn describe(&self) -> (out: String)
        ensures
            exists|p: CommandSetView| #[trigger] p.paints(self@) && out@ == p.layout(),
    {
        let copy = self.painted();
        copy.layout()
    }
}

impl RunCommand {
    /// What the manifest says of one platform, on one line.
    pub fn layout(&self) -> (out: String)
        ensures
            out@ == self@.layout(),
    {
        match self {
            RunCommand::Null => "Repo cannot be run on this platform".to_owned(),
            RunCommand::Default => "Same as default command".to_owned(),
            RunCommand::Custom(command) => command.layout(),
        }
    }

    /// A copy for the terminal, with the platform's own command painted.
    pub fn painted(&self) -> (copy: RunCommand)
        ensures
            copy@.paints(self@),
    {
        match self {
            RunCommand::Null => RunCommand::Null,
            RunCommand::Default => RunCommand::Default,
            RunCommand::Custom(command) => RunCommand::Custom(command.painted()),
        }
    }

    /// What the manifest says of one platform, for the terminal.
    pub fn describe(&self) -> (out: String)
        ensures
            exists|p: RunCommandView| #[trigger] p.paints(self@) && out@ == p.layout(),
    {
        let copy = self.painted();
        copy.layout()
    }
}

impl RunCommands {
    /// The default command and what each platform runs, a line each.
    pub fn layout(&self) -> (out: String)
        ensures
            out@ == self@.layout(),
    {
        let mut out: String = "  Default: ".to_owned();
        match &self.default {
            Some(command) => {
                let line: String = command.layout();
                out.append(line.as_str());
            },
            None => {
                out.append("  No default run command");
            },
        }
        out.append("\n");
        out.append("  Windows: ");
        let win: String = self.win.layout();
        out.append(win.as_str());
        out.append("\n");
        out.append("  Linux: ");
        let linux: String = self.linux.layout();
        out.append(linux.as_str());
        out.append("\n");
        out.append("  Mac: ");
        let mac: String = self.mac.layout();
        out.append(mac.as_str());
        out.append("\n");
        out
    }

    /// A copy for the terminal, with every command painted.
    pub fn painted(&self) -> (copy: RunCommands)
        ensures
            copy@.paints(self@),
    {
        RunCommands {
            default: match &self.default {
                Some(command) => Some(command.painted()),
                None => None,
            },
            win: self.win.painted(),
            linux: self.linux.painted(),
            mac: self.mac.painted(),
        }
    }

    /// The default command and what each platform runs, for the terminal.
    pub fn describe(&self) -> (out: String)
        ensures
            exists|p: RunCommandsView| #[trigger] p.paints(self@) && out@ == p.layout(),
    {
        let copy = self.painted();
        copy.layout()
    }
}

/// The line or lines that name the authors, laid out.
fn append_authors(out: &mut String, authors: &Vec<String>)
    ensures
        final(out)@ == old(out)@ + authors_text(texts(authors@)),
{
    let ghost start = out@;
    if authors.len() == 0 {
        out.append("No authors\n");
    } else if authors.len() == 1 {
        out.append("Author: ");
        out.append(authors[0].as_str());
        out.append("\n");
    } else {
        out.append("Authors:\n");
        let mut i: usize = 0;
        while i < authors.len()
            invariant
                i <= authors.len(),
                out@ == start + "Authors:\n"@ + author_lines(texts(authors@).take(i as int)),
            decreases authors.len() - i,
        {
            proof {
                let all = texts(authors@);
                lemma_author_lines_push(all.take(i as int), all[i as int]);
                assert(all.take(i + 1) =~= all.take(i as int).push(all[i as int]));
            }
            out.append("\t");
            out.append(authors[i].as_str());
            out.append("\n");
            i += 1;
        }
        assert(texts(authors@).take(authors.len() as int) =~= texts(authors@));
    }
}

impl Package {
    /// The whole manifest, as its texts stand.
    pub fn layout(&self) -> (out: String)
        ensures
            out@ == self@.layout(),
    {
        let mut out: String = "Name: ".to_owned();
        out.append(self.name.as_str());
        out.append("\n");
        out.append("Description: ");
        out.append(self.description.as_str());
        out.append("\n");
        append_authors(&mut out, &self.authors);
        out.append("\n");
        out.append("Commands run after cloning the repo:\n");
        let init: String = self.init.layout();
        out.append(init.as_str());
        out.append("\n");
        out.append("Commands used to actually run the repo:\n");
        let run: String = self.run.layout();
        out.append(run.as_str());
        out.append("\n");
        out.append("Commands run to check before installing:\n");
        let checks: String = self.checks.layout();
        out.append(checks.as_str());
        out.append("\n");
        out
    }

    /// A copy for the terminal: the name and the authors styled, and every
    /// command painted.
    pub fn painted(&self) -> (copy: Package)
        ensures
            copy@.paints(self@),
    {
        let mut authors: Vec<String> = Vec::new();
        let mut i: usize = 0;
        while i < self.authors.len()
            invariant
                i <= self.authors.len(),
                authors@.len() == i,
                forall|j: int|
                    0 <= j < i ==> is_marked(
                        self.authors@[j]@,
                        underline_on(),
                        (#[trigger] authors@[j])@,
                    ),
            decreases self.authors.len() - i,
        {
            authors.push(underline(self.authors[i].as_str()));
            i += 1;
        }
        let copy = Package {
            name: bright_red(self.name.as_str()),
            description: self.description.clone(),
            authors,
            init: self.init.painted(),
            run: self.run.painted(),
            checks: self.checks.painted(),
        };
        assert forall|j: int| 0 <= j < self@.authors.len() implies is_marked(
            self@.authors[j],
            underline_on(),
            #[trigger] copy@.authors[j],
        ) by {
            assert(is_marked(self.authors@[j]@, underline_on(), copy.authors@[j]@));
        }
        copy
    }

    /// The whole manifest, for the terminal.
    pub fn describe(&self) -> (out: String)
        ensures
            exists|p: PackageView| #[trigger] p.paints(self@) && out@ == p.layout(),
    {
        let copy = self.painted();
        copy.layout()
    }
}

} // verus!
