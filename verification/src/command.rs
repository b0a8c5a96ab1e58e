//! The commands that the bot knows.

use vstd::prelude::*;

use teloxide::utils::command::{CommandDescription, CommandDescriptions};

verus! {

/// A command.
#[derive(Clone, Copy, Debug, PartialEq, Eq, Structural)]
pub enum Command {
    Help,
    Start,
}

/// What precedes the name of a command.
pub const PREFIX: &'static str = "/";

/// What precedes the list of commands.
pub const OVERVIEW: &'static str = "These commands are supported:";

/// What the bot does.
pub const ABOUT: &'static str =
    "Send me a screenshot as a photo, video, GIF or file. I send back just the picture: no status bars, app chrome, black bars or meme text. Up to 20 MB.";

/// A command's prefix, its name and what it does.
#[derive(Debug)]
pub struct CommandEntry {
    pub prefix: &'static str,
    pub name: &'static str,
    pub description: &'static str,
}

/// A command's prefix, its name and what it does.
pub struct EntryView {
    pub prefix: Seq<char>,
    pub name: Seq<char>,
    pub description: Seq<char>,
}

impl View for CommandEntry {
    type V = EntryView;

    open spec fn view(&self) -> EntryView {
        EntryView {
            prefix: self.prefix@,
            name: self.name@,
            description: self.description@,
        }
    }
}

impl Command {
    /// The command's prefix, its name and what it does.
    pub open spec fn entry_of(self) -> EntryView {
        match self {
            Command::Help => EntryView {
                prefix: PREFIX@,
                name: "help"@,
                description: "show this help text."@,
            },
            Command::Start => EntryView {
                prefix: PREFIX@,
                name: "start"@,
                description: "what this bot does."@,
            },
        }
    }

    /// The command's prefix, its name and what it does.
    pub fn entry(self) -> (r: CommandEntry)
        ensures
            r@ == self.entry_of(),
    {
        match self {
            Command::Help => CommandEntry {
                prefix: PREFIX,
                name: "help",
                description: "show this help text.",
            },
            Command::Start => CommandEntry {
                prefix: PREFIX,
                name: "start",
                description: "what this bot does.",
            },
        }
    }
}

/// All commands, in the order in which they are listed.
pub open spec fn all_entries() -> Seq<EntryView> {
    seq![Command::Help.entry_of(), Command::Start.entry_of()]
}

/// The line that describes a command.
pub open spec fn line_of(entry: EntryView) -> Seq<char> {
    entry.prefix + entry.name + if entry.description.len() == 0 {
        Seq::empty()
    } else {
        " — "@ + entry.description
    }
}

/// The lines that describe `entries`, separated by line breaks.
pub open spec fn lines_of(entries: Seq<EntryView>) -> Seq<char>
    decreases entries.len(),
{
    if entries.len() == 0 {
        Seq::empty()
    } else if entries.len() == 1 {
        line_of(entries[0])
    } else {
        lines_of(entries.drop_last()) + "\n"@ + line_of(entries.last())
    }
}

/// The views of `entries`.
pub open spec fn entry_views(entries: Seq<CommandEntry>) -> Seq<EntryView> {
    entries.map_values(|entry: CommandEntry| entry@)
}

/// Renders a list of commands by `teloxide`'s `CommandDescriptions`: `new`,
/// `global_description` and its `Display`.
///
/// Claimed of it: the overview, an empty line, then one line for each command
/// with its prefix, its name and, where it has one, its description.
#[verifier::external_body]
fn render(overview: &str, entries: &Vec<CommandEntry>) -> (r: String)
    ensures
        r@ == overview@ + "\n\n"@ + lines_of(entry_views(entries@)),
{
    let list: Vec<CommandDescription> = entries.iter().map(|entry| CommandDescription {
        prefix: entry.prefix,
        command: entry.name,
        aliases: &[],
        description: entry.description,
    }).collect();
    CommandDescriptions::new(&list).global_description(overview).to_string()
}

/// All commands, in the order in which they are listed.
pub fn entries() -> (r: Vec<CommandEntry>)
    ensures
        entry_views(r@) == all_entries(),
{
    let mut list: Vec<CommandEntry> = Vec::new();
    list.push(Command::Help.entry());
    list.push(Command::Start.entry());
    assert(entry_views(list@) =~= all_entries());
    list
}

/// The list of commands that is registered with Telegram: each command with
/// its prefix, and what it does.
pub open spec fn registered() -> Seq<(Seq<char>, Seq<char>)> {
    all_entries().map_values(|entry: EntryView| (entry.prefix + entry.name, entry.description))
}

/// The views of `list`.
pub open spec fn pair_views(list: Seq<(String, String)>) -> Seq<(Seq<char>, Seq<char>)> {
    list.map_values(|pair: (String, String)| (pair.0@, pair.1@))
}

/// What `/help` says: the overview and a line for each command.
pub open spec fn help_text() -> Seq<char> {
    OVERVIEW@ + "\n\n"@ + lines_of(all_entries())
}

/// What is said to a command.
pub open spec fn text_of(command: Command) -> Seq<char> {
    match command {
        Command::Help => help_text(),
        Command::Start => ABOUT@,
    }
}

impl Command {
    /// What `/help` says: the overview and a line for each command.
    pub fn descriptions() -> (r: String)
        ensures
            r@ == help_text(),
    {
        render(OVERVIEW, &entries())
    }

    /// The list of commands that is registered with Telegram: each command with
    /// its prefix, and what it does.
    pub fn bot_commands() -> (r: Vec<(String, String)>)
        ensures
            pair_views(r@) == registered(),
    {
        let mut list: Vec<(String, String)> = Vec::new();
        let entries = entries();
        assert(entry_views(entries@).len() == entries@.len());
        assert(pair_views(list@) =~= registered().take(0));
        let mut i: usize = 0;
        while i < entries.len()
            invariant
                i <= entries@.len(),
                entry_views(entries@) == all_entries(),
                entries@.len() == registered().len(),
                pair_views(list@) == registered().take(i as int),
            decreases entries@.len() - i,
        {
            let ghost before = list@;
            let entry = &entries[i];
            list.push((entry.prefix.to_string().concat(entry.name), entry.description.to_string()));
            proof {
                let pair = registered()[i as int];
                assert(entry_views(entries@)[i as int] == entry@);
                assert(pair_views(list@) =~= pair_views(before).push(pair));
                assert(registered().take(i + 1) =~= registered().take(i as int).push(pair));
            }
            i += 1;
        }
        assert(registered().take(i as int) =~= registered());
        list
    }
}

/// What is said to a command.
pub fn command_text(command: Command) -> (r: String)
    ensures
        r@ == text_of(command),
{
    match command {
        Command::Help => Command::descriptions(),
        Command::Start => ABOUT.to_string(),
    }
}

/// The help lists every command on a line of its own.
pub proof fn lemma_help_lists(command: Command)
    ensures
        exists|i: int, j: int|
            0 <= i <= j <= help_text().len() && #[trigger] help_text().subrange(i, j) == line_of(
                command.entry_of(),
            ),
{
    let all = all_entries();
    let (help, start) = (line_of(Command::Help.entry_of()), line_of(Command::Start.entry_of()));
    let before = OVERVIEW@ + "\n\n"@;
    assert(all.drop_last() =~= seq![Command::Help.entry_of()]);
    reveal_with_fuel(lines_of, 2);
    assert(lines_of(all) == help + "\n"@ + start);
    let text = help_text();
    match command {
        Command::Help => {
            let i = before.len() as int;
            assert(text.subrange(i, i + help.len()) =~= help);
        },
        Command::Start => {
            let i = text.len() - start.len();
            assert(text.subrange(i, text.len() as int) =~= start);
        },
    }
}

} // verus!
