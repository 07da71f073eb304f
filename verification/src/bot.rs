//! Which slash commands the bot has, where it registers them, and which handler runs.

use vstd::prelude::*;

use crate::commands::guild_state;
use crate::text;

verus! {

/// An option of a slash command. Its value is text.
#[derive(Debug)]
pub struct OptionSpec {
    pub name: String,
    pub description: String,
    pub required: bool,
}

/// A slash command.
#[derive(Debug)]
pub struct CommandSpec {
    pub name: String,
    pub description: String,
    pub option: Option<OptionSpec>,
}

/// The text of an option.
#[verifier::ext_equal]
pub struct OptionView {
    pub name: Seq<char>,
    pub description: Seq<char>,
    pub required: bool,
}

/// The text of a slash command.
#[verifier::ext_equal]
pub struct CommandView {
    pub name: Seq<char>,
    pub description: Seq<char>,
    pub option: Option<OptionView>,
}

impl View for OptionSpec {
    type V = OptionView;

    open spec fn view(&self) -> OptionView {
        OptionView {
            name: self.name@,
            description: self.description@,
            required: self.required,
        }
    }
}

impl View for CommandSpec {
    type V = CommandView;

    open spec fn view(&self) -> CommandView {
        CommandView {
            name: self.name@,
            description: self.description@,
            option: match self.option {
                Some(option) => Some(option@),
                None => None,
            },
        }
    }
}

/// The text of a list of slash commands.
pub open spec fn command_views(commands: Seq<CommandSpec>) -> Seq<CommandView> {
    commands.map_values(|command: CommandSpec| command@)
}

/// A command without options.
pub open spec fn bare(name: Seq<char>, description: Seq<char>) -> CommandView {
    CommandView { name, description, option: None }
}

/// A command with one option.
pub open spec fn with_option(
    name: Seq<char>,
    description: Seq<char>,
    option: Seq<char>,
    option_description: Seq<char>,
    required: bool,
) -> CommandView {
    CommandView {
        name,
        description,
        option: Some(OptionView { name: option, description: option_description, required }),
    }
}

/// The bot's slash commands.
pub open spec fn commands() -> Seq<CommandView> {
    seq![
        bare("ping"@, "Check if the bot is alive"@),
        with_option(
            "play"@,
            "Play a song or queue videos from YouTube playlist"@,
            "query"@,
            "Song name, direct URL, or explicit YouTube playlist URL"@,
            true,
        ),
        with_option(
            "playlist"@,
            "Queue a predefined text playlist"@,
            "name"@,
            "Playlist filename without the .txt extension"@,
            true,
        ),
        bare("skip"@, "Skip the current song"@),
        bare("clear"@, "Clear queued tracks without stopping the current song"@),
        bare("leave"@, "Stop playback and leave the voice channel"@),
        bare("pause"@, "Pause the currently playing song"@),
        bare("resume"@, "Resume paused playback"@),
        bare("queue"@, "Show the current queue"@),
        with_option(
            "preplay"@,
            "Enable or update probabilistic between-track audio"@,
            "url"@,
            "YouTube video URL (defaults to PREPLAY_URL)"@,
            false,
        ),
        bare("stop-preplay"@, "Disable probabilistic between-track audio"@),
    ]
}

fn bare_command(name: &str, description: &str) -> (command: CommandSpec)
    ensures
        command@ == bare(name@, description@),
{
    CommandSpec { name: name.to_owned(), description: description.to_owned(), option: None }
}

fn command_with_option(
    name: &str,
    description: &str,
    option: &str,
    option_description: &str,
    required: bool,
) -> (command: CommandSpec)
    ensures
        command@ == with_option(name@, description@, option@, option_description@, required),
{
    CommandSpec {
        name: name.to_owned(),
        description: description.to_owned(),
        option: Some(
            OptionSpec {
                name: option.to_owned(),
                description: option_description.to_owned(),
                required,
            },
        ),
    }
}

/// The slash commands to register.
pub fn command_specs() -> (list: Vec<CommandSpec>)
    ensures
        command_views(list@) == commands(),
        list@.len() == 11,
        list@[0].name@ == "ping"@ && list@[0].description@ == "Check if the bot is alive"@ && list@[0].option is None,
        list@[1].name@ == "play"@ && list@[1].description@ == "Play a song or queue videos from YouTube playlist"@,
        list@[1].option matches Some(option) && option.name@ == "query"@ && option.description@
            == "Song name, direct URL, or explicit YouTube playlist URL"@ && option.required == true,
        list@[2].name@ == "playlist"@ && list@[2].description@ == "Queue a predefined text playlist"@,
        list@[2].option matches Some(option) && option.name@ == "name"@ && option.description@
            == "Playlist filename without the .txt extension"@ && option.required == true,
        list@[3].name@ == "skip"@ && list@[3].description@ == "Skip the current song"@ && list@[3].option is None,
        list@[4].name@ == "clear"@ && list@[4].description@ == "Clear queued tracks without stopping the current song"@ && list@[4].option is None,
        list@[5].name@ == "leave"@ && list@[5].description@ == "Stop playback and leave the voice channel"@ && list@[5].option is None,
        list@[6].name@ == "pause"@ && list@[6].description@ == "Pause the currently playing song"@ && list@[6].option is None,
        list@[7].name@ == "resume"@ && list@[7].description@ == "Resume paused playback"@ && list@[7].option is None,
        list@[8].name@ == "queue"@ && list@[8].description@ == "Show the current queue"@ && list@[8].option is None,
        list@[9].name@ == "preplay"@ && list@[9].description@ == "Enable or update probabilistic between-track audio"@,
        list@[9].option matches Some(option) && option.name@ == "url"@ && option.description@
            == "YouTube video URL (defaults to PREPLAY_URL)"@ && option.required == false,
        list@[10].name@ == "stop-preplay"@ && list@[10].description@ == "Disable probabilistic between-track audio"@ && list@[10].option is None,
{
    let mut list: Vec<CommandSpec> = Vec::new();
    list.push(bare_command("ping", "Check if the bot is alive"));
    list.push(
        command_with_option(
            "play",
            "Play a song or queue videos from YouTube playlist",
            "query",
            "Song name, direct URL, or explicit YouTube playlist URL",
            true,
        ),
    );
    list.push(
        command_with_option(
            "playlist",
            "Queue a predefined text playlist",
            "name",
            "Playlist filename without the .txt extension",
            true,
        ),
    );
    list.push(bare_command("skip", "Skip the current song"));
    list.push(bare_command("clear", "Clear queued tracks without stopping the current song"));
    list.push(bare_command("leave", "Stop playback and leave the voice channel"));
    list.push(bare_command("pause", "Pause the currently playing song"));
    list.push(bare_command("resume", "Resume paused playback"));
    list.push(bare_command("queue", "Show the current queue"));
    list.push(
        command_with_option(
            "preplay",
            "Enable or update probabilistic between-track audio",
            "url",
            "YouTube video URL (defaults to PREPLAY_URL)",
            false,
        ),
    );
    list.push(bare_command("stop-preplay", "Disable probabilistic between-track audio"));
    assert(command_views(list@) =~= commands());
    list
}

/// Where the slash commands are registered.
#[derive(Clone, Copy, Debug, PartialEq, Eq, Structural)]
pub enum Registration {
    /// For one guild.
    Guild(u64),
    /// Globally.
    Global,
}

/// Where the commands are registered, by the value of `GUILD_ID` where it is set.
pub open spec fn registration_for(guild_id: Option<Seq<char>>) -> Registration {
    match guild_id {
        Some(value) => match text::parsed_u64(text::trimmed(value)) {
            Some(id) => Registration::Guild(id),
            None => Registration::Global,
        },
        None => Registration::Global,
    }
}

/// Decides where to register the commands, by the value of `GUILD_ID` where it is set.
pub fn registration(guild_id: &Option<String>) -> (r: Registration)
    ensures
        r == registration_for(guild_state::opt_text(*guild_id)),
        r == match guild_id {
            Some(value) => match text::parsed_u64(text::trimmed(value@)) {
                Some(id) => Registration::Guild(id),
                None => Registration::Global,
            },
            None => Registration::Global,
        },
{
    match guild_id {
        Some(value) => match text::parse_u64(text::trim(value.as_str())) {
            Some(id) => Registration::Guild(id),
            None => Registration::Global,
        },
        None => Registration::Global,
    }
}

/// A list of slash commands, and where it is registered in place of what was registered there.
#[derive(Debug)]
pub struct CommandSet {
    pub scope: Registration,
    pub commands: Vec<CommandSpec>,
}

/// The text of a list of slash commands, and where it is registered.
#[verifier::ext_equal]
pub struct CommandSetView {
    pub scope: Registration,
    pub commands: Seq<CommandView>,
}

impl View for CommandSet {
    type V = CommandSetView;

    open spec fn view(&self) -> CommandSetView {
        CommandSetView { scope: self.scope, commands: command_views(self.commands@) }
    }
}

/// The text of what is registered, in order.
pub open spec fn set_views(sets: Seq<CommandSet>) -> Seq<CommandSetView> {
    sets.map_values(|set: CommandSet| set@)
}

/// What is registered, in order. Discord shows global commands and those of a guild together, so
/// that a guild's own list comes with an empty global one: it removes what was registered before.
pub open spec fn registrations_for(guild_id: Option<Seq<char>>) -> Seq<CommandSetView> {
    match registration_for(guild_id) {
        Registration::Guild(id) => seq![
            CommandSetView { scope: Registration::Guild(id), commands: commands() },
            CommandSetView { scope: Registration::Global, commands: seq![] },
        ],
        Registration::Global => seq![
            CommandSetView { scope: Registration::Global, commands: commands() },
        ],
    }
}

/// What to register once the bot is ready, in order, by the value of `GUILD_ID` where it is set.
pub fn ready(guild_id: &Option<String>) -> (sets: Vec<CommandSet>)
    ensures
        set_views(sets@) == registrations_for(guild_state::opt_text(*guild_id)),
        ({
            let guild = match guild_id {
                Some(value) => text::parsed_u64(text::trimmed(value@)),
                None => None,
            };
            &&& sets@.len() == if guild is Some {
                2int
            } else {
                1
            }
            &&& sets@[0].scope == match guild {
                Some(id) => Registration::Guild(id),
                None => Registration::Global,
            }
            &&& command_views(sets@[0].commands@) == commands()
            &&& guild is Some ==> sets@[1].scope == Registration::Global
                && sets@[1].commands@.len() == 0
        }),
{
    let scope = registration(guild_id);
    let mut sets: Vec<CommandSet> = Vec::new();
    sets.push(CommandSet { scope, commands: command_specs() });
    match scope {
        Registration::Guild(_) => {
            sets.push(CommandSet { scope: Registration::Global, commands: Vec::new() });
            assert(command_views(sets@[1].commands@) =~= seq![]);
        },
        Registration::Global => {},
    }
    assert(set_views(sets@) =~= registrations_for(guild_state::opt_text(*guild_id)));
    sets
}

/// What is registered where, after these lists: the last one for each place. `before` holds the lists from an earlier time.
pub open spec fn registered(
    before: Map<Registration, Seq<CommandView>>,
    sets: Seq<CommandSetView>,
) -> Map<Registration, Seq<CommandView>>
    decreases sets.len(),
{
    if sets.len() == 0 {
        before
    } else {
        registered(before, sets.drop_last()).insert(sets.last().scope, sets.last().commands)
    }
}

/// Whatever was registered before, a configured guild has the bot's commands as its own and no
/// global ones beside them, so that no command shows twice; without a configured guild the bot's
/// commands are the global ones.
pub proof fn no_command_shows_twice(
    before: Map<Registration, Seq<CommandView>>,
    guild_id: Option<Seq<char>>,
)
    ensures
        ({
            let after = registered(before, registrations_for(guild_id));
            match registration_for(guild_id) {
                Registration::Guild(id) => {
                    &&& after.contains_pair(Registration::Guild(id), commands())
                    &&& after.contains_pair(Registration::Global, seq![])
                },
                Registration::Global => after.contains_pair(Registration::Global, commands()),
            }
        }),
{
    reveal_with_fuel(registered, 3);
    let sets = registrations_for(guild_id);
    match registration_for(guild_id) {
        Registration::Guild(id) => {
            assert(sets.drop_last() =~= seq![
                CommandSetView { scope: Registration::Guild(id), commands: commands() },
            ]);
            assert(sets.drop_last().drop_last() =~= seq![]);
        },
        Registration::Global => {
            assert(sets.drop_last() =~= seq![]);
        },
    }
}

/// A command that the bot handles.
#[derive(Clone, Copy, Debug, PartialEq, Eq, Structural)]
pub enum CommandKind {
    Ping,
    Play,
    Playlist,
    Skip,
    Clear,
    Leave,
    Pause,
    Resume,
    Queue,
    Preplay,
    StopPreplay,
}

/// The command of that name, if the bot has one.
pub open spec fn command_named(name: Seq<char>) -> Option<CommandKind> {
    if name == "ping"@ {
        Some(CommandKind::Ping)
    } else if name == "play"@ {
        Some(CommandKind::Play)
    } else if name == "playlist"@ {
        Some(CommandKind::Playlist)
    } else if name == "skip"@ {
        Some(CommandKind::Skip)
    } else if name == "clear"@ {
        Some(CommandKind::Clear)
    } else if name == "leave"@ {
        Some(CommandKind::Leave)
    } else if name == "pause"@ {
        Some(CommandKind::Pause)
    } else if name == "resume"@ {
        Some(CommandKind::Resume)
    } else if name == "queue"@ {
        Some(CommandKind::Queue)
    } else if name == "preplay"@ {
        Some(CommandKind::Preplay)
    } else if name == "stop-preplay"@ {
        Some(CommandKind::StopPreplay)
    } else {
        None
    }
}

/// Finds the command of that name.
pub fn interaction_create(name: &str) -> (kind: Option<CommandKind>)
    ensures
        kind == command_named(name@),
        kind == Some(CommandKind::Ping) <==> name@ == "ping"@,
        kind == Some(CommandKind::Play) <==> name@ == "play"@,
        kind == Some(CommandKind::Playlist) <==> name@ == "playlist"@,
        kind == Some(CommandKind::Skip) <==> name@ == "skip"@,
        kind == Some(CommandKind::Clear) <==> name@ == "clear"@,
        kind == Some(CommandKind::Leave) <==> name@ == "leave"@,
        kind == Some(CommandKind::Pause) <==> name@ == "pause"@,
        kind == Some(CommandKind::Resume) <==> name@ == "resume"@,
        kind == Some(CommandKind::Queue) <==> name@ == "queue"@,
        kind == Some(CommandKind::Preplay) <==> name@ == "preplay"@,
        kind == Some(CommandKind::StopPreplay) <==> name@ == "stop-preplay"@,
{
    proof {
        names_differ();
    }
    if text::same(name, "ping") {
        Some(CommandKind::Ping)
    } else if text::same(name, "play") {
        Some(CommandKind::Play)
    } else if text::same(name, "playlist") {
        Some(CommandKind::Playlist)
    } else if text::same(name, "skip") {
        Some(CommandKind::Skip)
    } else if text::same(name, "clear") {
        Some(CommandKind::Clear)
    } else if text::same(name, "leave") {
        Some(CommandKind::Leave)
    } else if text::same(name, "pause") {
        Some(CommandKind::Pause)
    } else if text::same(name, "resume") {
        Some(CommandKind::Resume)
    } else if text::same(name, "queue") {
        Some(CommandKind::Queue)
    } else if text::same(name, "preplay") {
        Some(CommandKind::Preplay)
    } else if text::same(name, "stop-preplay") {
        Some(CommandKind::StopPreplay)
    } else {
        None
    }
}

/// The kinds of the registered commands, in the order of their registration.
pub open spec fn kinds() -> Seq<CommandKind> {
    seq![
        CommandKind::Ping,
        CommandKind::Play,
        CommandKind::Playlist,
        CommandKind::Skip,
        CommandKind::Clear,
        CommandKind::Leave,
        CommandKind::Pause,
        CommandKind::Resume,
        CommandKind::Queue,
        CommandKind::Preplay,
        CommandKind::StopPreplay,
    ]
}

proof fn names_differ()
    ensures
        "ping"@ != "play"@,
        "ping"@ != "playlist"@,
        "ping"@ != "skip"@,
        "ping"@ != "clear"@,
        "ping"@ != "leave"@,
        "ping"@ != "pause"@,
        "ping"@ != "resume"@,
        "ping"@ != "queue"@,
        "ping"@ != "preplay"@,
        "ping"@ != "stop-preplay"@,
        "play"@ != "playlist"@,
        "play"@ != "skip"@,
        "play"@ != "clear"@,
        "play"@ != "leave"@,
        "play"@ != "pause"@,
        "play"@ != "resume"@,
        "play"@ != "queue"@,
        "play"@ != "preplay"@,
        "play"@ != "stop-preplay"@,
        "playlist"@ != "skip"@,
        "playlist"@ != "clear"@,
        "playlist"@ != "leave"@,
        "playlist"@ != "pause"@,
        "playlist"@ != "resume"@,
        "playlist"@ != "queue"@,
        "playlist"@ != "preplay"@,
        "playlist"@ != "stop-preplay"@,
        "skip"@ != "clear"@,
        "skip"@ != "leave"@,
        "skip"@ != "pause"@,
        "skip"@ != "resume"@,
        "skip"@ != "queue"@,
        "skip"@ != "preplay"@,
        "skip"@ != "stop-preplay"@,
        "clear"@ != "leave"@,
        "clear"@ != "pause"@,
        "clear"@ != "resume"@,
        "clear"@ != "queue"@,
        "clear"@ != "preplay"@,
        "clear"@ != "stop-preplay"@,
        "leave"@ != "pause"@,
        "leave"@ != "resume"@,
        "leave"@ != "queue"@,
        "leave"@ != "preplay"@,
        "leave"@ != "stop-preplay"@,
        "pause"@ != "resume"@,
        "pause"@ != "queue"@,
        "pause"@ != "preplay"@,
        "pause"@ != "stop-preplay"@,
        "resume"@ != "queue"@,
        "resume"@ != "preplay"@,
        "resume"@ != "stop-preplay"@,
        "queue"@ != "preplay"@,
        "queue"@ != "stop-preplay"@,
        "preplay"@ != "stop-preplay"@,
{
    reveal_strlit("ping");
    reveal_strlit("play");
    reveal_strlit("playlist");
    reveal_strlit("skip");
    reveal_strlit("clear");
    reveal_strlit("leave");
    reveal_strlit("pause");
    reveal_strlit("resume");
    reveal_strlit("queue");
    reveal_strlit("preplay");
    reveal_strlit("stop-preplay");
    // Names of the same length differ in one of their first two characters.
    assert("ping"@.len() == 4 && "play"@.len() == 4 && "skip"@.len() == 4);
    assert("ping"@[1] == 'i' && "play"@[1] == 'l' && "skip"@[1] == 'k');
    assert("clear"@.len() == 5 && "leave"@.len() == 5 && "pause"@.len() == 5);
    assert("clear"@[0] == 'c' && "leave"@[0] == 'l' && "pause"@[0] == 'p');
    assert("queue"@.len() == 5 && "queue"@[0] == 'q');
    assert("resume"@.len() == 6 && "preplay"@.len() == 7 && "playlist"@.len() == 8);
    assert("stop-preplay"@.len() == 12);
}

/// Every registered command reaches its own handler, and no two commands share a name.
pub proof fn every_command_is_handled(i: int)
    requires
        0 <= i < commands().len(),
    ensures
        kinds().len() == commands().len(),
        command_named(commands()[i].name) == Some(kinds()[i]),
{
    names_differ();
    let all = commands();
    assert(all[0].name == "ping"@ && kinds()[0] == CommandKind::Ping);
    assert(command_named("ping"@) == Some(CommandKind::Ping));
    assert(all[1].name == "play"@ && kinds()[1] == CommandKind::Play);
    assert(command_named("play"@) == Some(CommandKind::Play));
    assert(all[2].name == "playlist"@ && kinds()[2] == CommandKind::Playlist);
    assert(command_named("playlist"@) == Some(CommandKind::Playlist));
    assert(all[3].name == "skip"@ && kinds()[3] == CommandKind::Skip);
    assert(command_named("skip"@) == Some(CommandKind::Skip));
    assert(all[4].name == "clear"@ && kinds()[4] == CommandKind::Clear);
    assert(command_named("clear"@) == Some(CommandKind::Clear));
    assert(all[5].name == "leave"@ && kinds()[5] == CommandKind::Leave);
    assert(command_named("leave"@) == Some(CommandKind::Leave));
    assert(all[6].name == "pause"@ && kinds()[6] == CommandKind::Pause);
    assert(command_named("pause"@) == Some(CommandKind::Pause));
    assert(all[7].name == "resume"@ && kinds()[7] == CommandKind::Resume);
    assert(command_named("resume"@) == Some(CommandKind::Resume));
    assert(all[8].name == "queue"@ && kinds()[8] == CommandKind::Queue);
    assert(command_named("queue"@) == Some(CommandKind::Queue));
    assert(all[9].name == "preplay"@ && kinds()[9] == CommandKind::Preplay);
    assert(command_named("preplay"@) == Some(CommandKind::Preplay));
    assert(all[10].name == "stop-preplay"@ && kinds()[10] == CommandKind::StopPreplay);
    assert(command_named("stop-preplay"@) == Some(CommandKind::StopPreplay));
}

/// Every handled command is registered.
pub proof fn every_handler_is_registered(name: Seq<char>)
    requires
        command_named(name) is Some,
    ensures
        exists|i: int| 0 <= i < commands().len() && (#[trigger] commands()[i]).name == name,
{
    let all = commands();
    assert(all[0].name == "ping"@);
    assert(all[1].name == "play"@);
    assert(all[2].name == "playlist"@);
    assert(all[3].name == "skip"@);
    assert(all[4].name == "clear"@);
    assert(all[5].name == "leave"@);
    assert(all[6].name == "pause"@);
    assert(all[7].name == "resume"@);
    assert(all[8].name == "queue"@);
    assert(all[9].name == "preplay"@);
    assert(all[10].name == "stop-preplay"@);
}

}
