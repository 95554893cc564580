//! The commands the bot answers to, and what it tells its users about them.

use vstd::prelude::*;

pub mod general;

verus! {

/// What users are told about a command.
#[derive(Clone, Debug, PartialEq, Eq)]
pub struct CommandInfo {
    /// The word that invokes the command, behind the prefix.
    pub name: String,
    /// One line on what the command does.
    pub description: String,
    /// One line on the optional argument the command takes.
    pub argument: String,
}

/// Mathematical model of a [`CommandInfo`].
pub struct CommandInfoView {
    pub name: Seq<char>,
    pub description: Seq<char>,
    pub argument: Seq<char>,
}

impl View for CommandInfo {
    type V = CommandInfoView;

    open spec fn view(&self) -> CommandInfoView {
        CommandInfoView {
            name: self.name@,
            description: self.description@,
            argument: self.argument@,
        }
    }
}

/// What users are told about `help`.
pub open spec fn help_info() -> CommandInfoView {
    CommandInfoView { name: "help"@, description: "This help"@, argument: "Help command"@ }
}

/// What users are told about `ping`.
pub open spec fn ping_info() -> CommandInfoView {
    CommandInfoView { name: "ping"@, description: "Ping me"@, argument: "Ping me !"@ }
}

/// The commands the bot registers, in the order they are listed.
pub open spec fn registered() -> Seq<CommandInfoView> {
    seq![help_info(), ping_info()]
}

/// The commands the bot registers: `help`, then `ping`.
pub fn registered_commands() -> (commands: Vec<CommandInfo>)
    ensures
        commands@.map_values(|info: CommandInfo| info@) == registered(),
{
    let help = CommandInfo {
        name: "help".to_owned(),
        description: "This help".to_owned(),
        argument: "Help command".to_owned(),
    };
    let ping = CommandInfo {
        name: "ping".to_owned(),
        description: "Ping me".to_owned(),
        argument: "Ping me !".to_owned(),
    };
    let mut commands: Vec<CommandInfo> = Vec::new();
    commands.push(help);
    commands.push(ping);
    assert(commands@.map_values(|info: CommandInfo| info@) =~= registered());
    commands
}

} // verus!
