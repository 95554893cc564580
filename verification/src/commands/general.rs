//! The general-purpose commands: `help` and `ping`.
//!
//! A handler here computes what the command answers; sending the answer is
//! left to the host program.

use vstd::prelude::*;

verus! {

/// How the framework's help listing is to be laid out.
#[derive(Clone, Debug, PartialEq, Eq)]
pub struct HelpSettings {
    /// Extra text shown below the listing.
    pub extra_text_at_bottom: String,
    /// Whether the answer is shown to the asking user only, where possible.
    pub ephemeral: bool,
    /// Whether context menu commands are listed too.
    pub show_context_menu_commands: bool,
    /// Whether subcommands are listed too.
    pub show_subcommands: bool,
    /// Whether a command's short description precedes its help text.
    pub include_description: bool,
}

/// Mathematical model of [`HelpSettings`].
pub struct HelpSettingsView {
    pub extra_text_at_bottom: Seq<char>,
    pub ephemeral: bool,
    pub show_context_menu_commands: bool,
    pub show_subcommands: bool,
    pub include_description: bool,
}

impl View for HelpSettings {
    type V = HelpSettingsView;

    open spec fn view(&self) -> HelpSettingsView {
        HelpSettingsView {
            extra_text_at_bottom: self.extra_text_at_bottom@,
            ephemeral: self.ephemeral,
            show_context_menu_commands: self.show_context_menu_commands,
            show_subcommands: self.show_subcommands,
            include_description: self.include_description,
        }
    }
}

/// What `help` asks the framework's help listing for.
#[derive(Clone, Debug, PartialEq, Eq)]
pub struct HelpRequest {
    /// The command to describe; `None` asks for the list of all commands.
    pub command: Option<String>,
    /// The layout of the answer.
    pub settings: HelpSettings,
}

/// Mathematical model of a [`HelpRequest`].
pub struct HelpRequestView {
    pub command: Option<Seq<char>>,
    pub settings: HelpSettingsView,
}

impl View for HelpRequest {
    type V = HelpRequestView;

    open spec fn view(&self) -> HelpRequestView {
        HelpRequestView { command: text_of(self.command), settings: self.settings@ }
    }
}

/// The characters of an optional string.
pub open spec fn text_of(text: Option<String>) -> Option<Seq<char>> {
    match text {
        Some(text) => Some(text@),
        None => None,
    }
}

/// The layout the framework uses when it is not told otherwise.
pub open spec fn framework_help_settings() -> HelpSettingsView {
    HelpSettingsView {
        extra_text_at_bottom: Seq::empty(),
        ephemeral: true,
        show_context_menu_commands: false,
        show_subcommands: false,
        include_description: true,
    }
}

/// The layout `help` asks for: the framework's own, with descriptions shown
/// and the answer visible to the asking user only.
pub open spec fn help_settings() -> HelpSettingsView {
    HelpSettingsView { include_description: true, ephemeral: true, ..framework_help_settings() }
}

/// Calls `poise::builtins::HelpConfiguration::default()` and copies its
/// fields. Trusted: the result is the layout that function's source spells
/// out, namely no extra text, an ephemeral answer, no context menu commands,
/// no subcommands, descriptions included.
#[verifier::external_body]
fn default_help_settings() -> (settings: HelpSettings)
    ensures
        settings@ == framework_help_settings(),
{
    let config = poise::builtins::HelpConfiguration::default();
    HelpSettings {
        extra_text_at_bottom: config.extra_text_at_bottom.to_string(),
        ephemeral: config.ephemeral,
        show_context_menu_commands: config.show_context_menu_commands,
        show_subcommands: config.show_subcommands,
        include_description: config.include_description,
    }
}

/// Handles `help`: asks the framework's help listing for the given command,
/// or for the list of all commands when none is given, laid out as
/// [`help_settings`] says.
pub fn help(command: Option<String>) -> (request: HelpRequest)
    ensures
        request@ == (HelpRequestView { command: text_of(command), settings: help_settings() }),
{
    let defaults = default_help_settings();
    HelpRequest {
        command,
        settings: HelpSettings { include_description: true, ephemeral: true, ..defaults },
    }
}

/// The text `ping` answers with.
pub open spec fn pong() -> Seq<char> {
    "Pong !"@
}

/// Handles `ping`: the reply is always the same acknowledgement, whatever
/// argument came with the command.
pub fn ping(_command: Option<String>) -> (reply: String)
    ensures
        reply@ == pong(),
{
    "Pong !".to_owned()
}

} // verus!
