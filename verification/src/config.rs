//! The bot's configuration: where its credential is found, the prefix that
//! marks a command, and the gateway intents it connects with.

use vstd::prelude::*;

verus! {

/// Name of the environment variable that holds the bot's credential.
pub const TOKEN_VARIABLE: &'static str = "DISCORD_TOKEN";

/// The literal a message has to begin with to be read as a command.
pub const PREFIX: &'static str = "!";

/// Intent for member events of a guild (bit 1). Privileged.
pub const GUILD_MEMBERS: u64 = 0x2;

/// Intent for presence updates (bit 8). Privileged.
pub const GUILD_PRESENCES: u64 = 0x100;

/// Intent for messages sent in guilds (bit 9).
pub const GUILD_MESSAGES: u64 = 0x200;

/// Intent for messages sent directly to the bot (bit 12).
pub const DIRECT_MESSAGES: u64 = 0x1000;

/// Intent for the content of messages (bit 15). Privileged.
pub const MESSAGE_CONTENT: u64 = 0x8000;

/// Every intent the gateway library defines: bits 0 to 16, 20, 21, 24 and 25.
pub const ALL_INTENTS: u64 = 0x331_ffff;

/// The intents the chat service grants only on request.
pub open spec fn privileged() -> u64 {
    GUILD_MEMBERS | GUILD_PRESENCES | MESSAGE_CONTENT
}

/// Every defined intent that is not privileged.
pub open spec fn non_privileged() -> u64 {
    ALL_INTENTS & !privileged()
}

/// The intents the bot connects with: all that are not privileged, and
/// access to message content.
pub open spec fn requested_intents() -> u64 {
    non_privileged() | MESSAGE_CONTENT
}

/// Whether the intent set `intents` holds every bit of `intent`.
pub open spec fn includes(intents: u64, intent: u64) -> bool {
    intents & intent == intent
}

/// Calls serenity's `GatewayIntents::non_privileged()` and reads its bits.
/// Trusted: the result is the complement, within the intents that serenity
/// defines, of the three privileged ones, as its source computes it.
#[verifier::external_body]
fn non_privileged_bits() -> (bits: u64)
    ensures
        bits == non_privileged(),
{
    poise::serenity_prelude::GatewayIntents::non_privileged().bits()
}

/// Reads the bits of serenity's constant `GatewayIntents::MESSAGE_CONTENT`.
/// Trusted: the constant is bit 15, as its declaration says.
#[verifier::external_body]
fn message_content_bits() -> (bits: u64)
    ensures
        bits == MESSAGE_CONTENT,
{
    poise::serenity_prelude::GatewayIntents::MESSAGE_CONTENT.bits()
}

/// The gateway intents the bot connects with, as a bit set.
pub fn gateway_intents() -> (intents: u64)
    ensures
        intents == requested_intents(),
{
    non_privileged_bits() | message_content_bits()
}

/// The requested intents deliver messages from guilds and direct messages
/// together with their content, and hold no other privileged intent.
pub proof fn requested_intents_deliver_messages()
    ensures
        requested_intents() == 0x331_fefd,
        includes(requested_intents(), GUILD_MESSAGES),
        includes(requested_intents(), DIRECT_MESSAGES),
        includes(requested_intents(), MESSAGE_CONTENT),
        requested_intents() & privileged() == MESSAGE_CONTENT,
{
    assert(((0x331_ffffu64 & !(0x2u64 | 0x100u64 | 0x8000u64)) | 0x8000u64) == 0x331_fefdu64)
        by (bit_vector);
    assert(0x331_fefdu64 & 0x200u64 == 0x200u64) by (bit_vector);
    assert(0x331_fefdu64 & 0x1000u64 == 0x1000u64) by (bit_vector);
    assert(0x331_fefdu64 & 0x8000u64 == 0x8000u64) by (bit_vector);
    assert(0x331_fefdu64 & (0x2u64 | 0x100u64 | 0x8000u64) == 0x8000u64) by (bit_vector);
}

/// Everything the bot needs to connect: loaded once at start-up and never
/// changed afterwards.
#[derive(Clone, Debug, PartialEq, Eq)]
pub struct BotConfig {
    /// The credential the bot logs in with.
    pub token: String,
    /// The literal that marks a command.
    pub prefix: String,
    /// The gateway intents, as a bit set.
    pub intents: u64,
}

/// Mathematical model of a [`BotConfig`].
pub struct BotConfigView {
    pub token: Seq<char>,
    pub prefix: Seq<char>,
    pub intents: u64,
}

impl View for BotConfig {
    type V = BotConfigView;

    open spec fn view(&self) -> BotConfigView {
        BotConfigView { token: self.token@, prefix: self.prefix@, intents: self.intents }
    }
}

/// The configuration of a bot that logs in with `token`.
pub open spec fn config_for(token: Seq<char>) -> BotConfigView {
    BotConfigView { token, prefix: PREFIX@, intents: requested_intents() }
}

impl BotConfig {
    /// The configuration of a bot that logs in with `token`.
    pub fn new(token: String) -> (config: BotConfig)
        ensures
            config@ == config_for(token@),
    {
        BotConfig { token, prefix: PREFIX.to_owned(), intents: gateway_intents() }
    }
}

} // verus!
