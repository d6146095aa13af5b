use vstd::prelude::*;
use serenity::model::gateway::GatewayIntents;

verus! {

/// Bit of the intent that delivers guild message events.
pub open spec fn guild_messages_bit() -> u64 {
    0x200
}

/// Bit of the intent that delivers direct message events.
pub open spec fn direct_messages_bit() -> u64 {
    0x1000
}

/// Bit of the intent that includes message text in the events.
pub open spec fn message_content_bit() -> u64 {
    0x8000
}

/// The intents that the gateway grants only to whitelisted bots: guild
/// members, guild presences and message content.
pub open spec fn privileged_bits() -> u64 {
    0x2u64 | 0x100u64 | 0x8000u64
}

/// Relies on serenity's GatewayIntents::GUILD_MESSAGES, declared as `1 << 9`.
#[verifier::external_body]
fn guild_messages() -> (r: u64)
    ensures
        r == guild_messages_bit(),
{
    GatewayIntents::GUILD_MESSAGES.bits()
}

/// Relies on serenity's GatewayIntents::DIRECT_MESSAGES, declared as `1 << 12`.
#[verifier::external_body]
fn direct_messages() -> (r: u64)
    ensures
        r == direct_messages_bit(),
{
    GatewayIntents::DIRECT_MESSAGES.bits()
}

/// Relies on serenity's GatewayIntents::MESSAGE_CONTENT, declared as `1 << 15`.
#[verifier::external_body]
fn message_content() -> (r: u64)
    ensures
        r == message_content_bit(),
{
    GatewayIntents::MESSAGE_CONTENT.bits()
}

/// Relies on serenity's GatewayIntents::privileged: the union of
/// GUILD_MEMBERS (`1 << 1`), GUILD_PRESENCES (`1 << 8`) and MESSAGE_CONTENT.
#[verifier::external_body]
fn privileged() -> (r: u64)
    ensures
        r == privileged_bits(),
{
    GatewayIntents::privileged().bits()
}

/// The intents for the structured command path: every privileged intent,
/// message content among them.
pub fn command_intents() -> (r: u64)
    ensures
        r == privileged_bits() | message_content_bit(),
        r & message_content_bit() != 0,
        r == 0x8102,
{
    let r = privileged() | message_content();
    assert(r == 0x8102u64 && r & 0x8000u64 != 0) by (bit_vector)
        requires
            r == (0x2u64 | 0x100u64 | 0x8000u64) | 0x8000u64,
    ;
    r
}

/// The intents for the raw keyword path: guild and direct messages, with
/// their text.
pub fn keyword_intents() -> (r: u64)
    ensures
        r == guild_messages_bit() | direct_messages_bit() | message_content_bit(),
        r & message_content_bit() != 0,
        r & privileged_bits() == message_content_bit(),
        r == 0x9200,
{
    let r = guild_messages() | direct_messages() | message_content();
    assert(r == 0x9200u64 && r & 0x8000u64 != 0 && r & (0x2u64 | 0x100u64 | 0x8000u64) == 0x8000u64)
        by (bit_vector)
        requires
            r == 0x200u64 | 0x1000u64 | 0x8000u64,
    ;
    r
}

} // verus!
