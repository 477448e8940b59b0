//! The gateway capabilities that the bot declares when it connects.

use vstd::prelude::*;

verus! {

/// Bit of the "members of a guild" capability, which the platform treats as privileged.
pub const GUILD_MEMBERS: u64 = 0x2;

/// Bit of the "presence updates" capability, which the platform treats as privileged.
pub const GUILD_PRESENCES: u64 = 0x100;

/// Bit of the "content of messages" capability, which the platform treats as privileged.
pub const MESSAGE_CONTENT: u64 = 0x8000;

/// Every capability bit that the client library defines: bits 0 to 16, 20 and 21.
pub const KNOWN_INTENTS: u64 = 0x31_FFFF;

/// The capabilities that need no approval by the platform: every defined bit
/// but the three privileged ones.
pub open spec fn non_privileged_spec() -> u64 {
    KNOWN_INTENTS & !(GUILD_MEMBERS | GUILD_PRESENCES | MESSAGE_CONTENT)
}

/// What the bot declares: the non-privileged capabilities together with access
/// to the content of messages.
pub open spec fn required_intents_spec() -> u64 {
    non_privileged_spec() | MESSAGE_CONTENT
}

/// Trusted: `serenity::model::gateway::GatewayIntents::non_privileged`, read
/// as its bits. The library defines it as the complement of its privileged set
/// (members, presences, message content) within the flags it declares, which
/// are bits 0 to 16, 20 and 21.
#[verifier::external_body]
fn non_privileged_bits() -> (bits: u64)
    ensures
        bits == non_privileged_spec(),
{
    serenity::model::gateway::GatewayIntents::non_privileged().bits()
}

/// Trusted: the constant `serenity::model::gateway::GatewayIntents::MESSAGE_CONTENT`,
/// read as its bits. The library declares it as bit 15.
#[verifier::external_body]
fn message_content_bits() -> (bits: u64)
    ensures
        bits == MESSAGE_CONTENT,
{
    serenity::model::gateway::GatewayIntents::MESSAGE_CONTENT.bits()
}

/// The capability set that the bot announces to the gateway, as a bit set.
pub fn required_intents() -> (bits: u64)
    ensures
        bits == required_intents_spec(),
        bits == 0x31_FEFD,
        bits & MESSAGE_CONTENT == MESSAGE_CONTENT,
        bits & GUILD_MEMBERS == 0,
        bits & GUILD_PRESENCES == 0,
{
    let base: u64 = non_privileged_bits();
    let content: u64 = message_content_bits();
    assert((0x31_FFFFu64 & !(0x2u64 | 0x100u64 | 0x8000u64)) | 0x8000u64 == 0x31_FEFDu64) by (bit_vector);
    assert(0x31_FEFDu64 & 0x8000u64 == 0x8000u64) by (bit_vector);
    assert(0x31_FEFDu64 & 0x2u64 == 0u64) by (bit_vector);
    assert(0x31_FEFDu64 & 0x100u64 == 0u64) by (bit_vector);
    base | content
}

} // verus!
