//! `/configuration starboard`: choosing the channel that serves as a server's starboard.
use crate::discord::{channel_mention, channel_mention_notation, id_to_bigint};
use vstd::prelude::*;
use vstd::string::StringExecFns;

verus! {

/// A server's starboard channel, as the database keeps it.
pub struct StarboardSetting {
    pub guild: i64,
    pub channel: i64,
}

/// The row stored for server `guild_id` and channel `channel_id`.
pub open spec fn setting_of(guild_id: u64, channel_id: u64) -> StarboardSetting {
    StarboardSetting { guild: guild_id as i64, channel: channel_id as i64 }
}

/// The server configuration table, each server's starboard channel, after a row is stored:
/// a server's earlier row is replaced.
pub open spec fn with_setting(table: Map<i64, i64>, s: StarboardSetting) -> Map<i64, i64> {
    table.insert(s.guild, s.channel)
}

/// Choosing the starboard channel twice in a server leaves the second choice, in the one row
/// of that server; choosing the same channel again changes nothing.
pub proof fn law_last_choice_wins(table: Map<i64, i64>, guild_id: u64, first: u64, second: u64)
    ensures
        with_setting(with_setting(table, setting_of(guild_id, first)), setting_of(guild_id, second))
            == with_setting(table, setting_of(guild_id, second)),
        with_setting(table, setting_of(guild_id, second))[guild_id as i64] == second as i64,
        with_setting(with_setting(table, setting_of(guild_id, first)), setting_of(guild_id, first))
            == with_setting(table, setting_of(guild_id, first)),
{
    assert(with_setting(with_setting(table, setting_of(guild_id, first)), setting_of(guild_id, second))
        =~= with_setting(table, setting_of(guild_id, second)));
    assert(with_setting(with_setting(table, setting_of(guild_id, first)), setting_of(guild_id, first))
        =~= with_setting(table, setting_of(guild_id, first)));
}

/// The row to store for the command: none outside of a server; otherwise the server and the
/// channel, as database integers.
pub fn starboard_setting(guild_id: Option<u64>, channel_id: u64) -> (r: Option<StarboardSetting>)
    requires
        channel_id != 0,
        guild_id matches Some(g) ==> g != 0,
    ensures
        guild_id is None ==> r is None,
        guild_id matches Some(g) ==> r == Some(setting_of(g, channel_id)),
{
    match guild_id {
        None => None,
        Some(g) => Some(StarboardSetting { guild: id_to_bigint(g), channel: id_to_bigint(channel_id) }),
    }
}

/// The answer once the channel is stored.
pub open spec fn starboard_channel_reply_text(channel_id: u64) -> Seq<char> {
    "The starboard channel has been successfully updated to be "@ + channel_mention_notation(
        channel_id,
    ) + "."@
}

/// Writes the answer once the channel is stored.
pub fn starboard_channel_reply(channel_id: u64) -> (s: String)
    requires
        channel_id != 0,
    ensures
        s@ == starboard_channel_reply_text(channel_id),
{
    let mention = channel_mention(channel_id);
    let mut s = String::from_str("The starboard channel has been successfully updated to be ");
    s.append(mention.as_str());
    s.append(".");
    s
}

} // verus!
