//! Discord's own notation for emojis, channel mentions, message links and button styles,
//! computed by serenity behind small trusted wrappers.
use crate::text::{decimal, parsed_u64};
use poise::serenity_prelude as serenity;
use vstd::prelude::*;

verus! {

/// The emoji of a reaction: a custom emoji of a guild, or a Unicode emoji.
pub enum ReactionEmoji {
    Custom { animated: bool, id: u64, name: Option<String> },
    Unicode(String),
}

/// The content of an emoji.
pub enum EmojiView {
    Custom { animated: bool, id: u64, name: Option<Seq<char>> },
    Unicode(Seq<char>),
}

impl View for ReactionEmoji {
    type V = EmojiView;

    open spec fn view(&self) -> EmojiView {
        match self {
            ReactionEmoji::Custom { animated, id, name } => EmojiView::Custom {
                animated: *animated,
                id: *id,
                name: match name {
                    Some(n) => Some(n@),
                    None => None,
                },
            },
            ReactionEmoji::Unicode(s) => EmojiView::Unicode(s@),
        }
    }
}

impl EmojiView {
    /// Discord never hands out an emoji id of zero.
    pub open spec fn wf(self) -> bool {
        match self {
            EmojiView::Custom { id, .. } => id != 0,
            EmojiView::Unicode(_) => true,
        }
    }
}

/// How Discord writes an emoji in message text: `<a:name:id>` for an animated custom emoji,
/// `<:name:id>` for another custom one, and the emoji itself for a Unicode one.
pub open spec fn emoji_notation(e: EmojiView) -> Seq<char> {
    match e {
        EmojiView::Custom { animated, id, name } => {
            (if animated { "<a:"@ } else { "<:"@ }) + (match name {
                Some(n) => n,
                None => Seq::<char>::empty(),
            }) + ":"@ + decimal(id as nat) + ">"@
        },
        EmojiView::Unicode(s) => s,
    }
}

/// Whether a character is an angle bracket.
pub open spec fn is_angle(c: char) -> bool {
    c == '<' || c == '>'
}

/// `s` without its leading angle brackets.
pub open spec fn strip_front_angles(s: Seq<char>) -> Seq<char>
    decreases s.len(),
{
    if s.len() > 0 && is_angle(s[0]) {
        strip_front_angles(s.drop_first())
    } else {
        s
    }
}

/// `s` without its trailing angle brackets.
pub open spec fn strip_back_angles(s: Seq<char>) -> Seq<char>
    decreases s.len(),
{
    if s.len() > 0 && is_angle(s.last()) {
        strip_back_angles(s.drop_last())
    } else {
        s
    }
}

/// The pieces of `s` between its colons, in order (one piece when it has none).
pub open spec fn split_colons(s: Seq<char>) -> Seq<Seq<char>>
    decreases s.len(),
{
    if s.len() == 0 {
        seq![Seq::<char>::empty()]
    } else {
        let p = split_colons(s.drop_last());
        if s.last() == ':' {
            p.push(Seq::<char>::empty())
        } else {
            p.update(p.len() - 1, p.last().push(s.last()))
        }
    }
}

/// How text that starts with `<` reads as a custom emoji: it must end with `>`; with the
/// angle brackets at both ends taken off, its pieces between colons are whether it is
/// animated (the first piece is `a`), its name (the second) and its id (the third, a
/// non-zero number); further pieces are ignored.
pub open spec fn custom_emoji_parts(s: Seq<char>) -> Option<(bool, Seq<char>, u64)> {
    if s.len() == 0 || s.last() != '>' {
        None
    } else {
        let parts = split_colons(strip_back_angles(strip_front_angles(s)));
        if parts.len() < 3 {
            None
        } else {
            match parsed_u64(parts[2]) {
                Some(id) => if id != 0 {
                    Some((parts[0] == "a"@, parts[1], id))
                } else {
                    None
                },
                None => None,
            }
        }
    }
}

/// The emoji that text names: nothing for empty text, a Unicode emoji for text that does
/// not start with `<`, and otherwise the custom emoji serenity reads out of it.
pub open spec fn parsed_emoji(s: Seq<char>) -> Option<EmojiView> {
    if s.len() == 0 {
        None
    } else if s[0] != '<' {
        Some(EmojiView::Unicode(s))
    } else {
        match custom_emoji_parts(s) {
            Some((animated, name, id)) => Some(EmojiView::Custom { animated, id, name: Some(name) }),
            None => None,
        }
    }
}

/// Serenity's `TryFrom<&str> for ReactionType`. Its source refuses empty text, takes text
/// that does not start with `<` as a Unicode emoji, and otherwise reads a custom emoji as
/// `custom_emoji_parts` states (`trim_matches` of the angle brackets, `split(':')`, and the
/// id parsed as a `NonZeroU64`). Its ids are never zero.
#[verifier::external_body]
pub fn parse_emoji(s: &str) -> (r: Option<ReactionEmoji>)
    ensures
        (match r {
            Some(e) => Some(e@),
            None => None,
        }) == parsed_emoji(s@),
        r matches Some(e) ==> e@.wf(),
{
    match serenity::ReactionType::try_from(s) {
        Ok(serenity::ReactionType::Custom { animated, id, name }) => {
            Some(ReactionEmoji::Custom { animated, id: id.get(), name })
        },
        Ok(serenity::ReactionType::Unicode(u)) => Some(ReactionEmoji::Unicode(u)),
        _ => None,
    }
}

/// The text of a channel mention, `<#id>`.
pub open spec fn channel_mention_notation(channel_id: u64) -> Seq<char> {
    "<#"@ + decimal(channel_id as nat) + ">"@
}

/// The link that jumps to a message: `https://discord.com/channels/{guild}/{channel}/{message}`,
/// with `@me` in place of the guild outside of guilds.
pub open spec fn message_link_notation(message_id: u64, channel_id: u64, guild_id: Option<u64>) -> Seq<char> {
    "https://discord.com/channels/"@ + (match guild_id {
        Some(g) => decimal(g as nat),
        None => "@me"@,
    }) + "/"@ + decimal(channel_id as nat) + "/"@ + decimal(message_id as nat)
}

/// Serenity's `Display` of `ReactionType` (the emoji rebuilt from its parts, then
/// `to_string`). The contract states that impl's output, as its source writes it; serenity
/// refuses an emoji id of zero, hence the precondition.
#[verifier::external_body]
pub fn emoji_text(e: &ReactionEmoji) -> (t: String)
    requires
        e@.wf(),
    ensures
        t@ == emoji_notation(e@),
{
    let reaction = match e {
        ReactionEmoji::Custom { animated, id, name } => serenity::ReactionType::Custom {
            animated: *animated,
            id: serenity::EmojiId::new(*id),
            name: name.clone(),
        },
        ReactionEmoji::Unicode(s) => serenity::ReactionType::Unicode(s.clone()),
    };
    reaction.to_string()
}

/// Serenity's `Mentionable::mention` of a `ChannelId`, written out with `to_string`: its
/// `Display` writes `<#id>`. `ChannelId::new` panics on zero, hence the precondition.
#[verifier::external_body]
pub fn channel_mention(channel_id: u64) -> (t: String)
    requires
        channel_id != 0,
    ensures
        t@ == channel_mention_notation(channel_id),
{
    serenity::Mentionable::mention(&serenity::ChannelId::new(channel_id)).to_string()
}

/// Serenity's `MessageId::link`: the contract states the two formats its source writes.
/// The id constructors panic on zero, hence the precondition.
#[verifier::external_body]
pub fn message_link(message_id: u64, channel_id: u64, guild_id: Option<u64>) -> (t: String)
    requires
        message_id != 0,
        channel_id != 0,
        guild_id matches Some(g) ==> g != 0,
    ensures
        t@ == message_link_notation(message_id, channel_id, guild_id),
{
    serenity::MessageId::new(message_id).link(
        serenity::ChannelId::new(channel_id),
        guild_id.map(serenity::GuildId::new),
    )
}

/// Serenity's `From<MessageId> for i64`, the form in which ids are kept in the database:
/// its source converts with `as`, so the bits are kept; its `id_u64!` macro gives every kind
/// of id the same conversion. `MessageId::new` panics on zero.
#[verifier::external_body]
pub fn id_to_bigint(id: u64) -> (v: i64)
    requires
        id != 0,
    ensures
        v == id as i64,
{
    i64::from(serenity::MessageId::new(id))
}

/// The back conversion: the database's signed value read as an id, bit for bit.
pub fn bigint_to_id(v: i64) -> (id: u64)
    ensures
        id == v as u64,
{
    #[verifier::truncate]
    (v as u64)
}

/// An id stored in the database reads back as the same id.
pub proof fn law_bigint_round_trip(id: u64)
    ensures
        ((id as i64) as u64) == id,
{
    assert(((id as i64) as u64) == id) by (bit_vector);
}

/// The styles a self-role button can have.
#[derive(Clone, Copy, PartialEq, Eq, Debug, Structural)]
pub enum ButtonStyle {
    Primary,
    Secondary,
    Success,
    Danger,
}

/// The number by which Discord knows a button style.
pub open spec fn button_style_number(style: ButtonStyle) -> u8 {
    match style {
        ButtonStyle::Primary => 1,
        ButtonStyle::Secondary => 2,
        ButtonStyle::Success => 3,
        ButtonStyle::Danger => 4,
    }
}

/// Serenity's `From<ButtonStyle> for u8`: its `enum_number!` declaration gives Primary 1,
/// Secondary 2, Success 3 and Danger 4.
#[verifier::external_body]
pub fn button_style_code(style: ButtonStyle) -> (code: u8)
    ensures
        code == button_style_number(style),
{
    u8::from(match style {
        ButtonStyle::Primary => serenity::ButtonStyle::Primary,
        ButtonStyle::Secondary => serenity::ButtonStyle::Secondary,
        ButtonStyle::Success => serenity::ButtonStyle::Success,
        ButtonStyle::Danger => serenity::ButtonStyle::Danger,
    })
}

} // verus!
