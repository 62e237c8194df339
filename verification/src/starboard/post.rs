//! The starboard entry that is posted for a starred message.
use crate::discord::{
    channel_mention, channel_mention_notation, message_link, message_link_notation, ReactionEmoji,
};
use crate::text::{decimal, signed_decimal, signed_decimal_text};
use vstd::prelude::*;
use vstd::string::StringExecFns;

verus! {

/// The pictures of an embed of a message.
pub struct EmbedImages {
    pub image_url: Option<String>,
    pub thumbnail_url: Option<String>,
}

/// What the starboard reads of a message.
pub struct MessageInfo {
    pub id: u64,
    pub channel_id: u64,
    pub guild_id: Option<u64>,
    pub author_id: u64,
    pub author_name: String,
    pub author_avatar_url: Option<String>,
    pub content: String,
    pub attachment_urls: Vec<String>,
    pub embeds: Vec<EmbedImages>,
    pub reactions: Vec<ReactionEmoji>,
}

impl MessageInfo {
    /// Discord ids are never zero, and neither are the ids of custom emojis.
    pub open spec fn wf(&self) -> bool {
        &&& self.id != 0
        &&& self.channel_id != 0
        &&& self.guild_id matches Some(g) ==> g != 0
        &&& forall|i: int| 0 <= i < self.reactions@.len() ==> (#[trigger] self.reactions@[i])@.wf()
    }
}

/// A starboard entry: an embed that quotes the message, and a line of text above it.
pub struct StarboardPost {
    pub author_name: String,
    pub author_icon_url: String,
    pub field_name: String,
    pub field_value: String,
    pub field_inline: bool,
    pub color: u32,
    pub description: String,
    pub image: String,
    pub content: String,
}

/// The contents of a starboard entry.
pub struct PostView {
    pub author_name: Seq<char>,
    pub author_icon_url: Seq<char>,
    pub field_name: Seq<char>,
    pub field_value: Seq<char>,
    pub field_inline: bool,
    pub color: u32,
    pub description: Seq<char>,
    pub image: Seq<char>,
    pub content: Seq<char>,
}

impl View for StarboardPost {
    type V = PostView;

    open spec fn view(&self) -> PostView {
        PostView {
            author_name: self.author_name@,
            author_icon_url: self.author_icon_url@,
            field_name: self.field_name@,
            field_value: self.field_value@,
            field_inline: self.field_inline,
            color: self.color,
            description: self.description@,
            image: self.image@,
            content: self.content@,
        }
    }
}

/// The gold of the starboard's embeds.
pub const STAR_COLOR: u32 = 0xffcf05;

/// The line above an entry: the number of stars in bold, a star, and the channel of the
/// message between corner brackets.
pub open spec fn star_line(stars: i32, channel_id: u64) -> Seq<char> {
    "**"@ + signed_decimal(stars as int) + "**🌟『"@ + channel_mention_notation(channel_id) + "』"@
}

/// The picture an entry shows: the message's first attachment; failing that, the image of
/// its first embed, or that embed's thumbnail; failing all, none (an empty address).
pub open spec fn post_image(m: MessageInfo) -> Seq<char> {
    if m.attachment_urls@.len() > 0 {
        m.attachment_urls@[0]@
    } else if m.embeds@.len() > 0 {
        match m.embeds@[0].image_url {
            Some(u) => u@,
            None => match m.embeds@[0].thumbnail_url {
                Some(u) => u@,
                None => Seq::empty(),
            },
        }
    } else {
        Seq::empty()
    }
}

/// The entry posted for message `m` with `stars` stars.
pub open spec fn starboard_post(m: MessageInfo, stars: i32) -> PostView {
    PostView {
        author_name: m.author_name@,
        author_icon_url: match m.author_avatar_url {
            Some(u) => u@,
            None => Seq::empty(),
        },
        field_name: "Message"@,
        field_value: m.content@,
        field_inline: false,
        color: STAR_COLOR,
        description: "[Original]("@ + message_link_notation(m.id, m.channel_id, m.guild_id) + ")"@,
        image: post_image(m),
        content: star_line(stars, m.channel_id),
    }
}

/// An entry quotes its message: it names the author with their avatar (none without one),
/// quotes the content under the heading `Message` in gold, links back to the message, shows
/// the count of stars and the channel, and shows the message's first attachment; failing
/// that, the picture of its first embed, or that embed's thumbnail; failing all, nothing.
pub proof fn law_post_quotes_message(m: MessageInfo, stars: i32)
    ensures
        starboard_post(m, stars).author_name == m.author_name@,
        m.author_avatar_url is None ==> starboard_post(m, stars).author_icon_url.len() == 0,
        m.author_avatar_url is Some ==> starboard_post(m, stars).author_icon_url
            == m.author_avatar_url->0@,
        starboard_post(m, stars).field_name == "Message"@,
        starboard_post(m, stars).field_value == m.content@,
        !starboard_post(m, stars).field_inline,
        starboard_post(m, stars).color == 0xffcf05,
        m.guild_id is Some ==> starboard_post(m, stars).description == "[Original]("@
            + "https://discord.com/channels/"@ + decimal(m.guild_id->0 as nat) + "/"@ + decimal(
            m.channel_id as nat,
        ) + "/"@ + decimal(m.id as nat) + ")"@,
        m.guild_id is None ==> starboard_post(m, stars).description == "[Original]("@
            + "https://discord.com/channels/"@ + "@me"@ + "/"@ + decimal(m.channel_id as nat) + "/"@
            + decimal(m.id as nat) + ")"@,
        starboard_post(m, stars).content == "**"@ + signed_decimal(stars as int) + "**🌟『"@ + "<#"@
            + decimal(m.channel_id as nat) + ">"@ + "』"@,
        m.attachment_urls@.len() > 0 ==> starboard_post(m, stars).image == m.attachment_urls@[0]@,
        m.attachment_urls@.len() == 0 && m.embeds@.len() > 0 && m.embeds@[0].image_url is Some
            ==> starboard_post(m, stars).image == m.embeds@[0].image_url->0@,
        m.attachment_urls@.len() == 0 && m.embeds@.len() > 0 && m.embeds@[0].image_url is None
            && m.embeds@[0].thumbnail_url is Some ==> starboard_post(m, stars).image
            == m.embeds@[0].thumbnail_url->0@,
        m.attachment_urls@.len() == 0 && m.embeds@.len() > 0 && m.embeds@[0].image_url is None
            && m.embeds@[0].thumbnail_url is None ==> starboard_post(m, stars).image.len() == 0,
        m.attachment_urls@.len() == 0 && m.embeds@.len() == 0 ==> starboard_post(m, stars).image.len()
            == 0,
{
    let p = starboard_post(m, stars);
    assert(p.content =~= "**"@ + signed_decimal(stars as int) + "**🌟『"@ + "<#"@ + decimal(
        m.channel_id as nat,
    ) + ">"@ + "』"@);
    if m.guild_id is Some {
        assert(p.description =~= "[Original]("@ + "https://discord.com/channels/"@ + decimal(
            m.guild_id->0 as nat,
        ) + "/"@ + decimal(m.channel_id as nat) + "/"@ + decimal(m.id as nat) + ")"@);
    } else {
        assert(p.description =~= "[Original]("@ + "https://discord.com/channels/"@ + "@me"@ + "/"@
            + decimal(m.channel_id as nat) + "/"@ + decimal(m.id as nat) + ")"@);
    }
}

/// Writes the line that stands above an entry.
pub fn star_line_text(stars: i32, channel_id: u64) -> (s: String)
    requires
        channel_id != 0,
    ensures
        s@ == star_line(stars, channel_id),
{
    let count = signed_decimal_text(stars as i64);
    let mention = channel_mention(channel_id);
    let mut s = String::from_str("**");
    s.append(count.as_str());
    s.append("**🌟『");
    s.append(mention.as_str());
    s.append("』");
    assert(s@ =~= star_line(stars, channel_id));
    s
}

fn copy_text(s: &Option<String>) -> (r: String)
    ensures
        r@ == match s {
            Some(u) => u@,
            None => Seq::<char>::empty(),
        },
{
    match s {
        Some(u) => u.clone(),
        None => String::new(),
    }
}

fn image_of(m: &MessageInfo) -> (r: String)
    ensures
        r@ == post_image(*m),
{
    if m.attachment_urls.len() > 0 {
        m.attachment_urls[0].clone()
    } else if m.embeds.len() > 0 {
        let e = &m.embeds[0];
        if e.image_url.is_some() {
            copy_text(&e.image_url)
        } else {
            copy_text(&e.thumbnail_url)
        }
    } else {
        String::new()
    }
}

/// Builds the entry for message `m` with `stars` stars.
pub fn build_post(m: &MessageInfo, stars: i32) -> (p: StarboardPost)
    requires
        m.wf(),
    ensures
        p@ == starboard_post(*m, stars),
{
    let link = message_link(m.id, m.channel_id, m.guild_id);
    let mut description = String::from_str("[Original](");
    description.append(link.as_str());
    description.append(")");
    assert(description@ =~= "[Original]("@ + message_link_notation(m.id, m.channel_id, m.guild_id)
        + ")"@);
    let p = StarboardPost {
        author_name: m.author_name.clone(),
        author_icon_url: copy_text(&m.author_avatar_url),
        field_name: String::from_str("Message"),
        field_value: m.content.clone(),
        field_inline: false,
        color: STAR_COLOR,
        description,
        image: image_of(m),
        content: star_line_text(stars, m.channel_id),
    };
    p
}

} // verus!
