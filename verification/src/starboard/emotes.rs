//! The emotes that count as a star.
use crate::discord::{emoji_notation, emoji_text, ReactionEmoji};
use vstd::prelude::*;
use vstd::string::StringExecFns;

verus! {

/// The emotes that star a message, as Discord writes them.
pub open spec fn star_emotes() -> Seq<Seq<char>> {
    seq!["⭐"@, "✨"@, "🌠"@, "🌟"@, "<a:a_kirbyStar:894087344909606912>"@]
}

/// The star emotes are exactly five: the star, the sparkles, the shooting star, the glowing
/// star and the server's animated Kirby star; any other text is no star.
pub proof fn law_star_emotes_are_five(t: Seq<char>)
    ensures
        star_emotes().contains(t) <==> (t == "⭐"@ || t == "✨"@ || t == "🌠"@ || t == "🌟"@ || t
            == "<a:a_kirbyStar:894087344909606912>"@),
        star_emotes().len() == 5,
{
    let s = star_emotes();
    if t == "⭐"@ {
        assert(s[0] == t);
    } else if t == "✨"@ {
        assert(s[1] == t);
    } else if t == "🌠"@ {
        assert(s[2] == t);
    } else if t == "🌟"@ {
        assert(s[3] == t);
    } else if t == "<a:a_kirbyStar:894087344909606912>"@ {
        assert(s[4] == t);
    }
}

/// Whether an emoji counts as a star.
pub open spec fn is_star(e: ReactionEmoji) -> bool {
    star_emotes().contains(emoji_notation(e@))
}

/// Whether the emote written `text` is one of the star emotes.
pub fn is_star_text(text: &String) -> (r: bool)
    ensures
        r == star_emotes().contains(text@),
{
    let ghost s = star_emotes();
    let candidates: [&str; 5] = ["⭐", "✨", "🌠", "🌟", "<a:a_kirbyStar:894087344909606912>"];
    let mut i: usize = 0;
    while i < 5
        invariant
            i <= 5,
            candidates@.len() == 5,
            s == star_emotes(),
            forall|k: int| 0 <= k < 5 ==> #[trigger] candidates@[k]@ == s[k],
            forall|k: int| 0 <= k < i ==> s[k] != text@,
        decreases 5 - i,
    {
        let candidate = String::from_str(candidates[i]);
        if *text == candidate {
            assert(s[i as int] == text@);
            return true;
        }
        i = i + 1;
    }
    false
}

/// Whether a reaction's emoji counts as a star.
pub fn is_star_emoji(e: &ReactionEmoji) -> (r: bool)
    requires
        e@.wf(),
    ensures
        r == is_star(*e),
{
    let text = emoji_text(e);
    is_star_text(&text)
}

} // verus!
