//! What every handling of a reaction keeps to, whatever Discord and the database answer.
use super::emotes::is_star;
use super::gazers::{
    distinct, law_distinct_counts_values, law_distinct_no_duplicates, stargazer_ids, UserInfo,
};
use super::post::{star_line, starboard_post, MessageInfo};
use super::run::{
    begin, finish, first_star_from, gathered, transition, ActionView, ReactionInfo, RunView, Stage,
    StarboardEvent,
};
use crate::discord::ReactionEmoji;
use vstd::prelude::*;

verus! {

proof fn lemma_gathered_push(b: Seq<Seq<UserInfo>>, users: Seq<UserInfo>, author: u64)
    ensures
        gathered(b.push(users), author) == gathered(b, author) + stargazer_ids(users, author),
{
    assert(b.push(users).drop_last() =~= b);
}

/// A reaction outside of a server ends the handling at once; in a server the user who
/// reacted is fetched first, and the handling keeps the reaction's emoji and the threshold.
pub proof fn law_reactions_in_servers_handled(reaction: ReactionInfo, threshold: usize)
    ensures
        reaction.guild_id is None ==> begin(reaction, threshold).1 == ActionView::Finish
            && begin(reaction, threshold).0.stage == Stage::Done,
        reaction.guild_id is Some ==> begin(reaction, threshold).1 == ActionView::FetchReactor
            && begin(reaction, threshold).0.stage == Stage::Reactor,
        begin(reaction, threshold).0.emoji == reaction.emoji,
        begin(reaction, threshold).0.threshold == threshold,
{
}

/// A bot's reaction ends the handling with nothing done.
pub proof fn law_bot_reactions_ignored(r: RunView, u: UserInfo)
    requires
        r.stage == Stage::Reactor,
        u.bot,
    ensures
        transition(r, StarboardEvent::Reactor(u)) == finish(r),
{
}

/// A star emote, custom or Unicode, from a user who is not a bot leads on to fetching the
/// message, with that user as the one who starred it.
pub proof fn law_star_reactions_proceed(r: RunView, u: UserInfo)
    requires
        r.stage == Stage::Reactor,
        !u.bot,
        is_star(r.emoji),
    ensures
        transition(r, StarboardEvent::Reactor(u)).1 == ActionView::FetchMessage,
        transition(r, StarboardEvent::Reactor(u)).0 == (RunView { stage: Stage::Message, reactor: u.id, ..r }),
{
}

/// A reaction whose emoji is not a star ends the handling with nothing done.
pub proof fn law_other_emojis_ignored(r: RunView, u: UserInfo)
    requires
        r.stage == Stage::Reactor,
        !is_star(r.emoji),
    ensures
        transition(r, StarboardEvent::Reactor(u)) == finish(r),
{
}

/// A star that the author puts on their own message ends the handling with nothing done.
pub proof fn law_own_stars_ignored(r: RunView, m: MessageInfo)
    requires
        r.stage == Stage::Message,
        m.author_id == r.reactor,
    ensures
        transition(r, StarboardEvent::Message(m)).1 == ActionView::Finish,
        transition(r, StarboardEvent::Message(m)).0.stage == Stage::Done,
{
}

/// Counting goes on until the stars are stored: once a message by someone else than the
/// reactor is in, and after each list of users, the handling asks for the users of a further
/// reaction or stores the count for that message; every list received is kept for the count,
/// and none from before the message.
pub proof fn law_counting_continues(r: RunView, e: StarboardEvent)
    requires
        r.inv(),
        e.wf(),
        r.stage == Stage::Message || r.stage == Stage::ReactionUsers,
        r.stage == Stage::Message ==> (e matches StarboardEvent::Message(m) && m.author_id != r.reactor),
        r.stage == Stage::ReactionUsers ==> e is ReactionUsers,
    ensures
        ({
            let (s, a) = transition(r, e);
            &&& a is FetchReactionUsers || a is UpsertEntry
            &&& a matches ActionView::UpsertEntry { message, .. } ==> message == s.msg().id as i64
            &&& r.stage == Stage::Message ==> s.batches.len() == 0 && s.message == Some(
                e->Message_0,
            )
            &&& r.stage == Stage::ReactionUsers ==> s.batches == r.batches.push(
                e->ReactionUsers_0@,
            ) && s.message == r.message
        }),
{
}

/// A finished handling stays finished and asks for nothing.
pub proof fn law_finished_stays_finished(r: RunView, e: StarboardEvent)
    requires
        r.stage == Stage::Done,
    ensures
        transition(r, e) == finish(r),
{
}

/// The index from which the handling looks for star reactions in its next step: the first
/// reaction once the message is in, afterwards the one after the last fetched.
pub open spec fn scan_start(r: RunView) -> int {
    if r.stage == Stage::Message {
        0
    } else {
        (r.next + 1) as int
    }
}

/// The users of exactly the star reactions are fetched, each once, in the order of the
/// message's reactions: the reaction whose users are asked for is a star, and no star
/// reaction is passed over on the way to it; when the count is stored, none is left.
pub proof fn law_star_reactions_fetched_in_order(r: RunView, e: StarboardEvent)
    requires
        r.inv(),
        e.wf(),
        r.stage == Stage::Message || r.stage == Stage::ReactionUsers,
    ensures
        ({
            let (s, a) = transition(r, e);
            let rs = s.msg().reactions@;
            &&& a matches ActionView::FetchReactionUsers { reaction: i } ==> {
                &&& i < rs.len()
                &&& is_star(rs[i as int])
                &&& forall|k: int| scan_start(r) <= k < i ==> !is_star(#[trigger] rs[k])
            }
            &&& a matches ActionView::UpsertEntry { .. } ==> forall|k: int|
                scan_start(r) <= k < rs.len() ==> !is_star(#[trigger] rs[k])
        }),
{
    let (s, a) = transition(r, e);
    let rs = s.msg().reactions@;
    let from = scan_start(r);
    if a is FetchReactionUsers || a is UpsertEntry {
        lemma_scan_result(rs, from);
    }
}

proof fn lemma_scan_result(rs: Seq<ReactionEmoji>, from: int)
    requires
        from >= 0,
    ensures
        first_star_from(rs, from) matches Some(i) ==> {
            &&& from <= i < rs.len()
            &&& is_star(rs[i])
            &&& forall|k: int| from <= k < i ==> !is_star(#[trigger] rs[k])
        },
        first_star_from(rs, from) is None ==> forall|k: int|
            from <= k < rs.len() ==> !is_star(#[trigger] rs[k]),
    decreases rs.len() - from,
{
    if from < rs.len() && !is_star(rs[from]) {
        lemma_scan_result(rs, from + 1);
        assert forall|k: int| from <= k < rs.len() && first_star_from(rs, from) is None implies !is_star(
            #[trigger] rs[k],
        ) by {
            if k > from {
            }
        }
    }
}

/// The number of stars stored for a message is the number of different users who starred
/// it with any of the star reactions, bots and the author left out: a user who used several
/// star emotes counts once.
pub proof fn law_entry_counts_stargazers(r: RunView, e: StarboardEvent)
    requires
        r.inv(),
        e.wf(),
    ensures
        ({
            let (s, a) = transition(r, e);
            a matches ActionView::UpsertEntry { stars, .. } ==> {
                &&& s.count == gathered(s.batches, s.msg().author_id).to_set().len()
                &&& s.gazers.no_duplicates()
                &&& s.gazers.to_set() == gathered(s.batches, s.msg().author_id).to_set()
                &&& stars == s.count as i32
            }
        }),
{
    let (s, a) = transition(r, e);
    if a is UpsertEntry {
        if r.stage == Stage::Message {
            assert(gathered(Seq::<Seq<UserInfo>>::empty(), s.msg().author_id) =~= Seq::<u64>::empty());
        } else if let StarboardEvent::ReactionUsers(users) = e {
            lemma_gathered_push(r.batches, users@, r.msg().author_id);
        }
        let g = gathered(s.batches, s.msg().author_id);
        assert(s.gazers == distinct(g));
        law_distinct_no_duplicates(g);
        law_distinct_counts_values(g);
    }
}

/// Below the threshold, a message that has an entry loses it: its row is deleted, then the
/// entry on the board.
pub proof fn law_below_threshold_entry_removed(r: RunView, p: i64, stars: i32)
    requires
        r.stage == Stage::Entry,
        r.count < r.threshold,
    ensures
        ({
            let (s, a) = transition(r, StarboardEvent::Entry { post: Some(p), stars });
            &&& a == ActionView::DeleteEntry { message: r.msg().id as i64 }
            &&& transition(s, StarboardEvent::EntryDeleted).1 == ActionView::DeletePost {
                post_id: p as u64,
            }
        }),
{
}

/// Below the threshold, a message without an entry gets none.
pub proof fn law_below_threshold_nothing_posted(r: RunView, stars: i32)
    requires
        r.stage == Stage::Entry,
        r.count < r.threshold,
    ensures
        transition(r, (StarboardEvent::Entry { post: None, stars })) == finish(r),
{
}

/// From the threshold on, a message without an entry gets one, showing the stars stored,
/// and the entry's id is then kept in the message's row.
pub proof fn law_threshold_reached_entry_posted(r: RunView, stars: i32, post_id: u64)
    requires
        r.stage == Stage::Entry,
        r.count >= r.threshold,
    ensures
        ({
            let (s, a) = transition(r, StarboardEvent::Entry { post: None, stars });
            &&& a == ActionView::SendPost(starboard_post(r.msg(), stars))
            &&& starboard_post(r.msg(), stars).content == star_line(stars, r.msg().channel_id)
            &&& transition(s, StarboardEvent::PostSent { post_id }).1 == ActionView::RecordPost {
                post: post_id as i64,
                message: r.msg().id as i64,
            }
        }),
{
}

/// From the threshold on, a message that has an entry keeps it, and its text is replaced
/// by the line a new entry would show.
pub proof fn law_threshold_kept_entry_updated(r: RunView, p: i64, stars: i32)
    requires
        r.stage == Stage::Entry,
        r.count >= r.threshold,
    ensures
        transition(r, (StarboardEvent::Entry { post: Some(p), stars })).1 == (ActionView::EditPost {
            post_id: p as u64,
            content: starboard_post(r.msg(), stars).content,
        }),
{
}

/// How far a handling is from its end, stage by stage.
pub open spec fn stage_rank(s: Stage) -> nat {
    match s {
        Stage::Reactor => 8,
        Stage::Message => 7,
        Stage::ReactionUsers => 6,
        Stage::Entry => 5,
        Stage::EntryDeletion => 4,
        Stage::PostSending => 3,
        Stage::PostDeletion => 2,
        Stage::PostRecording => 2,
        Stage::PostEditing => 2,
        Stage::Done => 0,
    }
}

/// Every step brings a handling nearer to its end: it moves to a later stage, or stays
/// among the reactions and moves to a later one, of which there are finitely many. So no
/// handling goes on for ever.
pub proof fn law_steps_make_progress(r: RunView, e: StarboardEvent)
    requires
        r.inv(),
        e.wf(),
        r.stage != Stage::Done,
    ensures
        ({
            let s = transition(r, e).0;
            ||| stage_rank(s.stage) < stage_rank(r.stage)
            ||| {
                &&& s.stage == Stage::ReactionUsers
                &&& r.stage == Stage::ReactionUsers
                &&& s.message == r.message
                &&& r.next < s.next < s.msg().reactions@.len()
            }
        }),
{
    let (s, a) = transition(r, e);
    if r.stage == Stage::ReactionUsers && s.stage == Stage::ReactionUsers {
        lemma_scan_result(r.msg().reactions@, (r.next + 1) as int);
    }
}

/// A message's row in the starboard table: the id of its entry on the board, if it has one,
/// and its stars.
pub struct StarRow {
    pub post: Option<i64>,
    pub stars: i32,
}

/// The id of the entry that a row records, if any.
pub open spec fn existing_post(row: Option<StarRow>) -> Option<i64> {
    match row {
        Some(x) => x.post,
        None => None,
    }
}

/// The row after the upsert of a handling: the stars are replaced, the entry's id is kept.
pub open spec fn upserted(row: Option<StarRow>, stars: i32) -> StarRow {
    StarRow { post: existing_post(row), stars }
}

/// The end of a handling once its stars are counted, against a starboard table that does
/// what each query says (the upsert replaces the stars and returns the row, the delete
/// removes it, the record stores the entry's id) and a board that gives a new entry the id
/// `new_post`: the message's row afterwards, and the work asked for on the way.
pub open spec fn settle(r: RunView, row: Option<StarRow>, new_post: u64) -> (Option<StarRow>, Seq<
    ActionView,
>) {
    let up = upserted(row, r.count as i32);
    let (s1, a1) = transition(r, StarboardEvent::Entry { post: up.post, stars: up.stars });
    match a1 {
        ActionView::DeleteEntry { .. } => {
            let a2 = transition(s1, StarboardEvent::EntryDeleted).1;
            (None, seq![a1, a2])
        },
        ActionView::SendPost(_) => {
            let a2 = transition(s1, StarboardEvent::PostSent { post_id: new_post }).1;
            match a2 {
                ActionView::RecordPost { post, .. } => (
                    Some(StarRow { post: Some(post), stars: up.stars }),
                    seq![a1, a2],
                ),
                _ => (Some(up), seq![a1, a2]),
            }
        },
        _ => (Some(up), seq![a1]),
    }
}

/// Across handlings, the board follows the threshold: after a handling a message has an
/// entry exactly when its stars reach the threshold, and its row keeps its count. An entry
/// below the threshold is taken off the board; a message that already has an entry keeps
/// that one (its text is replaced, no second entry is posted); one that has none gets one,
/// whose id its row then keeps.
pub proof fn law_board_follows_threshold(r: RunView, row: Option<StarRow>, new_post: u64)
    requires
        r.inv(),
        r.stage == Stage::Entry,
        new_post != 0,
    ensures
        ({
            let (after, work) = settle(r, row, new_post);
            &&& (after matches Some(x) && x.post is Some) <==> r.count >= r.threshold
            &&& after matches Some(x) ==> x.stars == r.count as i32
            &&& (r.count < r.threshold && existing_post(row) is Some) ==> work == seq![
                ActionView::DeleteEntry { message: r.msg().id as i64 },
                ActionView::DeletePost { post_id: existing_post(row)->0 as u64 },
            ]
            &&& (r.count >= r.threshold && existing_post(row) is Some) ==> {
                &&& after == Some(StarRow { post: existing_post(row), stars: r.count as i32 })
                &&& work == seq![
                    ActionView::EditPost {
                        post_id: existing_post(row)->0 as u64,
                        content: star_line(r.count as i32, r.msg().channel_id),
                    },
                ]
            }
            &&& (r.count >= r.threshold && existing_post(row) is None) ==> {
                &&& after == Some(StarRow { post: Some(new_post as i64), stars: r.count as i32 })
                &&& work == seq![
                    ActionView::SendPost(starboard_post(r.msg(), r.count as i32)),
                    ActionView::RecordPost { post: new_post as i64, message: r.msg().id as i64 },
                ]
            }
        }),
{
}

} // verus!
