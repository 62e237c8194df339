//! One handling of a reaction on a message, as a machine that asks for the outside work it
//! needs (a fetch from Discord, a query to the database, a post on the board) and is told
//! what came of it.
use super::emotes::{is_star, is_star_emoji};
use super::gazers::{
    distinct, push_stargazers, remove_repeats, stargazer_ids, UserInfo,
};
use super::post::{build_post, star_line, star_line_text, starboard_post, MessageInfo, PostView, StarboardPost};
use crate::discord::{bigint_to_id, id_to_bigint, ReactionEmoji};
use vstd::prelude::*;

verus! {

/// The reaction that set the handling off.
pub struct ReactionInfo {
    pub guild_id: Option<u64>,
    pub emoji: ReactionEmoji,
}

/// What the outside work gave back.
pub enum StarboardEvent {
    /// The user who reacted.
    Reactor(UserInfo),
    /// The message that was reacted to.
    Message(MessageInfo),
    /// The users of the reaction asked for last.
    ReactionUsers(Vec<UserInfo>),
    /// The message's row in the starboard table after the upsert: the id of its entry on
    /// the board, if it has one, and the stars stored.
    Entry { post: Option<i64>, stars: i32 },
    EntryDeleted,
    PostDeleted,
    /// The id of the entry just posted on the board.
    PostSent { post_id: u64 },
    PostRecorded,
    PostEdited,
}

impl StarboardEvent {
    /// Ids that come from Discord are never zero.
    pub open spec fn wf(&self) -> bool {
        match self {
            StarboardEvent::Message(m) => m.wf(),
            StarboardEvent::PostSent { post_id } => *post_id != 0,
            _ => true,
        }
    }
}

/// The outside work the handling asks for next.
pub enum StarboardAction {
    /// Fetch the user who reacted.
    FetchReactor,
    /// Fetch the message that was reacted to.
    FetchMessage,
    /// Fetch the users of the message's reaction at this index.
    FetchReactionUsers { reaction: usize },
    /// Insert or update the message's row with this number of stars, and read the row back.
    UpsertEntry { message: i64, stars: i32 },
    /// Delete the message's row.
    DeleteEntry { message: i64 },
    /// Delete this entry from the board.
    DeletePost { post_id: u64 },
    /// Post this entry on the board.
    SendPost(StarboardPost),
    /// Store the id of the entry in the message's row.
    RecordPost { post: i64, message: i64 },
    /// Replace the text of this entry.
    EditPost { post_id: u64, content: String },
    /// Nothing more to do.
    Finish,
}

/// The content of an action.
pub enum ActionView {
    FetchReactor,
    FetchMessage,
    FetchReactionUsers { reaction: nat },
    UpsertEntry { message: i64, stars: i32 },
    DeleteEntry { message: i64 },
    DeletePost { post_id: u64 },
    SendPost(PostView),
    RecordPost { post: i64, message: i64 },
    EditPost { post_id: u64, content: Seq<char> },
    Finish,
}

impl View for StarboardAction {
    type V = ActionView;

    open spec fn view(&self) -> ActionView {
        match self {
            StarboardAction::FetchReactor => ActionView::FetchReactor,
            StarboardAction::FetchMessage => ActionView::FetchMessage,
            StarboardAction::FetchReactionUsers { reaction } => ActionView::FetchReactionUsers {
                reaction: *reaction as nat,
            },
            StarboardAction::UpsertEntry { message, stars } => ActionView::UpsertEntry {
                message: *message,
                stars: *stars,
            },
            StarboardAction::DeleteEntry { message } => ActionView::DeleteEntry { message: *message },
            StarboardAction::DeletePost { post_id } => ActionView::DeletePost { post_id: *post_id },
            StarboardAction::SendPost(p) => ActionView::SendPost(p@),
            StarboardAction::RecordPost { post, message } => ActionView::RecordPost {
                post: *post,
                message: *message,
            },
            StarboardAction::EditPost { post_id, content } => ActionView::EditPost {
                post_id: *post_id,
                content: content@,
            },
            StarboardAction::Finish => ActionView::Finish,
        }
    }
}

/// What the handling waits for.
#[derive(Clone, Copy, PartialEq, Eq, Debug, Structural)]
pub enum Stage {
    Reactor,
    Message,
    ReactionUsers,
    Entry,
    EntryDeletion,
    PostDeletion,
    PostSending,
    PostRecording,
    PostEditing,
    Done,
}

/// The handling of one reaction.
pub struct StarboardRun {
    guild_id: Option<u64>,
    emoji: ReactionEmoji,
    threshold: usize,
    stage: Stage,
    reactor: u64,
    message: Option<MessageInfo>,
    next: usize,
    gazers: Vec<u64>,
    count: usize,
    post: i64,
    batches: Ghost<Seq<Seq<UserInfo>>>,
}

/// The state of a handling.
pub struct RunView {
    pub guild_id: Option<u64>,
    pub emoji: ReactionEmoji,
    /// The number of stars from which a message has an entry on the board.
    pub threshold: nat,
    pub stage: Stage,
    /// The user who reacted.
    pub reactor: u64,
    pub message: Option<MessageInfo>,
    /// The index of the reaction whose users were asked for last.
    pub next: nat,
    /// The stargazers gathered so far; once counted, each user once.
    pub gazers: Seq<u64>,
    /// The number of stars counted.
    pub count: nat,
    /// The message's entry on the board, while it is being removed.
    pub post: i64,
    /// The user lists received, in order.
    pub batches: Seq<Seq<UserInfo>>,
}

impl View for StarboardRun {
    type V = RunView;

    closed spec fn view(&self) -> RunView {
        RunView {
            guild_id: self.guild_id,
            emoji: self.emoji,
            threshold: self.threshold as nat,
            stage: self.stage,
            reactor: self.reactor,
            message: self.message,
            next: self.next as nat,
            gazers: self.gazers@,
            count: self.count as nat,
            post: self.post,
            batches: self.batches@,
        }
    }
}

/// The stargazers of a run of user lists, list after list.
pub open spec fn gathered(batches: Seq<Seq<UserInfo>>, author: u64) -> Seq<u64>
    decreases batches.len(),
{
    if batches.len() == 0 {
        Seq::empty()
    } else {
        gathered(batches.drop_last(), author) + stargazer_ids(batches.last(), author)
    }
}

/// The index of the first reaction at or after `from` whose emoji is a star.
pub open spec fn first_star_from(rs: Seq<ReactionEmoji>, from: int) -> Option<int>
    decreases rs.len() - from,
{
    if from < 0 || from >= rs.len() {
        None
    } else if is_star(rs[from]) {
        Some(from)
    } else {
        first_star_from(rs, from + 1)
    }
}

impl RunView {
    /// The message being handled.
    pub open spec fn msg(self) -> MessageInfo {
        self.message->0
    }

    /// What holds of every state a handling goes through.
    pub open spec fn inv(self) -> bool {
        &&& self.emoji@.wf()
        &&& (self.stage != Stage::Reactor && self.stage != Stage::Message && self.stage
            != Stage::Done) ==> (self.message is Some && self.msg().wf())
        &&& self.stage == Stage::ReactionUsers ==> {
            &&& self.next < self.msg().reactions@.len()
            &&& self.gazers == gathered(self.batches, self.msg().author_id)
        }
        &&& self.stage == Stage::Entry ==> {
            &&& self.gazers == distinct(gathered(self.batches, self.msg().author_id))
            &&& self.count == self.gazers.len()
        }
    }
}

/// The start of a handling: a reaction outside of a guild is left alone; in a guild, the
/// user who reacted is fetched first.
pub open spec fn begin(reaction: ReactionInfo, threshold: usize) -> (RunView, ActionView) {
    let r = RunView {
        guild_id: reaction.guild_id,
        emoji: reaction.emoji,
        threshold: threshold as nat,
        stage: if reaction.guild_id is Some { Stage::Reactor } else { Stage::Done },
        reactor: 0,
        message: None,
        next: 0,
        gazers: Seq::empty(),
        count: 0,
        post: 0,
        batches: Seq::empty(),
    };
    (r, if reaction.guild_id is Some { ActionView::FetchReactor } else { ActionView::Finish })
}

/// Ends the handling.
pub open spec fn finish(r: RunView) -> (RunView, ActionView) {
    (RunView { stage: Stage::Done, ..r }, ActionView::Finish)
}

/// Looks for the next star reaction from index `from`: its users are fetched; when none is
/// left, the stargazers gathered are counted, each user once, and the count is stored in
/// the message's row.
pub open spec fn scan(r: RunView, from: int) -> (RunView, ActionView) {
    match first_star_from(r.msg().reactions@, from) {
        Some(i) => (
            RunView { stage: Stage::ReactionUsers, next: i as nat, ..r },
            ActionView::FetchReactionUsers { reaction: i as nat },
        ),
        None => {
            let d = distinct(r.gazers);
            (
                RunView { stage: Stage::Entry, gazers: d, count: d.len(), ..r },
                ActionView::UpsertEntry { message: r.msg().id as i64, stars: d.len() as i32 },
            )
        },
    }
}

/// One step of a handling: the state it goes to and the work it asks for, given what the
/// last work gave back. An event the handling does not wait for ends it.
pub open spec fn transition(r: RunView, e: StarboardEvent) -> (RunView, ActionView) {
    match r.stage {
        Stage::Reactor => match e {
            StarboardEvent::Reactor(u) => if u.bot || !is_star(r.emoji) {
                finish(r)
            } else {
                (RunView { stage: Stage::Message, reactor: u.id, ..r }, ActionView::FetchMessage)
            },
            _ => finish(r),
        },
        Stage::Message => match e {
            StarboardEvent::Message(m) => if m.author_id == r.reactor {
                finish(RunView { message: Some(m), ..r })
            } else {
                scan(
                    RunView {
                        message: Some(m),
                        gazers: Seq::empty(),
                        batches: Seq::empty(),
                        ..r
                    },
                    0,
                )
            },
            _ => finish(r),
        },
        Stage::ReactionUsers => match e {
            StarboardEvent::ReactionUsers(users) => scan(
                RunView {
                    gazers: r.gazers + stargazer_ids(users@, r.msg().author_id),
                    batches: r.batches.push(users@),
                    ..r
                },
                (r.next + 1) as int,
            ),
            _ => finish(r),
        },
        Stage::Entry => match e {
            StarboardEvent::Entry { post, stars } => if r.count < r.threshold {
                match post {
                    Some(p) => (
                        RunView { stage: Stage::EntryDeletion, post: p, ..r },
                        ActionView::DeleteEntry { message: r.msg().id as i64 },
                    ),
                    None => finish(r),
                }
            } else {
                match post {
                    None => (
                        RunView { stage: Stage::PostSending, ..r },
                        ActionView::SendPost(starboard_post(r.msg(), stars)),
                    ),
                    Some(p) => (
                        RunView { stage: Stage::PostEditing, ..r },
                        ActionView::EditPost {
                            post_id: p as u64,
                            content: star_line(stars, r.msg().channel_id),
                        },
                    ),
                }
            },
            _ => finish(r),
        },
        Stage::EntryDeletion => match e {
            StarboardEvent::EntryDeleted => (
                RunView { stage: Stage::PostDeletion, ..r },
                ActionView::DeletePost { post_id: r.post as u64 },
            ),
            _ => finish(r),
        },
        Stage::PostSending => match e {
            StarboardEvent::PostSent { post_id } => (
                RunView { stage: Stage::PostRecording, ..r },
                ActionView::RecordPost { post: post_id as i64, message: r.msg().id as i64 },
            ),
            _ => finish(r),
        },
        _ => finish(r),
    }
}

proof fn lemma_first_star_skips(rs: Seq<ReactionEmoji>, from: int, i: int)
    requires
        0 <= from <= i <= rs.len(),
        forall|k: int| from <= k < i ==> !is_star(#[trigger] rs[k]),
    ensures
        first_star_from(rs, from) == first_star_from(rs, i),
    decreases i - from,
{
    if from < i {
        lemma_first_star_skips(rs, from + 1, i);
    }
}

proof fn lemma_first_star_found(rs: Seq<ReactionEmoji>, from: int)
    requires
        first_star_from(rs, from) matches Some(i),
    ensures
        first_star_from(rs, from) matches Some(i) && 0 <= from <= i < rs.len() && is_star(rs[i]),
    decreases rs.len() - from,
{
    if 0 <= from < rs.len() && !is_star(rs[from]) {
        lemma_first_star_found(rs, from + 1);
    }
}

impl StarboardRun {
    /// Starts handling a reaction; a message has an entry on the board from `threshold`
    /// stars on.
    pub fn start(reaction: ReactionInfo, threshold: usize) -> (res: (StarboardRun, StarboardAction))
        requires
            reaction.emoji@.wf(),
        ensures
            res.0@.inv(),
            (res.0@, res.1@) == begin(reaction, threshold),
    {
        let in_guild = reaction.guild_id.is_some();
        let run = StarboardRun {
            guild_id: reaction.guild_id,
            emoji: reaction.emoji,
            threshold,
            stage: if in_guild { Stage::Reactor } else { Stage::Done },
            reactor: 0,
            message: None,
            next: 0,
            gazers: Vec::new(),
            count: 0,
            post: 0,
            batches: Ghost(Seq::empty()),
        };
        let action = if in_guild { StarboardAction::FetchReactor } else { StarboardAction::Finish };
        assert(run@.gazers =~= Seq::<u64>::empty());
        (run, action)
    }

    /// What the handling waits for.
    pub fn stage(&self) -> (s: Stage)
        ensures
            s == self@.stage,
    {
        self.stage
    }

    fn finish(&mut self) -> (a: StarboardAction)
        ensures
            (final(self)@, a@) == finish(old(self)@),
    {
        self.stage = Stage::Done;
        StarboardAction::Finish
    }

    fn scan(&mut self, from: usize) -> (a: StarboardAction)
        requires
            old(self)@.message is Some,
            old(self)@.msg().wf(),
            from <= old(self)@.msg().reactions@.len(),
        ensures
            (final(self)@, a@) == scan(old(self)@, from as int),
            final(self)@.stage == Stage::ReactionUsers ==> final(self)@.next
                < final(self)@.msg().reactions@.len(),
    {
        let ghost rs = self@.msg().reactions@;
        let m = self.message.as_ref().unwrap();
        let n = m.reactions.len();
        let mut i = from;
        let mut found = false;
        while i < n
            invariant_except_break
                !found,
                from <= i <= n,
                n == rs.len(),
                m.reactions@ == rs,
                m.wf(),
                forall|k: int| from <= k < i ==> !is_star(#[trigger] rs[k]),
            ensures
                from <= i <= n,
                found ==> i < n && is_star(rs[i as int]),
                !found ==> forall|k: int| from <= k < n ==> !is_star(#[trigger] rs[k]),
                forall|k: int| from <= k < i ==> !is_star(#[trigger] rs[k]),
            decreases n - i,
        {
            assert(m.reactions@[i as int]@.wf());
            if is_star_emoji(&m.reactions[i]) {
                found = true;
                break;
            }
            i = i + 1;
        }
        proof {
            lemma_first_star_skips(rs, from as int, i as int);
            if !found {
                lemma_first_star_skips(rs, from as int, n as int);
            }
        }
        if found {
            proof {
                lemma_first_star_found(rs, from as int);
            }
            self.stage = Stage::ReactionUsers;
            self.next = i;
            StarboardAction::FetchReactionUsers { reaction: i }
        } else {
            let message = id_to_bigint(m.id);
            remove_repeats(&mut self.gazers);
            self.count = self.gazers.len();
            let stars: i32 = #[verifier::truncate] (self.count as i32);
            self.stage = Stage::Entry;
            StarboardAction::UpsertEntry { message, stars }
        }
    }

    /// Takes in what the last work gave back, and says what to do next.
    pub fn step(&mut self, event: StarboardEvent) -> (a: StarboardAction)
        requires
            old(self)@.inv(),
            event.wf(),
        ensures
            final(self)@.inv(),
            (final(self)@, a@) == transition(old(self)@, event),
    {
        match event {
            StarboardEvent::Reactor(u) => {
                if self.stage != Stage::Reactor {
                    return self.finish();
                }
                if u.bot || !is_star_emoji(&self.emoji) {
                    return self.finish();
                }
                self.stage = Stage::Message;
                self.reactor = u.id;
                StarboardAction::FetchMessage
            },
            StarboardEvent::Message(m) => {
                if self.stage != Stage::Message {
                    return self.finish();
                }
                let own = m.author_id == self.reactor;
                self.message = Some(m);
                if own {
                    return self.finish();
                }
                self.gazers = Vec::new();
                self.batches = Ghost(Seq::empty());
                proof {
                    assert(self@.gazers =~= Seq::<u64>::empty());
                    assert(gathered(self@.batches, self@.msg().author_id) =~= Seq::<u64>::empty());
                }
                self.scan(0)
            },
            StarboardEvent::ReactionUsers(users) => {
                if self.stage != Stage::ReactionUsers {
                    return self.finish();
                }
                let (author, n) = match &self.message {
                    Some(m) => (m.author_id, m.reactions.len()),
                    None => (0, 0),
                };
                let ghost before = self@;
                push_stargazers(&mut self.gazers, &users, author);
                self.batches = Ghost(self.batches@.push(users@));
                proof {
                    let b = self@.batches;
                    assert(b.drop_last() =~= before.batches);
                }
                self.scan(self.next + 1)
            },
            StarboardEvent::Entry { post, stars } => {
                if self.stage != Stage::Entry {
                    return self.finish();
                }
                let m = self.message.as_ref().unwrap();
                if self.count < self.threshold {
                    match post {
                        Some(p) => {
                            let message = id_to_bigint(m.id);
                            self.stage = Stage::EntryDeletion;
                            self.post = p;
                            StarboardAction::DeleteEntry { message }
                        },
                        None => self.finish(),
                    }
                } else {
                    match post {
                        None => {
                            let p = build_post(m, stars);
                            self.stage = Stage::PostSending;
                            StarboardAction::SendPost(p)
                        },
                        Some(p) => {
                            let content = star_line_text(stars, m.channel_id);
                            self.stage = Stage::PostEditing;
                            StarboardAction::EditPost { post_id: bigint_to_id(p), content }
                        },
                    }
                }
            },
            StarboardEvent::EntryDeleted => {
                if self.stage != Stage::EntryDeletion {
                    return self.finish();
                }
                self.stage = Stage::PostDeletion;
                StarboardAction::DeletePost { post_id: bigint_to_id(self.post) }
            },
            StarboardEvent::PostSent { post_id } => {
                if self.stage != Stage::PostSending {
                    return self.finish();
                }
                let m = self.message.as_ref().unwrap();
                let post = id_to_bigint(post_id);
                let message = id_to_bigint(m.id);
                self.stage = Stage::PostRecording;
                StarboardAction::RecordPost { post, message }
            },
            _ => self.finish(),
        }
    }
}

} // verus!
