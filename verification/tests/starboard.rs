use starboard_bot::discord::ReactionEmoji;
use starboard_bot::starboard::emotes::{is_star_emoji, is_star_text};
use starboard_bot::starboard::gazers::{push_stargazers, remove_repeats, UserInfo};
use starboard_bot::starboard::post::{build_post, star_line_text, EmbedImages, MessageInfo, STAR_COLOR};
use starboard_bot::starboard::run::{
    ReactionInfo, Stage, StarboardAction, StarboardEvent, StarboardRun,
};

fn star() -> ReactionEmoji {
    ReactionEmoji::Unicode("⭐".to_string())
}

fn kirby() -> ReactionEmoji {
    ReactionEmoji::Custom {
        animated: true,
        id: 894087344909606912,
        name: Some("a_kirbyStar".to_string()),
    }
}

fn thumbs() -> ReactionEmoji {
    ReactionEmoji::Unicode("👍".to_string())
}

fn user(id: u64) -> UserInfo {
    UserInfo { id, bot: false }
}

fn bot(id: u64) -> UserInfo {
    UserInfo { id, bot: true }
}

fn message(author: u64, reactions: Vec<ReactionEmoji>) -> MessageInfo {
    MessageInfo {
        id: 30,
        channel_id: 20,
        guild_id: Some(10),
        author_id: author,
        author_name: "alice".to_string(),
        author_avatar_url: Some("https://cdn/a.png".to_string()),
        content: "hello".to_string(),
        attachment_urls: vec![],
        embeds: vec![],
        reactions,
    }
}

fn start(emoji: ReactionEmoji, threshold: usize) -> (StarboardRun, StarboardAction) {
    StarboardRun::start(ReactionInfo { guild_id: Some(10), emoji }, threshold)
}

#[test]
fn star_emotes_are_recognised() {
    for s in ["⭐", "✨", "🌠", "🌟", "<a:a_kirbyStar:894087344909606912>"] {
        assert!(is_star_text(&s.to_string()));
    }
    for s in ["", "👍", "<:a_kirbyStar:894087344909606912>", "⭐⭐", "star"] {
        assert!(!is_star_text(&s.to_string()));
    }
    assert!(is_star_emoji(&kirby()));
    assert!(is_star_emoji(&star()));
    assert!(!is_star_emoji(&thumbs()));
    let still_kirby = ReactionEmoji::Custom {
        animated: false,
        id: 894087344909606912,
        name: Some("a_kirbyStar".to_string()),
    };
    assert!(!is_star_emoji(&still_kirby));
}

#[test]
fn stargazers_leave_out_bots_and_author() {
    let mut ids = vec![9];
    push_stargazers(&mut ids, &vec![user(1), bot(2), user(7), user(3)], 7);
    assert_eq!(ids, vec![9, 1, 3]);
}

#[test]
fn repeats_removed_keeping_first_occurrences() {
    let mut v = vec![1, 1, 2, 2, 2, 1, 3, 3];
    remove_repeats(&mut v);
    assert_eq!(v, vec![1, 2, 3]);
    let mut empty: Vec<u64> = vec![];
    remove_repeats(&mut empty);
    assert!(empty.is_empty());
}

#[test]
fn repeat_removal_is_idempotent_and_keeps_members() {
    let mut v = vec![5, 5, 4, 5, 4, 4, 9];
    remove_repeats(&mut v);
    let once = v.clone();
    remove_repeats(&mut v);
    assert_eq!(v, once);
    assert_eq!(once, vec![5, 4, 9]);
}

#[test]
fn each_value_left_once() {
    let mut v = vec![3, 8, 3, 1, 8, 8, 1];
    remove_repeats(&mut v);
    assert_eq!(v, vec![3, 8, 1]);
}

#[test]
fn star_line_shows_count_and_channel() {
    assert_eq!(star_line_text(3, 20), "**3**🌟『<#20>』");
    assert_eq!(star_line_text(-1, 5), "**-1**🌟『<#5>』");
}

#[test]
fn post_quotes_the_message() {
    let m = message(1, vec![]);
    let p = build_post(&m, 4);
    assert_eq!(p.author_name, "alice");
    assert_eq!(p.author_icon_url, "https://cdn/a.png");
    assert_eq!(p.field_name, "Message");
    assert_eq!(p.field_value, "hello");
    assert!(!p.field_inline);
    assert_eq!(p.color, 0xffcf05);
    assert_eq!(p.color, STAR_COLOR);
    assert_eq!(p.description, "[Original](https://discord.com/channels/10/20/30)");
    assert_eq!(p.image, "");
    assert_eq!(p.content, "**4**🌟『<#20>』");
}

#[test]
fn post_picture_choice() {
    let mut m = message(1, vec![]);
    m.author_avatar_url = None;
    m.embeds = vec![EmbedImages { image_url: None, thumbnail_url: Some("thumb".to_string()) }];
    let p = build_post(&m, 1);
    assert_eq!(p.author_icon_url, "");
    assert_eq!(p.image, "thumb");
    m.embeds = vec![EmbedImages {
        image_url: Some("img".to_string()),
        thumbnail_url: Some("thumb".to_string()),
    }];
    assert_eq!(build_post(&m, 1).image, "img");
    m.attachment_urls = vec!["att1".to_string(), "att2".to_string()];
    assert_eq!(build_post(&m, 1).image, "att1");
    m.guild_id = None;
    assert_eq!(build_post(&m, 1).description, "[Original](https://discord.com/channels/@me/20/30)");
}

#[test]
fn direct_messages_ignored() {
    let (run, a) = StarboardRun::start(ReactionInfo { guild_id: None, emoji: star() }, 1);
    assert!(matches!(a, StarboardAction::Finish));
    assert_eq!(run.stage(), Stage::Done);
}

#[test]
fn bot_reactions_ignored() {
    let (mut run, a) = start(star(), 1);
    assert!(matches!(a, StarboardAction::FetchReactor));
    let a = run.step(StarboardEvent::Reactor(bot(2)));
    assert!(matches!(a, StarboardAction::Finish));
    assert_eq!(run.stage(), Stage::Done);
}

#[test]
fn other_emojis_ignored() {
    let (mut run, _) = start(thumbs(), 1);
    assert!(matches!(run.step(StarboardEvent::Reactor(user(2))), StarboardAction::Finish));
}

#[test]
fn own_stars_ignored() {
    let (mut run, _) = start(star(), 1);
    assert!(matches!(run.step(StarboardEvent::Reactor(user(1))), StarboardAction::FetchMessage));
    let a = run.step(StarboardEvent::Message(message(1, vec![star()])));
    assert!(matches!(a, StarboardAction::Finish));
}

#[test]
fn finished_run_stays_finished() {
    let (mut run, _) = start(thumbs(), 1);
    run.step(StarboardEvent::Reactor(user(2)));
    assert!(matches!(run.step(StarboardEvent::EntryDeleted), StarboardAction::Finish));
    assert!(matches!(run.step(StarboardEvent::Reactor(user(2))), StarboardAction::Finish));
    assert_eq!(run.stage(), Stage::Done);
}

#[test]
fn unexpected_event_ends_the_run() {
    let (mut run, _) = start(star(), 1);
    assert!(matches!(run.step(StarboardEvent::PostEdited), StarboardAction::Finish));
    assert_eq!(run.stage(), Stage::Done);
}

/// Drives a run up to the upsert, over a message whose reactions are ⭐, 👍, kirby.
fn counted_run(threshold: usize) -> (StarboardRun, StarboardAction) {
    let (mut run, _) = start(star(), threshold);
    run.step(StarboardEvent::Reactor(user(2)));
    let a = run.step(StarboardEvent::Message(message(1, vec![star(), thumbs(), kirby()])));
    assert!(matches!(a, StarboardAction::FetchReactionUsers { reaction: 0 }));
    let a = run.step(StarboardEvent::ReactionUsers(vec![user(2), user(1), bot(9), user(3)]));
    assert!(matches!(a, StarboardAction::FetchReactionUsers { reaction: 2 }));
    let a = run.step(StarboardEvent::ReactionUsers(vec![user(3), user(4), user(2)]));
    (run, a)
}

#[test]
fn stars_counted_over_star_reactions() {
    // 2, 3 from the first; 3, 4, 2 from the second: users 2, 3 and 4.
    let (run, a) = counted_run(1);
    match a {
        StarboardAction::UpsertEntry { message, stars } => {
            assert_eq!(message, 30);
            assert_eq!(stars, 3);
        }
        _ => panic!("expected the upsert"),
    }
    assert_eq!(run.stage(), Stage::Entry);
}

#[test]
fn no_star_reactions_count_zero() {
    let (mut run, _) = start(star(), 1);
    run.step(StarboardEvent::Reactor(user(2)));
    let a = run.step(StarboardEvent::Message(message(1, vec![thumbs()])));
    assert!(matches!(a, StarboardAction::UpsertEntry { message: 30, stars: 0 }));
}

#[test]
fn below_threshold_entry_removed() {
    let (mut run, _) = counted_run(5);
    let a = run.step(StarboardEvent::Entry { post: Some(77), stars: 3 });
    assert!(matches!(a, StarboardAction::DeleteEntry { message: 30 }));
    let a = run.step(StarboardEvent::EntryDeleted);
    assert!(matches!(a, StarboardAction::DeletePost { post_id: 77 }));
    assert!(matches!(run.step(StarboardEvent::PostDeleted), StarboardAction::Finish));
    assert_eq!(run.stage(), Stage::Done);
}

#[test]
fn below_threshold_nothing_posted() {
    let (mut run, _) = counted_run(5);
    assert!(matches!(run.step(StarboardEvent::Entry { post: None, stars: 3 }), StarboardAction::Finish));
}

#[test]
fn threshold_reached_entry_posted() {
    let (mut run, _) = counted_run(3);
    match run.step(StarboardEvent::Entry { post: None, stars: 3 }) {
        StarboardAction::SendPost(p) => {
            assert_eq!(p.content, "**3**🌟『<#20>』");
            assert_eq!(p.field_value, "hello");
        }
        _ => panic!("expected a post"),
    }
    let a = run.step(StarboardEvent::PostSent { post_id: 99 });
    assert!(matches!(a, StarboardAction::RecordPost { post: 99, message: 30 }));
    assert!(matches!(run.step(StarboardEvent::PostRecorded), StarboardAction::Finish));
}

#[test]
fn threshold_kept_entry_updated() {
    let (mut run, _) = counted_run(2);
    match run.step(StarboardEvent::Entry { post: Some(77), stars: 3 }) {
        StarboardAction::EditPost { post_id, content } => {
            assert_eq!(post_id, 77);
            assert_eq!(content, "**3**🌟『<#20>』");
        }
        _ => panic!("expected an edit"),
    }
    assert!(matches!(run.step(StarboardEvent::PostEdited), StarboardAction::Finish));
}

#[test]
fn user_with_several_star_emotes_counted_once() {
    // User 60 stars with ⭐ and with the kirby star, user 70 between them.
    let (mut run, _) = start(star(), 1);
    run.step(StarboardEvent::Reactor(user(60)));
    run.step(StarboardEvent::Message(message(1, vec![star(), kirby()])));
    run.step(StarboardEvent::ReactionUsers(vec![user(60), user(70)]));
    let a = run.step(StarboardEvent::ReactionUsers(vec![user(60)]));
    assert!(matches!(a, StarboardAction::UpsertEntry { stars: 2, .. }));
}
