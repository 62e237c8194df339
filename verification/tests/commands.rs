use starboard_bot::commands::configuration::{starboard_channel_reply, starboard_setting};
use starboard_bot::commands::self_role::{
    deploy_answer, deploy_reply, deploy_target, everyone_refusal_reply, menu_text, plan_buttons,
    plan_self_role_add, self_role_reply, try_plan_buttons, DeployTarget, GuildRole, SelfRole,
    SelfRoleAdd, StyleOptions,
};
use starboard_bot::commands::test::TestRow;
use starboard_bot::commands::unturned::{
    admin_console_args, admin_denied_reply, admin_granted_reply, console_program, decide_admin,
    AdminDecision, ADMIN_ROLE,
};
use starboard_bot::discord::{ButtonStyle, ReactionEmoji};
use starboard_bot::events::ready_line;

#[test]
fn starboard_setting_needs_a_server() {
    assert!(starboard_setting(None, 5).is_none());
    let s = starboard_setting(Some(u64::MAX), 5).unwrap();
    assert_eq!(s.guild, -1);
    assert_eq!(s.channel, 5);
}

#[test]
fn starboard_channel_reply_mentions_channel() {
    assert_eq!(
        starboard_channel_reply(42),
        "The starboard channel has been successfully updated to be <#42>."
    );
}

#[test]
fn test_rows_say_their_value() {
    let row = TestRow::new(Some("hi".to_string()));
    assert!(row.has_reply());
    assert_eq!(row.into_reply(), "hi");
    assert!(!TestRow::new(None).has_reply());
}

#[test]
fn admin_decisions() {
    assert_eq!(decide_admin(false, None), AdminDecision::Ignore);
    assert_eq!(decide_admin(false, Some(&vec![ADMIN_ROLE])), AdminDecision::Ignore);
    assert_eq!(decide_admin(true, None), AdminDecision::Grant);
    assert_eq!(decide_admin(true, Some(&vec![1, ADMIN_ROLE])), AdminDecision::Grant);
    assert_eq!(decide_admin(true, Some(&vec![1, 2])), AdminDecision::Deny);
    assert_eq!(decide_admin(true, Some(&vec![])), AdminDecision::Deny);
    assert_eq!(ADMIN_ROLE, 1257798842645086249);
}

#[test]
fn admin_texts() {
    assert_eq!(admin_denied_reply(), "You have insufficient permissions to run this command.");
    assert_eq!(console_program(), "tmux");
    assert_eq!(
        admin_console_args("bob"),
        vec!["-S", "/run/user/1000/tmux-1000/unturned", "send-keys", "Admin bob", "Enter"]
    );
    assert_eq!(admin_granted_reply("bob"), "Successfully gave **bob** admin permissions.");
}

#[test]
fn style_options_round_trip() {
    for (o, s) in [
        (StyleOptions::Primary, ButtonStyle::Primary),
        (StyleOptions::Secondary, ButtonStyle::Secondary),
        (StyleOptions::Success, ButtonStyle::Success),
        (StyleOptions::Danger, ButtonStyle::Danger),
    ] {
        assert_eq!(o.button_style(), s);
        assert_eq!(StyleOptions::convert_from_int(o.code()), s);
    }
    assert_eq!(StyleOptions::Danger.code(), 4);
    assert_eq!(StyleOptions::convert_from_int(0), ButtonStyle::Primary);
    assert_eq!(StyleOptions::convert_from_int(5), ButtonStyle::Primary);
    assert_eq!(StyleOptions::convert_from_int(-3), ButtonStyle::Primary);
}

#[test]
fn self_role_add_refuses_everyone() {
    assert!(matches!(
        plan_self_role_add(7, 7, StyleOptions::Success, "x".to_string()),
        SelfRoleAdd::EveryoneRefused
    ));
    match plan_self_role_add(8, 7, StyleOptions::Success, "⭐".to_string()) {
        SelfRoleAdd::Store(r) => {
            assert_eq!(r.id, 8);
            assert_eq!(r.style, 3);
            assert_eq!(r.emoji.as_deref(), Some("⭐"));
        }
        _ => panic!("expected a stored role"),
    }
    assert_eq!(
        everyone_refusal_reply(),
        "The everyone role may not be self-assignable; It's the everyone role after all."
    );
}

#[test]
fn self_role_replies() {
    assert_eq!(
        self_role_reply(5, false),
        "The <@&5> role has been added to the list!\nMake sure to `/selfrole deploy` this change."
    );
    assert_eq!(
        self_role_reply(5, true),
        "Update style and emoji for the <@&5> role.\nMake sure to `/selfrole deploy` this change."
    );
}

fn role(id: u64, name: &str) -> GuildRole {
    GuildRole { id, name: name.to_string() }
}

fn entry(id: i64, style: i32, emoji: Option<&str>) -> SelfRole {
    SelfRole { id, style, emoji: emoji.map(|e| e.to_string()) }
}

#[test]
fn buttons_one_per_role_the_server_has() {
    let stored = vec![
        entry(1, 2, Some("⭐")),
        entry(2, 4, None),
        entry(3, 3, None),
        entry(1, 4, Some("<:x:9>")),
    ];
    let guild = vec![role(1, "red"), role(3, "green")];
    let buttons = plan_buttons(&stored, &guild);
    assert_eq!(buttons.len(), 2);
    assert_eq!(buttons[0].label, "green");
    assert_eq!(buttons[0].style, ButtonStyle::Success);
    assert_eq!(buttons[0].custom_id, "self-role-3");
    assert!(buttons[0].emoji.is_none());
    assert_eq!(buttons[1].label, "red");
    assert_eq!(buttons[1].style, ButtonStyle::Danger);
    assert_eq!(buttons[1].custom_id, "self-role-1");
    match &buttons[1].emoji {
        Some(ReactionEmoji::Custom { id, .. }) => assert_eq!(*id, 9),
        _ => panic!("expected the custom emoji"),
    }
}

#[test]
fn buttons_refused_for_unreadable_emoji() {
    let guild = vec![role(1, "red")];
    assert!(try_plan_buttons(&vec![entry(1, 1, Some("<bad"))], &guild).is_none());
    assert!(try_plan_buttons(&vec![entry(1, 1, Some(""))], &guild).is_none());
    // An entry without a button is not read.
    assert_eq!(try_plan_buttons(&vec![entry(2, 1, Some("<bad"))], &guild).unwrap().len(), 0);
    assert_eq!(try_plan_buttons(&vec![entry(1, 1, Some("<bad")), entry(1, 1, None)], &guild).unwrap().len(), 1);
}

#[test]
fn deploy_texts() {
    assert_eq!(menu_text(), "Click the buttons below to toggle a role on you.");
    assert_eq!(
        deploy_reply(12, true),
        "Successfully sent a message for self roles into <#12>You may want to delete the old message if there is one, now."
    );
    assert_eq!(
        deploy_reply(12, false),
        "Successfully edited the message for self roles in <#12>You may want to delete the old message if there is one, now."
    );
}

#[test]
fn ready_line_names_the_bot() {
    assert_eq!(ready_line("Starbot"), "Starbot is ready");
}

#[test]
fn stored_self_role_offered_once_after_repeated_adds() {
    let guild = vec![role(7, "blue")];
    let mut rows: Vec<SelfRole> = vec![entry(8, 1, None)];
    for _ in 0..2 {
        match plan_self_role_add(7, 1, StyleOptions::Danger, "⭐".to_string()) {
            SelfRoleAdd::Store(r) => {
                rows.retain(|x| x.id != r.id);
                rows.push(r);
            }
            _ => panic!("expected a stored role"),
        }
    }
    assert_eq!(rows.iter().filter(|r| r.id == 7).count(), 1);
    let buttons = plan_buttons(&rows, &guild);
    assert_eq!(buttons.len(), 1);
    assert_eq!(buttons[0].label, "blue");
    assert_eq!(buttons[0].custom_id, "self-role-7");
    assert_eq!(buttons[0].style, ButtonStyle::Danger);
}

#[test]
fn later_starboard_choice_wins() {
    let first = starboard_setting(Some(3), 10).unwrap();
    let second = starboard_setting(Some(3), 11).unwrap();
    assert_eq!(first.guild, second.guild);
    assert_eq!(second.channel, 11);
}

#[test]
fn deploy_targets_and_answers() {
    assert_eq!(deploy_target(&Some("42".to_string())), DeployTarget::Edit(42));
    assert_eq!(deploy_target(&None), DeployTarget::Send);
    assert_eq!(deploy_answer(DeployTarget::Edit(42), false, 12), None);
    assert_eq!(deploy_answer(DeployTarget::Edit(42), true, 12), Some(deploy_reply(12, true)));
    assert_eq!(deploy_answer(DeployTarget::Send, false, 12), Some(deploy_reply(12, false)));
}
