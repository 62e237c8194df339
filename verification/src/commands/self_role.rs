//! `/selfrole`: roles that members give themselves with a button.
use crate::discord::{
    button_style_code, button_style_number, id_to_bigint, parse_emoji, parsed_emoji, ButtonStyle,
    EmojiView, ReactionEmoji,
};
use crate::text::{decimal, decimal_text, parse_u64, parsed_u64, signed_decimal, signed_decimal_text};
use vstd::prelude::*;
use vstd::string::StringExecFns;

verus! {

/// The button styles a self role can be offered with.
#[derive(Clone, Copy, PartialEq, Eq, Debug, Structural)]
pub enum StyleOptions {
    Primary,
    Secondary,
    Success,
    Danger,
}

/// The button style an option stands for.
pub open spec fn option_style(o: StyleOptions) -> ButtonStyle {
    match o {
        StyleOptions::Primary => ButtonStyle::Primary,
        StyleOptions::Secondary => ButtonStyle::Secondary,
        StyleOptions::Success => ButtonStyle::Success,
        StyleOptions::Danger => ButtonStyle::Danger,
    }
}

/// The style a stored number gives a button: the numbers of Secondary, Success and Danger
/// give those styles, every other number gives Primary.
pub open spec fn style_from_int(value: i32) -> ButtonStyle {
    if value == button_style_number(ButtonStyle::Secondary) as i32 {
        ButtonStyle::Secondary
    } else if value == button_style_number(ButtonStyle::Success) as i32 {
        ButtonStyle::Success
    } else if value == button_style_number(ButtonStyle::Danger) as i32 {
        ButtonStyle::Danger
    } else {
        ButtonStyle::Primary
    }
}

impl StyleOptions {
    /// The button style the option stands for.
    pub fn button_style(self) -> (s: ButtonStyle)
        ensures
            s == option_style(self),
    {
        match self {
            StyleOptions::Primary => ButtonStyle::Primary,
            StyleOptions::Secondary => ButtonStyle::Secondary,
            StyleOptions::Success => ButtonStyle::Success,
            StyleOptions::Danger => ButtonStyle::Danger,
        }
    }

    /// The number under which the option is stored: Discord's number for its style.
    pub fn code(self) -> (c: i32)
        ensures
            c == button_style_number(option_style(self)) as i32,
    {
        button_style_code(self.button_style()) as i32
    }

    /// The button style a stored number stands for.
    pub fn convert_from_int(value: i32) -> (s: ButtonStyle)
        ensures
            s == style_from_int(value),
    {
        if value == StyleOptions::Secondary.code() {
            ButtonStyle::Secondary
        } else if value == StyleOptions::Success.code() {
            ButtonStyle::Success
        } else if value == StyleOptions::Danger.code() {
            ButtonStyle::Danger
        } else {
            ButtonStyle::Primary
        }
    }
}

/// A stored option reads back as the style it was chosen for.
pub proof fn law_style_round_trip(o: StyleOptions)
    ensures
        style_from_int(button_style_number(option_style(o)) as i32) == option_style(o),
{
}

/// A self role as the database keeps it.
pub struct SelfRole {
    pub id: i64,
    pub style: i32,
    pub emoji: Option<String>,
}

/// What `/selfrole add` does.
pub enum SelfRoleAdd {
    /// The role is the server's everyone role, which cannot be made self-assignable.
    EveryoneRefused,
    /// Store this self role, replacing a stored one with the same id.
    Store(SelfRole),
}

/// Plans `/selfrole add` of role `role_id` in server `guild_id` (the everyone role has the
/// server's id).
pub fn plan_self_role_add(role_id: u64, guild_id: u64, style: StyleOptions, emoji: String) -> (r:
    SelfRoleAdd)
    requires
        role_id != 0,
    ensures
        role_id == guild_id ==> r is EveryoneRefused,
        role_id != guild_id ==> (r matches SelfRoleAdd::Store(s) && s.id == role_id as i64 && s.style
            == button_style_number(option_style(style)) as i32 && s.emoji == Some(emoji)),
{
    if role_id == guild_id {
        SelfRoleAdd::EveryoneRefused
    } else {
        SelfRoleAdd::Store(SelfRole { id: id_to_bigint(role_id), style: style.code(), emoji: Some(emoji) })
    }
}

/// The answer when the everyone role is asked for.
pub fn everyone_refusal_reply() -> (s: String)
    ensures
        s@ == "The everyone role may not be self-assignable; It's the everyone role after all."@,
{
    String::from_str("The everyone role may not be self-assignable; It's the everyone role after all.")
}

/// The answer once a self role is stored: whether it is new to the list or was already
/// on it, with a reminder to deploy.
pub open spec fn self_role_reply_text(role_id: u64, was_listed: bool) -> Seq<char> {
    if was_listed {
        "Update style and emoji for the <@&"@ + decimal(role_id as nat)
            + "> role.\nMake sure to `/selfrole deploy` this change."@
    } else {
        "The <@&"@ + decimal(role_id as nat)
            + "> role has been added to the list!\nMake sure to `/selfrole deploy` this change."@
    }
}

/// Writes the answer once a self role is stored.
pub fn self_role_reply(role_id: u64, was_listed: bool) -> (s: String)
    ensures
        s@ == self_role_reply_text(role_id, was_listed),
{
    let id = decimal_text(role_id);
    if was_listed {
        let mut s = String::from_str("Update style and emoji for the <@&");
        s.append(id.as_str());
        s.append("> role.\nMake sure to `/selfrole deploy` this change.");
        s
    } else {
        let mut s = String::from_str("The <@&");
        s.append(id.as_str());
        s.append("> role has been added to the list!\nMake sure to `/selfrole deploy` this change.");
        s
    }
}

/// A role of the server.
pub struct GuildRole {
    pub id: u64,
    pub name: String,
}

/// A button that gives or takes a self role.
pub struct SelfRoleButton {
    pub label: String,
    pub style: ButtonStyle,
    pub custom_id: String,
    pub emoji: Option<ReactionEmoji>,
}

/// The content of a self-role button.
pub struct ButtonView {
    pub label: Seq<char>,
    pub style: ButtonStyle,
    pub custom_id: Seq<char>,
    pub emoji: Option<EmojiView>,
}

impl View for SelfRoleButton {
    type V = ButtonView;

    open spec fn view(&self) -> ButtonView {
        ButtonView {
            label: self.label@,
            style: self.style,
            custom_id: self.custom_id@,
            emoji: match self.emoji {
                Some(e) => Some(e@),
                None => None,
            },
        }
    }
}

/// The index of the first server role with id `id`, looking from `from` on.
pub open spec fn find_role(g: Seq<GuildRole>, id: u64, from: int) -> Option<int>
    decreases g.len() - from,
{
    if from < 0 || from >= g.len() {
        None
    } else if g[from].id == id {
        Some(from)
    } else {
        find_role(g, id, from + 1)
    }
}

/// The server role that a stored self role names, if the server has it.
pub open spec fn role_of(g: Seq<GuildRole>, r: SelfRole) -> Option<int> {
    find_role(g, r.id as u64, 0)
}

/// Whether no later stored self role has the same id: the last entry for a role is the one
/// that counts.
pub open spec fn last_of_its_id(s: Seq<SelfRole>, k: int) -> bool {
    forall|j: int| k < j < s.len() ==> (#[trigger] s[j]).id != s[k].id
}

/// The stored self roles (by index) that get a button: the last entry of each role the
/// server has, in the order of the entries.
pub open spec fn chosen(s: Seq<SelfRole>, g: Seq<GuildRole>, upto: int) -> Seq<int>
    decreases upto,
{
    if upto <= 0 {
        Seq::empty()
    } else {
        let before = chosen(s, g, upto - 1);
        let k = upto - 1;
        if last_of_its_id(s, k) && role_of(g, s[k]) is Some {
            before.push(k)
        } else {
            before
        }
    }
}

/// The button for stored self role `r`, labelled with the name of server role `role`.
pub open spec fn button_of(r: SelfRole, role: GuildRole) -> ButtonView {
    ButtonView {
        label: role.name@,
        style: style_from_int(r.style),
        custom_id: "self-role-"@ + signed_decimal(r.id as int),
        emoji: match r.emoji {
            Some(e) => parsed_emoji(e@),
            None => None,
        },
    }
}

/// The buttons offered for the stored self roles `s` in a server with roles `g`.
pub open spec fn planned_buttons(s: Seq<SelfRole>, g: Seq<GuildRole>) -> Seq<ButtonView> {
    chosen(s, g, s.len() as int).map_values(|k: int| button_of(s[k], g[role_of(g, s[k])->0]))
}

fn find_role_index(g: &Vec<GuildRole>, id: u64) -> (r: Option<usize>)
    ensures
        r matches Some(i) ==> i < g@.len() && find_role(g@, id, 0) == Some(i as int),
        r is None ==> find_role(g@, id, 0) is None,
{
    let n = g.len();
    let mut i: usize = 0;
    while i < n
        invariant
            n == g@.len(),
            i <= n,
            find_role(g@, id, 0) == find_role(g@, id, i as int),
        decreases n - i,
    {
        if g[i].id == id {
            return Some(i);
        }
        i = i + 1;
    }
    None
}

fn is_last_of_its_id(s: &Vec<SelfRole>, k: usize) -> (b: bool)
    requires
        k < s@.len(),
    ensures
        b == last_of_its_id(s@, k as int),
{
    let n = s.len();
    let mut j = k + 1;
    while j < n
        invariant
            n == s@.len(),
            k < j <= n,
            forall|i: int| k < i < j ==> (#[trigger] s@[i]).id != s@[k as int].id,
        decreases n - j,
    {
        if s[j].id == s[k].id {
            return false;
        }
        j = j + 1;
    }
    true
}

/// Whether a stored emoji, if any, names an emoji Discord can show.
pub open spec fn emoji_readable(r: SelfRole) -> bool {
    r.emoji matches Some(e) ==> parsed_emoji(e@) is Some
}

/// Whether every stored self role that gets a button has a readable emoji.
pub open spec fn buttons_readable(s: Seq<SelfRole>, g: Seq<GuildRole>) -> bool {
    forall|k: int|
        0 <= k < s.len() && last_of_its_id(s, k) && role_of(g, s[k]) is Some ==> emoji_readable(
            #[trigger] s[k],
        )
}

fn read_emoji(e: &Option<String>) -> (r: Option<ReactionEmoji>)
    requires
        e matches Some(t) ==> parsed_emoji(t@) is Some,
    ensures
        (match r {
            Some(x) => Some(x@),
            None => None,
        }) == (match e {
            Some(t) => parsed_emoji(t@),
            None => None,
        }),
{
    match e {
        Some(t) => Some(parse_emoji(t.as_str()).unwrap()),
        None => None,
    }
}

/// The buttons to offer: one for the last stored entry of each self role that the server
/// has, in the order of the entries, labelled with the role's name, styled by its stored
/// number and identified as `self-role-<id>`.
pub fn plan_buttons(self_roles: &Vec<SelfRole>, guild_roles: &Vec<GuildRole>) -> (buttons: Vec<
    SelfRoleButton,
>)
    requires
        forall|i: int| 0 <= i < self_roles@.len() ==> (#[trigger] self_roles@[i]).id != 0,
        buttons_readable(self_roles@, guild_roles@),
    ensures
        buttons@.len() == planned_buttons(self_roles@, guild_roles@).len(),
        forall|i: int|
            0 <= i < buttons@.len() ==> (#[trigger] buttons@[i])@ == planned_buttons(
                self_roles@,
                guild_roles@,
            )[i],
{
    let n = self_roles.len();
    let ghost s = self_roles@;
    let ghost g = guild_roles@;
    let mut buttons: Vec<SelfRoleButton> = Vec::new();
    let mut k: usize = 0;
    while k < n
        invariant
            n == s.len(),
            s == self_roles@,
            g == guild_roles@,
            buttons_readable(s, g),
            k <= n,
            buttons@.len() == chosen(s, g, k as int).len(),
            forall|i: int|
                0 <= i < buttons@.len() ==> (#[trigger] buttons@[i])@ == button_of(
                    s[chosen(s, g, k as int)[i]],
                    g[role_of(g, s[chosen(s, g, k as int)[i]])->0],
                ),
        decreases n - k,
    {
        let r = &self_roles[k];
        let last = is_last_of_its_id(self_roles, k);
        let id: u64 = #[verifier::truncate] (r.id as u64);
        let found = find_role_index(guild_roles, id);
        let ghost before = buttons@;
        if last {
            if let Some(i) = found {
                let digits = signed_decimal_text(r.id);
                let mut custom_id = String::from_str("self-role-");
                custom_id.append(digits.as_str());
                let button = SelfRoleButton {
                    label: guild_roles[i].name.clone(),
                    style: StyleOptions::convert_from_int(r.style),
                    custom_id,
                    emoji: read_emoji(&r.emoji),
                };
                assert(role_of(g, s[k as int]) == Some(i as int));
                assert(button@ == button_of(s[k as int], g[i as int]));
                assert(chosen(s, g, k + 1) == chosen(s, g, k as int).push(k as int));
                buttons.push(button);
            }
        }
        proof {
            let c = chosen(s, g, k + 1);
            assert forall|i: int| 0 <= i < buttons@.len() implies (#[trigger] buttons@[i])@
                == button_of(s[c[i]], g[role_of(g, s[c[i]])->0]) by {
                if i < before.len() {
                    assert(buttons@[i] == before[i]);
                }
            }
        }
        k = k + 1;
    }
    buttons
}

/// The buttons to offer, or nothing when the stored emoji of a role that would get a button
/// cannot be read.
pub fn try_plan_buttons(self_roles: &Vec<SelfRole>, guild_roles: &Vec<GuildRole>) -> (r: Option<
    Vec<SelfRoleButton>,
>)
    requires
        forall|i: int| 0 <= i < self_roles@.len() ==> (#[trigger] self_roles@[i]).id != 0,
    ensures
        r is None <==> !buttons_readable(self_roles@, guild_roles@),
        r matches Some(buttons) ==> {
            &&& buttons@.len() == planned_buttons(self_roles@, guild_roles@).len()
            &&& forall|i: int|
                0 <= i < buttons@.len() ==> (#[trigger] buttons@[i])@ == planned_buttons(
                    self_roles@,
                    guild_roles@,
                )[i]
        },
{
    let n = self_roles.len();
    let ghost s = self_roles@;
    let ghost g = guild_roles@;
    let mut k: usize = 0;
    while k < n
        invariant
            n == s.len(),
            s == self_roles@,
            g == guild_roles@,
            k <= n,
            forall|j: int|
                0 <= j < k && last_of_its_id(s, j) && role_of(g, s[j]) is Some ==> emoji_readable(
                    #[trigger] s[j],
                ),
        decreases n - k,
    {
        let r = &self_roles[k];
        let id: u64 = #[verifier::truncate] (r.id as u64);
        if is_last_of_its_id(self_roles, k) && find_role_index(guild_roles, id).is_some() {
            if let Some(t) = &r.emoji {
                if parse_emoji(t.as_str()).is_none() {
                    assert(!emoji_readable(s[k as int]));
                    return None;
                }
            }
        }
        k = k + 1;
    }
    Some(plan_buttons(self_roles, guild_roles))
}

proof fn lemma_chosen_shape(s: Seq<SelfRole>, g: Seq<GuildRole>, upto: int)
    ensures
        forall|a: int| 0 <= a < chosen(s, g, upto).len() ==> {
            &&& 0 <= #[trigger] chosen(s, g, upto)[a] < upto
            &&& last_of_its_id(s, chosen(s, g, upto)[a])
            &&& role_of(g, s[chosen(s, g, upto)[a]]) is Some
        },
        forall|a: int, b: int|
            0 <= a < b < chosen(s, g, upto).len() ==> #[trigger] chosen(s, g, upto)[a] < #[trigger] chosen(
                s,
                g,
                upto,
            )[b],
        forall|k: int|
            0 <= k < upto && last_of_its_id(s, k) && role_of(g, s[k]) is Some ==> #[trigger] chosen(
                s,
                g,
                upto,
            ).contains(k),
    decreases upto,
{
    if upto > 0 {
        lemma_chosen_shape(s, g, upto - 1);
        let before = chosen(s, g, upto - 1);
        let c = chosen(s, g, upto);
        assert forall|k: int|
            0 <= k < upto && last_of_its_id(s, k) && role_of(g, s[k]) is Some implies #[trigger] c.contains(k) by {
            if k < upto - 1 {
                assert(before.contains(k));
                let j = choose|j: int| 0 <= j < before.len() && before[j] == k;
                assert(c[j] == k);
            } else {
                assert(c[c.len() - 1] == k);
            }
        }
    }
}

/// No role gets two buttons: the self roles behind the buttons all differ.
pub proof fn law_one_button_per_role(s: Seq<SelfRole>, g: Seq<GuildRole>)
    ensures
        forall|a: int, b: int|
            0 <= a < b < chosen(s, g, s.len() as int).len() ==> s[#[trigger] chosen(
                s,
                g,
                s.len() as int,
            )[a]].id != s[#[trigger] chosen(s, g, s.len() as int)[b]].id,
{
    lemma_chosen_shape(s, g, s.len() as int);
    let c = chosen(s, g, s.len() as int);
    assert forall|a: int, b: int| 0 <= a < b < c.len() implies s[#[trigger] c[a]].id != s[#[trigger] c[b]].id by {
        assert(c[a] < c[b]);
        assert(last_of_its_id(s, c[a]));
        assert(s[c[b]].id != s[c[a]].id);
    }
}

proof fn lemma_last_entry(s: Seq<SelfRole>, k: int) -> (j: int)
    requires
        0 <= k < s.len(),
    ensures
        k <= j < s.len(),
        s[j].id == s[k].id,
        last_of_its_id(s, j),
    decreases s.len() - k,
{
    if last_of_its_id(s, k) {
        k
    } else {
        let j = choose|j: int| k < j < s.len() && (#[trigger] s[j]).id == s[k].id;
        lemma_last_entry(s, j)
    }
}

/// Every stored self role that the server has is offered: some button stands for a stored
/// entry with its id.
pub proof fn law_every_role_offered(s: Seq<SelfRole>, g: Seq<GuildRole>, k: int)
    requires
        0 <= k < s.len(),
        role_of(g, s[k]) is Some,
    ensures
        exists|a: int|
            0 <= a < chosen(s, g, s.len() as int).len() && s[#[trigger] chosen(
                s,
                g,
                s.len() as int,
            )[a]].id == s[k].id,
{
    let j = lemma_last_entry(s, k);
    lemma_chosen_shape(s, g, s.len() as int);
    let c = chosen(s, g, s.len() as int);
    assert(role_of(g, s[j]) == role_of(g, s[k]));
    assert(c.contains(j));
    let a = choose|a: int| 0 <= a < c.len() && c[a] == j;
    assert(s[c[a]].id == s[k].id);
}

proof fn lemma_find_role_found(g: Seq<GuildRole>, id: u64, from: int)
    ensures
        find_role(g, id, from) matches Some(i) ==> 0 <= from <= i < g.len() && g[i].id == id,
    decreases g.len() - from,
{
    if 0 <= from < g.len() && g[from].id != id {
        lemma_find_role_found(g, id, from + 1);
    }
}

/// Text that does not start with `<` names the Unicode emoji it is.
pub proof fn law_plain_text_is_unicode_emoji(e: Seq<char>)
    requires
        e.len() > 0,
        e[0] != '<',
    ensures
        parsed_emoji(e) == Some(EmojiView::Unicode(e)),
{
}

/// Each button stands for the last stored entry of a role, in the order of the entries, and
/// for the server role with its id: it is
/// labelled with that role's name, styled by the stored number, identified as
/// `self-role-<id>`, and shows the emoji the stored text names (none without stored text).
pub proof fn law_buttons_show_stored_roles(s: Seq<SelfRole>, g: Seq<GuildRole>)
    ensures
        planned_buttons(s, g).len() == chosen(s, g, s.len() as int).len(),
        forall|i: int|
            0 <= i < planned_buttons(s, g).len() ==> {
                let k = chosen(s, g, s.len() as int)[i];
                let b = #[trigger] planned_buttons(s, g)[i];
                &&& 0 <= k < s.len()
                &&& forall|j: int| k < j < s.len() ==> s[j].id != s[k].id
                &&& (i > 0 ==> chosen(s, g, s.len() as int)[i - 1] < k)
                &&& role_of(g, s[k]) is Some
                &&& g[role_of(g, s[k])->0].id == s[k].id as u64
                &&& b.label == g[role_of(g, s[k])->0].name@
                &&& b.style == style_from_int(s[k].style)
                &&& b.custom_id == "self-role-"@ + signed_decimal(s[k].id as int)
                &&& b.emoji == (match s[k].emoji {
                    Some(e) => parsed_emoji(e@),
                    None => None,
                })
            },
{
    lemma_chosen_shape(s, g, s.len() as int);
    let c = chosen(s, g, s.len() as int);
    assert forall|i: int| 0 <= i < planned_buttons(s, g).len() implies ({
        let k = c[i];
        let b = #[trigger] planned_buttons(s, g)[i];
        &&& 0 <= k < s.len()
        &&& forall|j: int| k < j < s.len() ==> s[j].id != s[k].id
        &&& (i > 0 ==> c[i - 1] < k)
        &&& role_of(g, s[k]) is Some
        &&& g[role_of(g, s[k])->0].id == s[k].id as u64
        &&& b.label == g[role_of(g, s[k])->0].name@
        &&& b.style == style_from_int(s[k].style)
        &&& b.custom_id == "self-role-"@ + signed_decimal(s[k].id as int)
        &&& b.emoji == (match s[k].emoji {
            Some(e) => parsed_emoji(e@),
            None => None,
        })
    }) by {
        lemma_find_role_found(g, s[c[i]].id as u64, 0);
    }
}

/// The stored self roles without those with id `id`.
pub open spec fn without_id(rows: Seq<SelfRole>, id: i64) -> Seq<SelfRole>
    decreases rows.len(),
{
    if rows.len() == 0 {
        rows
    } else {
        let rest = without_id(rows.drop_last(), id);
        if rows.last().id == id {
            rest
        } else {
            rest.push(rows.last())
        }
    }
}

/// The self-role table after `/selfrole add` stores `r`: an earlier entry for the same role
/// is replaced, so each role has one entry.
pub open spec fn with_self_role(rows: Seq<SelfRole>, r: SelfRole) -> Seq<SelfRole> {
    without_id(rows, r.id).push(r)
}

proof fn lemma_without_id_shape(rows: Seq<SelfRole>, id: i64)
    ensures
        forall|i: int| 0 <= i < without_id(rows, id).len() ==> (#[trigger] without_id(rows, id)[i]).id != id,
        without_id(without_id(rows, id), id) == without_id(rows, id),
    decreases rows.len(),
{
    if rows.len() > 0 {
        let p = rows.drop_last();
        lemma_without_id_shape(p, id);
        let wp = without_id(p, id);
        if rows.last().id != id {
            assert(wp.push(rows.last()).drop_last() =~= wp);
        }
    }
}

/// Storing the same self role twice leaves the table as storing it once.
pub proof fn law_self_role_add_idempotent(rows: Seq<SelfRole>, r: SelfRole)
    ensures
        with_self_role(with_self_role(rows, r), r) == with_self_role(rows, r),
{
    lemma_without_id_shape(rows, r.id);
    let t = without_id(rows, r.id).push(r);
    assert(t.drop_last() =~= without_id(rows, r.id));
}

/// Once stored, a self role is found in the table, so that storing it again answers that it
/// was updated.
pub proof fn law_stored_self_role_listed(rows: Seq<SelfRole>, r: SelfRole)
    ensures
        with_self_role(rows, r).contains(r),
{
    let t = with_self_role(rows, r);
    assert(t[t.len() - 1] == r);
}

/// A stored self role that the server has is offered by the next deploy, with the button
/// made from what was stored: its role's name, its style, `self-role-<id>` and its emoji.
pub proof fn law_stored_self_role_offered(rows: Seq<SelfRole>, g: Seq<GuildRole>, r: SelfRole)
    requires
        role_of(g, r) is Some,
    ensures
        planned_buttons(with_self_role(rows, r), g).contains(button_of(r, g[role_of(g, r)->0])),
{
    let t = with_self_role(rows, r);
    let k = t.len() - 1;
    assert(t[k] == r);
    assert(last_of_its_id(t, k));
    lemma_chosen_shape(t, g, t.len() as int);
    let c = chosen(t, g, t.len() as int);
    assert(c.contains(k));
    let a = choose|a: int| 0 <= a < c.len() && c[a] == k;
    let pb = planned_buttons(t, g);
    assert(pb[a] == button_of(t[k], g[role_of(g, t[k])->0]));
}

/// The text of the self-role menu.
pub fn menu_text() -> (s: String)
    ensures
        s@ == "Click the buttons below to toggle a role on you."@,
{
    String::from_str("Click the buttons below to toggle a role on you.")
}

/// The answer after deploying the menu into channel `channel_id`: `edited_existing` says
/// whether a given message was edited, rather than a new one sent.
pub open spec fn deploy_reply_text(channel_id: u64, edited_existing: bool) -> Seq<char> {
    if edited_existing {
        "Successfully sent a message for self roles into <#"@ + decimal(channel_id as nat)
            + ">You may want to delete the old message if there is one, now."@
    } else {
        "Successfully edited the message for self roles in <#"@ + decimal(channel_id as nat)
            + ">You may want to delete the old message if there is one, now."@
    }
}

/// Writes the answer after deploying the menu.
pub fn deploy_reply(channel_id: u64, edited_existing: bool) -> (s: String)
    ensures
        s@ == deploy_reply_text(channel_id, edited_existing),
{
    let id = decimal_text(channel_id);
    let mut s = if edited_existing {
        String::from_str("Successfully sent a message for self roles into <#")
    } else {
        String::from_str("Successfully edited the message for self roles in <#")
    };
    s.append(id.as_str());
    s.append(">You may want to delete the old message if there is one, now.");
    s
}

/// Where `/selfrole deploy` puts the menu: into the existing message with this id, or into a
/// new message.
#[derive(Clone, Copy, PartialEq, Eq, Debug, Structural)]
pub enum DeployTarget {
    Edit(u64),
    Send,
}

/// Whether text names a message: a non-zero id in decimal.
pub open spec fn names_message(text: Seq<char>) -> bool {
    parsed_u64(text) is Some && parsed_u64(text)->0 != 0
}

/// The target the command's optional message argument names.
pub open spec fn deploy_target_of(message: Option<Seq<char>>) -> DeployTarget {
    match message {
        Some(m) => DeployTarget::Edit(parsed_u64(m)->0),
        None => DeployTarget::Send,
    }
}

/// Reads the command's optional message argument: a message id means that message is
/// edited, no argument that a new message is sent.
pub fn deploy_target(message: &Option<String>) -> (t: DeployTarget)
    requires
        message matches Some(m) ==> names_message(m@),
    ensures
        t == deploy_target_of(
            (match message {
                Some(m) => Some(m@),
                None => None,
            }),
        ),
{
    match message {
        Some(m) => DeployTarget::Edit(parse_u64(m.as_str()).unwrap()),
        None => DeployTarget::Send,
    }
}

/// What follows a deploy: a menu put into a new message, or into an existing message that
/// was found, is answered in the channel's terms; when the message to edit is not found,
/// neither menu nor answer.
pub open spec fn deploy_answer_text(target: DeployTarget, message_found: bool, channel_id: u64) -> Option<
    Seq<char>,
> {
    match target {
        DeployTarget::Edit(_) => if message_found {
            Some(deploy_reply_text(channel_id, true))
        } else {
            None
        },
        DeployTarget::Send => Some(deploy_reply_text(channel_id, false)),
    }
}

/// The answer after a deploy, if any.
pub fn deploy_answer(target: DeployTarget, message_found: bool, channel_id: u64) -> (r: Option<
    String,
>)
    ensures
        (match r {
            Some(s) => Some(s@),
            None => None,
        }) == deploy_answer_text(target, message_found, channel_id),
{
    match target {
        DeployTarget::Edit(_) => if message_found {
            Some(deploy_reply(channel_id, true))
        } else {
            None
        },
        DeployTarget::Send => Some(deploy_reply(channel_id, false)),
    }
}

} // verus!
