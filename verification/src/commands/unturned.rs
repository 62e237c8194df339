//! `/unturned admin`: making a player admin on the Unturned game server.
use vstd::prelude::*;
use vstd::string::StringExecFns;

verus! {

/// The role whose members may make players admin.
pub const ADMIN_ROLE: u64 = 1257798842645086249;

/// What becomes of an admin request.
#[derive(Clone, Copy, PartialEq, Eq, Debug, Structural)]
pub enum AdminDecision {
    /// Outside of a server: nothing is done and nothing said.
    Ignore,
    /// The member lacks the admin role: the request is refused.
    Deny,
    /// The command is sent to the server's console.
    Grant,
}

/// The decision for a request: outside of a server it is ignored; a member known to lack
/// the admin role is refused; otherwise (a member with the role, or one whose roles could
/// not be looked up) it is granted.
pub open spec fn admin_decision(in_guild: bool, member_roles: Option<Seq<u64>>) -> AdminDecision {
    if !in_guild {
        AdminDecision::Ignore
    } else if member_roles matches Some(roles) && !roles.contains(ADMIN_ROLE) {
        AdminDecision::Deny
    } else {
        AdminDecision::Grant
    }
}

/// Outside of a server a request is ignored, whatever the roles.
pub proof fn law_admin_outside_servers_ignored(roles: Option<Seq<u64>>)
    ensures
        admin_decision(false, roles) == AdminDecision::Ignore,
{
}

/// In a server, a member whose roles are known is granted the request exactly when the admin
/// role is among them, wherever it stands; a member whose roles could not be looked up is
/// granted it.
pub proof fn law_admin_role_decides(roles: Seq<u64>)
    ensures
        admin_decision(true, Some(roles)) == AdminDecision::Grant <==> roles.contains(ADMIN_ROLE),
        admin_decision(true, Some(roles)) == AdminDecision::Deny <==> !roles.contains(ADMIN_ROLE),
        forall|i: int|
            0 <= i < roles.len() && #[trigger] roles[i] == ADMIN_ROLE ==> admin_decision(true, Some(roles))
                == AdminDecision::Grant,
        admin_decision(true, None) == AdminDecision::Grant,
{
    assert forall|i: int|
        0 <= i < roles.len() && #[trigger] roles[i] == ADMIN_ROLE implies admin_decision(true, Some(roles))
        == AdminDecision::Grant by {
        assert(roles.contains(ADMIN_ROLE));
    }
}

/// Decides a request from whether it came from a server and the roles of its author.
pub fn decide_admin(in_guild: bool, member_roles: Option<&Vec<u64>>) -> (d: AdminDecision)
    ensures
        d == admin_decision(
            in_guild,
            (match member_roles {
                Some(v) => Some(v@),
                None => None,
            }),
        ),
{
    if !in_guild {
        return AdminDecision::Ignore;
    }
    match member_roles {
        None => AdminDecision::Grant,
        Some(roles) => {
            let n = roles.len();
            let mut i: usize = 0;
            while i < n
                invariant
                    n == roles@.len(),
                    in_guild,
                    member_roles == Some(roles),
                    i <= n,
                    forall|k: int| 0 <= k < i ==> roles@[k] != ADMIN_ROLE,
                decreases n - i,
            {
                if roles[i] == ADMIN_ROLE {
                    assert(roles@[i as int] == ADMIN_ROLE);
                    assert(roles@.contains(ADMIN_ROLE));
                    return AdminDecision::Grant;
                }
                i = i + 1;
            }
            AdminDecision::Deny
        },
    }
}

/// The answer to a refused request.
pub fn admin_denied_reply() -> (s: String)
    ensures
        s@ == "You have insufficient permissions to run this command."@,
{
    String::from_str("You have insufficient permissions to run this command.")
}

/// The program that reaches the game server's console.
pub fn console_program() -> (s: String)
    ensures
        s@ == "tmux"@,
{
    String::from_str("tmux")
}

/// The arguments that type `Admin <user>` into the game server's console and press Enter.
pub open spec fn admin_console_arguments(user: Seq<char>) -> Seq<Seq<char>> {
    seq![
        "-S"@,
        "/run/user/1000/tmux-1000/unturned"@,
        "send-keys"@,
        "Admin "@ + user,
        "Enter"@,
    ]
}

/// Writes the console arguments for making `user` admin.
pub fn admin_console_args(user: &str) -> (args: Vec<String>)
    ensures
        args@.map_values(|a: String| a@) == admin_console_arguments(user@),
{
    let mut keys = String::from_str("Admin ");
    keys.append(user);
    let args = vec![
        String::from_str("-S"),
        String::from_str("/run/user/1000/tmux-1000/unturned"),
        String::from_str("send-keys"),
        keys,
        String::from_str("Enter"),
    ];
    assert(args@.map_values(|a: String| a@) =~= admin_console_arguments(user@));
    args
}

/// The answer once the command was sent.
pub fn admin_granted_reply(user: &str) -> (s: String)
    ensures
        s@ == "Successfully gave **"@ + user@ + "** admin permissions."@,
{
    let mut s = String::from_str("Successfully gave **");
    s.append(user);
    s.append("** admin permissions.");
    s
}

} // verus!
