//! What the bot says of gateway events it only reports.
use vstd::prelude::*;
use vstd::string::StringExecFns;

verus! {

/// The line printed once the bot is connected, naming its user.
pub fn ready_line(name: &str) -> (s: String)
    ensures
        s@ == name@ + " is ready"@,
{
    let mut s = String::from_str(name);
    s.append(" is ready");
    s
}

} // verus!
