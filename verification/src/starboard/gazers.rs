//! Who starred a message: the users that a reaction counts for, and the removal of
//! repeated entries.
use vstd::prelude::*;

verus! {

/// A user who reacted to a message.
#[derive(Clone, Copy, PartialEq, Eq, Debug, Structural)]
pub struct UserInfo {
    pub id: u64,
    pub bot: bool,
}

/// The ids of the users whose reaction counts as a star: bots and the message's author
/// are left out; the others keep their order.
pub open spec fn stargazer_ids(users: Seq<UserInfo>, author: u64) -> Seq<u64>
    decreases users.len(),
{
    if users.len() == 0 {
        Seq::empty()
    } else {
        let rest = stargazer_ids(users.drop_last(), author);
        let u = users.last();
        if u.bot || u.id == author {
            rest
        } else {
            rest.push(u.id)
        }
    }
}

/// The stargazers of a reaction are exactly its users who are neither bots nor the
/// message's author, each as often as listed.
pub proof fn law_stargazers_are_human_non_authors(users: Seq<UserInfo>, author: u64, x: u64)
    ensures
        stargazer_ids(users, author).contains(x) <==> exists|i: int|
            0 <= i < users.len() && !(#[trigger] users[i]).bot && users[i].id != author && users[i].id
                == x,
        stargazer_ids(users, author).len() <= users.len(),
    decreases users.len(),
{
    if users.len() > 0 {
        let p = users.drop_last();
        law_stargazers_are_human_non_authors(p, author, x);
        let r = stargazer_ids(p, author);
        let u = users.last();
        if stargazer_ids(users, author).contains(x) {
            if !(u.bot || u.id == author) && x == u.id {
                assert(!users[users.len() - 1].bot);
            } else {
                if !(u.bot || u.id == author) {
                    let j = choose|j: int| 0 <= j < r.len() + 1 && r.push(u.id)[j] == x;
                    assert(r[j] == x);
                }
                let i = choose|i: int| 0 <= i < p.len() && !(#[trigger] p[i]).bot && p[i].id != author && p[i].id == x;
                assert(users[i] == p[i]);
            }
        }
        if exists|i: int| 0 <= i < users.len() && !(#[trigger] users[i]).bot && users[i].id != author && users[i].id == x {
            let i = choose|i: int| 0 <= i < users.len() && !(#[trigger] users[i]).bot && users[i].id != author && users[i].id == x;
            if i < users.len() - 1 {
                assert(p[i] == users[i]);
                if !(u.bot || u.id == author) {
                    let j = choose|j: int| 0 <= j < r.len() && r[j] == x;
                    assert(r.push(u.id)[j] == x);
                }
            } else {
                assert(r.push(u.id)[r.len() as int] == x);
            }
        }
    }
}

/// Appends to `ids` the users of `users` whose reaction counts as a star.
pub fn push_stargazers(ids: &mut Vec<u64>, users: &Vec<UserInfo>, author: u64)
    ensures
        final(ids)@ == old(ids)@ + stargazer_ids(users@, author),
{
    let ghost start = ids@;
    let n = users.len();
    let mut i: usize = 0;
    while i < n
        invariant
            n == users.len(),
            i <= n,
            ids@ == start + stargazer_ids(users@.take(i as int), author),
        decreases n - i,
    {
        let u = users[i];
        assert(users@.take(i + 1).drop_last() =~= users@.take(i as int));
        if !(u.bot || u.id == author) {
            ids.push(u.id);
        }
        i = i + 1;
        assert(ids@ =~= start + stargazer_ids(users@.take(i as int), author));
    }
    assert(users@.take(n as int) =~= users@);
}

/// `s` with every value kept at its first occurrence only, so that each user counts once
/// however many star emotes they used.
pub open spec fn distinct(s: Seq<u64>) -> Seq<u64>
    decreases s.len(),
{
    if s.len() == 0 {
        s
    } else {
        let d = distinct(s.drop_last());
        if s.drop_last().contains(s.last()) {
            d
        } else {
            d.push(s.last())
        }
    }
}

fn occurs_before(v: &Vec<u64>, i: usize) -> (b: bool)
    requires
        i < v@.len(),
    ensures
        b == v@.take(i as int).contains(v@[i as int]),
{
    let mut j: usize = 0;
    while j < i
        invariant
            i < v@.len(),
            j <= i,
            forall|k: int| 0 <= k < j ==> v@[k] != v@[i as int],
        decreases i - j,
    {
        if v[j] == v[i] {
            assert(v@.take(i as int)[j as int] == v@[i as int]);
            return true;
        }
        j = j + 1;
    }
    false
}

/// Removes from `v` every value that occurred earlier in it.
pub fn remove_repeats(v: &mut Vec<u64>)
    ensures
        final(v)@ == distinct(old(v)@),
{
    let n = v.len();
    let mut out: Vec<u64> = Vec::new();
    let mut i: usize = 0;
    while i < n
        invariant
            n == v.len(),
            i <= n,
            out@ == distinct(v@.take(i as int)),
        decreases n - i,
    {
        let ghost t = v@.take(i + 1);
        assert(t.drop_last() =~= v@.take(i as int));
        if !occurs_before(v, i) {
            out.push(v[i]);
        }
        i = i + 1;
    }
    assert(v@.take(n as int) =~= v@);
    *v = out;
}

/// The removal keeps every value that occurs and adds none.
pub proof fn law_distinct_keeps_members(s: Seq<u64>, x: u64)
    ensures
        distinct(s).contains(x) <==> s.contains(x),
    decreases s.len(),
{
    if s.len() > 0 {
        let p = s.drop_last();
        law_distinct_keeps_members(p, x);
        let d = distinct(p);
        if s.contains(x) {
            let k = choose|k: int| 0 <= k < s.len() && s[k] == x;
            if k < s.len() - 1 {
                assert(p[k] == x);
                if !p.contains(s.last()) {
                    let j = choose|j: int| 0 <= j < d.len() && d[j] == x;
                    assert(d.push(s.last())[j] == x);
                }
            } else if p.contains(s.last()) {
            } else {
                assert(d.push(s.last())[d.len() as int] == x);
            }
        }
        if distinct(s).contains(x) {
            if !p.contains(s.last()) {
                let j = choose|j: int| 0 <= j < d.len() + 1 && d.push(s.last())[j] == x;
                if j < d.len() {
                    assert(d[j] == x);
                    let k = choose|k: int| 0 <= k < p.len() && p[k] == x;
                    assert(s[k] == x);
                } else {
                    assert(s[s.len() - 1] == x);
                }
            } else {
                let k = choose|k: int| 0 <= k < p.len() && p[k] == x;
                assert(s[k] == x);
            }
        }
    }
}

/// After the removal no value occurs twice.
pub proof fn law_distinct_no_duplicates(s: Seq<u64>)
    ensures
        distinct(s).no_duplicates(),
    decreases s.len(),
{
    if s.len() > 0 {
        let p = s.drop_last();
        law_distinct_no_duplicates(p);
        let d = distinct(p);
        if !p.contains(s.last()) {
            law_distinct_keeps_members(p, s.last());
            let e = d.push(s.last());
            assert forall|a: int, b: int| 0 <= a < e.len() && 0 <= b < e.len() && a != b implies e[a]
                != e[b] by {
                if a < d.len() && b < d.len() {
                    assert(e[a] == d[a] && e[b] == d[b]);
                } else if a < d.len() {
                    assert(e[a] == d[a]);
                    assert(d.contains(e[a]));
                } else if b < d.len() {
                    assert(e[b] == d[b]);
                    assert(d.contains(e[b]));
                }
            }
        }
    }
}

/// The removal leaves one entry per value: as many as there are different values.
pub proof fn law_distinct_counts_values(s: Seq<u64>)
    ensures
        distinct(s).len() == s.to_set().len(),
        distinct(s).to_set() == s.to_set(),
{
    law_distinct_no_duplicates(s);
    assert forall|x: u64| distinct(s).to_set().contains(x) <==> s.to_set().contains(x) by {
        law_distinct_keeps_members(s, x);
    }
    assert(distinct(s).to_set() =~= s.to_set());
    distinct(s).unique_seq_to_set();
}

proof fn lemma_distinct_of_repeat_free(s: Seq<u64>)
    requires
        s.no_duplicates(),
    ensures
        distinct(s) == s,
    decreases s.len(),
{
    if s.len() > 0 {
        let p = s.drop_last();
        assert(p.no_duplicates());
        lemma_distinct_of_repeat_free(p);
        if p.contains(s.last()) {
            let k = choose|k: int| 0 <= k < p.len() && p[k] == s.last();
            assert(s[k] == s[s.len() - 1]);
        }
        assert(p.push(s.last()) =~= s);
    }
}

/// Removing repeats a second time changes nothing.
pub proof fn law_distinct_idempotent(s: Seq<u64>)
    ensures
        distinct(distinct(s)) == distinct(s),
{
    law_distinct_no_duplicates(s);
    lemma_distinct_of_repeat_free(distinct(s));
}

} // verus!
