//! Recipient resolution: the pure policy that computes, for one event,
//! the ordered, deduplicated set of users owed a direct message.

use vstd::prelude::*;
use crate::types::User;

verus! {

broadcast use vstd::seq_lib::lemma_seq_contains_after_push;

/// Whether a login is barred from direct notification: it is the event
/// sender's (self-notification suppression) or the reserved service
/// account's.
pub open spec fn excluded(login: Seq<char>, sender: Option<Seq<char>>, bot: Seq<char>) -> bool {
    sender == Some(login) || login == bot
}

/// The recipients before any assignee is considered: the item owner
/// alone, unless the owner is excluded.
pub open spec fn owner_candidates(
    owner: Seq<char>,
    sender: Option<Seq<char>>,
    bot: Seq<char>,
) -> Seq<Seq<char>> {
    if excluded(owner, sender, bot) {
        Seq::empty()
    } else {
        seq![owner]
    }
}

/// The recipients once every listed assignee has been considered, in
/// order: an assignee is appended when its login differs from the
/// owner's, is not excluded, and was not kept already (the first
/// occurrence wins).
pub open spec fn resolved_after(
    owner: Seq<char>,
    sender: Option<Seq<char>>,
    bot: Seq<char>,
    assignees: Seq<Seq<char>>,
) -> Seq<Seq<char>>
    decreases assignees.len(),
{
    if assignees.len() == 0 {
        owner_candidates(owner, sender, bot)
    } else {
        let acc = resolved_after(owner, sender, bot, assignees.drop_last());
        let a = assignees.last();
        if a != owner && !excluded(a, sender, bot) && !acc.contains(a) {
            acc.push(a)
        } else {
            acc
        }
    }
}

/// The ordered, deduplicated recipient logins for an event.
pub open spec fn resolved_logins(
    owner: Seq<char>,
    sender: Option<Seq<char>>,
    assignees: Seq<Seq<char>>,
    bot: Seq<char>,
) -> Seq<Seq<char>> {
    resolved_after(owner, sender, bot, assignees)
}

/// Whether some already-kept recipient carries this login.
fn contains_login(v: &Vec<User>, login: &String) -> (b: bool)
    ensures
        b == v.deep_view().contains(login@),
{
    let mut i: usize = 0;
    while i < v.len()
        invariant
            i <= v.len(),
            forall|j: int| 0 <= j < i ==> v.deep_view()[j] != login@,
        decreases v.len() - i,
    {
        if v[i].login == *login {
            proof {
                assert(v.deep_view()[i as int] == login@);
            }
            return true;
        }
        i = i + 1;
    }
    false
}

/// Computes the direct-message recipients for an event: the item owner
/// first, then each assignee in listed order, with owner duplicates,
/// the sender, the reserved service account and repeated logins left
/// out. Absence of a sender simply skips self-notification suppression.
pub fn resolve_recipients(
    owner: &User,
    sender: Option<&User>,
    assignees: &Vec<User>,
    bot_login: &String,
) -> (r: Vec<User>)
    ensures
        r.deep_view() == resolved_logins(
            owner@,
            sender.deep_view(),
            assignees.deep_view(),
            bot_login@,
        ),
{
    let mut r: Vec<User> = Vec::new();
    let sender_is_owner = match sender {
        Some(s) => s.login == owner.login,
        None => false,
    };
    if !sender_is_owner && !(owner.login == *bot_login) {
        r.push(owner.clone());
    }
    proof {
        assert(assignees.deep_view().take(0) =~= Seq::<Seq<char>>::empty());
        assert(r.deep_view() =~= resolved_after(
            owner@,
            sender.deep_view(),
            bot_login@,
            assignees.deep_view().take(0),
        ));
    }
    let mut i: usize = 0;
    while i < assignees.len()
        invariant
            i <= assignees.len(),
            r.deep_view() == resolved_after(
                owner@,
                sender.deep_view(),
                bot_login@,
                assignees.deep_view().take(i as int),
            ),
        decreases assignees.len() - i,
    {
        let ghost r0 = r.deep_view();
        let a = &assignees[i];
        let sender_is_a = match sender {
            Some(s) => s.login == a.login,
            None => false,
        };
        if !(a.login == owner.login) && !sender_is_a && !(a.login == *bot_login)
            && !contains_login(&r, &a.login) {
            r.push(a.clone());
            proof {
                assert(r.deep_view() =~= r0.push(a@));
            }
        }
        proof {
            let dv = assignees.deep_view();
            assert(dv.take(i as int + 1).drop_last() =~= dv.take(i as int));
            assert(dv.take(i as int + 1).last() == dv[i as int]);
        }
        i = i + 1;
    }
    proof {
        assert(assignees.deep_view().take(assignees.deep_view().len() as int)
            =~= assignees.deep_view());
    }
    r
}

/// Law: the resolved recipients carry mutually distinct logins, and a
/// login is resolved exactly when it is the owner's or some assignee's
/// and is neither the sender's nor the reserved service account's.
pub proof fn lemma_resolved_exact(
    owner: Seq<char>,
    sender: Option<Seq<char>>,
    assignees: Seq<Seq<char>>,
    bot: Seq<char>,
)
    ensures
        forall|i: int, j: int|
            0 <= i < j < resolved_logins(owner, sender, assignees, bot).len()
                ==> resolved_logins(owner, sender, assignees, bot)[i] != resolved_logins(
                owner,
                sender,
                assignees,
                bot,
            )[j],
        forall|x: Seq<char>|
            #[trigger] resolved_logins(owner, sender, assignees, bot).contains(x) <==> ((x == owner
                || assignees.contains(x)) && !excluded(x, sender, bot)),
    decreases assignees.len(),
{
    let res = resolved_logins(owner, sender, assignees, bot);
    if assignees.len() == 0 {
        assert forall|x: Seq<char>| #[trigger] res.contains(x) implies ((x == owner
            || assignees.contains(x)) && !excluded(x, sender, bot)) by {
            let k = choose|k: int| 0 <= k < res.len() && res[k] == x;
            assert(x == owner);
        }
        if !excluded(owner, sender, bot) {
            assert(res[0] == owner);
            assert(res.contains(owner));
        }
    } else {
        lemma_resolved_exact(owner, sender, assignees.drop_last(), bot);
        let prior = resolved_logins(owner, sender, assignees.drop_last(), bot);
        let a = assignees.last();
        // Membership in `assignees` splits into the shorter prefix and its
        // last element.
        assert forall|x: Seq<char>| #[trigger] assignees.contains(x) implies (
            assignees.drop_last().contains(x) || x == a) by {
            let k = choose|k: int| 0 <= k < assignees.len() && assignees[k] == x;
            if k < assignees.len() - 1 {
                assert(assignees.drop_last()[k] == x);
            }
        }
        assert forall|x: Seq<char>| assignees.drop_last().contains(x)
            implies #[trigger] assignees.contains(x) by {
            let k = choose|k: int|
                0 <= k < assignees.drop_last().len() && assignees.drop_last()[k] == x;
            assert(assignees[k] == x);
        }
        assert(assignees[assignees.len() - 1] == a);
        assert(assignees.contains(a));
        if a != owner && !excluded(a, sender, bot) && !prior.contains(a) {
            assert(res == prior.push(a));
            assert(forall|i: int| 0 <= i < prior.len() ==> res[i] == prior[i]);
            assert(res[prior.len() as int] == a);
        } else {
            assert(res == prior);
        }
    }
}

/// Law: full self-exclusion. When the sender is the owner and the owner
/// is the only assignee login listed, no one is owed a direct message.
pub proof fn lemma_full_self_exclusion(
    owner: Seq<char>,
    assignees: Seq<Seq<char>>,
    bot: Seq<char>,
)
    requires
        forall|i: int| 0 <= i < assignees.len() ==> assignees[i] == owner,
    ensures
        resolved_logins(owner, Some(owner), assignees, bot) == Seq::<Seq<char>>::empty(),
    decreases assignees.len(),
{
    if assignees.len() == 0 {
        assert(excluded(owner, Some(owner), bot));
    } else {
        assert(forall|i: int|
            0 <= i < assignees.drop_last().len() ==> assignees.drop_last()[i] == owner);
        lemma_full_self_exclusion(owner, assignees.drop_last(), bot);
        assert(assignees.last() == owner);
    }
}

/// Law: the reserved service-account login is never resolved as a
/// recipient, whatever the event looks like.
pub proof fn lemma_bot_never_recipient(
    owner: Seq<char>,
    sender: Option<Seq<char>>,
    assignees: Seq<Seq<char>>,
    bot: Seq<char>,
)
    ensures
        !resolved_logins(owner, sender, assignees, bot).contains(bot),
{
    lemma_resolved_exact(owner, sender, assignees, bot);
    assert(excluded(bot, sender, bot));
}

} // verus!
