//! The messenger: the three dispatch operations. Each consults the
//! directory, applies the mute filter, and returns the complete batch of
//! deliveries owed — channel delivery first, then one independent direct
//! delivery per recipient. Performing the sends is the sink's business.

use vstd::prelude::*;
use vstd::string::StringExecFns;
use crate::directory::{channel_for, direct_ref, mention, mention_of, ChannelEntry, Config, UserEntry};
use crate::recipients::{lemma_full_self_exclusion, resolve_recipients, resolved_logins};
use crate::types::{
    copy_attachments, Attachment, Delivery, DeliveryView, Repo, RepoView, Target, TargetView, User,
};

verus! {

/// The opt-out sentinel: a resolved direct reference equal to this
/// literal, or to its mention form, means "do not deliver".
pub open spec fn dnd_marker() -> Seq<char> {
    "DO NOT DISTURB"@
}

/// Whether a resolved direct reference is the opt-out sentinel in either
/// of its two spellings.
pub open spec fn is_muted_ref(target: Seq<char>) -> bool {
    target == dnd_marker() || target == mention_of(dnd_marker())
}

/// Tests a resolved direct reference against the opt-out sentinel.
pub fn is_muted(target: &String) -> (r: bool)
    ensures
        r == is_muted_ref(target@),
{
    let dnd = String::from_str("DO NOT DISTURB");
    let dnd_mention = mention(dnd.as_str());
    *target == dnd || *target == dnd_mention
}

/// A link as the sink's text markup renders it: the address and the
/// human-readable name.
pub open spec fn link_text(url: Seq<char>, text: Seq<char>) -> Seq<char> {
    seq!['<'] + url + seq!['|'] + text + seq!['>']
}

/// Renders a link to an address with a human-readable name.
pub fn make_link(url: &str, text: &str) -> (r: String)
    ensures
        r@ == link_text(url@, text@),
{
    proof {
        reveal_strlit("<");
        reveal_strlit("|");
        reveal_strlit(">");
    }
    let mut s = String::from_str("<");
    s.append(url);
    s.append("|");
    s.append(text);
    s.append(">");
    proof {
        assert(s@ =~= link_text(url@, text@));
    }
    s
}

/// The text a channel receives: the message with a rendered repository
/// link appended. The message itself is never altered for direct sends.
pub open spec fn channel_text(msg: Seq<char>, repo: RepoView) -> Seq<char> {
    msg + seq![' ', '('] + link_text(repo.html_url, repo.full_name) + seq![')']
}

/// Appends the rendered repository link to a message.
pub fn channel_message(msg: &str, repo: &Repo) -> (r: String)
    ensures
        r@ == channel_text(msg@, repo@),
{
    proof {
        reveal_strlit(" (");
        reveal_strlit(")");
    }
    let link = make_link(repo.html_url.as_str(), repo.full_name.as_str());
    let mut s = msg.to_owned();
    s.append(" (");
    s.append(link.as_str());
    s.append(")");
    proof {
        assert(s@ =~= channel_text(msg@, repo@));
    }
    s
}

/// The channel deliveries a dispatch owes: one, when a channel is
/// configured for the repository; none otherwise. Channels are shared,
/// so the mute filter never applies here.
pub open spec fn channel_plan(
    entries: Seq<ChannelEntry>,
    msg: Seq<char>,
    atts: Seq<Attachment>,
    repo: RepoView,
) -> Seq<DeliveryView> {
    match channel_for(entries, repo.full_name) {
        Some(ch) => seq![
            DeliveryView {
                target: TargetView::Channel(ch),
                message: channel_text(msg, repo),
                attachments: atts,
            },
        ],
        None => Seq::empty(),
    }
}

/// What the mute filter yields for one resolved direct reference:
/// nothing when the reference is the opt-out sentinel, otherwise the one
/// delivery owed to it.
pub open spec fn direct_send_plan(target: Seq<char>, msg: Seq<char>, atts: Seq<Attachment>) -> Option<
    DeliveryView,
> {
    if is_muted_ref(target) {
        None
    } else {
        Some(DeliveryView { target: TargetView::Direct(target), message: msg, attachments: atts })
    }
}

/// The direct deliveries owed to a list of recipient logins, in order:
/// each login's reference is resolved through the directory and passed
/// through the mute filter.
pub open spec fn direct_plan(
    dir: Seq<UserEntry>,
    logins: Seq<Seq<char>>,
    repo_name: Seq<char>,
    msg: Seq<char>,
    atts: Seq<Attachment>,
) -> Seq<DeliveryView>
    decreases logins.len(),
{
    if logins.len() == 0 {
        Seq::empty()
    } else {
        let rest = direct_plan(dir, logins.drop_last(), repo_name, msg, atts);
        match direct_send_plan(direct_ref(dir, logins.last(), repo_name), msg, atts) {
            Some(d) => rest.push(d),
            None => rest,
        }
    }
}

/// The dispatch interface: the three operations callers rely on. Each
/// returns the complete batch of deliveries it owes, channel delivery
/// first.
pub trait Messenger {
    /// The batch owed for an event with owner, sender and assignees.
    spec fn all_deliveries(
        &self,
        msg: Seq<char>,
        atts: Seq<Attachment>,
        owner: Seq<char>,
        sender: Option<Seq<char>>,
        repo: RepoView,
        assignees: Seq<Seq<char>>,
    ) -> Seq<DeliveryView>;

    /// The batch owed for an event notifying the item owner alone.
    spec fn owner_deliveries(
        &self,
        msg: Seq<char>,
        atts: Seq<Attachment>,
        owner: Seq<char>,
        repo: RepoView,
    ) -> Seq<DeliveryView>;

    /// The batch owed to the repository's channel alone.
    spec fn channel_deliveries(
        &self,
        msg: Seq<char>,
        atts: Seq<Attachment>,
        repo: RepoView,
    ) -> Seq<DeliveryView>;

    /// Notifies the channel, the item owner, and every assignee, with the
    /// sender and the reserved service account excluded and each login
    /// targeted at most once.
    fn send_to_all(
        &self,
        msg: &str,
        attachments: &Vec<Attachment>,
        item_owner: &User,
        sender: Option<&User>,
        repo: &Repo,
        assignees: &Vec<User>,
    ) -> (r: Vec<Delivery>)
        ensures
            r.deep_view() == self.all_deliveries(
                msg@,
                attachments@,
                item_owner@,
                sender.deep_view(),
                repo@,
                assignees.deep_view(),
            ),
    ;

    /// Notifies the channel and the item owner.
    fn send_to_owner(
        &self,
        msg: &str,
        attachments: &Vec<Attachment>,
        item_owner: &User,
        repo: &Repo,
    ) -> (r: Vec<Delivery>)
        ensures
            r.deep_view() == self.owner_deliveries(msg@, attachments@, item_owner@, repo@),
    ;

    /// Notifies the repository's channel, when one is configured, with
    /// the rendered repository link appended to the message.
    fn send_to_channel(&self, msg: &str, attachments: &Vec<Attachment>, repo: &Repo) -> (r: Vec<
        Delivery,
    >)
        ensures
            r.deep_view() == self.channel_deliveries(msg@, attachments@, repo@),
    ;
}

/// The messenger backed by a configuration of directories.
pub struct SlackMessenger {
    pub config: Config,
}

/// Builds the messenger that dispatches according to a configuration.
pub fn from_config(config: Config) -> (m: SlackMessenger)
    ensures
        m.config == config,
{
    SlackMessenger { config }
}

impl SlackMessenger {
    /// Applies the mute filter to one resolved direct reference and,
    /// when delivery is owed, builds the delivery bound for it.
    pub fn send_to_slack(&self, slack_ref: &String, msg: &str, attachments: &Vec<Attachment>) -> (r:
        Option<Delivery>)
        ensures
            r.deep_view() == direct_send_plan(slack_ref@, msg@, attachments@),
    {
        if is_muted(slack_ref) {
            return None;
        }
        Some(
            Delivery {
                target: Target::Direct(slack_ref.clone()),
                message: String::from_str(msg),
                attachments: copy_attachments(attachments),
            },
        )
    }

    /// Resolves each recipient's direct reference and dispatches to each
    /// independently, subject to the mute filter. One recipient's
    /// outcome never affects another's.
    pub fn send_to_slackbots(
        &self,
        users: Vec<User>,
        repo: &Repo,
        msg: &str,
        attachments: &Vec<Attachment>,
    ) -> (r: Vec<Delivery>)
        ensures
            r.deep_view() == direct_plan(
                self.config.users@,
                users.deep_view(),
                repo.full_name@,
                msg@,
                attachments@,
            ),
    {
        let mut r: Vec<Delivery> = Vec::new();
        let mut i: usize = 0;
        proof {
            assert(users.deep_view().take(0) =~= Seq::<Seq<char>>::empty());
        }
        while i < users.len()
            invariant
                i <= users.len(),
                r.deep_view() == direct_plan(
                    self.config.users@,
                    users.deep_view().take(i as int),
                    repo.full_name@,
                    msg@,
                    attachments@,
                ),
            decreases users.len() - i,
        {
            let ghost r0 = r.deep_view();
            let u = &users[i];
            let slack_ref = self.config.users.resolve_direct_target(&u.login, repo);
            match self.send_to_slack(&slack_ref, msg, attachments) {
                Some(d) => {
                    let ghost dv = d.deep_view();
                    r.push(d);
                    proof {
                        assert(r.deep_view() =~= r0.push(dv));
                    }
                },
                None => {},
            }
            proof {
                let dv = users.deep_view();
                assert(dv.take(i as int + 1).drop_last() =~= dv.take(i as int));
                assert(dv.take(i as int + 1).last() == dv[i as int]);
            }
            i = i + 1;
        }
        proof {
            assert(users.deep_view().take(users.deep_view().len() as int) =~= users.deep_view());
        }
        r
    }
}

impl Messenger for SlackMessenger {
    open spec fn all_deliveries(
        &self,
        msg: Seq<char>,
        atts: Seq<Attachment>,
        owner: Seq<char>,
        sender: Option<Seq<char>>,
        repo: RepoView,
        assignees: Seq<Seq<char>>,
    ) -> Seq<DeliveryView> {
        self.channel_deliveries(msg, atts, repo) + direct_plan(
            self.config.users@,
            resolved_logins(owner, sender, assignees, self.config.bot_login@),
            repo.full_name,
            msg,
            atts,
        )
    }

    open spec fn owner_deliveries(
        &self,
        msg: Seq<char>,
        atts: Seq<Attachment>,
        owner: Seq<char>,
        repo: RepoView,
    ) -> Seq<DeliveryView> {
        self.channel_deliveries(msg, atts, repo) + direct_plan(
            self.config.users@,
            seq![owner],
            repo.full_name,
            msg,
            atts,
        )
    }

    open spec fn channel_deliveries(
        &self,
        msg: Seq<char>,
        atts: Seq<Attachment>,
        repo: RepoView,
    ) -> Seq<DeliveryView> {
        channel_plan(self.config.repos@, msg, atts, repo)
    }

    fn send_to_all(
        &self,
        msg: &str,
        attachments: &Vec<Attachment>,
        item_owner: &User,
        sender: Option<&User>,
        repo: &Repo,
        assignees: &Vec<User>,
    ) -> (r: Vec<Delivery>) {
        let mut r = self.send_to_channel(msg, attachments, repo);
        let ghost c = r.deep_view();
        let recipients = resolve_recipients(item_owner, sender, assignees, &self.config.bot_login);
        let mut direct = self.send_to_slackbots(recipients, repo, msg, attachments);
        let ghost dd = direct.deep_view();
        r.append(&mut direct);
        proof {
            assert(r.deep_view() =~= c + dd);
        }
        r
    }

    fn send_to_owner(
        &self,
        msg: &str,
        attachments: &Vec<Attachment>,
        item_owner: &User,
        repo: &Repo,
    ) -> (r: Vec<Delivery>) {
        let mut r = self.send_to_channel(msg, attachments, repo);
        let ghost c = r.deep_view();
        let owner_batch = vec![item_owner.clone()];
        proof {
            assert(owner_batch.deep_view() =~= seq![item_owner@]);
        }
        let mut direct = self.send_to_slackbots(owner_batch, repo, msg, attachments);
        let ghost dd = direct.deep_view();
        r.append(&mut direct);
        proof {
            assert(r.deep_view() =~= c + dd);
        }
        r
    }

    fn send_to_channel(&self, msg: &str, attachments: &Vec<Attachment>, repo: &Repo) -> (r: Vec<
        Delivery,
    >) {
        let mut r: Vec<Delivery> = Vec::new();
        match self.config.repos.lookup_channel(repo) {
            Some(channel) => {
                let text = channel_message(msg, repo);
                r.push(
                    Delivery {
                        target: Target::Channel(channel),
                        message: text,
                        attachments: copy_attachments(attachments),
                    },
                );
                proof {
                    assert(r.deep_view() =~= self.channel_deliveries(msg@, attachments@, repo@));
                }
            },
            None => {
                proof {
                    assert(r.deep_view() =~= self.channel_deliveries(msg@, attachments@, repo@));
                }
            },
        }
        r
    }
}

/// Whether a delivery goes to a direct reference the mute filter admits.
pub open spec fn unmuted_direct(d: DeliveryView) -> bool {
    match d.target {
        TargetView::Direct(t) => !is_muted_ref(t),
        TargetView::Channel(_) => false,
    }
}

/// Law: the mute filter is total over a dispatch — every delivery a
/// direct plan owes goes to a direct reference that is not the opt-out
/// sentinel.
pub proof fn lemma_direct_plan_unmuted(
    dir: Seq<UserEntry>,
    logins: Seq<Seq<char>>,
    repo_name: Seq<char>,
    msg: Seq<char>,
    atts: Seq<Attachment>,
)
    ensures
        forall|i: int|
            0 <= i < direct_plan(dir, logins, repo_name, msg, atts).len() ==> unmuted_direct(
                #[trigger] direct_plan(dir, logins, repo_name, msg, atts)[i],
            ),
    decreases logins.len(),
{
    if logins.len() > 0 {
        lemma_direct_plan_unmuted(dir, logins.drop_last(), repo_name, msg, atts);
        let rest = direct_plan(dir, logins.drop_last(), repo_name, msg, atts);
        let plan = direct_plan(dir, logins, repo_name, msg, atts);
        assert forall|i: int| 0 <= i < plan.len() implies unmuted_direct(plan[i]) by {
            if i < rest.len() {
                assert(plan[i] == rest[i]);
            }
        }
    }
}

/// Law: mute suppression. When the directory resolves the opt-out
/// sentinel for a login, no delivery of the dispatch goes to that
/// resolved reference — the send is skipped, never redirected.
pub proof fn lemma_mute_suppresses(
    dir: Seq<UserEntry>,
    logins: Seq<Seq<char>>,
    repo_name: Seq<char>,
    msg: Seq<char>,
    atts: Seq<Attachment>,
    login: Seq<char>,
)
    requires
        is_muted_ref(direct_ref(dir, login, repo_name)),
    ensures
        forall|i: int|
            0 <= i < direct_plan(dir, logins, repo_name, msg, atts).len()
                ==> (#[trigger] direct_plan(dir, logins, repo_name, msg, atts)[i]).target
                != TargetView::Direct(direct_ref(dir, login, repo_name)),
{
    lemma_direct_plan_unmuted(dir, logins, repo_name, msg, atts);
}

/// Law: mute suppression over a whole dispatch. When the directory
/// resolves the opt-out sentinel for a login, no delivery `send_to_all`
/// owes — channel delivery included — goes to that resolved reference.
pub proof fn lemma_mute_suppresses_dispatch(
    m: &SlackMessenger,
    msg: Seq<char>,
    atts: Seq<Attachment>,
    owner: Seq<char>,
    sender: Option<Seq<char>>,
    repo: RepoView,
    assignees: Seq<Seq<char>>,
    login: Seq<char>,
)
    requires
        is_muted_ref(direct_ref(m.config.users@, login, repo.full_name)),
    ensures
        forall|i: int|
            0 <= i < m.all_deliveries(msg, atts, owner, sender, repo, assignees).len()
                ==> (#[trigger] m.all_deliveries(msg, atts, owner, sender, repo, assignees)[i]).target
                != TargetView::Direct(direct_ref(m.config.users@, login, repo.full_name)),
{
    let chan = m.channel_deliveries(msg, atts, repo);
    let logins = resolved_logins(owner, sender, assignees, m.config.bot_login@);
    let direct = direct_plan(m.config.users@, logins, repo.full_name, msg, atts);
    lemma_mute_suppresses(m.config.users@, logins, repo.full_name, msg, atts, login);
    assert forall|i: int|
        0 <= i < m.all_deliveries(msg, atts, owner, sender, repo, assignees).len() implies (
    m.all_deliveries(msg, atts, owner, sender, repo, assignees)[i]).target != TargetView::Direct(
        direct_ref(m.config.users@, login, repo.full_name),
    ) by {
        if i >= chan.len() {
            assert(m.all_deliveries(msg, atts, owner, sender, repo, assignees)[i] == direct[i
                - chan.len()]);
        }
    }
}

/// Law: a self-event reaches only the channel. When the sender is the
/// owner and the owner's login is the only assignee login listed,
/// `send_to_all` owes exactly the channel deliveries and nothing else.
pub proof fn lemma_self_event_only_channel(
    m: &SlackMessenger,
    msg: Seq<char>,
    atts: Seq<Attachment>,
    owner: Seq<char>,
    repo: RepoView,
    assignees: Seq<Seq<char>>,
)
    requires
        forall|i: int| 0 <= i < assignees.len() ==> assignees[i] == owner,
    ensures
        m.all_deliveries(msg, atts, owner, Some(owner), repo, assignees) == m.channel_deliveries(
            msg,
            atts,
            repo,
        ),
{
    lemma_full_self_exclusion(owner, assignees, m.config.bot_login@);
    assert(m.all_deliveries(msg, atts, owner, Some(owner), repo, assignees) =~= m.channel_deliveries(
        msg,
        atts,
        repo,
    ));
}

} // verus!
