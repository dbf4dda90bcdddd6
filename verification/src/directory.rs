//! The directory: per-repository channel configuration and per-user
//! direct-message references. Lookups are pure; absence of configuration
//! is ordinary, not an error.

use vstd::prelude::*;
use vstd::string::StringExecFns;
use crate::types::Repo;

verus! {

/// The "@"-prefixed mention form of a name.
pub open spec fn mention_of(name: Seq<char>) -> Seq<char> {
    seq!['@'] + name
}

/// Renders the "@"-prefixed mention form of a name.
pub fn mention(name: &str) -> (r: String)
    ensures
        r@ == mention_of(name@),
{
    proof {
        reveal_strlit("@");
    }
    let mut s = String::from_str("@");
    s.append(name);
    proof {
        assert(s@ =~= mention_of(name@));
    }
    s
}

/// One row of channel configuration: a repository full name and the
/// channel configured for it.
pub struct ChannelEntry {
    pub repo_name: String,
    pub channel: String,
}

/// Per-repository channel configuration.
pub struct RepoChannels {
    pub entries: Vec<ChannelEntry>,
}

impl View for RepoChannels {
    type V = Seq<ChannelEntry>;

    open spec fn view(&self) -> Seq<ChannelEntry> {
        self.entries@
    }
}

/// The channel configured for a repository: the first entry whose
/// repository name matches, if any.
pub open spec fn channel_for(entries: Seq<ChannelEntry>, repo_name: Seq<char>) -> Option<
    Seq<char>,
>
    decreases entries.len(),
{
    if entries.len() == 0 {
        None
    } else if entries[0].repo_name@ == repo_name {
        Some(entries[0].channel@)
    } else {
        channel_for(entries.drop_first(), repo_name)
    }
}

impl RepoChannels {
    /// An empty channel configuration.
    pub fn new() -> (r: RepoChannels)
        ensures
            r@ == Seq::<ChannelEntry>::empty(),
    {
        RepoChannels { entries: Vec::new() }
    }

    /// Appends a channel configuration row for a repository.
    pub fn add_channel(&mut self, repo_name: String, channel: String)
        ensures
            final(self)@ == old(self)@.push(ChannelEntry { repo_name, channel }),
    {
        self.entries.push(ChannelEntry { repo_name, channel });
    }

    /// Looks up the channel configured for a repository, if any.
    /// Absence means "no configured channel", not an error.
    pub fn lookup_channel(&self, repo: &Repo) -> (r: Option<String>)
        ensures
            r.deep_view() == channel_for(self@, repo.full_name@),
    {
        let mut i: usize = 0;
        proof {
            assert(self@.skip(0) =~= self@);
        }
        while i < self.entries.len()
            invariant
                i <= self.entries.len(),
                channel_for(self@, repo.full_name@) == channel_for(
                    self@.skip(i as int),
                    repo.full_name@,
                ),
            decreases self.entries.len() - i,
        {
            proof {
                assert(self@.skip(i as int)[0] == self@[i as int]);
            }
            let e = &self.entries[i];
            if e.repo_name == repo.full_name {
                return Some(e.channel.clone());
            }
            proof {
                assert(self@.skip(i as int).drop_first() =~= self@.skip(i as int + 1));
            }
            i = i + 1;
        }
        None
    }
}

/// One row of user configuration: a login, a repository full name, and
/// the direct-message reference configured for that pair.
pub struct UserEntry {
    pub login: String,
    pub repo_name: String,
    pub slack_ref: String,
}

/// Per-user direct-message configuration.
pub struct UserDirectory {
    pub entries: Vec<UserEntry>,
}

impl View for UserDirectory {
    type V = Seq<UserEntry>;

    open spec fn view(&self) -> Seq<UserEntry> {
        self.entries@
    }
}

/// The direct reference configured for a login in a repository: the first
/// entry matching both, if any.
pub open spec fn ref_for(entries: Seq<UserEntry>, login: Seq<char>, repo_name: Seq<char>) -> Option<
    Seq<char>,
>
    decreases entries.len(),
{
    if entries.len() == 0 {
        None
    } else if entries[0].login@ == login && entries[0].repo_name@ == repo_name {
        Some(entries[0].slack_ref@)
    } else {
        ref_for(entries.drop_first(), login, repo_name)
    }
}

/// What resolving a direct target returns: the configured reference, or,
/// with no configuration, a best-effort default derived from the login.
pub open spec fn direct_ref(entries: Seq<UserEntry>, login: Seq<char>, repo_name: Seq<char>) -> Seq<
    char,
> {
    match ref_for(entries, login, repo_name) {
        Some(r) => r,
        None => mention_of(login),
    }
}

impl UserDirectory {
    /// An empty user configuration.
    pub fn new() -> (r: UserDirectory)
        ensures
            r@ == Seq::<UserEntry>::empty(),
    {
        UserDirectory { entries: Vec::new() }
    }

    /// Appends a user configuration row.
    pub fn add_user(&mut self, login: String, repo_name: String, slack_ref: String)
        ensures
            final(self)@ == old(self)@.push(UserEntry { login, repo_name, slack_ref }),
    {
        self.entries.push(UserEntry { login, repo_name, slack_ref });
    }

    /// Resolves the direct-message reference for a login in a repository.
    /// Never fails: without configuration it falls back to the login's
    /// mention form.
    pub fn resolve_direct_target(&self, login: &String, repo: &Repo) -> (r: String)
        ensures
            r@ == direct_ref(self@, login@, repo.full_name@),
    {
        let mut i: usize = 0;
        proof {
            assert(self@.skip(0) =~= self@);
        }
        while i < self.entries.len()
            invariant
                i <= self.entries.len(),
                ref_for(self@, login@, repo.full_name@) == ref_for(
                    self@.skip(i as int),
                    login@,
                    repo.full_name@,
                ),
            decreases self.entries.len() - i,
        {
            proof {
                assert(self@.skip(i as int)[0] == self@[i as int]);
            }
            let e = &self.entries[i];
            if e.login == *login && e.repo_name == repo.full_name {
                return e.slack_ref.clone();
            }
            proof {
                assert(self@.skip(i as int).drop_first() =~= self@.skip(i as int + 1));
            }
            i = i + 1;
        }
        mention(login.as_str())
    }
}

/// Configuration the messenger is built from: the two directories, the
/// reserved service-account login, and the webhook the sink posts to.
pub struct Config {
    pub repos: RepoChannels,
    pub users: UserDirectory,
    pub bot_login: String,
    pub slack_webhook_url: String,
}

} // verus!
