use notify_router::directory::{Config, RepoChannels, UserDirectory};
use notify_router::messenger::{from_config, make_link, Messenger, SlackMessenger};
use notify_router::recipients::resolve_recipients;
use notify_router::types::{Attachment, Delivery, Repo, Target, User};

fn user(login: &str) -> User {
    User { login: String::from(login) }
}

fn repo() -> Repo {
    Repo {
        full_name: String::from("org/proj"),
        html_url: String::from("https://example.com/org/proj"),
    }
}

fn note(title: &str) -> Attachment {
    Attachment {
        title: String::from(title),
        text: String::from("details"),
        color: String::from("#36a64f"),
    }
}

fn empty_config() -> Config {
    Config {
        repos: RepoChannels::new(),
        users: UserDirectory::new(),
        bot_login: String::from("octobot"),
        slack_webhook_url: String::from("https://example.com/hook"),
    }
}

fn config_with_channel() -> Config {
    let mut c = empty_config();
    c.repos
        .add_channel(String::from("org/proj"), String::from("#eng"));
    c
}

fn logins(users: &[User]) -> Vec<String> {
    users.iter().map(|u| u.login.clone()).collect()
}

fn target_channel(d: &Delivery) -> &str {
    match &d.target {
        Target::Channel(c) => c.as_str(),
        Target::Direct(_) => panic!("expected a channel target"),
    }
}

fn target_direct(d: &Delivery) -> &str {
    match &d.target {
        Target::Direct(r) => r.as_str(),
        Target::Channel(_) => panic!("expected a direct target"),
    }
}

#[test]
fn resolver_keeps_owner_first_and_dedups() {
    let assignees = vec![user("alice"), user("carol"), user("carol"), user("alice")];
    let r = resolve_recipients(&user("alice"), None, &assignees, &String::from("octobot"));
    assert_eq!(logins(&r), vec![String::from("alice"), String::from("carol")]);
}

#[test]
fn resolver_excludes_sender() {
    let assignees = vec![user("bob"), user("carol")];
    let r = resolve_recipients(
        &user("alice"),
        Some(&user("bob")),
        &assignees,
        &String::from("octobot"),
    );
    assert_eq!(logins(&r), vec![String::from("alice"), String::from("carol")]);
}

#[test]
fn resolver_excludes_service_account() {
    let assignees = vec![user("octobot"), user("carol")];
    let r = resolve_recipients(&user("octobot"), None, &assignees, &String::from("octobot"));
    assert_eq!(logins(&r), vec![String::from("carol")]);
}

#[test]
fn resolver_full_self_exclusion_is_empty() {
    let assignees = vec![user("alice")];
    let r = resolve_recipients(
        &user("alice"),
        Some(&user("alice")),
        &assignees,
        &String::from("octobot"),
    );
    assert!(r.is_empty());
}

#[test]
fn resolver_absent_sender_skips_suppression() {
    let r = resolve_recipients(&user("alice"), None, &Vec::new(), &String::from("octobot"));
    assert_eq!(logins(&r), vec![String::from("alice")]);
}

#[test]
fn mention_prefixes_login() {
    let m = notify_router::directory::mention("alice");
    assert_eq!(m.as_str(), "@alice");
}

#[test]
fn link_renders_address_and_name() {
    let l = make_link("https://example.com/org/proj", "org/proj");
    assert_eq!(l.as_str(), "<https://example.com/org/proj|org/proj>");
}

#[test]
fn lookup_channel_finds_configured_repo() {
    let c = config_with_channel();
    let found = c.repos.lookup_channel(&repo());
    assert_eq!(found.as_deref(), Some("#eng"));
}

#[test]
fn lookup_channel_absent_is_none() {
    let c = empty_config();
    assert!(c.repos.lookup_channel(&repo()).is_none());
}

#[test]
fn direct_target_defaults_to_mention() {
    let c = empty_config();
    let r = c
        .users
        .resolve_direct_target(&String::from("alice"), &repo());
    assert_eq!(r.as_str(), "@alice");
}

#[test]
fn direct_target_uses_configured_reference() {
    let mut c = empty_config();
    c.users.add_user(
        String::from("alice"),
        String::from("org/proj"),
        String::from("@alice-work"),
    );
    let r = c
        .users
        .resolve_direct_target(&String::from("alice"), &repo());
    assert_eq!(r.as_str(), "@alice-work");
}

#[test]
fn direct_target_is_scoped_to_the_repository() {
    let mut c = empty_config();
    c.users.add_user(
        String::from("alice"),
        String::from("other/repo"),
        String::from("@alice-work"),
    );
    let r = c
        .users
        .resolve_direct_target(&String::from("alice"), &repo());
    assert_eq!(r.as_str(), "@alice");
}

#[test]
fn muted_reference_yields_no_delivery() {
    let m = from_config(empty_config());
    let r = m.send_to_slack(&String::from("DO NOT DISTURB"), "hi", &Vec::new());
    assert!(r.is_none());
}

#[test]
fn muted_mention_form_yields_no_delivery() {
    let m = from_config(empty_config());
    let r = m.send_to_slack(&String::from("@DO NOT DISTURB"), "hi", &Vec::new());
    assert!(r.is_none());
}

#[test]
fn unmuted_reference_is_delivered_unchanged() {
    let m = from_config(empty_config());
    let atts = vec![note("opened")];
    let d = m
        .send_to_slack(&String::from("@carol"), "hi", &atts)
        .expect("delivery owed");
    assert_eq!(target_direct(&d), "@carol");
    assert_eq!(d.message.as_str(), "hi");
    assert_eq!(d.attachments.len(), 1);
    assert_eq!(d.attachments[0].title.as_str(), "opened");
    assert_eq!(d.attachments[0].text.as_str(), "details");
    assert_eq!(d.attachments[0].color.as_str(), "#36a64f");
}

#[test]
fn channel_send_appends_link_and_keeps_message() {
    let m = from_config(config_with_channel());
    let msg = "pull request opened";
    let r = m.send_to_channel(msg, &Vec::new(), &repo());
    assert_eq!(r.len(), 1);
    assert_eq!(target_channel(&r[0]), "#eng");
    assert_eq!(
        r[0].message.as_str(),
        "pull request opened (<https://example.com/org/proj|org/proj>)"
    );
    assert_eq!(msg, "pull request opened");
}

#[test]
fn channel_send_without_channel_is_silent() {
    let m = from_config(empty_config());
    let r = m.send_to_channel("hi", &Vec::new(), &repo());
    assert!(r.is_empty());
}

#[test]
fn all_notifies_channel_owner_and_assignee() {
    let m = from_config(config_with_channel());
    let assignees = vec![user("alice"), user("carol")];
    let r = m.send_to_all(
        "hi",
        &vec![note("opened")],
        &user("alice"),
        Some(&user("bob")),
        &repo(),
        &assignees,
    );
    assert_eq!(r.len(), 3);
    assert_eq!(target_channel(&r[0]), "#eng");
    assert_eq!(
        r[0].message.as_str(),
        "hi (<https://example.com/org/proj|org/proj>)"
    );
    assert_eq!(target_direct(&r[1]), "@alice");
    assert_eq!(r[1].message.as_str(), "hi");
    assert_eq!(target_direct(&r[2]), "@carol");
    for d in &r {
        assert_eq!(d.attachments.len(), 1);
        assert_eq!(d.attachments[0].title.as_str(), "opened");
    }
}

#[test]
fn all_without_channel_reaches_owner_only() {
    let m = from_config(empty_config());
    let r = m.send_to_all(
        "hi",
        &Vec::new(),
        &user("alice"),
        None,
        &repo(),
        &Vec::new(),
    );
    assert_eq!(r.len(), 1);
    assert_eq!(target_direct(&r[0]), "@alice");
}

#[test]
fn self_event_reaches_only_the_channel() {
    let m = from_config(config_with_channel());
    let assignees = vec![user("alice")];
    let r = m.send_to_all(
        "hi",
        &Vec::new(),
        &user("alice"),
        Some(&user("alice")),
        &repo(),
        &assignees,
    );
    assert_eq!(r.len(), 1);
    assert_eq!(target_channel(&r[0]), "#eng");
}

#[test]
fn owner_send_reaches_channel_then_owner() {
    let m = from_config(config_with_channel());
    let r = m.send_to_owner("hi", &Vec::new(), &user("alice"), &repo());
    assert_eq!(r.len(), 2);
    assert_eq!(target_channel(&r[0]), "#eng");
    assert_eq!(target_direct(&r[1]), "@alice");
}

#[test]
fn muted_owner_still_gets_channel_message() {
    let mut c = config_with_channel();
    c.users.add_user(
        String::from("alice"),
        String::from("org/proj"),
        String::from("DO NOT DISTURB"),
    );
    let m = from_config(c);
    let r = m.send_to_owner("hi", &Vec::new(), &user("alice"), &repo());
    assert_eq!(r.len(), 1);
    assert_eq!(target_channel(&r[0]), "#eng");
}

#[test]
fn muted_assignee_is_skipped_silently() {
    let mut c = config_with_channel();
    c.users.add_user(
        String::from("carol"),
        String::from("org/proj"),
        String::from("@DO NOT DISTURB"),
    );
    let m = from_config(c);
    let assignees = vec![user("carol"), user("dave")];
    let r = m.send_to_all(
        "hi",
        &Vec::new(),
        &user("alice"),
        Some(&user("bob")),
        &repo(),
        &assignees,
    );
    assert_eq!(r.len(), 3);
    assert_eq!(target_channel(&r[0]), "#eng");
    assert_eq!(target_direct(&r[1]), "@alice");
    assert_eq!(target_direct(&r[2]), "@dave");
}

#[test]
fn batch_resolution_applies_mute_filter() {
    let mut c = empty_config();
    c.users.add_user(
        String::from("alice"),
        String::from("org/proj"),
        String::from("DO NOT DISTURB"),
    );
    let m: SlackMessenger = from_config(c);
    let r = m.send_to_slackbots(
        vec![user("alice"), user("carol")],
        &repo(),
        "hi",
        &Vec::new(),
    );
    assert_eq!(r.len(), 1);
    assert_eq!(target_direct(&r[0]), "@carol");
}

#[test]
fn from_config_keeps_the_configuration() {
    let m = from_config(config_with_channel());
    assert_eq!(m.config.bot_login.as_str(), "octobot");
    assert_eq!(
        m.config.slack_webhook_url.as_str(),
        "https://example.com/hook"
    );
    assert_eq!(m.config.repos.entries.len(), 1);
}
