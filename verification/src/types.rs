//! Core data carried through a dispatch: users, repositories, attachments,
//! and the deliveries that a dispatch produces.

use vstd::prelude::*;

verus! {

/// A user of the source-control system. The login is a case-sensitive,
/// stable identity key; no other attribute matters to the router.
pub struct User {
    pub login: String,
}

impl View for User {
    type V = Seq<char>;

    open spec fn view(&self) -> Seq<char> {
        self.login@
    }
}

impl DeepView for User {
    type V = Seq<char>;

    open spec fn deep_view(&self) -> Seq<char> {
        self.login@
    }
}

impl Clone for User {
    fn clone(&self) -> (res: User)
        ensures
            res == *self,
    {
        User { login: self.login.clone() }
    }
}

/// A repository, used only as a lookup key and for rendering a link
/// into the channel message; never mutated.
pub struct Repo {
    pub full_name: String,
    pub html_url: String,
}

/// The mathematical value of a `Repo`.
pub struct RepoView {
    pub full_name: Seq<char>,
    pub html_url: Seq<char>,
}

impl View for Repo {
    type V = RepoView;

    open spec fn view(&self) -> RepoView {
        RepoView { full_name: self.full_name@, html_url: self.html_url@ }
    }
}

impl Clone for Repo {
    fn clone(&self) -> (res: Repo)
        ensures
            res == *self,
    {
        Repo { full_name: self.full_name.clone(), html_url: self.html_url.clone() }
    }
}

/// An opaque structured payload delivered alongside a message.
/// The router never inspects an attachment; it passes the whole
/// sequence through unchanged to every target.
pub struct Attachment {
    pub title: String,
    pub text: String,
    pub color: String,
}

impl Clone for Attachment {
    fn clone(&self) -> (res: Attachment)
        ensures
            res == *self,
    {
        Attachment { title: self.title.clone(), text: self.text.clone(), color: self.color.clone() }
    }
}

/// A delivery target: either the shared channel of a repository or a
/// resolved per-user direct-message reference.
pub enum Target {
    Channel(String),
    Direct(String),
}

/// The mathematical value of a `Target`.
pub enum TargetView {
    Channel(Seq<char>),
    Direct(Seq<char>),
}

impl DeepView for Target {
    type V = TargetView;

    open spec fn deep_view(&self) -> TargetView {
        match self {
            Target::Channel(c) => TargetView::Channel(c@),
            Target::Direct(d) => TargetView::Direct(d@),
        }
    }
}

/// One outbound send: a message and its attachments bound for one target.
/// A dispatch operation returns the complete batch of deliveries it owes;
/// performing them is the sink's business, not the router's.
pub struct Delivery {
    pub target: Target,
    pub message: String,
    pub attachments: Vec<Attachment>,
}

/// The mathematical value of a `Delivery`. Attachments are opaque to the
/// router, so they appear here as the unchanged sequence of values.
pub struct DeliveryView {
    pub target: TargetView,
    pub message: Seq<char>,
    pub attachments: Seq<Attachment>,
}

impl DeepView for Delivery {
    type V = DeliveryView;

    open spec fn deep_view(&self) -> DeliveryView {
        DeliveryView {
            target: self.target.deep_view(),
            message: self.message@,
            attachments: self.attachments@,
        }
    }
}

/// Copies an attachment batch so that each delivery owns its payload.
pub fn copy_attachments(v: &Vec<Attachment>) -> (r: Vec<Attachment>)
    ensures
        r@ == v@,
{
    let mut r: Vec<Attachment> = Vec::new();
    let mut i: usize = 0;
    while i < v.len()
        invariant
            i <= v.len(),
            r@ == v@.take(i as int),
        decreases v.len() - i,
    {
        r.push(v[i].clone());
        proof {
            assert(r@ =~= v@.take(i as int + 1));
        }
        i = i + 1;
    }
    proof {
        assert(v@.take(v@.len() as int) =~= v@);
    }
    r
}

} // verus!
