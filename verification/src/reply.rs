use vstd::prelude::*;
use vstd::string::*;

use crate::models::user_model::{Access, AccessView};
use crate::status::Status;

verus! {

/// The `token` cookie (path `/`) that carries a session token to the client.
pub struct TokenCookie {
    pub token: String,
    pub secure: bool,
    pub http_only: bool,
}

/// Abstract value of [`TokenCookie`].
pub struct CookieView {
    pub token: Seq<char>,
    pub secure: bool,
    pub http_only: bool,
}

impl View for TokenCookie {
    type V = CookieView;

    open spec fn view(&self) -> CookieView {
        CookieView { token: self.token@, secure: self.secure, http_only: self.http_only }
    }
}

/// The body of a reply.
pub enum Body {
    /// No body at all.
    Empty,
    /// A plain-text body.
    Text(String),
    /// A string, sent as JSON.
    JsonText(String),
    /// A set of permissions, sent as JSON.
    JsonAccess(Access),
    /// What the store handed back for this request (the write outcome, the
    /// document or the list of documents it found), sent as JSON.
    JsonResult,
}

/// Abstract value of [`Body`].
pub enum BodyView {
    Empty,
    Text(Seq<char>),
    JsonText(Seq<char>),
    JsonAccess(AccessView),
    JsonResult,
}

impl View for Body {
    type V = BodyView;

    open spec fn view(&self) -> BodyView {
        match self {
            Body::Empty => BodyView::Empty,
            Body::Text(t) => BodyView::Text(t@),
            Body::JsonText(t) => BodyView::JsonText(t@),
            Body::JsonAccess(a) => BodyView::JsonAccess(a@),
            Body::JsonResult => BodyView::JsonResult,
        }
    }
}

/// A reply to a request.
pub struct Reply {
    pub status: Status,
    pub cookie: Option<TokenCookie>,
    pub body: Body,
}

/// Abstract value of [`Reply`].
pub struct ReplyView {
    pub status: Status,
    pub cookie: Option<CookieView>,
    pub body: BodyView,
}

/// Abstract value of an optional cookie.
pub open spec fn cookie_view(c: Option<TokenCookie>) -> Option<CookieView> {
    match c {
        Some(k) => Some(k@),
        None => None,
    }
}

impl View for Reply {
    type V = ReplyView;

    open spec fn view(&self) -> ReplyView {
        ReplyView { status: self.status, cookie: cookie_view(self.cookie), body: self.body@ }
    }
}

/// A reply with a status only: no cookie, no body.
pub open spec fn bare(s: Status) -> ReplyView {
    ReplyView { status: s, cookie: None, body: BodyView::Empty }
}

/// A reply with a plain-text body.
pub open spec fn text(s: Status, c: Option<CookieView>, t: Seq<char>) -> ReplyView {
    ReplyView { status: s, cookie: c, body: BodyView::Text(t) }
}

/// A reply that sends back, as JSON, what the store returned.
pub open spec fn json_result(s: Status, c: Option<CookieView>) -> ReplyView {
    ReplyView { status: s, cookie: c, body: BodyView::JsonResult }
}

/// What a step of a route asks for next.
pub enum Next<T> {
    /// Answer the request with this reply; the route is over.
    Reply(Reply),
    /// Carry out the outside work that this value describes, then take the next step.
    Go(T),
    /// The route cannot go on: the request fails without a reply, with this message.
    Abort(String),
}

/// The step answers the request with `v`.
pub open spec fn replies<T>(r: Next<T>, v: ReplyView) -> bool {
    r matches Next::Reply(rep) && rep@ == v
}

/// A reply with a status only.
pub fn reply_bare(s: Status) -> (r: Reply)
    ensures
        r@ == bare(s),
{
    Reply { status: s, cookie: None, body: Body::Empty }
}

/// A reply with a plain-text body.
pub fn reply_text(s: Status, c: Option<TokenCookie>, t: &str) -> (r: Reply)
    ensures
        r@ == text(s, cookie_view(c), t@),
{
    Reply { status: s, cookie: c, body: Body::Text(String::from_str(t)) }
}

/// A reply that sends back what the store returned.
pub fn reply_json_result(s: Status, c: Option<TokenCookie>) -> (r: Reply)
    ensures
        r@ == json_result(s, cookie_view(c)),
{
    Reply { status: s, cookie: c, body: Body::JsonResult }
}

/// The `token` cookie for a session token.
pub fn token_cookie(token: String, secure: bool, http_only: bool) -> (c: TokenCookie)
    ensures
        c@ == (CookieView { token: token@, secure, http_only }),
{
    TokenCookie { token, secure, http_only }
}

} // verus!
