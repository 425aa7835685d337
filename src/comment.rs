use vstd::prelude::*;

use crate::gravatar::{gravatar_url_for_email, gravatar_url_spec};
use crate::markdown::{html_of, md_to_html};
use crate::utils::{calculate_hash, id_fingerprint};

verus! {

/// One posted remark.
///
/// `id` is the 128-bit value of a random (version 4) UUID. `timestamp` counts
/// whole seconds since the Unix epoch: the creation time is truncated to the
/// second. `idh`, `author_gravatar` and `content_html` are derived from `id`,
/// `author_email` and `content` when the comment is made.
#[derive(Clone, Debug)]
pub struct Comment {
    pub id: u128,
    pub idh: u64,
    pub timestamp: i64,
    pub path: String,
    pub author_name: Option<String>,
    pub author_email: Option<String>,
    pub author_gravatar: String,
    pub content: String,
    pub content_html: String,
}

/// The characters of an optional borrowed string.
pub open spec fn opt_str_view(o: Option<&str>) -> Option<Seq<char>> {
    match o {
        Some(s) => Some(s@),
        None => None,
    }
}

/// The characters of an optional owned string.
pub open spec fn opt_string_view(o: Option<String>) -> Option<Seq<char>> {
    match o {
        Some(s) => Some(s@),
        None => None,
    }
}

fn opt_to_owned(o: Option<&str>) -> (r: Option<String>)
    ensures
        opt_string_view(r) == opt_str_view(o),
{
    match o {
        Some(s) => Some(s.to_owned()),
        None => None,
    }
}

/// A copy of an optional string.
pub fn opt_clone(o: &Option<String>) -> (r: Option<String>)
    ensures
        r == *o,
{
    match o {
        Some(s) => Some(s.clone()),
        None => None,
    }
}

/// Relies on `uuid::Uuid::new_v4` (random) and `Uuid::as_u128`; nothing is
/// known of the value.
#[verifier::external_body]
fn new_comment_id() -> (r: u128) {
    uuid::Uuid::new_v4().as_u128()
}

/// Relies on `chrono::Utc::now` and `DateTime::timestamp`, which gives whole
/// seconds since the Unix epoch; nothing is known of the clock's value.
#[verifier::external_body]
fn now_seconds() -> (r: i64) {
    chrono::Utc::now().timestamp()
}

impl Comment {
    /// The derived fields agree with the fields they are derived from.
    pub open spec fn is_derived(&self) -> bool {
        &&& self.idh == id_fingerprint(self.id)
        &&& self.author_gravatar@ == gravatar_url_spec(opt_string_view(self.author_email))
        &&& self.content_html@ == html_of(self.content@)
    }

    /// This comment is the one made from the given identity, time and
    /// caller-supplied fields.
    pub open spec fn is_made_from(
        &self,
        id: u128,
        timestamp: i64,
        path: Seq<char>,
        content: Seq<char>,
        author_name: Option<Seq<char>>,
        author_email: Option<Seq<char>>,
    ) -> bool {
        &&& self.id == id
        &&& self.timestamp == timestamp
        &&& self.path@ == path
        &&& self.content@ == content
        &&& opt_string_view(self.author_name) == author_name
        &&& opt_string_view(self.author_email) == author_email
        &&& self.is_derived()
    }

    /// Makes a comment from a given identifier and creation time, deriving the
    /// fingerprint, the avatar address and the rendered content.
    pub fn from_parts(
        id: u128,
        timestamp: i64,
        path: &str,
        content: &str,
        author_name: Option<&str>,
        author_email: Option<&str>,
    ) -> (r: Comment)
        ensures
            r.is_made_from(
                id,
                timestamp,
                path@,
                content@,
                opt_str_view(author_name),
                opt_str_view(author_email),
            ),
    {
        Comment {
            id,
            idh: calculate_hash(id),
            timestamp,
            path: path.to_owned(),
            author_name: opt_to_owned(author_name),
            author_email: opt_to_owned(author_email),
            author_gravatar: gravatar_url_for_email(author_email),
            content: content.to_owned(),
            content_html: md_to_html(content),
        }
    }

    /// Makes a new comment with a fresh random identifier, created now.
    pub fn new(path: &str, content: &str, author_name: Option<&str>, author_email: Option<&str>) -> (r:
        Comment)
        ensures
            r.is_made_from(
                r.id,
                r.timestamp,
                path@,
                content@,
                opt_str_view(author_name),
                opt_str_view(author_email),
            ),
    {
        let id = new_comment_id();
        let timestamp = now_seconds();
        Comment::from_parts(id, timestamp, path, content, author_name, author_email)
    }

    /// A copy of this comment.
    pub fn duplicate(&self) -> (r: Comment)
        ensures
            r == *self,
    {
        Comment {
            id: self.id,
            idh: self.idh,
            timestamp: self.timestamp,
            path: self.path.clone(),
            author_name: opt_clone(&self.author_name),
            author_email: opt_clone(&self.author_email),
            author_gravatar: self.author_gravatar.clone(),
            content: self.content.clone(),
            content_html: self.content_html.clone(),
        }
    }
}

} // verus!
