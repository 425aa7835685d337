use vstd::prelude::*;
use vstd::string::*;

use crate::comment::{opt_clone, opt_str_view, opt_string_view, Comment};

verus! {

/// A comment as posted by a client.
#[derive(Clone, Debug)]
pub struct CommentPostDoc {
    pub path: String,
    pub text: String,
    pub author_name: Option<String>,
    pub author_email: Option<String>,
}

/// The fields of a comment that readers are shown: neither the identifier,
/// nor the e-mail address, nor the raw text.
#[derive(Clone, Debug)]
pub struct CommentDisplayDoc {
    pub idh: u64,
    pub timestamp: i64,
    pub path: String,
    pub text_html: String,
    pub author_name: Option<String>,
    pub author_gravatar: String,
}

fn opt_as_str(o: &Option<String>) -> (r: Option<&str>)
    ensures
        opt_str_view(r) == opt_string_view(*o),
{
    match o {
        Some(s) => Some(s.as_str()),
        None => None,
    }
}

impl CommentPostDoc {
    /// A new comment, made now, from the posted fields.
    pub fn to_comment(&self) -> (r: Comment)
        ensures
            r.is_made_from(
                r.id,
                r.timestamp,
                self.path@,
                self.text@,
                opt_string_view(self.author_name),
                opt_string_view(self.author_email),
            ),
    {
        Comment::new(
            self.path.as_str(),
            self.text.as_str(),
            opt_as_str(&self.author_name),
            opt_as_str(&self.author_email),
        )
    }
}

/// A posted comment is kept only if its rendered text shows something.
pub fn has_visible_text(comment: &Comment) -> (r: bool)
    ensures
        r == (comment.content_html@.len() > 0),
{
    comment.content_html.as_str().unicode_len() > 0
}

impl CommentDisplayDoc {
    pub fn from_comment(comment: &Comment) -> (r: CommentDisplayDoc)
        ensures
            r.idh == comment.idh,
            r.timestamp == comment.timestamp,
            r.path == comment.path,
            r.text_html == comment.content_html,
            r.author_name == comment.author_name,
            r.author_gravatar == comment.author_gravatar,
    {
        CommentDisplayDoc {
            idh: comment.idh,
            timestamp: comment.timestamp,
            path: comment.path.clone(),
            text_html: comment.content_html.clone(),
            author_name: opt_clone(&comment.author_name),
            author_gravatar: comment.author_gravatar.clone(),
        }
    }
}

} // verus!
