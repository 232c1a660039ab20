//! The bearer token: found in the reply of the token endpoint.

use vstd::prelude::*;
use vstd::string::*;
use crate::error::FeedError;
use crate::json::{json_parsed, json_tree, member, parse_document, text_of, tree_member, JsonTree};

verus! {

/// What the request to the token endpoint came to.
#[derive(Clone, Debug, PartialEq, Eq)]
pub enum HttpReply {
    /// No answer: the request failed or timed out.
    Failed,
    /// An answer, with its status code and body.
    Answered { status: u16, body: String },
}

/// What a reply holds, the body taken as a sequence of characters.
pub enum HttpReplyView {
    Failed,
    Answered { status: u16, body: Seq<char> },
}

impl View for HttpReply {
    type V = HttpReplyView;

    open spec fn view(&self) -> HttpReplyView {
        match *self {
            HttpReply::Failed => HttpReplyView::Failed,
            HttpReply::Answered { status, body } => HttpReplyView::Answered { status, body: body@ },
        }
    }
}

/// Whether a status code reports success.
pub open spec fn is_success(status: u16) -> bool {
    200 <= status <= 299
}

/// The text under `data.token`, where there is one.
pub open spec fn token_in(tree: JsonTree) -> Option<Seq<char>> {
    match tree_member(tree, "data"@) {
        Some(data) => match tree_member(data, "token"@) {
            Some(JsonTree::Text(token)) => Some(token),
            _ => None,
        },
        None => None,
    }
}

/// The token of a document: the text under `data.token` if it is not empty,
/// else a protocol error.
pub open spec fn token_of_document(tree: JsonTree) -> Result<Seq<char>, FeedError> {
    match token_in(tree) {
        Some(token) => if token.len() > 0 {
            Ok(token)
        } else {
            Err(FeedError::Protocol)
        },
        None => Err(FeedError::Protocol),
    }
}

/// The token of a body, given what the body parses to: a body that is no
/// JSON counts as a failed transport.
pub open spec fn token_of_body(parsed: Option<JsonTree>) -> Result<Seq<char>, FeedError> {
    match parsed {
        Some(tree) => token_of_document(tree),
        None => Err(FeedError::Transport),
    }
}

/// The token of a reply, given what its body parses to: only an answer with
/// a success status is read.
pub open spec fn token_of_reply(reply: HttpReplyView, parsed: Option<JsonTree>) -> Result<
    Seq<char>,
    FeedError,
> {
    match reply {
        HttpReplyView::Failed => Err(FeedError::Transport),
        HttpReplyView::Answered { status, body } => if is_success(status) {
            token_of_body(parsed)
        } else {
            Err(FeedError::Transport)
        },
    }
}

/// The body of a reply, empty where there was no answer.
pub open spec fn body_of(reply: HttpReplyView) -> Seq<char> {
    match reply {
        HttpReplyView::Failed => Seq::empty(),
        HttpReplyView::Answered { status, body } => body,
    }
}

/// An outcome that holds a text, the text taken as a sequence of characters.
pub open spec fn text_outcome(outcome: Result<String, FeedError>) -> Result<Seq<char>, FeedError> {
    match outcome {
        Ok(text) => Ok(text@),
        Err(error) => Err(error),
    }
}

/// Two answers with a success status and the same body give the same token
/// or the same error.
pub proof fn lemma_same_body_same_token(first: HttpReplyView, second: HttpReplyView)
    requires
        first matches HttpReplyView::Answered { status, .. } && is_success(status),
        second matches HttpReplyView::Answered { status, .. } && is_success(status),
        body_of(first) == body_of(second),
    ensures
        token_of_reply(first, json_parsed(body_of(first))) == token_of_reply(
            second,
            json_parsed(body_of(second)),
        ),
        token_of_reply(first, json_parsed(body_of(first))) == token_of_body(
            json_parsed(body_of(first)),
        ),
{
}

/// Finds the token in a parsed body.
pub fn token_from_document(doc: &serde_json::Value) -> (res: Result<String, FeedError>)
    ensures
        text_outcome(res) == token_of_document(json_tree(*doc)),
{
    let data = match member(doc, "data") {
        Some(data) => data,
        None => { return Err(FeedError::Protocol); },
    };
    let field = match member(data, "token") {
        Some(field) => field,
        None => { return Err(FeedError::Protocol); },
    };
    let token = match text_of(field) {
        Some(token) => token,
        None => { return Err(FeedError::Protocol); },
    };
    if token.unicode_len() == 0 {
        return Err(FeedError::Protocol);
    }
    Ok(String::from_str(token))
}

/// Finds the token in the body of an answer. The outcome depends on the body
/// alone: the same body always gives the same token.
pub fn token_from_body(body: &str) -> (res: Result<String, FeedError>)
    ensures
        text_outcome(res) == token_of_body(json_parsed(body@)),
{
    match parse_document(body) {
        Ok(doc) => token_from_document(&doc),
        Err(_) => Err(FeedError::Transport),
    }
}

/// Takes the token from the reply of the token endpoint: a transport error
/// where there was no answer or no success status, a protocol error where
/// the answer holds no token.
pub fn get_token(reply: &HttpReply) -> (res: Result<String, FeedError>)
    ensures
        text_outcome(res) == token_of_reply(reply@, json_parsed(body_of(reply@))),
        res matches Ok(token) ==> token@.len() > 0,
{
    match reply {
        HttpReply::Failed => Err(FeedError::Transport),
        HttpReply::Answered { status, body } => {
            if 200 <= *status && *status <= 299 {
                token_from_body(body.as_str())
            } else {
                Err(FeedError::Transport)
            }
        },
    }
}

} // verus!
