//! The reply boundary: what one outbound reply consists of.
//!
//! Sending is the hosting binary's job; the library only decides what is
//! sent. A reply is plain text, optionally with @-mention expansion
//! restricted to the invoking user, which prevents mention-spam when a reply
//! echoes user-supplied content.

use vstd::prelude::*;

verus! {

/// The body of one outbound reply.
#[derive(Clone, Debug, PartialEq, Eq)]
pub enum MessageContent {
    /// Plain text.
    Simple(String),
    /// Plain text whose @-mention expansion is restricted to the invoking
    /// user.
    SimpleRestrictedMention(String),
}

impl MessageContent {
    /// The text of the reply.
    pub open spec fn spec_text(self) -> Seq<char> {
        match self {
            MessageContent::Simple(s) => s@,
            MessageContent::SimpleRestrictedMention(s) => s@,
        }
    }

    pub fn text(&self) -> (r: &String)
        ensures
            r@ == self.spec_text(),
    {
        match self {
            MessageContent::Simple(s) => s,
            MessageContent::SimpleRestrictedMention(s) => s,
        }
    }

    /// Whether the reply restricts @-mention expansion to the invoking user.
    pub fn restricts_mentions(&self) -> (r: bool)
        ensures
            r <==> self is SimpleRestrictedMention,
    {
        match self {
            MessageContent::Simple(_) => false,
            MessageContent::SimpleRestrictedMention(_) => true,
        }
    }
}

} // verus!
