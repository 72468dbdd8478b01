//! The errors the interface reports to the user.

use vstd::prelude::*;
use crate::i18n::{Text, TextView};

verus! {

/// A message shown to the user: a short title and an optional longer detail.
#[derive(Debug, PartialEq, Eq)]
pub struct Message {
    pub text: Text,
    pub secondary_text: Text,
}

/// The mathematical value of a [`Message`].
pub struct MessageView {
    pub text: TextView,
    pub secondary_text: TextView,
}

impl View for Message {
    type V = MessageView;

    open spec fn view(&self) -> MessageView {
        MessageView { text: self.text@, secondary_text: self.secondary_text@ }
    }
}

/// The errors the interface reports.
#[derive(Debug, PartialEq, Eq)]
pub enum Error {
    /// The user declined or dismissed a request.
    UserCanceled,
    /// A failure explained by a message.
    Message(Message),
}

/// The mathematical value of an [`Error`].
pub enum ErrorView {
    UserCanceled,
    Message(MessageView),
}

impl View for Error {
    type V = ErrorView;

    open spec fn view(&self) -> ErrorView {
        match self {
            Error::UserCanceled => ErrorView::UserCanceled,
            Error::Message(m) => ErrorView::Message(m@),
        }
    }
}

/// A message with a translated title and a translated detail.
pub open spec fn message_view(text: Seq<char>, secondary_text: Seq<char>) -> MessageView {
    MessageView {
        text: TextView::Translatable(text),
        secondary_text: TextView::Translatable(secondary_text),
    }
}

/// A message with a translated title and no detail.
pub open spec fn short_message_view(text: Seq<char>) -> MessageView {
    MessageView { text: TextView::Translatable(text), secondary_text: TextView::Verbatim(Seq::empty()) }
}

impl Message {
    /// A message with a translated title and a translated detail.
    pub fn new(text: &str, secondary_text: &str) -> (m: Message)
        ensures
            m@ == message_view(text@, secondary_text@),
    {
        Message { text: Text::translatable(text), secondary_text: Text::translatable(secondary_text) }
    }

    /// A message with a translated title and a detail shown as it stands.
    pub fn with_detail(text: &str, detail: String) -> (m: Message)
        ensures
            m@ == (MessageView { text: TextView::Translatable(text@), secondary_text: TextView::Verbatim(detail@) }),
    {
        Message { text: Text::translatable(text), secondary_text: Text::Verbatim(detail) }
    }

    /// A message with a translated title and no detail.
    pub fn short(text: &str) -> (m: Message)
        ensures
            m@ == short_message_view(text@),
    {
        let secondary_text = Text::Verbatim(String::new());
        let m = Message { text: Text::translatable(text), secondary_text };
        proof {
            assert(m@.secondary_text =~= TextView::Verbatim(Seq::empty()));
        }
        m
    }
}

} // verus!
