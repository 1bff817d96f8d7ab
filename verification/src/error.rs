//! The failures of the channel, and how one is rendered for the peer.

use vstd::prelude::*;
use vstd::string::StringExecFns;

verus! {

/// What went wrong.
#[derive(Clone, Copy, Debug, PartialEq, Eq, Structural)]
pub enum ErrorKind {
    /// The stream ended before a whole frame was read, or could not be written.
    Io,
    /// The payload of a frame is no JSON text.
    Decode,
    /// The payload is JSON, but carries no usable correlation id.
    Protocol,
    /// A message could not be turned into a frame.
    Encode,
}

/// A failure: its kind, and a few words on its circumstances.
#[derive(Clone, Debug, PartialEq, Eq)]
pub struct MessagingError {
    pub kind: ErrorKind,
    pub context: String,
}

/// A `MessagingError` as contracts see it.
pub struct MessagingErrorView {
    pub kind: ErrorKind,
    pub context: Seq<char>,
}

impl View for MessagingError {
    type V = MessagingErrorView;

    open spec fn view(&self) -> MessagingErrorView {
        MessagingErrorView { kind: self.kind, context: self.context@ }
    }
}

/// The name under which a kind of failure is rendered.
pub open spec fn kind_name(kind: ErrorKind) -> Seq<char> {
    match kind {
        ErrorKind::Io => "IoError"@,
        ErrorKind::Decode => "DecodeError"@,
        ErrorKind::Protocol => "ProtocolError"@,
        ErrorKind::Encode => "EncodeError"@,
    }
}

/// The rendering of a failure: the name of its kind, then its context in
/// round brackets.
pub open spec fn rendering(e: MessagingErrorView) -> Seq<char> {
    kind_name(e.kind) + "("@ + e.context + ")"@
}

impl MessagingError {
    /// A failure of the given kind.
    pub fn new(kind: ErrorKind, context: &str) -> (e: MessagingError)
        ensures
            e@ == (MessagingErrorView { kind, context: context@ }),
    {
        MessagingError { kind, context: String::from_str(context) }
    }

    /// The text that stands for this failure in an error reply. It is meant for
    /// a person to read, and depends on the kind and the context alone.
    pub fn render(&self) -> (text: String)
        ensures
            text@ == rendering(self@),
    {
        let name = match self.kind {
            ErrorKind::Io => "IoError",
            ErrorKind::Decode => "DecodeError",
            ErrorKind::Protocol => "ProtocolError",
            ErrorKind::Encode => "EncodeError",
        };
        let mut text = String::from_str(name);
        text.append("(");
        text.append(self.context.as_str());
        text.append(")");
        text
    }
}

} // verus!
