use vstd::prelude::*;
use vstd::string::StringExecFns;

verus! {

/// The ways in which an operation of the bridge can fail.
#[derive(Clone, Copy, Debug, PartialEq, Eq, Structural)]
pub enum ErrorKind {
    /// A handle operation arrived while no plugin instance exists.
    NotInitialized,
    /// A second initialization was attempted.
    AlreadyInitialized,
    /// The plugin's own initialization reported a failure.
    InitFailed,
    /// The session identity already has a registry entry.
    AlreadyRegistered,
    /// The session identity has no registry entry.
    HandleNotFound,
    /// A value could not be turned into a wire document.
    SerializationFailed,
    /// A wire document could not be turned into a value.
    DeserializationFailed,
    /// A transaction id cannot be exchanged with the host.
    TransactionEncodingFailed,
    /// The host answered a call with a status other than success.
    NativeCallFailed(i32),
    /// A failure reported by the plugin's own message handling.
    Plugin,
}

/// A failure together with a text that describes it.
#[derive(Debug)]
pub struct Error {
    kind: ErrorKind,
    detail: String,
}

impl Error {
    /// The kind of this failure.
    pub closed spec fn kind_of(&self) -> ErrorKind {
        self.kind
    }

    /// The descriptive text of this failure.
    pub closed spec fn text(&self) -> Seq<char> {
        self.detail@
    }

    /// A plugin-level failure described by `detail`.
    pub fn new(detail: &str) -> (error: Self)
        ensures
            error.kind_of() == ErrorKind::Plugin,
            error.text() == detail@,
    {
        Error { kind: ErrorKind::Plugin, detail: String::from_str(detail) }
    }

    /// A failure of the given kind described by `detail`.
    pub fn with_kind(kind: ErrorKind, detail: &str) -> (error: Self)
        ensures
            error.kind_of() == kind,
            error.text() == detail@,
    {
        Error { kind, detail: String::from_str(detail) }
    }

    /// A failure of the given kind whose text is `context`, a colon, a space and `cause`.
    pub fn wrap(kind: ErrorKind, context: &str, cause: &str) -> (error: Self)
        ensures
            error.kind_of() == kind,
            error.text() == context@ + ": "@ + cause@,
            quotes(error.text(), context@),
    {
        let mut detail = String::from_str(context);
        detail.append(": ");
        detail.append(cause);
        proof {
            lemma_wrapped_text_quotes(context@, cause@);
        }
        Error { kind, detail }
    }

    pub fn as_str(&self) -> (detail: &str)
        ensures
            detail@ == self.text(),
    {
        self.detail.as_str()
    }

    pub fn kind(&self) -> (kind: ErrorKind)
        ensures
            kind == self.kind_of(),
    {
        self.kind
    }

    /// The descriptive text as an owned string.
    pub fn message(&self) -> (detail: String)
        ensures
            detail@ == self.text(),
    {
        String::from_str(self.detail.as_str())
    }
}

/// An outcome is a failure of the given kind.
pub open spec fn failed<T>(outcome: Result<T, Error>, kind: ErrorKind) -> bool {
    outcome is Err && outcome->Err_0.kind_of() == kind
}

/// An outcome is a failure of the given kind with the given text.
pub open spec fn failed_with<T>(outcome: Result<T, Error>, kind: ErrorKind, text: Seq<char>) -> bool {
    outcome is Err && outcome->Err_0.kind_of() == kind && outcome->Err_0.text() == text
}

/// A text begins with a context, a colon and a space: the form in which a failure quotes the
/// failure that caused it.
pub open spec fn quotes(text: Seq<char>, context: Seq<char>) -> bool {
    text.len() >= context.len() + 2 && text.subrange(0, context.len() + 2 as int) == context + ": "@
}

/// A context, a colon, a space and a cause, put together, quote the cause under the context.
pub proof fn lemma_wrapped_text_quotes(context: Seq<char>, cause: Seq<char>)
    ensures
        quotes(context + ": "@ + cause, context),
{
    reveal_strlit(": ");
    assert((context + ": "@ + cause).subrange(0, context.len() + 2 as int) =~= context + ": "@);
}

} // verus!
