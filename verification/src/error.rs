use vstd::prelude::*;

verus! {

/// Structured errors of the bridge layer.
///
/// Every fallible operation surfaces one of these explicitly; nothing is
/// dropped or retried at this layer. The native library reports failure
/// through a transient in-process message buffer; the shell captures that
/// text (best effort, invalid bytes replaced) immediately after detecting a
/// failure and hands it to [`Error::from_vips`].
#[derive(Debug, PartialEq, Eq)]
pub enum Error {
    /// The native library reported a failure; carries the captured text of
    /// its error buffer, or `None` when the buffer was empty.
    Vips(Option<String>),
    /// A string handed to the native library contained an embedded nul
    /// byte at the given position, so it could not become a C string.
    NulError(usize),
    /// An I/O failure, described by its rendered message.
    Io(String),
    /// Any other failure, described by its rendered message.
    Boxed(String),
}

impl Error {
    /// The human-readable message this error renders to.
    pub open spec fn message_spec(&self) -> Seq<char> {
        match self {
            Error::Vips(Some(m)) => m@,
            Error::Vips(None) => "Unknown VIPS error"@,
            Error::NulError(_) => "nul byte found in provided data"@,
            Error::Io(m) => m@,
            Error::Boxed(m) => m@,
        }
    }

    /// Wraps the text captured from the native error buffer (`None` when
    /// the buffer was empty) as a native-library error.
    pub fn from_vips(message: Option<String>) -> (r: Error)
        ensures
            r == Error::Vips(message),
    {
        Error::Vips(message)
    }

    /// Renders the error as text: the captured native message (or a fixed
    /// fallback when none was captured), or the underlying description.
    pub fn message(&self) -> (r: String)
        ensures
            r@ == self.message_spec(),
    {
        match self {
            Error::Vips(Some(m)) => m.clone(),
            Error::Vips(None) => "Unknown VIPS error".to_owned(),
            Error::NulError(_) => "nul byte found in provided data".to_owned(),
            Error::Io(m) => m.clone(),
            Error::Boxed(m) => m.clone(),
        }
    }
}

} // verus!
