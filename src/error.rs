//! The plugin's single error taxonomy.
use vstd::prelude::*;

verus! {

/// A failure reported by the native platform capability, held as plain values.
#[derive(Debug, Clone, PartialEq, Eq)]
pub enum NativeError {
    /// The platform webview could not be reached.
    UnreachableWebview,
    /// The platform bridge itself failed (JNI on Android), with its message.
    Bridge(String),
    /// The native side rejected the call with an optional code and message.
    InvokeRejected { code: Option<String>, message: Option<String> },
    /// The native response could not be decoded; the decoder's message.
    CannotDeserializeResponse(String),
    /// The request payload could not be encoded; the encoder's message.
    CannotSerializePayload(String),
}

/// Every failure of an operation, whatever platform handler produced it.
#[derive(Debug, Clone, PartialEq, Eq)]
pub enum Error {
    /// The native capability failed; its report is carried unaltered.
    PluginInvoke(NativeError),
}

/// The outcome of every plugin operation.
pub type Result<T> = core::result::Result<T, Error>;

/// What the plugin reports for a native outcome: a value is passed through as
/// it is, a failure is wrapped into [`Error::PluginInvoke`] unchanged.
pub open spec fn relayed<T>(outcome: core::result::Result<T, NativeError>) -> Result<T> {
    match outcome {
        Ok(v) => Ok(v),
        Err(e) => Err(Error::PluginInvoke(e)),
    }
}

/// Wraps a native outcome into the plugin's result type without altering
/// either the value or the failure.
pub fn relay<T>(outcome: core::result::Result<T, NativeError>) -> (r: Result<T>)
    ensures
        r == relayed(outcome),
{
    match outcome {
        Ok(v) => Ok(v),
        Err(e) => Err(Error::PluginInvoke(e)),
    }
}

impl Error {
    /// The native failure that this error carries.
    pub fn native(&self) -> (r: &NativeError)
        ensures
            *self == Error::PluginInvoke(*r),
    {
        match self {
            Error::PluginInvoke(e) => e,
        }
    }
}

} // verus!
