use vstd::prelude::*;

verus! {

/// Every way a render request can fail.
///
/// `EngineInitFailure` concerns the whole process; the others concern a
/// single call and leave the engine usable.
#[derive(Debug, PartialEq, Eq)]
pub enum BridgeError {
    /// The engine platform could not be started.
    EngineInitFailure,
    /// The bundle text is not a valid script.
    ScriptCompileError,
    /// Running the bundle's top level threw.
    ScriptEvaluationError,
    /// The props document is not valid JSON.
    InvalidPropsJson,
    /// The bundle declares no entry point.
    EntryPointMissing,
    /// The entry point exists but cannot be called.
    EntryPointNotCallable,
    /// The entry point threw; the text is the engine's diagnostic.
    ScriptRuntimeError(String),
    /// The entry point's result has no string form.
    ResultConversionError,
    /// The caller's bytes are not UTF-8.
    InvalidInputEncoding,
    /// The rendered text cannot be written as a null-terminated string.
    EncodingError,
}

} // verus!
