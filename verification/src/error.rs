//! The errors that stop code generation.

use vstd::prelude::*;

verus! {

/// Why code generation was abandoned.
#[derive(Clone, Copy, Debug, PartialEq, Eq, Structural)]
pub enum CompileError {
    /// The annotated item is not a struct.
    NotAStruct,
    /// A field of the component has no name.
    UnnamedField,
    /// The type parameters of the component are not all types.
    UnsupportedGenerics,
    /// The arguments of an `inject` attribute are malformed.
    MalformedInject,
    /// The arguments of a `provide` attribute are malformed.
    MalformedProvide,
    /// A field's type is not a recognized dependency wrapper.
    NotDIType,
    /// A derived name is not an identifier.
    InvalidIdent,
    /// The provider naming pattern does not compile.
    InvalidPattern,
    /// The provider naming pattern matched without a first capture group.
    MissingCapture,
    /// A provider was requested on something other than a portal impl.
    NotPortalImpl,
    /// The type a portal is implemented for has no name.
    ImplTypeNotFound,
    /// The portal impl does not define its constructor.
    MissingCreateForDi,
}

/// What a computed text is in contracts: its characters, or the error.
pub open spec fn text_of(r: Result<String, CompileError>) -> Result<Seq<char>, CompileError> {
    match r {
        Ok(s) => Ok(s@),
        Err(e) => Err(e),
    }
}

} // verus!
