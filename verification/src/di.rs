//! The call that resolves a target through its provider.

use crate::error::{text_of, CompileError};
use crate::helper::common::{GenericsView, Generics_};
use crate::ident::{provider_name, provider_name_spec};
use vstd::prelude::*;

verus! {

/// A request to resolve a target: its name, its generic arguments, and the
/// container to resolve on, if one is given.
pub struct DiInput {
    pub target_ident: String,
    pub generics: Generics_,
    /// The text of the container expression after `on`.
    pub arg: Option<String>,
}

/// A `DiInput` over character sequences.
pub struct DiInputView {
    pub target_ident: Seq<char>,
    pub generics: GenericsView,
    pub arg: Option<Seq<char>>,
}

impl View for DiInput {
    type V = DiInputView;

    open spec fn view(&self) -> DiInputView {
        DiInputView {
            target_ident: self.target_ident@,
            generics: self.generics@,
            arg: match self.arg {
                Some(a) => Some(a@),
                None => None,
            },
        }
    }
}

/// The call on the target's provider: on the given container, or on the
/// global one.
pub open spec fn exec_spec(input: DiInputView) -> Result<Seq<char>, CompileError> {
    match provider_name_spec(input.target_ident, input.generics.type_params_str()) {
        Err(e) => Err(e),
        Ok(name) => match input.arg {
            Some(arg) => Ok(name + "::di_on("@ + arg + ")"@),
            None => Ok(name + "::di()"@),
        },
    }
}

/// Emits the call that resolves the target through the provider named after
/// it.
pub fn exec(input: &DiInput) -> (r: Result<String, CompileError>)
    ensures
        text_of(r) == exec_spec(input@),
{
    let type_params_str = input.generics.type_params_str();
    let mut out = match provider_name(input.target_ident.as_str(), type_params_str.as_str()) {
        Ok(name) => name,
        Err(e) => {
            return Err(e);
        },
    };
    match &input.arg {
        Some(arg) => {
            out.append("::di_on(");
            out.append(arg.as_str());
            out.append(")");
        },
        None => {
            out.append("::di()");
        },
    }
    Ok(out)
}

} // verus!
