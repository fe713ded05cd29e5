//! The definition of a provider from a creating closure.

use crate::error::{text_of, CompileError};
use crate::helper::common::{DefDiProviderInput, DefDiProviderInputView};
use crate::ident::{provider_name, provider_name_spec};
use vstd::prelude::*;

verus! {

/// The provider of the target that creates its component with the closure, at
/// most once per container.
pub open spec fn exec_spec(input: DefDiProviderInputView) -> Result<Seq<char>, CompileError> {
    match provider_name_spec(input.target_ident, input.generics.type_params_str()) {
        Err(e) => Err(e),
        Ok(name) => {
            let opened = "pub struct "@ + name + "; impl portaldi::DIProvider for "@ + name
                + " { type Output = "@;
            let output = input.generics.push_tokens(
                if input.kw_dyn {
                    opened + "dyn "@
                } else {
                    opened
                } + input.target_ident,
            );
            Ok(
                output
                    + "; fn di_on(c: &portaldi::DIContainer) -> portaldi::DI<Self::Output> { c.get_or_init(|| ("@
                    + input.create_fn + ")(c)) } } "@,
            )
        },
    }
}

/// Emits the provider of the target of `input`.
pub fn exec(input: &DefDiProviderInput) -> (r: Result<String, CompileError>)
    ensures
        text_of(r) == exec_spec(input@),
{
    let ty_params_str = input.generics.type_params_str();
    let name = match provider_name(input.target_ident.as_str(), ty_params_str.as_str()) {
        Ok(name) => name,
        Err(e) => {
            return Err(e);
        },
    };
    let mut out = "pub struct ".to_owned();
    out.append(name.as_str());
    out.append("; impl portaldi::DIProvider for ");
    out.append(name.as_str());
    out.append(" { type Output = ");
    if input.kw_dyn {
        out.append("dyn ");
    }
    out.append(input.target_ident.as_str());
    input.generics.to_tokens(&mut out);
    out.append(
        "; fn di_on(c: &portaldi::DIContainer) -> portaldi::DI<Self::Output> { c.get_or_init(|| (",
    );
    out.append(input.create_fn.as_str());
    out.append(")(c)) } } ");
    Ok(out)
}

} // verus!
