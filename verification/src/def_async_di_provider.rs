//! The definition of an asynchronous provider from a creating closure.

use crate::error::{text_of, CompileError};
use crate::helper::common::{DefDiProviderInput, DefDiProviderInputView};
use crate::ident::{provider_name, provider_name_spec};
use vstd::prelude::*;

verus! {

/// The asynchronous provider of the target that awaits the closure to create
/// its component.
pub open spec fn exec_spec(input: DefDiProviderInputView) -> Result<Seq<char>, CompileError> {
    match provider_name_spec(input.target_ident, input.generics.type_params_str()) {
        Err(e) => Err(e),
        Ok(name) => {
            let opened = "pub struct "@ + name
                + "; #[async_trait::async_trait] impl portaldi::AsyncDIProvider for "@ + name
                + " { type Output = "@;
            let output = input.generics.push_tokens(
                if input.kw_dyn {
                    opened + "dyn "@
                } else {
                    opened
                } + input.target_ident,
            );
            Ok(
                output
                    + "; async fn di_on(c: &portaldi::DIContainer) -> portaldi::DI<Self::Output> { c.get_or_init_async(|| ("@
                    + input.create_fn + ")(c)).await } } "@,
            )
        },
    }
}

/// Emits the asynchronous provider of the target of `input`.
pub fn exec(input: &DefDiProviderInput) -> (r: Result<String, CompileError>)
    ensures
        text_of(r) == exec_spec(input@),
{
    let ty_params_str = input.generics.type_params_str();
    let name = match provider_name(input.target_ident.as_str(), ty_params_str.as_str()) {
        Ok(name) => name,
        Err(e) => {
            return Err(e);
        },
    };
    let mut out = "pub struct ".to_owned();
    out.append(name.as_str());
    out.append("; #[async_trait::async_trait] impl portaldi::AsyncDIProvider for ");
    out.append(name.as_str());
    out.append(" { type Output = ");
    if input.kw_dyn {
        out.append("dyn ");
    }
    out.append(input.target_ident.as_str());
    input.generics.to_tokens(&mut out);
    out.append(
        "; async fn di_on(c: &portaldi::DIContainer) -> portaldi::DI<Self::Output> { c.get_or_init_async(|| (",
    );
    out.append(input.create_fn.as_str());
    out.append(")(c)).await } } ");
    Ok(out)
}

} // verus!
