//! The provider generated beside a hand-written portal impl.

use crate::error::{text_of, CompileError};
use crate::helper::build_di_provider::{
    build_provider, build_provider_by_env, build_provider_by_env_spec, build_provider_spec,
    provider_for, ProvideTarget, ProvideTargetView,
};
use crate::helper::common::views_of;
use crate::syntax::{ImplItem, ImplItemView, ItemImpl, ItemImplView, Type, TypeView};
use vstd::prelude::*;

verus! {

/// What the provider attribute asks for.
pub enum ProviderArgs {
    /// The provider of the implementing type itself.
    SelfProvider,
    /// The provider of the named target.
    TargetProvider(ProvideTarget),
    /// The provider that the naming pattern derives.
    EnvProvider,
}

/// A `ProviderArgs` over sequences.
pub enum ProviderArgsView {
    SelfProvider,
    TargetProvider(ProvideTargetView),
    EnvProvider,
}

impl View for ProviderArgs {
    type V = ProviderArgsView;

    open spec fn view(&self) -> ProviderArgsView {
        match *self {
            ProviderArgs::SelfProvider => ProviderArgsView::SelfProvider,
            ProviderArgs::TargetProvider(target) => ProviderArgsView::TargetProvider(target@),
            ProviderArgs::EnvProvider => ProviderArgsView::EnvProvider,
        }
    }
}

/// The name is that of one of the two portal traits.
pub open spec fn is_portal_name(name: Seq<char>) -> bool {
    name == "DIPortal"@ || name == "AsyncDIPortal"@
}

/// The impl is of a portal trait: a segment of the trait's path bears the
/// name of one.
pub open spec fn is_portal_impl(item: ItemImplView) -> bool {
    match item.trait_ {
        Some(segments) => exists|i: int|
            0 <= i < segments.len() && is_portal_name(#[trigger] segments[i]),
        None => false,
    }
}

/// The name of the type the impl is for: the last segment of its path.
pub open spec fn impl_ident(item: ItemImplView) -> Option<Seq<char>> {
    match item.self_ty {
        TypeView::Path(p) => if p.segments.len() > 0 {
            Some(p.segments.last().ident)
        } else {
            None
        },
        _ => None,
    }
}

/// The item is the portal's constructor.
pub open spec fn is_create_fn(item: ImplItemView) -> bool {
    item matches ImplItemView::Fn { ident, is_async } && ident == "create_for_di"@
}

/// Whether the first constructor among the items at or after `from` is
/// `async`.
pub open spec fn create_fn_async(items: Seq<ImplItemView>, from: nat) -> Option<bool>
    decreases items.len() - from,
{
    if from >= items.len() {
        None
    } else if is_create_fn(items[from as int]) {
        Some(items[from as int]->is_async)
    } else {
        create_fn_async(items, from + 1)
    }
}

/// The provider asked for beside the portal of `ident`.
pub open spec fn provider_spec(
    args: ProviderArgsView,
    item: ItemImplView,
    ident: Seq<char>,
    is_async: bool,
    pattern: Option<Seq<char>>,
) -> Result<Seq<char>, CompileError> {
    match args {
        ProviderArgsView::TargetProvider(target) => build_provider_spec(
            ident,
            target,
            is_async,
            true,
            None,
        ),
        ProviderArgsView::EnvProvider => build_provider_by_env_spec(ident, is_async, pattern),
        ProviderArgsView::SelfProvider => match item.self_generics {
            None => Err(CompileError::UnsupportedGenerics),
            Some(generics) => build_provider_spec(
                ident,
                ProvideTargetView { ident, generics },
                is_async,
                false,
                None,
            ),
        },
    }
}

/// The impl block followed by the provider asked for, or the error that stops
/// the generation: the block must implement a portal trait for a named type
/// and define the constructor, whose synchrony the provider takes.
pub open spec fn exec_spec(
    args: ProviderArgsView,
    item: ItemImplView,
    pattern: Option<Seq<char>>,
) -> Result<Seq<char>, CompileError> {
    if !is_portal_impl(item) {
        Err(CompileError::NotPortalImpl)
    } else {
        match impl_ident(item) {
            None => Err(CompileError::ImplTypeNotFound),
            Some(ident) => match create_fn_async(item.items, 0) {
                None => Err(CompileError::MissingCreateForDi),
                Some(is_async) => match provider_spec(args, item, ident, is_async, pattern) {
                    Err(e) => Err(e),
                    Ok(provider) => Ok(item.text + " "@ + provider),
                },
            },
        }
    }
}

/// Decides whether the impl is of a portal trait.
fn check_portal_impl(item: &ItemImpl) -> (r: bool)
    ensures
        r == is_portal_impl(item@),
{
    let segments = match &item.trait_ {
        Some(segments) => segments,
        None => {
            return false;
        },
    };
    let sync_name = "DIPortal".to_owned();
    let async_name = "AsyncDIPortal".to_owned();
    let mut i: usize = 0;
    while i < segments.len()
        invariant
            i <= segments.len(),
            item.trait_ == Some(*segments),
            sync_name@ == "DIPortal"@,
            async_name@ == "AsyncDIPortal"@,
            forall|j: int| 0 <= j < i ==> !is_portal_name(#[trigger] views_of(segments@)[j]),
        decreases segments.len() - i,
    {
        if segments[i] == sync_name || segments[i] == async_name {
            assert(item@.trait_ matches Some(s) && is_portal_name(s[i as int]));
            return true;
        }
        i = i + 1;
    }
    false
}

/// Finds the portal's constructor and reads whether it is `async`.
fn find_create_fn(items: &Vec<ImplItem>) -> (r: Option<bool>)
    ensures
        r == create_fn_async(views_of(items@), 0),
{
    let wanted = "create_for_di".to_owned();
    let mut i: usize = 0;
    while i < items.len()
        invariant
            i <= items.len(),
            wanted@ == "create_for_di"@,
            create_fn_async(views_of(items@), 0) == create_fn_async(views_of(items@), i as nat),
        decreases items.len() - i,
    {
        match &items[i] {
            ImplItem::Fn { ident, is_async } => {
                if *ident == wanted {
                    return Some(*is_async);
                }
            },
            ImplItem::Other => {},
        }
        i = i + 1;
    }
    None
}

/// Generates the provider that `args` asks for beside the portal impl `item`,
/// and emits both. `pattern` is the naming pattern of the build environment,
/// if one is set.
pub fn exec(args: &ProviderArgs, item: &ItemImpl, pattern: Option<&str>) -> (r: Result<
    String,
    CompileError,
>)
    ensures
        text_of(r) == exec_spec(
            args@,
            item@,
            match pattern {
                Some(p) => Some(p@),
                None => None,
            },
        ),
{
    if !check_portal_impl(item) {
        return Err(CompileError::NotPortalImpl);
    }
    let ident = match &item.self_ty {
        Type::Path(p) => {
            let n = p.segments.len();
            assert(p@.segments.len() == n);
            if n == 0 {
                return Err(CompileError::ImplTypeNotFound);
            }
            p.segments[n - 1].ident.as_str()
        },
        _ => {
            return Err(CompileError::ImplTypeNotFound);
        },
    };
    let is_async = match find_create_fn(&item.items) {
        Some(is_async) => is_async,
        None => {
            return Err(CompileError::MissingCreateForDi);
        },
    };
    let provider = match args {
        ProviderArgs::TargetProvider(target) => build_provider(ident, target, is_async, true, None),
        ProviderArgs::EnvProvider => build_provider_by_env(ident, is_async, pattern),
        ProviderArgs::SelfProvider => match &item.self_generics {
            Some(generics) => provider_for(ident, ident, generics, is_async, false, None),
            None => Err(CompileError::UnsupportedGenerics),
        },
    };
    match provider {
        Ok(text) => {
            let mut out = item.text.clone();
            out.append(" ");
            out.append(text.as_str());
            Ok(out)
        },
        Err(e) => Err(e),
    }
}

} // verus!
