//! Emission of provider impls: for a named target, and for the target that a
//! naming pattern derives from the component's own name.

use crate::error::{text_of, CompileError};
use crate::helper::common::{GenericsView, Generics_};
use crate::ident::{mk_ident, names_ident, provider_name, provider_name_spec};
use vstd::prelude::*;

verus! {

/// The target an implementation is provided for: a name and its generic
/// arguments.
pub struct ProvideTarget {
    pub ident: String,
    pub generics: Generics_,
}

/// A `ProvideTarget` over character sequences.
pub struct ProvideTargetView {
    pub ident: Seq<char>,
    pub generics: GenericsView,
}

impl View for ProvideTarget {
    type V = ProvideTargetView;

    open spec fn view(&self) -> ProvideTargetView {
        ProvideTargetView { ident: self.ident@, generics: self.generics@ }
    }
}

impl DeepView for ProvideTarget {
    type V = ProvideTargetView;

    open spec fn deep_view(&self) -> ProvideTargetView {
        self@
    }
}

/// The provider of `target` that delegates to the portal of `ident`, named
/// `name`: a unit struct and its provider impl, suspending if `is_async`,
/// for a trait object if `for_trait`, public unless `vis` says otherwise.
pub open spec fn provider_text(
    ident: Seq<char>,
    target: ProvideTargetView,
    name: Seq<char>,
    is_async: bool,
    for_trait: bool,
    vis: Option<Seq<char>>,
) -> Seq<char> {
    let decl = match vis {
        Some(v) => v,
        None => "pub"@,
    } + " struct "@ + name + "; "@;
    let opened = if is_async {
        decl + "#[async_trait::async_trait] impl portaldi::AsyncDIProvider for "@
    } else {
        decl + "impl portaldi::DIProvider for "@
    } + name + " { type Output = "@;
    let output = target.generics.push_tokens(
        if for_trait {
            opened + "dyn "@
        } else {
            opened
        } + target.ident,
    );
    if is_async {
        output
            + "; async fn di_on(container: &portaldi::DIContainer) -> portaldi::DI<Self::Output> { "@
            + ident + "::di_on(container).await } } "@
    } else {
        output + "; fn di_on(container: &portaldi::DIContainer) -> portaldi::DI<Self::Output> { "@
            + ident + "::di_on(container) } } "@
    }
}

/// The provider of `target`, or the error that stops its generation: its name
/// is the target's name, the mangled generic arguments and `Provider`, and
/// must be an identifier.
pub open spec fn build_provider_spec(
    ident: Seq<char>,
    target: ProvideTargetView,
    is_async: bool,
    for_trait: bool,
    vis: Option<Seq<char>>,
) -> Result<Seq<char>, CompileError> {
    match provider_name_spec(target.ident, target.generics.type_params_str()) {
        Ok(name) => Ok(provider_text(ident, target, name, is_async, for_trait, vis)),
        Err(e) => Err(e),
    }
}

/// Emits the provider of the target `target_ident` with generic arguments
/// `generics` that delegates to the portal of `ident`.
pub fn provider_for(
    ident: &str,
    target_ident: &str,
    generics: &Generics_,
    is_async: bool,
    for_trait: bool,
    vis: Option<&str>,
) -> (r: Result<String, CompileError>)
    ensures
        text_of(r) == build_provider_spec(
            ident@,
            ProvideTargetView { ident: target_ident@, generics: generics@ },
            is_async,
            for_trait,
            match vis {
                Some(v) => Some(v@),
                None => None,
            },
        ),
{
    let type_params_str = generics.type_params_str();
    let name = match provider_name(target_ident, type_params_str.as_str()) {
        Ok(name) => name,
        Err(e) => {
            return Err(e);
        },
    };
    let mut out = match vis {
        Some(v) => v.to_owned(),
        None => "pub".to_owned(),
    };
    out.append(" struct ");
    out.append(name.as_str());
    out.append("; ");
    if is_async {
        out.append("#[async_trait::async_trait] impl portaldi::AsyncDIProvider for ");
    } else {
        out.append("impl portaldi::DIProvider for ");
    }
    out.append(name.as_str());
    out.append(" { type Output = ");
    if for_trait {
        out.append("dyn ");
    }
    out.append(target_ident);
    generics.to_tokens(&mut out);
    if is_async {
        out.append(
            "; async fn di_on(container: &portaldi::DIContainer) -> portaldi::DI<Self::Output> { ",
        );
        out.append(ident);
        out.append("::di_on(container).await } } ");
    } else {
        out.append(
            "; fn di_on(container: &portaldi::DIContainer) -> portaldi::DI<Self::Output> { ",
        );
        out.append(ident);
        out.append("::di_on(container) } } ");
    }
    Ok(out)
}

/// Emits the provider of `provide_target` that delegates to the portal of
/// `ident`: a unit struct named after the target and its generic arguments,
/// and the provider impl on it.
pub fn build_provider(
    ident: &str,
    provide_target: &ProvideTarget,
    is_async: bool,
    for_trait: bool,
    vis: Option<&str>,
) -> (r: Result<String, CompileError>)
    ensures
        text_of(r) == build_provider_spec(
            ident@,
            provide_target@,
            is_async,
            for_trait,
            match vis {
                Some(v) => Some(v@),
                None => None,
            },
        ),
{
    provider_for(
        ident,
        provide_target.ident.as_str(),
        &provide_target.generics,
        is_async,
        for_trait,
        vis,
    )
}

/// What searching a text with a pattern found of the first capture group.
pub enum Capture {
    /// The pattern is not a regular expression.
    BadPattern,
    /// The pattern matches nowhere in the text.
    NoMatch,
    /// The pattern matches, but its first group took no part in the match.
    NoGroup,
    /// The text the first group matched.
    Group(String),
}

/// A `Capture` over character sequences.
pub enum CaptureView {
    BadPattern,
    NoMatch,
    NoGroup,
    Group(Seq<char>),
}

impl View for Capture {
    type V = CaptureView;

    open spec fn view(&self) -> CaptureView {
        match *self {
            Capture::BadPattern => CaptureView::BadPattern,
            Capture::NoMatch => CaptureView::NoMatch,
            Capture::NoGroup => CaptureView::NoGroup,
            Capture::Group(s) => CaptureView::Group(s@),
        }
    }
}

/// What the leftmost match of the regular expression `pattern` in `text`
/// captures in its first group.
pub uninterp spec fn first_capture(pattern: Seq<char>, text: Seq<char>) -> CaptureView;

/// Compiles `pattern` with `regex::Regex::new`, searches `text` with
/// `Regex::captures` and reads group 1 with `Captures::get` and
/// `Match::as_str`. The outcome depends on the two texts alone: a pattern
/// that does not compile, no match, a match in which group 1 is missing or
/// unmatched, or the matched text of group 1.
#[verifier::external_body]
fn capture_first(pattern: &str, text: &str) -> (r: Capture)
    ensures
        r@ == first_capture(pattern@, text@),
{
    match regex::Regex::new(pattern) {
        Err(_) => Capture::BadPattern,
        Ok(re) => match re.captures(text) {
            None => Capture::NoMatch,
            Some(caps) => match caps.get(1) {
                None => Capture::NoGroup,
                Some(m) => Capture::Group(m.as_str().to_string()),
            },
        },
    }
}

/// The provider that a capture of the naming pattern implies: none when the
/// pattern does not match, the provider of the captured trait name otherwise.
pub open spec fn provider_by_capture_spec(
    ident: Seq<char>,
    is_async: bool,
    capture: CaptureView,
) -> Result<Seq<char>, CompileError> {
    match capture {
        CaptureView::BadPattern => Err(CompileError::InvalidPattern),
        CaptureView::NoMatch => Ok(Seq::empty()),
        CaptureView::NoGroup => Err(CompileError::MissingCapture),
        CaptureView::Group(name) => if names_ident(name) {
            build_provider_spec(
                ident,
                ProvideTargetView { ident: name, generics: GenericsView::absent() },
                is_async,
                true,
                None,
            )
        } else {
            Err(CompileError::InvalidIdent)
        },
    }
}

/// Emits the provider that `capture`, the outcome of searching the name of
/// the component `ident` with the naming pattern, implies.
pub fn build_provider_by_capture(ident: &str, is_async: bool, capture: Capture) -> (r: Result<
    String,
    CompileError,
>)
    ensures
        text_of(r) == provider_by_capture_spec(ident@, is_async, capture@),
{
    match capture {
        Capture::BadPattern => Err(CompileError::InvalidPattern),
        Capture::NoMatch => Ok(String::new()),
        Capture::NoGroup => Err(CompileError::MissingCapture),
        Capture::Group(name) => {
            let target_ident = match mk_ident(name) {
                Ok(id) => id,
                Err(e) => {
                    return Err(e);
                },
            };
            let provide_target = ProvideTarget { ident: target_ident, generics: Generics_::default() };
            build_provider(ident, &provide_target, is_async, true, None)
        },
    }
}

/// The provider that the naming pattern, if one is set, implies for the
/// component `ident`.
pub open spec fn build_provider_by_env_spec(
    ident: Seq<char>,
    is_async: bool,
    pattern: Option<Seq<char>>,
) -> Result<Seq<char>, CompileError> {
    match pattern {
        None => Ok(Seq::empty()),
        Some(p) => provider_by_capture_spec(ident, is_async, first_capture(p, ident)),
    }
}

/// Emits the provider of the trait that `pattern` derives from the name of the
/// component `ident`: the pattern's first capture group names the trait.
/// Without a pattern, or where it does not match, nothing is emitted.
pub fn build_provider_by_env(ident: &str, is_async: bool, pattern: Option<&str>) -> (r: Result<
    String,
    CompileError,
>)
    ensures
        text_of(r) == build_provider_by_env_spec(
            ident@,
            is_async,
            match pattern {
                Some(p) => Some(p@),
                None => None,
            },
        ),
{
    match pattern {
        None => Ok(String::new()),
        Some(p) => build_provider_by_capture(ident, is_async, capture_first(p, ident)),
    }
}

} // verus!
