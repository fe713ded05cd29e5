//! Generation of a component's portal: how each dependency field is resolved,
//! whether the component must be built asynchronously, and the impl that
//! assembles it.

use crate::error::{text_of, CompileError};
use crate::helper::build_di_provider::{
    build_provider, build_provider_by_env, build_provider_by_env_spec, build_provider_spec,
    provider_for, ProvideTargetView,
};
use crate::helper::common::{attr_of, first_named, lemma_middle, views_of};
use crate::ident::{
    joined, mk_ident, names_ident, provider_name, provider_name_spec, provider_name_text,
    starts_with, strip_raw, unraw,
};
use crate::syntax::{
    generic_arguments_view, Attribute, AttributeView, Data, DataView, DeriveInput,
    DeriveInputView, Field, FieldView, GenericArgument, GenericArgumentView, InjectAttrPart,
    InjectAttrPartView, Meta, MetaView, Path, PathArguments, PathArgumentsView, PathSegmentView,
    PathView, Type, TypeParamBound, TypeParamBoundView, TypeView,
};
use vstd::prelude::*;

verus! {

/// How one dependency field of a component is resolved.
pub struct FieldDI {
    /// The field's name.
    pub field_ident: String,
    /// Whether resolving the field suspends.
    pub is_async: bool,
    /// The expression that resolves the field on `container`.
    pub di_expr: String,
}

/// A `FieldDI` over character sequences.
pub struct FieldDIView {
    pub field_ident: Seq<char>,
    pub is_async: bool,
    pub di_expr: Seq<char>,
}

impl View for FieldDI {
    type V = FieldDIView;

    open spec fn view(&self) -> FieldDIView {
        FieldDIView {
            field_ident: self.field_ident@,
            is_async: self.is_async,
            di_expr: self.di_expr@,
        }
    }
}

/// The text of the local variable that holds a resolved field.
pub open spec fn var_name_text(field: Seq<char>) -> Seq<char> {
    "__di"@ + unraw(field)
}

/// Every field's local variable is an identifier.
pub open spec fn vars_ok(fs: Seq<FieldDIView>) -> bool {
    forall|i: int| 0 <= i < fs.len() ==> names_ident(var_name_text(#[trigger] fs[i].field_ident))
}

/// `pre` followed by the statement that binds a field's variable.
pub open spec fn push_let(pre: Seq<char>, f: FieldDIView, awaits: bool) -> Seq<char> {
    let head = pre + "let "@ + var_name_text(f.field_ident) + " = "@ + f.di_expr;
    if awaits {
        head + ".await"@ + "; "@
    } else {
        head + "; "@
    }
}

/// `pre` followed by the bindings of the first `n` fields, each in declaration
/// order, awaiting the asynchronous ones in place.
pub open spec fn let_lines(pre: Seq<char>, fs: Seq<FieldDIView>, n: nat) -> Seq<char>
    decreases n,
{
    if n == 0 {
        pre
    } else {
        push_let(let_lines(pre, fs, (n - 1) as nat), fs[n - 1], fs[n - 1].is_async)
    }
}

/// `pre` followed by the bindings of the synchronous fields among the first
/// `n`.
pub open spec fn sync_lines(pre: Seq<char>, fs: Seq<FieldDIView>, n: nat) -> Seq<char>
    decreases n,
{
    if n == 0 {
        pre
    } else if fs[n - 1].is_async {
        sync_lines(pre, fs, (n - 1) as nat)
    } else {
        push_let(sync_lines(pre, fs, (n - 1) as nat), fs[n - 1], false)
    }
}

/// How many of the first `n` fields are asynchronous.
pub open spec fn count_async(fs: Seq<FieldDIView>, n: nat) -> nat
    decreases n,
{
    if n == 0 {
        0
    } else if fs[n - 1].is_async {
        count_async(fs, (n - 1) as nat) + 1
    } else {
        count_async(fs, (n - 1) as nat)
    }
}

/// `pre` extended by `item`, with a comma between them unless `item` is the
/// first of its list.
pub open spec fn push_item(pre: Seq<char>, first: bool, item: Seq<char>) -> Seq<char> {
    if first {
        pre + item
    } else {
        pre + ", "@ + item
    }
}

/// The variables of the asynchronous fields among the first `n`, separated by
/// commas.
pub open spec fn async_vars(fs: Seq<FieldDIView>, n: nat) -> Seq<char>
    decreases n,
{
    if n == 0 {
        Seq::empty()
    } else if fs[n - 1].is_async {
        push_item(
            async_vars(fs, (n - 1) as nat),
            count_async(fs, (n - 1) as nat) == 0,
            var_name_text(fs[n - 1].field_ident),
        )
    } else {
        async_vars(fs, (n - 1) as nat)
    }
}

/// The resolving expressions of the asynchronous fields among the first `n`,
/// separated by commas.
pub open spec fn async_exprs(fs: Seq<FieldDIView>, n: nat) -> Seq<char>
    decreases n,
{
    if n == 0 {
        Seq::empty()
    } else if fs[n - 1].is_async {
        push_item(
            async_exprs(fs, (n - 1) as nat),
            count_async(fs, (n - 1) as nat) == 0,
            fs[n - 1].di_expr,
        )
    } else {
        async_exprs(fs, (n - 1) as nat)
    }
}

/// `pre` followed by the bindings of all fields when independent asynchronous
/// resolutions start together: the synchronous fields first, then one
/// statement that awaits the asynchronous ones, joined when there are several.
pub open spec fn push_joined(pre: Seq<char>, fs: Seq<FieldDIView>) -> Seq<char> {
    let done = sync_lines(pre, fs, fs.len());
    let k = count_async(fs, fs.len());
    if k == 0 {
        done
    } else if k == 1 {
        done + "let "@ + async_vars(fs, fs.len()) + " = "@ + async_exprs(fs, fs.len())
            + ".await; "@
    } else {
        done + "let ("@ + async_vars(fs, fs.len()) + ") = futures::join!("@ + async_exprs(
            fs,
            fs.len(),
        ) + "); "@
    }
}

/// `pre` followed by the initializers `field: variable` of the first `n`
/// fields, separated by commas.
pub open spec fn field_inits(pre: Seq<char>, fs: Seq<FieldDIView>, n: nat) -> Seq<char>
    decreases n,
{
    if n == 0 {
        pre
    } else {
        push_item(field_inits(pre, fs, (n - 1) as nat), n == 1, fs[n - 1].field_ident) + ": "@
            + var_name_text(fs[n - 1].field_ident)
    }
}

/// The opening of a portal impl up to the body of its constructor: the
/// suspending protocol for an asynchronous component, the plain one otherwise.
pub open spec fn portal_head(ident: Seq<char>, is_totally_async: bool) -> Seq<char> {
    if is_totally_async {
        "#[async_trait::async_trait] impl portaldi::AsyncDIPortal for "@ + ident
            + " { async fn create_for_di(container: &portaldi::DIContainer) -> Self { "@
    } else {
        "impl portaldi::DIPortal for "@ + ident
            + " { fn create_for_di(container: &portaldi::DIContainer) -> Self { "@
    }
}

/// `pre` followed by the bindings of all fields, in the chosen mode.
pub open spec fn push_bindings(pre: Seq<char>, fs: Seq<FieldDIView>, join: bool) -> Seq<char> {
    if join {
        push_joined(pre, fs)
    } else {
        let_lines(pre, fs, fs.len())
    }
}

/// The whole portal impl of a component.
pub open spec fn portal_text(
    ident: Seq<char>,
    fs: Seq<FieldDIView>,
    is_totally_async: bool,
    join: bool,
) -> Seq<char> {
    field_inits(
        push_bindings(portal_head(ident, is_totally_async), fs, join) + ident + " { "@,
        fs,
        fs.len(),
    ) + " } } }"@
}

/// The portal impl of a component, or the error that stops its generation.
pub open spec fn build_portal_spec(
    ident: Seq<char>,
    fs: Seq<FieldDIView>,
    is_totally_async: bool,
    join: bool,
) -> Result<Seq<char>, CompileError> {
    if vars_ok(fs) {
        Ok(portal_text(ident, fs, is_totally_async, join))
    } else {
        Err(CompileError::InvalidIdent)
    }
}

/// The local variable that holds a resolved field.
pub fn var_name(field: &str) -> (r: Result<String, CompileError>)
    ensures
        match r {
            Ok(s) => names_ident(var_name_text(field@)) && s@ == var_name_text(field@),
            Err(e) => !names_ident(var_name_text(field@)) && e == CompileError::InvalidIdent,
        },
{
    let mut name = "__di".to_owned();
    let rest = strip_raw(field);
    name.append(rest.as_str());
    mk_ident(name)
}

/// Appends the statement that binds a field's variable.
fn append_let(out: &mut String, var: &str, expr: &str, awaits: bool)
    ensures
        final(out)@ == {
            let head = old(out)@ + "let "@ + var@ + " = "@ + expr@;
            if awaits {
                head + ".await"@ + "; "@
            } else {
                head + "; "@
            }
        },
{
    out.append("let ");
    out.append(var);
    out.append(" = ");
    out.append(expr);
    if awaits {
        out.append(".await");
    }
    out.append("; ");
}

/// Appends an item of a comma-separated list.
fn append_item(out: &mut String, first: bool, item: &str)
    ensures
        final(out)@ == push_item(old(out)@, first, item@),
{
    if !first {
        out.append(", ");
    }
    out.append(item);
}

/// Computes the local variables of all fields.
fn var_names(field_dis: &Vec<FieldDI>) -> (r: Result<Vec<String>, CompileError>)
    ensures
        match r {
            Ok(vars) => {
                &&& vars_ok(views_of(field_dis@))
                &&& vars@.len() == field_dis@.len()
                &&& forall|j: int|
                    0 <= j < vars@.len() ==> (#[trigger] vars@[j])@ == var_name_text(
                        field_dis@[j].field_ident@,
                    )
            },
            Err(e) => !vars_ok(views_of(field_dis@)) && e == CompileError::InvalidIdent,
        },
{
    let mut vars: Vec<String> = Vec::new();
    let mut i: usize = 0;
    while i < field_dis.len()
        invariant
            i <= field_dis.len(),
            vars@.len() == i,
            forall|j: int|
                0 <= j < i ==> names_ident(var_name_text(#[trigger] field_dis@[j].field_ident@)),
            forall|j: int|
                0 <= j < i ==> (#[trigger] vars@[j])@ == var_name_text(field_dis@[j].field_ident@),
        decreases field_dis.len() - i,
    {
        match var_name(field_dis[i].field_ident.as_str()) {
            Ok(v) => {
                vars.push(v);
            },
            Err(e) => {
                assert(views_of(field_dis@)[i as int].field_ident
                    == field_dis@[i as int].field_ident@);
                return Err(e);
            },
        }
        i = i + 1;
    }
    assert forall|j: int| 0 <= j < views_of(field_dis@).len() implies names_ident(
        var_name_text(#[trigger] views_of(field_dis@)[j].field_ident),
    ) by {
        assert(views_of(field_dis@)[j].field_ident == field_dis@[j].field_ident@);
    }
    Ok(vars)
}

/// Appends the bindings of all fields, awaiting each asynchronous one in
/// place.
fn append_let_lines(out: &mut String, field_dis: &Vec<FieldDI>, vars: &Vec<String>)
    requires
        vars@.len() == field_dis@.len(),
        forall|j: int|
            0 <= j < vars@.len() ==> (#[trigger] vars@[j])@ == var_name_text(
                field_dis@[j].field_ident@,
            ),
    ensures
        final(out)@ == let_lines(old(out)@, views_of(field_dis@), field_dis@.len()),
{
    let mut i: usize = 0;
    while i < field_dis.len()
        invariant
            i <= field_dis.len(),
            vars@.len() == field_dis@.len(),
            forall|j: int|
                0 <= j < vars@.len() ==> (#[trigger] vars@[j])@ == var_name_text(
                    field_dis@[j].field_ident@,
                ),
            out@ == let_lines(old(out)@, views_of(field_dis@), i as nat),
        decreases field_dis.len() - i,
    {
        let f = &field_dis[i];
        append_let(out, vars[i].as_str(), f.di_expr.as_str(), f.is_async);
        i = i + 1;
    }
}

/// Appends the bindings of all fields with the asynchronous resolutions
/// started together.
fn append_joined(out: &mut String, field_dis: &Vec<FieldDI>, vars: &Vec<String>)
    requires
        vars@.len() == field_dis@.len(),
        forall|j: int|
            0 <= j < vars@.len() ==> (#[trigger] vars@[j])@ == var_name_text(
                field_dis@[j].field_ident@,
            ),
    ensures
        final(out)@ == push_joined(old(out)@, views_of(field_dis@)),
{
    let mut names = String::new();
    let mut exprs = String::new();
    let mut k: usize = 0;
    let mut i: usize = 0;
    while i < field_dis.len()
        invariant
            i <= field_dis.len(),
            vars@.len() == field_dis@.len(),
            forall|j: int|
                0 <= j < vars@.len() ==> (#[trigger] vars@[j])@ == var_name_text(
                    field_dis@[j].field_ident@,
                ),
            out@ == sync_lines(old(out)@, views_of(field_dis@), i as nat),
            names@ == async_vars(views_of(field_dis@), i as nat),
            exprs@ == async_exprs(views_of(field_dis@), i as nat),
            k == count_async(views_of(field_dis@), i as nat),
            k <= i,
        decreases field_dis.len() - i,
    {
        let f = &field_dis[i];
        if f.is_async {
            append_item(&mut names, k == 0, vars[i].as_str());
            append_item(&mut exprs, k == 0, f.di_expr.as_str());
            k = k + 1;
        } else {
            append_let(out, vars[i].as_str(), f.di_expr.as_str(), false);
        }
        i = i + 1;
    }
    if k == 1 {
        out.append("let ");
        out.append(names.as_str());
        out.append(" = ");
        out.append(exprs.as_str());
        out.append(".await; ");
    } else if k > 1 {
        out.append("let (");
        out.append(names.as_str());
        out.append(") = futures::join!(");
        out.append(exprs.as_str());
        out.append("); ");
    }
}

/// Appends the initializers of all fields.
fn append_field_inits(out: &mut String, field_dis: &Vec<FieldDI>, vars: &Vec<String>)
    requires
        vars@.len() == field_dis@.len(),
        forall|j: int|
            0 <= j < vars@.len() ==> (#[trigger] vars@[j])@ == var_name_text(
                field_dis@[j].field_ident@,
            ),
    ensures
        final(out)@ == field_inits(old(out)@, views_of(field_dis@), field_dis@.len()),
{
    let mut i: usize = 0;
    while i < field_dis.len()
        invariant
            i <= field_dis.len(),
            vars@.len() == field_dis@.len(),
            forall|j: int|
                0 <= j < vars@.len() ==> (#[trigger] vars@[j])@ == var_name_text(
                    field_dis@[j].field_ident@,
                ),
            out@ == field_inits(old(out)@, views_of(field_dis@), i as nat),
        decreases field_dis.len() - i,
    {
        append_item(out, i == 0, field_dis[i].field_ident.as_str());
        out.append(": ");
        out.append(vars[i].as_str());
        i = i + 1;
    }
}

/// Emits the portal impl of the component `ident`: its constructor resolves
/// every field and assembles the component. With `join`, the asynchronous
/// resolutions start together and are awaited as one.
pub fn build_portal(
    ident: &str,
    field_dis: &Vec<FieldDI>,
    is_totally_async: bool,
    join: bool,
) -> (r: Result<String, CompileError>)
    ensures
        text_of(r) == build_portal_spec(ident@, views_of(field_dis@), is_totally_async, join),
{
    let vars = match var_names(field_dis) {
        Ok(vars) => vars,
        Err(e) => {
            return Err(e);
        },
    };
    let mut out = if is_totally_async {
        "#[async_trait::async_trait] impl portaldi::AsyncDIPortal for ".to_owned()
    } else {
        "impl portaldi::DIPortal for ".to_owned()
    };
    out.append(ident);
    if is_totally_async {
        out.append(" { async fn create_for_di(container: &portaldi::DIContainer) -> Self { ");
    } else {
        out.append(" { fn create_for_di(container: &portaldi::DIContainer) -> Self { ");
    }
    if join {
        append_joined(&mut out, field_dis, &vars);
    } else {
        append_let_lines(&mut out, field_dis, &vars);
    }
    out.append(ident);
    out.append(" { ");
    append_field_inits(&mut out, field_dis, &vars);
    out.append(" } } }");
    Ok(out)
}

/// The dependency a field declares: the name of its type, and the names of
/// that type's generic arguments.
pub struct DIType {
    pub type_ident: String,
    pub type_params: Vec<String>,
}

/// A `DIType` over character sequences.
pub struct DITypeView {
    pub type_ident: Seq<char>,
    pub type_params: Seq<Seq<char>>,
}

impl View for DIType {
    type V = DITypeView;

    open spec fn view(&self) -> DITypeView {
        DITypeView { type_ident: self.type_ident@, type_params: views_of(self.type_params@) }
    }
}

/// The path of the dependency inside the wrapper `DI<...>`: the type must be
/// a path whose last segment is `DI` with arguments in angle brackets, and
/// the first argument a path type, or a trait object whose first bound is a
/// trait.
pub open spec fn di_target(ty: TypeView) -> Option<PathView> {
    match ty {
        TypeView::Path(outer) => if outer.segments.len() > 0 && outer.segments.last().ident
            == "DI"@ {
            match outer.segments.last().arguments {
                PathArgumentsView::AngleBracketed(args) => if args.len() > 0 {
                    match args[0] {
                        GenericArgumentView::Type(TypeView::TraitObject(bounds)) => if bounds.len()
                            > 0 {
                            match bounds[0] {
                                TypeParamBoundView::Trait(path) => Some(path),
                                _ => None,
                            }
                        } else {
                            None
                        },
                        GenericArgumentView::Type(TypeView::Path(path)) => Some(path),
                        _ => None,
                    }
                } else {
                    None
                },
                _ => None,
            }
        } else {
            None
        },
        _ => None,
    }
}

/// What a generic argument contributes to a provider's name: a path type the
/// name of its last segment, the unit type the word `Unit`, anything else
/// nothing.
pub open spec fn arg_name(arg: GenericArgumentView) -> Option<Seq<char>> {
    match arg {
        GenericArgumentView::Type(TypeView::Path(p)) => if p.segments.len() > 0 {
            Some(p.segments.last().ident)
        } else {
            None
        },
        GenericArgumentView::Type(TypeView::Tuple(elems)) => if elems.len() == 0 {
            Some("Unit"@)
        } else {
            None
        },
        _ => None,
    }
}

/// The names that the first `n` generic arguments contribute, in order.
pub open spec fn arg_names(args: Seq<GenericArgumentView>, n: nat) -> Seq<Seq<char>>
    decreases n,
{
    if n == 0 {
        Seq::empty()
    } else {
        match arg_name(args[n - 1]) {
            Some(name) => arg_names(args, (n - 1) as nat).push(name),
            None => arg_names(args, (n - 1) as nat),
        }
    }
}

/// The dependency that a field of type `ty` declares, if `ty` is a
/// dependency wrapper around a named type.
pub open spec fn get_di_type_spec(ty: TypeView) -> Option<DITypeView> {
    match di_target(ty) {
        Some(path) => if path.segments.len() > 0 {
            Some(
                DITypeView {
                    type_ident: path.segments.last().ident,
                    type_params: match path.segments.last().arguments {
                        PathArgumentsView::AngleBracketed(args) => arg_names(args, args.len()),
                        _ => Seq::empty(),
                    },
                },
            )
        } else {
            None
        },
        None => None,
    }
}

/// Finds the path of the dependency inside the wrapper `DI<...>`.
fn find_di_target(ty: &Type) -> (r: Option<&Path>)
    ensures
        match di_target(ty@) {
            Some(path) => r matches Some(p) && p@ == path,
            None => r is None,
        },
{
    let outer = match ty {
        Type::Path(outer) => outer,
        _ => {
            return None;
        },
    };
    let n = outer.segments.len();
    assert(outer@.segments.len() == n);
    if n == 0 {
        return None;
    }
    let last = &outer.segments[n - 1];
    if last.ident != "DI".to_owned() {
        return None;
    }
    let args = match &last.arguments {
        PathArguments::AngleBracketed(args) => args,
        _ => {
            return None;
        },
    };
    if args.len() == 0 {
        return None;
    }
    assert(generic_arguments_view(*args)[0] == args[0]@);
    match &args[0] {
        GenericArgument::Type(Type::TraitObject(bounds)) => {
            if bounds.len() == 0 {
                return None;
            }
            match &bounds[0] {
                TypeParamBound::Trait(path) => Some(path),
                _ => None,
            }
        },
        GenericArgument::Type(Type::Path(path)) => Some(path),
        _ => None,
    }
}

/// Collects the names that generic arguments contribute to a provider's name.
fn collect_arg_names(args: &Vec<GenericArgument>) -> (r: Vec<String>)
    ensures
        views_of(r@) == arg_names(generic_arguments_view(*args), args@.len()),
{
    let mut names: Vec<String> = Vec::new();
    let mut i: usize = 0;
    while i < args.len()
        invariant
            i <= args.len(),
            views_of(names@) == arg_names(generic_arguments_view(*args), i as nat),
        decreases args.len() - i,
    {
        match &args[i] {
            GenericArgument::Type(Type::Path(p)) => {
                let n = p.segments.len();
                if n > 0 {
                    names.push(p.segments[n - 1].ident.clone());
                }
            },
            GenericArgument::Type(Type::Tuple(elems)) => {
                if elems.len() == 0 {
                    names.push("Unit".to_owned());
                }
            },
            _ => {},
        }
        i = i + 1;
    }
    names
}

/// Reads the dependency that a field of type `ty` declares: the name of the
/// type inside `DI<...>` and the names of its generic arguments.
pub fn get_di_type(ty: &Type) -> (r: Option<DIType>)
    ensures
        match r {
            Some(d) => get_di_type_spec(ty@) == Some(d@),
            None => get_di_type_spec(ty@) is None,
        },
{
    let path = match find_di_target(ty) {
        Some(path) => path,
        None => {
            return None;
        },
    };
    let n = path.segments.len();
    if n == 0 {
        return None;
    }
    let last_seg = &path.segments[n - 1];
    let type_params = match &last_seg.arguments {
        PathArguments::AngleBracketed(args) => collect_arg_names(args),
        _ => {
            let none: Vec<String> = Vec::new();
            assert(views_of(none@) =~= Seq::<Seq<char>>::empty());
            none
        },
    };
    Some(DIType { type_ident: last_seg.ident.clone(), type_params })
}

/// The resolving expression of a field: the portal or provider named by
/// `inject_path` where there is one, else the provider whose name is derived
/// from the declared type.
pub open spec fn build_field_di_spec(ty: TypeView, inject_path: Option<Seq<char>>) -> Result<
    Seq<char>,
    CompileError,
> {
    match inject_path {
        Some(path) => Ok(path + "::di_on(container)"@),
        None => match get_di_type_spec(ty) {
            None => Err(CompileError::NotDIType),
            Some(d) => match provider_name_spec(
                d.type_ident,
                joined(Seq::empty(), d.type_params, d.type_params.len()),
            ) {
                Ok(name) => Ok(name + "::di_on(container)"@),
                Err(e) => Err(e),
            },
        },
    }
}

/// Builds the expression that resolves the field `f` on `container`.
pub fn build_field_di(f: &Field, inject_path: Option<&str>) -> (r: Result<String, CompileError>)
    ensures
        text_of(r) == build_field_di_spec(
            f.ty@,
            match inject_path {
                Some(p) => Some(p@),
                None => None,
            },
        ),
{
    let mut out = match inject_path {
        Some(path) => path.to_owned(),
        None => {
            let d = match get_di_type(&f.ty) {
                Some(d) => d,
                None => {
                    return Err(CompileError::NotDIType);
                },
            };
            let mut type_params_str = String::new();
            let mut i: usize = 0;
            while i < d.type_params.len()
                invariant
                    i <= d.type_params.len(),
                    type_params_str@ == joined(Seq::empty(), d@.type_params, i as nat),
                decreases d.type_params.len() - i,
            {
                type_params_str.append(d.type_params[i].as_str());
                i = i + 1;
            }
            match provider_name(d.type_ident.as_str(), type_params_str.as_str()) {
                Ok(name) => name,
                Err(e) => {
                    return Err(e);
                },
            }
        },
    };
    out.append("::di_on(container)");
    Ok(out)
}

/// What an `inject` attribute says of a field.
pub struct InjectAttr {
    /// The type to resolve the field with, by the text of its path.
    pub path: Option<String>,
    /// Whether the field's resolution suspends.
    pub is_async: bool,
}

/// An `InjectAttr` over character sequences.
pub struct InjectAttrView {
    pub path: Option<Seq<char>>,
    pub is_async: bool,
}

impl View for InjectAttr {
    type V = InjectAttrView;

    open spec fn view(&self) -> InjectAttrView {
        InjectAttrView {
            path: match self.path {
                Some(p) => Some(p@),
                None => None,
            },
            is_async: self.is_async,
        }
    }
}

/// The first path among the arguments at or after `from`.
pub open spec fn first_path(parts: Seq<InjectAttrPartView>, from: nat) -> Option<Seq<char>>
    decreases parts.len() - from,
{
    if from >= parts.len() {
        None
    } else {
        match parts[from as int] {
            InjectAttrPartView::Path(p) => Some(p),
            InjectAttrPartView::Async => first_path(parts, from + 1),
        }
    }
}

/// The argument is the word `async`.
pub open spec fn is_async_part(part: InjectAttrPartView) -> bool {
    part is Async
}

/// One of the arguments is the word `async`.
pub open spec fn has_async(parts: Seq<InjectAttrPartView>) -> bool {
    exists|i: int| 0 <= i < parts.len() && is_async_part(#[trigger] parts[i])
}

/// What the attributes of a field say of its injection: nothing without an
/// `inject` attribute in list form; else the first path among its arguments,
/// and whether `async` is among them.
pub open spec fn parse_inject_attr_spec(
    attrs: Seq<AttributeView<Seq<InjectAttrPartView>>>,
) -> Result<Option<InjectAttrView>, CompileError> {
    match first_named(attrs, "inject"@, 0) {
        None => Ok(None),
        Some(i) => match attrs[i].meta {
            MetaView::List(Some(parts)) => Ok(
                Some(InjectAttrView { path: first_path(parts, 0), is_async: has_async(parts) }),
            ),
            MetaView::List(None) => Err(CompileError::MalformedInject),
            _ => Ok(None),
        },
    }
}

/// Reads the `inject` attribute of a field, if it has one.
pub fn parse_inject_attr(attrs: &Vec<Attribute<Vec<InjectAttrPart>>>) -> (r: Result<
    Option<InjectAttr>,
    CompileError,
>)
    ensures
        match r {
            Ok(Some(a)) => parse_inject_attr_spec(views_of(attrs@)) == Ok::<
                Option<InjectAttrView>,
                CompileError,
            >(Some(a@)),
            Ok(None) => parse_inject_attr_spec(views_of(attrs@)) == Ok::<
                Option<InjectAttrView>,
                CompileError,
            >(None),
            Err(e) => parse_inject_attr_spec(views_of(attrs@)) == Err::<
                Option<InjectAttrView>,
                CompileError,
            >(e),
        },
{
    let attr = match attr_of(attrs, "inject") {
        Some(attr) => attr,
        None => {
            return Ok(None);
        },
    };
    let parts = match &attr.meta {
        Meta::List(Some(parts)) => parts,
        Meta::List(None) => {
            return Err(CompileError::MalformedInject);
        },
        _ => {
            return Ok(None);
        },
    };
    let ghost all = parts.deep_view();
    let mut path: Option<String> = None;
    let mut is_async = false;
    let mut i: usize = 0;
    while i < parts.len()
        invariant
            i <= parts.len(),
            all == parts.deep_view(),
            is_async == (exists|j: int| 0 <= j < i && is_async_part(#[trigger] all[j])),
            match path {
                Some(p) => first_path(all, 0) == Some(p@),
                None => first_path(all, 0) == first_path(all, i as nat),
            },
        decreases parts.len() - i,
    {
        match &parts[i] {
            InjectAttrPart::Path(p) => {
                if path.is_none() {
                    path = Some(p.clone());
                }
            },
            InjectAttrPart::Async => {
                is_async = true;
            },
        }
        i = i + 1;
    }
    Ok(Some(InjectAttr { path, is_async }))
}

/// What the build environment sets for code generation.
pub struct Env {
    /// Every field is resolved asynchronously, whatever it is marked.
    pub always_async: bool,
    /// The pattern that derives the provided trait's name from a component's
    /// name, if one is set.
    pub provider_pattern: Option<String>,
    /// Asynchronous resolutions of one component start together.
    pub futures_join: bool,
}

/// Whether the value of the always-async setting switches it on: only the
/// word `true` does.
pub open spec fn always_async_spec(value: Option<Seq<char>>) -> bool {
    value == Some("true"@)
}

impl Env {
    /// The pattern as a sequence of characters.
    pub open spec fn pattern(&self) -> Option<Seq<char>> {
        match self.provider_pattern {
            Some(p) => Some(p@),
            None => None,
        }
    }

    /// Reads the settings from the values of the always-async variable and of
    /// the provider pattern variable, each `None` where unset.
    pub fn new(
        always_async: Option<&str>,
        provider_pattern: Option<String>,
        futures_join: bool,
    ) -> (r: Self)
        ensures
            r.always_async == always_async_spec(
                match always_async {
                    Some(v) => Some(v@),
                    None => None,
                },
            ),
            r.provider_pattern == provider_pattern,
            r.futures_join == futures_join,
    {
        let on = match always_async {
            Some(v) => v.to_owned() == "true".to_owned(),
            None => false,
        };
        Env { always_async: on, provider_pattern, futures_join }
    }
}

/// How one field is resolved: asynchronously if the policy says so or the
/// field is marked `async`, by the path its `inject` attribute names or else
/// by the provider derived from its type.
pub open spec fn field_di_spec(f: FieldView, always_async: bool) -> Result<
    FieldDIView,
    CompileError,
> {
    match parse_inject_attr_spec(f.attrs) {
        Err(e) => Err(e),
        Ok(inject) => match build_field_di_spec(
            f.ty,
            match inject {
                Some(a) => a.path,
                None => None,
            },
        ) {
            Err(e) => Err(e),
            Ok(di_expr) => match f.ident {
                None => Err(CompileError::UnnamedField),
                Some(field_ident) => Ok(
                    FieldDIView {
                        field_ident,
                        is_async: always_async || (inject matches Some(a) && a.is_async),
                        di_expr,
                    },
                ),
            },
        },
    }
}

/// How the first `n` fields are resolved, or the error of the first field
/// that has one.
pub open spec fn fields_di_spec(fields: Seq<FieldView>, always_async: bool, n: nat) -> Result<
    Seq<FieldDIView>,
    CompileError,
>
    decreases n,
{
    if n == 0 {
        Ok(Seq::empty())
    } else {
        match fields_di_spec(fields, always_async, (n - 1) as nat) {
            Err(e) => Err(e),
            Ok(pre) => match field_di_spec(fields[n - 1], always_async) {
                Err(e) => Err(e),
                Ok(d) => Ok(pre.push(d)),
            },
        }
    }
}

/// One of the fields is resolved asynchronously.
pub open spec fn any_async(fs: Seq<FieldDIView>) -> bool {
    exists|i: int| 0 <= i < fs.len() && (#[trigger] fs[i]).is_async
}

/// A component is built asynchronously if the policy says so or any of its
/// fields is resolved asynchronously.
pub open spec fn is_totally_async_spec(fs: Seq<FieldDIView>, always_async: bool) -> bool {
    always_async || any_async(fs)
}

/// The provider of the trait the component is declared to provide: the one
/// its `provide` attribute names, else the one the naming pattern derives.
pub open spec fn provide_spec(
    input: DeriveInputView,
    is_totally_async: bool,
    pattern: Option<Seq<char>>,
) -> Result<Seq<char>, CompileError> {
    match first_named(input.attrs, "provide"@, 0) {
        Some(i) => match input.attrs[i].meta {
            MetaView::List(Some(target)) => build_provider_spec(
                input.ident,
                target,
                is_totally_async,
                true,
                None,
            ),
            _ => Err(CompileError::MalformedProvide),
        },
        None => build_provider_by_env_spec(input.ident, is_totally_async, pattern),
    }
}

/// The provider of the component itself, under the component's visibility.
pub open spec fn self_provider_spec(input: DeriveInputView, is_totally_async: bool) -> Result<
    Seq<char>,
    CompileError,
> {
    match input.generics {
        None => Err(CompileError::UnsupportedGenerics),
        Some(generics) => build_provider_spec(
            input.ident,
            ProvideTargetView { ident: input.ident, generics },
            is_totally_async,
            false,
            Some(input.vis),
        ),
    }
}

/// Everything derived for a component whose fields resolve as `fs`: the
/// provider of its trait, its own provider, and its portal.
pub open spec fn derived_spec(
    input: DeriveInputView,
    fs: Seq<FieldDIView>,
    always_async: bool,
    pattern: Option<Seq<char>>,
    join: bool,
) -> Result<Seq<char>, CompileError> {
    let total = is_totally_async_spec(fs, always_async);
    match build_portal_spec(input.ident, fs, total, join) {
        Err(e) => Err(e),
        Ok(portal) => match provide_spec(input, total, pattern) {
            Err(e) => Err(e),
            Ok(provider) => match self_provider_spec(input, total) {
                Err(e) => Err(e),
                Ok(self_provider) => Ok(provider + self_provider + portal),
            },
        },
    }
}

/// The code derived for a component declaration, or the error that stops its
/// generation.
pub open spec fn exec_spec(
    input: DeriveInputView,
    always_async: bool,
    pattern: Option<Seq<char>>,
    join: bool,
) -> Result<Seq<char>, CompileError> {
    match input.data {
        DataView::Other => Err(CompileError::NotAStruct),
        DataView::Struct(fields) => match fields_di_spec(fields, always_async, fields.len()) {
            Err(e) => Err(e),
            Ok(fs) => derived_spec(input, fs, always_async, pattern, join),
        },
    }
}

/// Decides how the field `f` is resolved.
pub fn field_di(f: &Field, always_async: bool) -> (r: Result<FieldDI, CompileError>)
    ensures
        match r {
            Ok(d) => field_di_spec(f@, always_async) == Ok::<FieldDIView, CompileError>(d@),
            Err(e) => field_di_spec(f@, always_async) == Err::<FieldDIView, CompileError>(e),
        },
{
    let inject_attr = match parse_inject_attr(&f.attrs) {
        Ok(a) => a,
        Err(e) => {
            return Err(e);
        },
    };
    let is_async = always_async || match &inject_attr {
        Some(a) => a.is_async,
        None => false,
    };
    let built = match &inject_attr {
        Some(a) => match &a.path {
            Some(p) => build_field_di(f, Some(p.as_str())),
            None => build_field_di(f, None),
        },
        None => build_field_di(f, None),
    };
    let di_expr = match built {
        Ok(expr) => expr,
        Err(e) => {
            return Err(e);
        },
    };
    match &f.ident {
        Some(field_ident) => Ok(FieldDI { field_ident: field_ident.clone(), is_async, di_expr }),
        None => Err(CompileError::UnnamedField),
    }
}

/// Decides whether a component is built asynchronously: under the
/// always-async policy, or when any of its fields is.
pub fn is_totally_async(field_dis: &Vec<FieldDI>, always_async: bool) -> (r: bool)
    ensures
        r == is_totally_async_spec(views_of(field_dis@), always_async),
{
    if always_async {
        return true;
    }
    let mut i: usize = 0;
    while i < field_dis.len()
        invariant
            i <= field_dis.len(),
            forall|j: int| 0 <= j < i ==> !(#[trigger] views_of(field_dis@)[j]).is_async,
        decreases field_dis.len() - i,
    {
        if field_dis[i].is_async {
            assert(views_of(field_dis@)[i as int].is_async);
            return true;
        }
        i = i + 1;
    }
    false
}

/// Derives the code of a component: its portal, the provider of the trait it
/// provides, and its own provider.
pub fn exec(input: &DeriveInput, env: &Env) -> (r: Result<String, CompileError>)
    ensures
        text_of(r) == exec_spec(input@, env.always_async, env.pattern(), env.futures_join),
{
    let fields = match &input.data {
        Data::Struct(fields) => fields,
        Data::Other => {
            return Err(CompileError::NotAStruct);
        },
    };
    let mut field_dis: Vec<FieldDI> = Vec::new();
    let mut i: usize = 0;
    assert(views_of(field_dis@) =~= Seq::<FieldDIView>::empty());
    while i < fields.len()
        invariant
            i <= fields.len(),
            input.data == Data::Struct(*fields),
            fields_di_spec(views_of(fields@), env.always_async, i as nat) == Ok::<
                Seq<FieldDIView>,
                CompileError,
            >(views_of(field_dis@)),
        decreases fields.len() - i,
    {
        let ghost before = field_dis@;
        match field_di(&fields[i], env.always_async) {
            Ok(d) => {
                field_dis.push(d);
                assert(views_of(field_dis@) =~= views_of(before).push(d@));
            },
            Err(e) => {
                proof {
                    assert(fields_di_spec(views_of(fields@), env.always_async, (i + 1) as nat)
                        == Err::<Seq<FieldDIView>, CompileError>(e));
                    lemma_fields_error(
                        views_of(fields@),
                        env.always_async,
                        (i + 1) as nat,
                        fields@.len(),
                    );
                }
                return Err(e);
            },
        }
        i = i + 1;
    }
    let total = is_totally_async(&field_dis, env.always_async);
    let portal = match build_portal(input.ident.as_str(), &field_dis, total, env.futures_join) {
        Ok(text) => text,
        Err(e) => {
            return Err(e);
        },
    };
    let pattern = match &env.provider_pattern {
        Some(p) => Some(p.as_str()),
        None => None,
    };
    let provided = match attr_of(&input.attrs, "provide") {
        Some(attr) => match &attr.meta {
            Meta::List(Some(target)) => build_provider(
                input.ident.as_str(),
                target,
                total,
                true,
                None,
            ),
            _ => Err(CompileError::MalformedProvide),
        },
        None => build_provider_by_env(input.ident.as_str(), total, pattern),
    };
    let mut out = match provided {
        Ok(text) => text,
        Err(e) => {
            return Err(e);
        },
    };
    let generics = match &input.generics {
        Some(generics) => generics,
        None => {
            return Err(CompileError::UnsupportedGenerics);
        },
    };
    let self_provider = match provider_for(
        input.ident.as_str(),
        input.ident.as_str(),
        generics,
        total,
        false,
        Some(input.vis.as_str()),
    ) {
        Ok(text) => text,
        Err(e) => {
            return Err(e);
        },
    };
    out.append(self_provider.as_str());
    out.append(portal.as_str());
    Ok(out)
}

/// The bindings of fields follow what was there before them.
proof fn lemma_let_lines_open(pre: Seq<char>, fs: Seq<FieldDIView>, n: nat)
    ensures
        starts_with(let_lines(pre, fs, n), pre),
        starts_with(sync_lines(pre, fs, n), pre),
        starts_with(field_inits(pre, fs, n), pre),
    decreases n,
{
    if n > 0 {
        lemma_let_lines_open(pre, fs, (n - 1) as nat);
    }
}

/// Synchrony propagation. Without the always-async policy, a component with
/// an asynchronous field is built asynchronously and its portal is the
/// suspending one only; a component without one is built synchronously and
/// its portal is the plain one only.
pub proof fn lemma_synchrony_propagation(ident: Seq<char>, fs: Seq<FieldDIView>, join: bool)
    ensures
        is_totally_async_spec(fs, false) == any_async(fs),
        build_portal_spec(ident, fs, any_async(fs), join) matches Ok(text) ==> {
            &&& starts_with(text, portal_head(ident, true)) == any_async(fs)
            &&& starts_with(text, portal_head(ident, false)) == !any_async(fs)
        },
{
    let total = any_async(fs);
    let head = portal_head(ident, total);
    let bound = push_bindings(head, fs, join);
    let opened = bound + ident + " { "@;
    let text = portal_text(ident, fs, total, join);
    lemma_let_lines_open(head, fs, fs.len());
    lemma_let_lines_open(opened, fs, fs.len());
    assert(starts_with(bound, head));
    assert(starts_with(text, head));
    reveal_strlit("#[async_trait::async_trait] impl portaldi::AsyncDIPortal for ");
    reveal_strlit("impl portaldi::DIPortal for ");
    assert(portal_head(ident, true)[0] == '#');
    assert(portal_head(ident, false)[0] == 'i');
    assert(text[0] == head[0]);
}

/// Joining reads only the parts it covers.
proof fn lemma_joined_prefix(pre: Seq<char>, p: Seq<Seq<char>>, q: Seq<Seq<char>>, n: nat)
    requires
        n <= p.len(),
        n <= q.len(),
        forall|i: int| 0 <= i < n ==> p[i] == q[i],
    ensures
        joined(pre, p, n) == joined(pre, q, n),
    decreases n,
{
    if n > 0 {
        lemma_joined_prefix(pre, p, q, (n - 1) as nat);
    }
}

/// The type `DI<name<args>>`: a dependency on the instantiation of `name`
/// with the generic arguments `args`.
pub open spec fn di_of(name: Seq<char>, args: Seq<GenericArgumentView>) -> TypeView {
    let target = PathView {
        segments: seq![
            PathSegmentView { ident: name, arguments: PathArgumentsView::AngleBracketed(args) },
        ],
    };
    TypeView::Path(
        PathView {
            segments: seq![
                PathSegmentView {
                    ident: "DI"@,
                    arguments: PathArgumentsView::AngleBracketed(
                        seq![GenericArgumentView::Type(TypeView::Path(target))],
                    ),
                },
            ],
        },
    )
}

/// The names of generic arguments read only the arguments they cover.
proof fn lemma_arg_names_prefix(
    p: Seq<GenericArgumentView>,
    q: Seq<GenericArgumentView>,
    n: nat,
)
    requires
        n <= p.len(),
        n <= q.len(),
        forall|i: int| 0 <= i < n ==> p[i] == q[i],
    ensures
        arg_names(p, n) == arg_names(q, n),
    decreases n,
{
    if n > 0 {
        lemma_arg_names_prefix(p, q, (n - 1) as nat);
    }
}

/// Generic disambiguation for dependency fields. Two fields that declare
/// instantiations of one dependency type which agree in all generic
/// arguments but the last never resolve through the same provider, as long
/// as the two last arguments contribute different names. The unit type
/// contributes the word `Unit`.
pub proof fn lemma_field_disambiguation(
    name: Seq<char>,
    args: Seq<GenericArgumentView>,
    b: GenericArgumentView,
    c: GenericArgumentView,
)
    requires
        arg_name(b) is Some,
        arg_name(c) is Some,
        arg_name(b) != arg_name(c),
    ensures
        build_field_di_spec(di_of(name, args.push(b)), None) is Ok ==> build_field_di_spec(
            di_of(name, args.push(b)),
            None,
        ) != build_field_di_spec(di_of(name, args.push(c)), None),
        arg_name(GenericArgumentView::Type(TypeView::Tuple(Seq::empty()))) == Some("Unit"@),
{
    let x = arg_name(b)->0;
    let y = arg_name(c)->0;
    let ty1 = di_of(name, args.push(b));
    let ty2 = di_of(name, args.push(c));
    let n = args.len();
    let shared = arg_names(args, n);
    lemma_arg_names_prefix(args.push(b), args, n);
    lemma_arg_names_prefix(args.push(c), args, n);
    assert(arg_names(args.push(b), n + 1) == shared.push(x));
    assert(arg_names(args.push(c), n + 1) == shared.push(y));
    assert(get_di_type_spec(ty1) == Some(
        DITypeView { type_ident: name, type_params: shared.push(x) },
    ));
    assert(get_di_type_spec(ty2) == Some(
        DITypeView { type_ident: name, type_params: shared.push(y) },
    ));
    let m = shared.len();
    let base = joined(Seq::empty(), shared, m);
    lemma_joined_prefix(Seq::empty(), shared.push(x), shared, m);
    lemma_joined_prefix(Seq::empty(), shared.push(y), shared, m);
    assert(joined(Seq::empty(), shared.push(x), m + 1) == base + x);
    assert(joined(Seq::empty(), shared.push(y), m + 1) == base + y);
    let head = unraw(name) + base;
    let name1 = provider_name_text(name, base + x);
    let name2 = provider_name_text(name, base + y);
    assert(name1 =~= head + x + "Provider"@);
    assert(name2 =~= head + y + "Provider"@);
    if name1 == name2 {
        lemma_middle(head, x, y, "Provider"@);
    }
    let tail = "::di_on(container)"@;
    if build_field_di_spec(ty1, None) is Ok && build_field_di_spec(ty1, None)
        == build_field_di_spec(ty2, None) {
        assert(name1 + tail == name2 + tail);
        assert(Seq::<char>::empty() + name1 + tail =~= name1 + tail);
        assert(Seq::<char>::empty() + name2 + tail =~= name2 + tail);
        lemma_middle(Seq::empty(), name1, name2, tail);
    }
}

/// Once the first `n` fields hold an error, so do the first `m`, for every
/// `m` at or beyond `n`: it is the same error.
proof fn lemma_fields_error(fields: Seq<FieldView>, always_async: bool, n: nat, m: nat)
    requires
        n <= m,
        fields_di_spec(fields, always_async, n) is Err,
    ensures
        fields_di_spec(fields, always_async, m) == fields_di_spec(fields, always_async, n),
    decreases m - n,
{
    if n < m {
        lemma_fields_error(fields, always_async, n, (m - 1) as nat);
    }
}

} // verus!
