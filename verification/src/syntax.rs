//! The shape of the declarations that the generators read: types, paths,
//! attributes, fields and items, reduced to what decides the generated code.

use crate::helper::build_di_provider::{ProvideTarget, ProvideTargetView};
use crate::helper::common::{views_of, GenericsView, Generics_};
use vstd::prelude::*;

verus! {

/// A type as written in a declaration.
pub enum Type {
    /// A path such as `a::B<C>`.
    Path(Path),
    /// A trait object `dyn A + B`, with its bounds in order.
    TraitObject(Vec<TypeParamBound>),
    /// A tuple, with its element types in order; `()` has none.
    Tuple(Vec<Type>),
    /// Any other type.
    Other,
}

/// A path: its segments in order.
pub struct Path {
    pub segments: Vec<PathSegment>,
}

/// A segment of a path: a name and what follows it.
pub struct PathSegment {
    pub ident: String,
    pub arguments: PathArguments,
}

/// What follows the name in a path segment.
pub enum PathArguments {
    /// Nothing.
    Absent,
    /// Arguments in angle brackets, in order.
    AngleBracketed(Vec<GenericArgument>),
    /// Arguments in round brackets, as in `Fn(A) -> B`.
    Parenthesized,
}

/// One argument in angle brackets.
pub enum GenericArgument {
    /// A type.
    Type(Type),
    /// A lifetime, a constant or a binding.
    Other,
}

/// One bound of a trait object.
pub enum TypeParamBound {
    /// A trait, by its path.
    Trait(Path),
    /// A lifetime or anything else.
    Other,
}

/// A `Type` over sequences.
pub enum TypeView {
    Path(PathView),
    TraitObject(Seq<TypeParamBoundView>),
    Tuple(Seq<TypeView>),
    Other,
}

/// A `Path` over sequences.
pub struct PathView {
    pub segments: Seq<PathSegmentView>,
}

/// A `PathSegment` over sequences.
pub struct PathSegmentView {
    pub ident: Seq<char>,
    pub arguments: PathArgumentsView,
}

/// A `PathArguments` over sequences.
pub enum PathArgumentsView {
    Absent,
    AngleBracketed(Seq<GenericArgumentView>),
    Parenthesized,
}

/// A `GenericArgument` over sequences.
pub enum GenericArgumentView {
    Type(TypeView),
    Other,
}

/// A `TypeParamBound` over sequences.
pub enum TypeParamBoundView {
    Trait(PathView),
    Other,
}

/// The view of a type.
pub open spec fn type_view(t: Type) -> TypeView
    decreases t,
{
    match t {
        Type::Path(p) => TypeView::Path(path_view(p)),
        Type::TraitObject(bounds) => TypeView::TraitObject(bounds_view(bounds)),
        Type::Tuple(elems) => TypeView::Tuple(types_view(elems)),
        Type::Other => TypeView::Other,
    }
}

/// The views of types, in order.
pub open spec fn types_view(ts: Vec<Type>) -> Seq<TypeView>
    decreases ts,
{
    Seq::new(
        ts.len() as nat,
        |i: int|
            if 0 <= i < ts.len() {
                type_view(ts[i])
            } else {
                TypeView::Other
            },
    )
}

/// The view of a path.
pub open spec fn path_view(p: Path) -> PathView
    decreases p,
{
    PathView { segments: segments_view(p.segments) }
}

/// The views of path segments, in order.
pub open spec fn segments_view(ss: Vec<PathSegment>) -> Seq<PathSegmentView>
    decreases ss,
{
    Seq::new(
        ss.len() as nat,
        |i: int|
            if 0 <= i < ss.len() {
                segment_view(ss[i])
            } else {
                PathSegmentView { ident: Seq::empty(), arguments: PathArgumentsView::Absent }
            },
    )
}

/// The view of a path segment.
pub open spec fn segment_view(s: PathSegment) -> PathSegmentView
    decreases s,
{
    PathSegmentView { ident: s.ident@, arguments: arguments_view(s.arguments) }
}

/// The view of what follows the name in a path segment.
pub open spec fn arguments_view(a: PathArguments) -> PathArgumentsView
    decreases a,
{
    match a {
        PathArguments::Absent => PathArgumentsView::Absent,
        PathArguments::AngleBracketed(args) => PathArgumentsView::AngleBracketed(
            generic_arguments_view(args),
        ),
        PathArguments::Parenthesized => PathArgumentsView::Parenthesized,
    }
}

/// The views of generic arguments, in order.
pub open spec fn generic_arguments_view(args: Vec<GenericArgument>) -> Seq<GenericArgumentView>
    decreases args,
{
    Seq::new(
        args.len() as nat,
        |i: int|
            if 0 <= i < args.len() {
                generic_argument_view(args[i])
            } else {
                GenericArgumentView::Other
            },
    )
}

/// The view of a generic argument.
pub open spec fn generic_argument_view(a: GenericArgument) -> GenericArgumentView
    decreases a,
{
    match a {
        GenericArgument::Type(t) => GenericArgumentView::Type(type_view(t)),
        GenericArgument::Other => GenericArgumentView::Other,
    }
}

/// The views of bounds, in order.
pub open spec fn bounds_view(bs: Vec<TypeParamBound>) -> Seq<TypeParamBoundView>
    decreases bs,
{
    Seq::new(
        bs.len() as nat,
        |i: int|
            if 0 <= i < bs.len() {
                bound_view(bs[i])
            } else {
                TypeParamBoundView::Other
            },
    )
}

/// The view of a bound.
pub open spec fn bound_view(b: TypeParamBound) -> TypeParamBoundView
    decreases b,
{
    match b {
        TypeParamBound::Trait(p) => TypeParamBoundView::Trait(path_view(p)),
        TypeParamBound::Other => TypeParamBoundView::Other,
    }
}

impl View for Type {
    type V = TypeView;

    open spec fn view(&self) -> TypeView {
        type_view(*self)
    }
}

impl View for Path {
    type V = PathView;

    open spec fn view(&self) -> PathView {
        path_view(*self)
    }
}

impl View for PathSegment {
    type V = PathSegmentView;

    open spec fn view(&self) -> PathSegmentView {
        segment_view(*self)
    }
}

impl View for PathArguments {
    type V = PathArgumentsView;

    open spec fn view(&self) -> PathArgumentsView {
        arguments_view(*self)
    }
}

impl View for GenericArgument {
    type V = GenericArgumentView;

    open spec fn view(&self) -> GenericArgumentView {
        generic_argument_view(*self)
    }
}

impl View for TypeParamBound {
    type V = TypeParamBoundView;

    open spec fn view(&self) -> TypeParamBoundView {
        bound_view(*self)
    }
}

/// The arguments of an attribute, read as a value of `A`.
pub enum Meta<A> {
    /// The attribute is a bare path: `#[name]`.
    Path,
    /// The attribute is a list `#[name(...)]`; `None` where its content does
    /// not read as an `A`.
    List(Option<A>),
    /// The attribute is an assignment: `#[name = value]`.
    NameValue,
}

/// A `Meta` over the view of its content.
pub enum MetaView<V> {
    Path,
    List(Option<V>),
    NameValue,
}

impl<A: DeepView> View for Meta<A> {
    type V = MetaView<A::V>;

    open spec fn view(&self) -> MetaView<A::V> {
        match *self {
            Meta::Path => MetaView::Path,
            Meta::List(Some(a)) => MetaView::List(Some(a.deep_view())),
            Meta::List(None) => MetaView::List(None),
            Meta::NameValue => MetaView::NameValue,
        }
    }
}

/// An attribute on an item or a field.
pub struct Attribute<A> {
    /// The attribute's name, where its path is a single identifier.
    pub ident: Option<String>,
    pub meta: Meta<A>,
}

/// An `Attribute` over sequences.
pub struct AttributeView<V> {
    pub ident: Option<Seq<char>>,
    pub meta: MetaView<V>,
}

/// The characters of a text that may be absent.
pub open spec fn opt_text(s: Option<String>) -> Option<Seq<char>> {
    match s {
        Some(s) => Some(s@),
        None => None,
    }
}

impl<A: DeepView> View for Attribute<A> {
    type V = AttributeView<A::V>;

    open spec fn view(&self) -> AttributeView<A::V> {
        AttributeView { ident: opt_text(self.ident), meta: self.meta@ }
    }
}

/// One argument of an `inject` attribute.
pub enum InjectAttrPart {
    /// A type to resolve the field with, by the text of its path.
    Path(String),
    /// The word `async`.
    Async,
}

/// An `InjectAttrPart` over sequences.
pub enum InjectAttrPartView {
    Path(Seq<char>),
    Async,
}

impl View for InjectAttrPart {
    type V = InjectAttrPartView;

    open spec fn view(&self) -> InjectAttrPartView {
        match *self {
            InjectAttrPart::Path(p) => InjectAttrPartView::Path(p@),
            InjectAttrPart::Async => InjectAttrPartView::Async,
        }
    }
}

impl DeepView for InjectAttrPart {
    type V = InjectAttrPartView;

    open spec fn deep_view(&self) -> InjectAttrPartView {
        self@
    }
}

/// A field of a struct.
pub struct Field {
    /// The field's name; a tuple struct's fields have none.
    pub ident: Option<String>,
    pub ty: Type,
    pub attrs: Vec<Attribute<Vec<InjectAttrPart>>>,
}

/// A `Field` over sequences.
pub struct FieldView {
    pub ident: Option<Seq<char>>,
    pub ty: TypeView,
    pub attrs: Seq<AttributeView<Seq<InjectAttrPartView>>>,
}

impl View for Field {
    type V = FieldView;

    open spec fn view(&self) -> FieldView {
        FieldView { ident: opt_text(self.ident), ty: self.ty@, attrs: views_of(self.attrs@) }
    }
}

/// The body of the item a portal is derived for.
pub enum Data {
    /// A struct, with its fields in order.
    Struct(Vec<Field>),
    /// An enum or a union.
    Other,
}

/// A `Data` over sequences.
pub enum DataView {
    Struct(Seq<FieldView>),
    Other,
}

impl View for Data {
    type V = DataView;

    open spec fn view(&self) -> DataView {
        match *self {
            Data::Struct(fields) => DataView::Struct(views_of(fields@)),
            Data::Other => DataView::Other,
        }
    }
}

/// The item a portal is derived for.
pub struct DeriveInput {
    pub ident: String,
    /// The text of the item's visibility; empty where it is inherited.
    pub vis: String,
    /// The item's generic parameters read as types; `None` where one of them
    /// is not a type.
    pub generics: Option<Generics_>,
    pub attrs: Vec<Attribute<ProvideTarget>>,
    pub data: Data,
}

/// A `DeriveInput` over sequences.
pub struct DeriveInputView {
    pub ident: Seq<char>,
    pub vis: Seq<char>,
    pub generics: Option<GenericsView>,
    pub attrs: Seq<AttributeView<ProvideTargetView>>,
    pub data: DataView,
}

/// The view of a generic argument list that may be absent.
pub open spec fn opt_generics(g: Option<Generics_>) -> Option<GenericsView> {
    match g {
        Some(g) => Some(g@),
        None => None,
    }
}

impl View for DeriveInput {
    type V = DeriveInputView;

    open spec fn view(&self) -> DeriveInputView {
        DeriveInputView {
            ident: self.ident@,
            vis: self.vis@,
            generics: opt_generics(self.generics),
            attrs: views_of(self.attrs@),
            data: self.data@,
        }
    }
}

/// An item of an impl block.
pub enum ImplItem {
    /// A function: its name, and whether it is `async`.
    Fn { ident: String, is_async: bool },
    /// Anything else.
    Other,
}

/// An `ImplItem` over sequences.
pub enum ImplItemView {
    Fn { ident: Seq<char>, is_async: bool },
    Other,
}

impl View for ImplItem {
    type V = ImplItemView;

    open spec fn view(&self) -> ImplItemView {
        match *self {
            ImplItem::Fn { ident, is_async } => ImplItemView::Fn { ident: ident@, is_async },
            ImplItem::Other => ImplItemView::Other,
        }
    }
}

/// An impl block.
pub struct ItemImpl {
    /// The text of the whole block.
    pub text: String,
    /// The names of the segments of the implemented trait's path, if the impl
    /// is of a trait.
    pub trait_: Option<Vec<String>>,
    /// The type the impl is for.
    pub self_ty: Type,
    /// The arguments of the last segment of that type read as a generic
    /// argument list; `None` where they do not read as one.
    pub self_generics: Option<Generics_>,
    pub items: Vec<ImplItem>,
}

/// An `ItemImpl` over sequences.
pub struct ItemImplView {
    pub text: Seq<char>,
    pub trait_: Option<Seq<Seq<char>>>,
    pub self_ty: TypeView,
    pub self_generics: Option<GenericsView>,
    pub items: Seq<ImplItemView>,
}

impl View for ItemImpl {
    type V = ItemImplView;

    open spec fn view(&self) -> ItemImplView {
        ItemImplView {
            text: self.text@,
            trait_: match self.trait_ {
                Some(segments) => Some(views_of(segments@)),
                None => None,
            },
            self_ty: self.self_ty@,
            self_generics: opt_generics(self.self_generics),
            items: views_of(self.items@),
        }
    }
}

} // verus!
