use portaldi_core::derive_di_portal::{
    build_field_di, get_di_type, parse_inject_attr, DIType, InjectAttr,
};
use portaldi_core::helper::common::attr_of;
use portaldi_core::error::CompileError;
use portaldi_core::syntax::{
    Attribute, Field, GenericArgument, InjectAttrPart, Meta, Path, PathArguments, PathSegment,
    Type, TypeParamBound,
};

fn seg(ident: &str, arguments: PathArguments) -> PathSegment {
    PathSegment { ident: ident.to_string(), arguments }
}

fn plain(ident: &str) -> PathSegment {
    seg(ident, PathArguments::Absent)
}

fn path_of(segments: Vec<PathSegment>) -> Path {
    Path { segments }
}

fn named(ident: &str) -> Type {
    Type::Path(path_of(vec![plain(ident)]))
}

fn generic(ident: &str, args: Vec<Type>) -> Path {
    path_of(vec![seg(
        ident,
        PathArguments::AngleBracketed(args.into_iter().map(GenericArgument::Type).collect()),
    )])
}

fn object(path: Path) -> Type {
    Type::TraitObject(vec![TypeParamBound::Trait(path)])
}

fn unit() -> Type {
    Type::Tuple(vec![])
}

fn di(inner: Type) -> Type {
    Type::Path(generic("DI", vec![inner]))
}

fn field(ident: &str, ty: Type) -> Field {
    Field { ident: Some(ident.to_string()), ty, attrs: vec![] }
}

fn parts_of(r: Option<DIType>) -> Option<(String, Vec<String>)> {
    r.map(|d| (d.type_ident, d.type_params))
}

fn owned(names: &[&str]) -> Vec<String> {
    names.iter().map(|s| s.to_string()).collect()
}

#[test]
fn di_type_of_a_concrete_dependency() {
    assert_eq!(parts_of(get_di_type(&di(named("Foo")))), Some(("Foo".to_string(), vec![])));
}

#[test]
fn di_type_of_a_trait_object_dependency() {
    let ty = di(object(path_of(vec![plain("Foo")])));
    assert_eq!(parts_of(get_di_type(&ty)), Some(("Foo".to_string(), vec![])));
}

#[test]
fn di_type_reads_the_last_segment_of_each_path() {
    // portaldi::DI<dyn foo::Foo<std::string::String>>
    let string = Type::Path(path_of(vec![plain("std"), plain("string"), plain("String")]));
    let target = path_of(vec![
        plain("foo"),
        seg("Foo", PathArguments::AngleBracketed(vec![GenericArgument::Type(string)])),
    ]);
    let ty = Type::Path(path_of(vec![
        plain("portaldi"),
        seg("DI", PathArguments::AngleBracketed(vec![GenericArgument::Type(object(target))])),
    ]));
    assert_eq!(parts_of(get_di_type(&ty)), Some(("Foo".to_string(), owned(&["String"]))));
}

#[test]
fn di_type_names_the_unit_argument() {
    let ty = di(Type::Path(generic("Wrapper", vec![named("String"), unit()])));
    assert_eq!(
        parts_of(get_di_type(&ty)),
        Some(("Wrapper".to_string(), owned(&["String", "Unit"])))
    );
}

#[test]
fn di_type_skips_arguments_without_a_name() {
    // DI<Tagged<dyn Baz, String>>: the trait object contributes nothing
    let tagged = generic("Tagged", vec![object(path_of(vec![plain("Baz")])), named("String")]);
    assert_eq!(
        parts_of(get_di_type(&di(Type::Path(tagged)))),
        Some(("Tagged".to_string(), owned(&["String"])))
    );
    // a lifetime, a non-empty tuple and a reference contribute nothing either
    let mixed = path_of(vec![seg(
        "Yah",
        PathArguments::AngleBracketed(vec![
            GenericArgument::Other,
            GenericArgument::Type(Type::Tuple(vec![named("A"), named("B")])),
            GenericArgument::Type(Type::Other),
            GenericArgument::Type(named("u8")),
        ]),
    )]);
    assert_eq!(
        parts_of(get_di_type(&di(Type::Path(mixed)))),
        Some(("Yah".to_string(), owned(&["u8"])))
    );
}

#[test]
fn di_type_of_parenthesized_arguments_has_no_parameters() {
    let target = path_of(vec![seg("Fn", PathArguments::Parenthesized)]);
    assert_eq!(
        parts_of(get_di_type(&di(object(target)))),
        Some(("Fn".to_string(), vec![]))
    );
}

#[test]
fn types_that_are_no_dependency_wrapper() {
    // another wrapper
    assert!(get_di_type(&Type::Path(generic("Arc", vec![named("Foo")]))).is_none());
    // the wrapper's name in another place than the last
    let inner = Type::Path(path_of(vec![seg(
        "DI",
        PathArguments::AngleBracketed(vec![GenericArgument::Type(named("Foo"))]),
    ), plain("Inner")]));
    assert!(get_di_type(&inner).is_none());
    // not a path
    assert!(get_di_type(&Type::Other).is_none());
    assert!(get_di_type(&unit()).is_none());
    assert!(get_di_type(&object(path_of(vec![plain("DI")]))).is_none());
    // the wrapper without arguments, with none, with round brackets
    assert!(get_di_type(&named("DI")).is_none());
    assert!(get_di_type(&Type::Path(generic("DI", vec![]))).is_none());
    assert!(get_di_type(&Type::Path(path_of(vec![seg("DI", PathArguments::Parenthesized)]))).is_none());
    // the first argument is no type, or a type without a name
    let lifetime_first = path_of(vec![seg(
        "DI",
        PathArguments::AngleBracketed(vec![
            GenericArgument::Other,
            GenericArgument::Type(named("Foo")),
        ]),
    )]);
    assert!(get_di_type(&Type::Path(lifetime_first)).is_none());
    assert!(get_di_type(&di(Type::Other)).is_none());
    assert!(get_di_type(&di(unit())).is_none());
    // a trait object whose first bound is no trait, or without bounds
    let lifetime_bound = Type::TraitObject(vec![
        TypeParamBound::Other,
        TypeParamBound::Trait(path_of(vec![plain("Foo")])),
    ]);
    assert!(get_di_type(&di(lifetime_bound)).is_none());
    assert!(get_di_type(&di(Type::TraitObject(vec![]))).is_none());
    // paths without segments
    assert!(get_di_type(&Type::Path(path_of(vec![]))).is_none());
    assert!(get_di_type(&di(Type::Path(path_of(vec![])))).is_none());
    // a raw identifier is another name
    assert!(get_di_type(&Type::Path(generic("r#DI", vec![named("Foo")]))).is_none());
}

#[test]
fn interface_field_resolves_through_the_provider_named_after_it() {
    let f = field("foo", di(object(path_of(vec![plain("FooI")]))));
    assert_eq!(build_field_di(&f, None), Ok("FooIProvider::di_on(container)".to_string()));
}

#[test]
fn concrete_field_resolves_through_its_own_provider() {
    let f = field("foo", di(named("Foo")));
    assert_eq!(build_field_di(&f, None), Ok("FooProvider::di_on(container)".to_string()));
}

#[test]
fn generic_field_resolves_through_the_mangled_provider() {
    let f = field("w", di(Type::Path(generic("Wrapper", vec![named("String"), unit()]))));
    assert_eq!(
        build_field_di(&f, None),
        Ok("WrapperStringUnitProvider::di_on(container)".to_string())
    );
    let g = field("w", di(Type::Path(generic("Wrapper", vec![named("String"), named("bool")]))));
    assert_eq!(
        build_field_di(&g, None),
        Ok("WrapperStringboolProvider::di_on(container)".to_string())
    );
    let h = field("p", di(object(generic("Piyo3", vec![named("String"), unit()]))));
    assert_eq!(
        build_field_di(&h, None),
        Ok("Piyo3StringUnitProvider::di_on(container)".to_string())
    );
}

#[test]
fn tagged_field_resolves_through_the_provider_of_its_tag() {
    let tagged = generic("Tagged", vec![object(path_of(vec![plain("Baz")])), named("String")]);
    let f = field("_baz_tagged", di(Type::Path(tagged)));
    assert_eq!(build_field_di(&f, None), Ok("TaggedStringProvider::di_on(container)".to_string()));
}

#[test]
fn injected_path_is_used_as_it_is() {
    let f = field("bar2", di(object(path_of(vec![plain("Bar")]))));
    assert_eq!(build_field_di(&f, Some("BarImpl2")), Ok("BarImpl2::di_on(container)".to_string()));
    assert_eq!(
        build_field_di(&f, Some("bar :: BazProvider")),
        Ok("bar :: BazProvider::di_on(container)".to_string())
    );
    // the declared type is not read at all
    let g = field("x", Type::Other);
    assert_eq!(build_field_di(&g, Some("X")), Ok("X::di_on(container)".to_string()));
}

#[test]
fn field_that_is_no_dependency_is_rejected() {
    let f = field("count", named("usize"));
    assert_eq!(build_field_di(&f, None), Err(CompileError::NotDIType));
}

#[test]
fn field_whose_provider_name_is_no_identifier_is_rejected() {
    let f = field("x", di(named("Foo Bar")));
    assert_eq!(build_field_di(&f, None), Err(CompileError::InvalidIdent));
    let g = field("x", di(Type::Path(generic("Foo", vec![named("a-b")]))));
    assert_eq!(build_field_di(&g, None), Err(CompileError::InvalidIdent));
}

#[test]
fn raw_type_name_loses_its_prefix_in_the_provider_name() {
    let f = field("x", di(named("r#type")));
    assert_eq!(build_field_di(&f, None), Ok("typeProvider::di_on(container)".to_string()));
    // an argument keeps it, and spoils the name
    let g = field("x", di(Type::Path(generic("Foo", vec![named("r#type")]))));
    assert_eq!(build_field_di(&g, None), Err(CompileError::InvalidIdent));
}

fn attr(ident: &str, meta: Meta<Vec<InjectAttrPart>>) -> Attribute<Vec<InjectAttrPart>> {
    Attribute { ident: Some(ident.to_string()), meta }
}

fn list(parts: Vec<InjectAttrPart>) -> Meta<Vec<InjectAttrPart>> {
    Meta::List(Some(parts))
}

fn to_path(s: &str) -> InjectAttrPart {
    InjectAttrPart::Path(s.to_string())
}

fn inject_of(r: Result<Option<InjectAttr>, CompileError>) -> Result<Option<(Option<String>, bool)>, CompileError> {
    r.map(|o| o.map(|a| (a.path, a.is_async)))
}

#[test]
fn field_without_inject_attribute() {
    assert_eq!(inject_of(parse_inject_attr(&vec![])), Ok(None));
    let others = vec![attr("doc", Meta::NameValue), attr("serde", Meta::List(None))];
    assert_eq!(inject_of(parse_inject_attr(&others)), Ok(None));
}

#[test]
fn inject_with_a_type() {
    let attrs = vec![attr("inject", list(vec![to_path("Foo")]))];
    assert_eq!(inject_of(parse_inject_attr(&attrs)), Ok(Some((Some("Foo".to_string()), false))));
}

#[test]
fn inject_with_a_type_and_async() {
    let attrs = vec![attr("inject", list(vec![to_path("AsyncFoo"), InjectAttrPart::Async]))];
    assert_eq!(
        inject_of(parse_inject_attr(&attrs)),
        Ok(Some((Some("AsyncFoo".to_string()), true)))
    );
    let reversed = vec![attr("inject", list(vec![InjectAttrPart::Async, to_path("AsyncFoo")]))];
    assert_eq!(
        inject_of(parse_inject_attr(&reversed)),
        Ok(Some((Some("AsyncFoo".to_string()), true)))
    );
}

#[test]
fn inject_with_async_alone() {
    let attrs = vec![attr("inject", list(vec![InjectAttrPart::Async]))];
    assert_eq!(inject_of(parse_inject_attr(&attrs)), Ok(Some((None, true))));
}

#[test]
fn inject_takes_the_first_of_several_types() {
    let attrs = vec![attr("inject", list(vec![to_path("A"), to_path("B"), to_path("C")]))];
    assert_eq!(inject_of(parse_inject_attr(&attrs)), Ok(Some((Some("A".to_string()), false))));
}

#[test]
fn inject_without_arguments_in_the_list() {
    let attrs = vec![attr("inject", list(vec![]))];
    assert_eq!(inject_of(parse_inject_attr(&attrs)), Ok(Some((None, false))));
}

#[test]
fn inject_that_is_no_list_says_nothing() {
    assert_eq!(inject_of(parse_inject_attr(&vec![attr("inject", Meta::Path)])), Ok(None));
    assert_eq!(inject_of(parse_inject_attr(&vec![attr("inject", Meta::NameValue)])), Ok(None));
}

#[test]
fn inject_with_malformed_arguments_is_rejected() {
    let attrs = vec![attr("inject", Meta::List(None))];
    assert_eq!(inject_of(parse_inject_attr(&attrs)), Err(CompileError::MalformedInject));
}

#[test]
fn only_the_first_inject_attribute_counts() {
    let attrs = vec![
        attr("doc", Meta::NameValue),
        attr("inject", list(vec![to_path("First")])),
        attr("inject", list(vec![to_path("Second"), InjectAttrPart::Async])),
    ];
    assert_eq!(inject_of(parse_inject_attr(&attrs)), Ok(Some((Some("First".to_string()), false))));
    let shadowed = vec![attr("inject", Meta::Path), attr("inject", list(vec![to_path("Late")]))];
    assert_eq!(inject_of(parse_inject_attr(&shadowed)), Ok(None));
}

#[test]
fn attribute_lookup_by_name() {
    let attrs: Vec<Attribute<Vec<InjectAttrPart>>> = vec![
        Attribute { ident: None, meta: Meta::Path },
        attr("provide", Meta::Path),
        attr("inject", Meta::NameValue),
        attr("provide", Meta::NameValue),
    ];
    let found = attr_of(&attrs, "provide").unwrap();
    assert!(std::ptr::eq(found, &attrs[1]));
    let inject = attr_of(&attrs, "inject").unwrap();
    assert!(std::ptr::eq(inject, &attrs[2]));
    assert!(attr_of(&attrs, "derive").is_none());
    assert!(attr_of(&attrs, "").is_none());
    assert!(attr_of(&attrs, "Inject").is_none());
    let none: Vec<Attribute<Vec<InjectAttrPart>>> = vec![];
    assert!(attr_of(&none, "inject").is_none());
}
