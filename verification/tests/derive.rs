use portaldi_core::derive_di_portal::{exec, field_di, Env};
use portaldi_core::helper::build_di_provider::ProvideTarget;
use portaldi_core::helper::common::{Generics_, TypeParam};
use portaldi_core::error::CompileError;
use portaldi_core::syntax::{
    Attribute, Data, DeriveInput, Field, GenericArgument, InjectAttrPart, Meta, Path,
    PathArguments, PathSegment, Type, TypeParamBound,
};

fn toks(code: &str) -> String {
    code.parse::<proc_macro2::TokenStream>().unwrap().to_string()
}

fn assert_code(generated: Result<String, CompileError>, expected: &str) {
    let text = generated.unwrap();
    assert_eq!(toks(&text), toks(expected));
    syn::parse_str::<syn::File>(&text).unwrap();
}

fn plain(ident: &str) -> PathSegment {
    PathSegment { ident: ident.to_string(), arguments: PathArguments::Absent }
}

fn named(ident: &str) -> Type {
    Type::Path(Path { segments: vec![plain(ident)] })
}

fn generic(ident: &str, args: Vec<Type>) -> Path {
    Path {
        segments: vec![PathSegment {
            ident: ident.to_string(),
            arguments: PathArguments::AngleBracketed(
                args.into_iter().map(GenericArgument::Type).collect(),
            ),
        }],
    }
}

fn object(path: Path) -> Type {
    Type::TraitObject(vec![TypeParamBound::Trait(path)])
}

fn object_of(segments: &[&str]) -> Type {
    object(Path { segments: segments.iter().map(|s| plain(s)).collect() })
}

fn di(inner: Type) -> Type {
    Type::Path(generic("DI", vec![inner]))
}

fn field(ident: &str, ty: Type) -> Field {
    Field { ident: Some(ident.to_string()), ty, attrs: vec![] }
}

fn injected(ident: &str, ty: Type, parts: Vec<InjectAttrPart>) -> Field {
    Field {
        ident: Some(ident.to_string()),
        ty,
        attrs: vec![Attribute { ident: Some("inject".to_string()), meta: Meta::List(Some(parts)) }],
    }
}

fn to_path(s: &str) -> InjectAttrPart {
    InjectAttrPart::Path(s.to_string())
}

fn component(ident: &str, fields: Vec<Field>) -> DeriveInput {
    DeriveInput {
        ident: ident.to_string(),
        vis: String::new(),
        generics: Some(Generics_::default()),
        attrs: vec![],
        data: Data::Struct(fields),
    }
}

fn provide(target: ProvideTarget) -> Attribute<ProvideTarget> {
    Attribute { ident: Some("provide".to_string()), meta: Meta::List(Some(target)) }
}

fn path_param(name: &str) -> TypeParam {
    TypeParam::Path { path: name.to_string(), text: name.to_string() }
}

fn env() -> Env {
    Env::new(None, None, false)
}

const SYNC_FN: &str = "fn di_on(container: &portaldi::DIContainer) -> portaldi::DI<Self::Output>";

#[test]
fn mod_test_di() {
    // a field may bear the name of a unit struct in scope: the constructor
    // binds the resolved field to a variable of another name
    let hoge = component("Hoge", vec![field("foo", di(named("Foo")))]);
    let text = exec(&hoge, &env()).unwrap();
    assert!(text.contains("let __difoo = FooProvider::di_on(container); Hoge { foo: __difoo }"));
    let code = format!("pub struct foo; struct Hoge {{ foo: DI<Foo> }} {}", text);
    syn::parse_str::<syn::File>(&code).unwrap();
    assert_code(
        exec(&component("Foo", vec![]), &env()),
        &format!(
            "struct FooProvider;
            impl portaldi::DIProvider for FooProvider {{
                type Output = Foo;
                {SYNC_FN} {{ Foo::di_on(container) }}
            }}
            impl portaldi::DIPortal for Foo {{
                fn create_for_di(container: &portaldi::DIContainer) -> Self {{
                    Foo {{ }}
                }}
            }}"
        ),
    );
}

#[test]
fn derive_for_concrete_dependencies() {
    // struct Hoge { foo: DI<Foo>, #[inject(Bar)] bar: DI<Bar>, #[inject(BazProvider)] baz: DI<Baz>,
    //   yah: DI<Yah>, _yah3: DI<Yah3<String, u8>>, _yah3_unit: DI<Yah3<String, ()>> }
    let hoge = component(
        "Hoge",
        vec![
            field("foo", di(named("Foo"))),
            injected("bar", di(named("Bar")), vec![to_path("Bar")]),
            injected("baz", di(named("Baz")), vec![to_path("BazProvider")]),
            field("yah", di(named("Yah"))),
            field("_yah3", di(Type::Path(generic("Yah3", vec![named("String"), named("u8")])))),
            field(
                "_yah3_unit",
                di(Type::Path(generic("Yah3", vec![named("String"), Type::Tuple(vec![])]))),
            ),
        ],
    );
    assert_code(
        exec(&hoge, &env()),
        &format!(
            "struct HogeProvider;
            impl portaldi::DIProvider for HogeProvider {{
                type Output = Hoge;
                {SYNC_FN} {{ Hoge::di_on(container) }}
            }}
            impl portaldi::DIPortal for Hoge {{
                fn create_for_di(container: &portaldi::DIContainer) -> Self {{
                    let __difoo = FooProvider::di_on(container);
                    let __dibar = Bar::di_on(container);
                    let __dibaz = BazProvider::di_on(container);
                    let __diyah = YahProvider::di_on(container);
                    let __di_yah3 = Yah3Stringu8Provider::di_on(container);
                    let __di_yah3_unit = Yah3StringUnitProvider::di_on(container);
                    Hoge {{
                        foo: __difoo, bar: __dibar, baz: __dibaz, yah: __diyah,
                        _yah3: __di_yah3, _yah3_unit: __di_yah3_unit
                    }}
                }}
            }}"
        ),
    );
}

#[test]
fn derive_for_trait_dependencies() {
    let hoge = component(
        "Hoge",
        vec![
            field("foo1", di(object_of(&["Foo"]))),
            field("foo2", di(object_of(&["foo", "Foo"]))),
            field("bar1", di(object_of(&["Bar"]))),
            injected("bar2", di(object_of(&["Bar"])), vec![to_path("BarImpl2")]),
            field("_baz", di(object_of(&["Baz"]))),
            field(
                "_baz_tagged",
                di(Type::Path(generic("Tagged", vec![object_of(&["Baz"]), named("String")]))),
            ),
            field("_piyo", di(object(generic("Piyo", vec![named("String"), named("bool")])))),
            field(
                "_piyo3_unit",
                di(object(generic("Piyo3", vec![named("String"), Type::Tuple(vec![])]))),
            ),
        ],
    );
    assert_code(
        exec(&hoge, &env()),
        &format!(
            "struct HogeProvider;
            impl portaldi::DIProvider for HogeProvider {{
                type Output = Hoge;
                {SYNC_FN} {{ Hoge::di_on(container) }}
            }}
            impl portaldi::DIPortal for Hoge {{
                fn create_for_di(container: &portaldi::DIContainer) -> Self {{
                    let __difoo1 = FooProvider::di_on(container);
                    let __difoo2 = FooProvider::di_on(container);
                    let __dibar1 = BarProvider::di_on(container);
                    let __dibar2 = BarImpl2::di_on(container);
                    let __di_baz = BazProvider::di_on(container);
                    let __di_baz_tagged = TaggedStringProvider::di_on(container);
                    let __di_piyo = PiyoStringboolProvider::di_on(container);
                    let __di_piyo3_unit = Piyo3StringUnitProvider::di_on(container);
                    Hoge {{
                        foo1: __difoo1, foo2: __difoo2, bar1: __dibar1, bar2: __dibar2,
                        _baz: __di_baz, _baz_tagged: __di_baz_tagged, _piyo: __di_piyo,
                        _piyo3_unit: __di_piyo3_unit
                    }}
                }}
            }}"
        ),
    );
}

#[test]
fn derive_with_a_provided_trait() {
    // #[derive(DIPortal)] #[provide(Piyo2<String, bool>)] pub struct Piyo2Test {}
    let mut input = component("Piyo2Test", vec![]);
    input.vis = "pub".to_string();
    input.attrs = vec![provide(ProvideTarget {
        ident: "Piyo2".to_string(),
        generics: Generics_ {
            lt: true,
            params: vec![path_param("String"), path_param("bool")],
            gt: true,
        },
    })];
    assert_code(
        exec(&input, &env()),
        &format!(
            "pub struct Piyo2StringboolProvider;
            impl portaldi::DIProvider for Piyo2StringboolProvider {{
                type Output = dyn Piyo2<String, bool>;
                {SYNC_FN} {{ Piyo2Test::di_on(container) }}
            }}
            pub struct Piyo2TestProvider;
            impl portaldi::DIProvider for Piyo2TestProvider {{
                type Output = Piyo2Test;
                {SYNC_FN} {{ Piyo2Test::di_on(container) }}
            }}
            impl portaldi::DIPortal for Piyo2Test {{
                fn create_for_di(container: &portaldi::DIContainer) -> Self {{
                    Piyo2Test {{ }}
                }}
            }}"
        ),
    );
}

#[test]
fn derive_with_the_provider_pattern() {
    let input = component("FooImpl", vec![]);
    let env = Env::new(None, Some("(.+)Impl".to_string()), false);
    assert_code(
        exec(&input, &env),
        &format!(
            "pub struct FooProvider;
            impl portaldi::DIProvider for FooProvider {{
                type Output = dyn Foo;
                {SYNC_FN} {{ FooImpl::di_on(container) }}
            }}
            struct FooImplProvider;
            impl portaldi::DIProvider for FooImplProvider {{
                type Output = FooImpl;
                {SYNC_FN} {{ FooImpl::di_on(container) }}
            }}
            impl portaldi::DIPortal for FooImpl {{
                fn create_for_di(container: &portaldi::DIContainer) -> Self {{
                    FooImpl {{ }}
                }}
            }}"
        ),
    );
    // the attribute goes before the pattern
    let mut both = component("FooImpl", vec![]);
    both.attrs =
        vec![provide(ProvideTarget { ident: "Bar".to_string(), generics: Generics_::default() })];
    let text = exec(&both, &env).unwrap();
    assert!(text.starts_with("pub struct BarProvider; "));
    assert!(!text.contains("struct FooProvider"));
    // a pattern that does not match adds nothing
    let other = exec(&component("Foo", vec![]), &env).unwrap();
    assert!(other.starts_with(" struct FooProvider; "));
}

const ASYNC_FN: &str =
    "async fn di_on(container: &portaldi::DIContainer) -> portaldi::DI<Self::Output>";

#[test]
fn one_asynchronous_field_makes_the_component_asynchronous() {
    // struct AHoge { foo: DI<Foo>, #[inject(async)] bar: DI<ABar> }
    let input = component(
        "AHoge",
        vec![
            field("foo", di(named("Foo"))),
            injected("bar", di(named("ABar")), vec![InjectAttrPart::Async]),
        ],
    );
    assert_code(
        exec(&input, &env()),
        &format!(
            "struct AHogeProvider;
            #[async_trait::async_trait]
            impl portaldi::AsyncDIProvider for AHogeProvider {{
                type Output = AHoge;
                {ASYNC_FN} {{ AHoge::di_on(container).await }}
            }}
            #[async_trait::async_trait]
            impl portaldi::AsyncDIPortal for AHoge {{
                async fn create_for_di(container: &portaldi::DIContainer) -> Self {{
                    let __difoo = FooProvider::di_on(container);
                    let __dibar = ABarProvider::di_on(container).await;
                    AHoge {{ foo: __difoo, bar: __dibar }}
                }}
            }}"
        ),
    );
}

#[test]
fn asynchronous_field_with_an_injected_type() {
    // #[inject(FooImpl2, async)] foo2: DI<dyn Foo>
    let input = component(
        "Hoge",
        vec![injected(
            "foo2",
            di(object_of(&["Foo"])),
            vec![to_path("FooImpl2"), InjectAttrPart::Async],
        )],
    );
    let text = exec(&input, &env()).unwrap();
    assert!(text.contains("let __difoo2 = FooImpl2::di_on(container).await; "));
    assert!(text.contains("impl portaldi::AsyncDIPortal for Hoge "));
    assert!(!text.contains("impl portaldi::DIPortal for Hoge "));
}

#[test]
fn component_without_asynchronous_fields_is_synchronous() {
    let input = component(
        "Hoge",
        vec![field("foo", di(named("Foo"))), injected("bar", di(named("Bar")), vec![to_path("Bar")])],
    );
    let text = exec(&input, &env()).unwrap();
    assert!(text.contains("impl portaldi::DIPortal for Hoge "));
    assert!(!text.contains("async"));
    assert!(!text.contains("await"));
}

#[test]
fn always_async_policy_makes_everything_asynchronous() {
    let input = component("Hoge", vec![field("foo", di(named("Foo")))]);
    let env = Env::new(Some("true"), None, false);
    assert_code(
        exec(&input, &env),
        &format!(
            "struct HogeProvider;
            #[async_trait::async_trait]
            impl portaldi::AsyncDIProvider for HogeProvider {{
                type Output = Hoge;
                {ASYNC_FN} {{ Hoge::di_on(container).await }}
            }}
            #[async_trait::async_trait]
            impl portaldi::AsyncDIPortal for Hoge {{
                async fn create_for_di(container: &portaldi::DIContainer) -> Self {{
                    let __difoo = FooProvider::di_on(container).await;
                    Hoge {{ foo: __difoo }}
                }}
            }}"
        ),
    );
    // and a component without fields too
    let text = exec(&component("Foo", vec![]), &env).unwrap();
    assert!(text.contains("impl portaldi::AsyncDIPortal for Foo "));
}

#[test]
fn always_async_setting_is_on_for_the_word_true_only() {
    assert!(Env::new(Some("true"), None, false).always_async);
    assert!(!Env::new(Some("false"), None, false).always_async);
    assert!(!Env::new(Some("TRUE"), None, false).always_async);
    assert!(!Env::new(Some("1"), None, false).always_async);
    assert!(!Env::new(Some(""), None, false).always_async);
    assert!(!Env::new(Some(" true"), None, false).always_async);
    assert!(!Env::new(None, None, false).always_async);
    let env = Env::new(None, Some("x".to_string()), true);
    assert_eq!(env.provider_pattern, Some("x".to_string()));
    assert!(env.futures_join);
}

#[test]
fn joined_asynchronous_fields() {
    let input = component(
        "Hoge",
        vec![
            injected("foo", di(named("Foo")), vec![InjectAttrPart::Async]),
            injected("bar", di(named("Bar")), vec![InjectAttrPart::Async]),
        ],
    );
    let text = exec(&input, &Env::new(None, None, true)).unwrap();
    assert!(text.contains(
        "let (__difoo, __dibar) = futures::join!(FooProvider::di_on(container), BarProvider::di_on(container)); "
    ));
}

#[test]
fn derive_on_generic_component() {
    let mut input = component("Yah3", vec![]);
    input.generics = Some(Generics_ {
        lt: true,
        params: vec![path_param("A"), path_param("B")],
        gt: true,
    });
    let text = exec(&input, &env()).unwrap();
    assert!(text.starts_with(" struct Yah3ABProvider; impl portaldi::DIProvider for Yah3ABProvider { type Output = Yah3<A, B>; "));
}

#[test]
fn derive_on_something_else_than_a_struct() {
    let mut input = component("E", vec![]);
    input.data = Data::Other;
    assert_eq!(exec(&input, &env()), Err(CompileError::NotAStruct));
}

#[test]
fn derive_with_a_field_that_is_no_dependency() {
    let input = component("Hoge", vec![field("foo", di(named("Foo"))), field("n", named("u8"))]);
    assert_eq!(exec(&input, &env()), Err(CompileError::NotDIType));
}

#[test]
fn derive_on_a_tuple_struct() {
    let input = component(
        "Hoge",
        vec![Field { ident: None, ty: di(named("Foo")), attrs: vec![] }],
    );
    assert_eq!(exec(&input, &env()), Err(CompileError::UnnamedField));
}

#[test]
fn derive_with_malformed_attributes() {
    let mut f = field("foo", di(named("Foo")));
    f.attrs = vec![Attribute { ident: Some("inject".to_string()), meta: Meta::List(None) }];
    assert_eq!(exec(&component("Hoge", vec![f]), &env()), Err(CompileError::MalformedInject));

    for meta in [Meta::List(None), Meta::Path, Meta::NameValue] {
        let mut input = component("Hoge", vec![]);
        input.attrs = vec![Attribute { ident: Some("provide".to_string()), meta }];
        assert_eq!(exec(&input, &env()), Err(CompileError::MalformedProvide));
    }
}

#[test]
fn derive_with_parameters_that_are_no_types() {
    let mut input = component("Hoge", vec![]);
    input.generics = None;
    assert_eq!(exec(&input, &env()), Err(CompileError::UnsupportedGenerics));
}

#[test]
fn derive_with_a_bad_pattern() {
    let input = component("Hoge", vec![]);
    assert_eq!(
        exec(&input, &Env::new(None, Some("[".to_string()), false)),
        Err(CompileError::InvalidPattern)
    );
    assert_eq!(
        exec(&input, &Env::new(None, Some("Ho".to_string()), false)),
        Err(CompileError::MissingCapture)
    );
}

#[test]
fn the_first_error_in_field_order_is_reported() {
    let mut bad_inject = field("a", named("u8"));
    bad_inject.attrs = vec![Attribute { ident: Some("inject".to_string()), meta: Meta::List(None) }];
    let no_di = field("b", named("u8"));
    assert_eq!(
        exec(&component("Hoge", vec![no_di, bad_inject]), &env()),
        Err(CompileError::NotDIType)
    );
    let mut bad_inject = field("a", named("u8"));
    bad_inject.attrs = vec![Attribute { ident: Some("inject".to_string()), meta: Meta::List(None) }];
    let no_di = field("b", named("u8"));
    assert_eq!(
        exec(&component("Hoge", vec![bad_inject, no_di]), &env()),
        Err(CompileError::MalformedInject)
    );
    // within one field: the attribute, then the type, then the name
    let unnamed_no_di = Field { ident: None, ty: named("u8"), attrs: vec![] };
    assert_eq!(
        exec(&component("Hoge", vec![unnamed_no_di]), &env()),
        Err(CompileError::NotDIType)
    );
    // errors of fields go before those of the item's own attributes
    let mut input = component("Hoge", vec![field("n", named("u8"))]);
    input.generics = None;
    input.attrs = vec![Attribute { ident: Some("provide".to_string()), meta: Meta::Path }];
    assert_eq!(exec(&input, &env()), Err(CompileError::NotDIType));
    input.data = Data::Struct(vec![]);
    assert_eq!(exec(&input, &env()), Err(CompileError::MalformedProvide));
    input.attrs = vec![];
    assert_eq!(exec(&input, &env()), Err(CompileError::UnsupportedGenerics));
}

#[test]
fn resolution_of_one_field() {
    let f = injected("bar", di(named("ABar")), vec![InjectAttrPart::Async]);
    let d = field_di(&f, false).unwrap();
    assert_eq!(d.field_ident, "bar");
    assert!(d.is_async);
    assert_eq!(d.di_expr, "ABarProvider::di_on(container)");
    let g = field("foo", di(named("Foo")));
    assert!(!field_di(&g, false).unwrap().is_async);
    assert!(field_di(&g, true).unwrap().is_async);
}
