use macroific::bridge::lex_tokens;
use macroific::core_ext::{MacroificCoreErrorExt, MacroificCoreIdentExt, MacroificCorePunctExt};
use macroific::derive::attr_options::{any_omit_default, field_ident_at, AttrOptionsDerive, FieldInit};
use macroific::derive::default_option::DefaultOption;
use macroific::derive::field_opts::FieldOpts;
use macroific::derive::fields::Fields;
use macroific::derive::parse_option_derive::ParseOptionDerive;
use macroific::elements::attributed::{Attributed, AttributedInner};
use macroific::elements::generic_impl::{GenericImpl, SplitGenerics};
use macroific::elements::impl_for::ImplFor;
use macroific::elements::module_prefix::ModulePrefix;
use macroific::elements::simple_attr::SimpleAttr;
use macroific::elements::to_tokens::ToTokenNodes;
use macroific::errors::ParseError;
use macroific::extract_fields::{
    DataDef, DeriveInputDef, EnumDef, FieldDef, FieldsDef, NamedFields, Rejection, ToSynError,
    UnionDef, UnnamedFields,
};
use macroific::meta::{Attr, AttrMetaKind, AttrPath};
use macroific::parse_option::{AttributeOptions, ParseOption};
use macroific::field_opt::{FieldWithOpts, FieldsWithOpts};
use macroific::tokens::{render_tokens, StrLit, TokenNode};

fn lex(text: &str) -> Vec<TokenNode> {
    lex_tokens(text, 16).expect("input should lex")
}

fn opts_attr(args: &str) -> Attr {
    Attr {
        inner: false,
        path: AttrPath {
            leading: false,
            segments: vec!["attr_opts".to_owned()],
        },
        meta: AttrMetaKind::List(lex(args)),
    }
}

fn named_field(name: &str, attrs: Vec<Attr>) -> FieldDef {
    FieldDef {
        ident: Some(name.to_owned()),
        attrs,
    }
}

#[test]
fn default_option_shapes() {
    assert!(matches!(
        DefaultOption::from_stream(Vec::new()).unwrap(),
        DefaultOption::Implicit
    ));
    assert!(matches!(
        DefaultOption::from_stream(lex("= true")).unwrap(),
        DefaultOption::Explicit(true)
    ));
    assert!(matches!(
        DefaultOption::from_stream(lex("(false)")).unwrap(),
        DefaultOption::Explicit(false)
    ));
    match DefaultOption::from_stream(lex("= some_module::default_num")).unwrap() {
        DefaultOption::Path(path) => {
            assert_eq!(path.render(), "some_module::default_num");
        }
        other => panic!("unexpected: {:?}", other),
    }
    let err = DefaultOption::from_stream(lex("= 5")).unwrap_err();
    assert_eq!(err.message(), "Expected boolean or path");
    let err = DefaultOption::from_stream(lex("= ::some_module::default_num")).unwrap_err();
    assert_eq!(err.message(), "Expected boolean or path");
    let err = DefaultOption::from_stream(lex("= some_module::default_num extra")).unwrap_err();
    assert_eq!(err.message(), "unexpected token");
    let err = DefaultOption::from_stream(lex("= true extra")).unwrap_err();
    assert_eq!(err.message(), "unexpected token");
    let err = DefaultOption::from_stream(lex("junk")).unwrap_err();
    assert_eq!(err.message(), "unexpected token");
}

#[test]
fn field_opts_decode() {
    let opts =
        FieldOpts::from_iter(vec![opts_attr("rename = \"A\", default = false")]).unwrap();
    assert_eq!(opts.rename.as_ref().unwrap().repr(), "\"A\"");
    assert!(opts.omit_default());

    let opts = FieldOpts::from_iter(vec![opts_attr("default")]).unwrap();
    assert!(matches!(opts.default, Some(DefaultOption::Implicit)));
    assert!(!opts.omit_default());
}

#[test]
fn field_opts_diagnostics() {
    let err = FieldOpts::from_iter(vec![opts_attr("bogus = 1")]).unwrap_err();
    assert_eq!(err.message(), "Unrecognised attribute: `bogus`");

    let err = FieldOpts::from_iter(vec![opts_attr("default, default")]).unwrap_err();
    assert_eq!(err.message(), "duplicate attribute");

    let err = FieldOpts::from_iter(vec![opts_attr("default"), opts_attr("default")]).unwrap_err();
    assert_eq!(err.message(), "duplicate attribute");

    let plain = Attr {
        inner: false,
        path: AttrPath {
            leading: false,
            segments: vec!["attr_opts".to_owned()],
        },
        meta: AttrMetaKind::Path,
    };
    let err = FieldOpts::from_iter(vec![plain]).unwrap_err();
    assert_eq!(
        err.message(),
        "expected attribute arguments in parentheses: #[attr_opts(...)]"
    );
}

#[test]
fn empty_argument_lists_are_no_ops() {
    let opts = FieldOpts::from_iter(vec![opts_attr("")]).unwrap();
    assert!(opts.default.is_none());
    assert!(opts.rename.is_none());
    assert!(!opts.omit_default());

    let opts = FieldOpts::from_iter(vec![opts_attr(""), opts_attr("default")]).unwrap();
    assert!(matches!(opts.default, Some(DefaultOption::Implicit)));

    let input = DeriveInputDef {
        ident: "Plain".to_owned(),
        generics: Vec::new(),
        attrs: vec![opts_attr("")],
        data: DataDef::Struct(FieldsDef::Unit),
    };
    assert!(matches!(
        ParseOptionDerive::parse(input).unwrap(),
        ParseOptionDerive::Base(..)
    ));
}

#[test]
fn field_opts_filters_by_name() {
    let other = Attr {
        inner: false,
        path: AttrPath {
            leading: false,
            segments: vec!["serde".to_owned()],
        },
        meta: AttrMetaKind::Path,
    };
    let opts = FieldOpts::from_iter_named(
        "attr_opts",
        vec![other, opts_attr("rename = \"B\"")],
    )
    .unwrap();
    assert_eq!(opts.rename.as_ref().unwrap().repr(), "\"B\"");
}

#[test]
fn fields_classification() {
    let data = DataDef::Struct(FieldsDef::Named(NamedFields {
        fields: vec![
            named_field("num1", vec![opts_attr("rename = \"A\", default = false")]),
            named_field("num2", vec![opts_attr("default = some_module::default_num")]),
        ],
    }));
    let fields = Fields::try_from(data).unwrap();
    match &fields {
        Fields::Named(decoded) => {
            assert_eq!(decoded.len(), 2);
            assert_eq!(decoded[0].ident, "num1");
            assert_eq!(decoded[0].resolved_label().repr(), "\"A\"");
            assert_eq!(decoded[1].resolved_label().repr(), "\"num2\"");

            match decoded[0].init_strategy() {
                FieldInit::Required(msg) => {
                    assert_eq!(msg, "Missing required attribute: \"A\"");
                }
                other => panic!("unexpected: {:?}", init_name(&other)),
            }
            match decoded[1].init_strategy() {
                FieldInit::DefaultFn(path) => {
                    assert_eq!(path.render(), "some_module::default_num");
                }
                other => panic!("unexpected: {:?}", init_name(&other)),
            }
            assert!(any_omit_default(decoded));
        }
        _ => panic!("expected named fields"),
    }
}

fn init_name(init: &FieldInit) -> &'static str {
    match init {
        FieldInit::UnwrapOrDefault => "UnwrapOrDefault",
        FieldInit::Required(_) => "Required",
        FieldInit::DefaultFn(_) => "DefaultFn",
    }
}

#[test]
fn fields_rejections() {
    let err = Fields::try_from(DataDef::Enum(EnumDef {})).unwrap_err();
    assert_eq!(err.message(), "Enums not supported");
    let err = Fields::try_from(DataDef::Union(UnionDef {})).unwrap_err();
    assert_eq!(err.message(), "Unions not supported");
    let err = Fields::try_from(DataDef::Struct(FieldsDef::Unnamed(UnnamedFields {
        fields: vec![FieldDef {
            ident: None,
            attrs: Vec::new(),
        }],
    })))
    .unwrap_err();
    assert_eq!(err.message(), "Tuple structs not supported");
}

#[test]
fn empty_and_unit_structs() {
    let fields = Fields::try_from(DataDef::Struct(FieldsDef::Named(NamedFields {
        fields: Vec::new(),
    })))
    .unwrap();
    assert!(matches!(
        fields.named_fields(),
        Err(Some(macroific::tokens::Delim::Brace))
    ));

    let fields = Fields::try_from(DataDef::Struct(FieldsDef::Unit)).unwrap();
    assert!(matches!(fields.named_fields(), Err(None)));
}

#[test]
fn attr_options_derive_parse() {
    let input = DeriveInputDef {
        ident: "MyOptions".to_owned(),
        generics: lex("<T>"),
        attrs: Vec::new(),
        data: DataDef::Struct(FieldsDef::Named(NamedFields {
            fields: vec![named_field("flag", Vec::new())],
        })),
    };
    let derive = AttrOptionsDerive::parse(input).unwrap();
    assert_eq!(derive.ident(), "MyOptions");
    assert_eq!(render_tokens(derive.generics()), "< T >");
    assert!(derive.fields().named_fields().is_ok());
}

#[test]
fn parse_option_derive_shapes() {
    let base = DeriveInputDef {
        ident: "Nested".to_owned(),
        generics: Vec::new(),
        attrs: Vec::new(),
        data: DataDef::Struct(FieldsDef::Named(NamedFields {
            fields: vec![named_field("required", Vec::new())],
        })),
    };
    assert!(matches!(
        ParseOptionDerive::parse(base).unwrap(),
        ParseOptionDerive::Base(..)
    ));

    let from_parse = DeriveInputDef {
        ident: "Wrapper".to_owned(),
        generics: Vec::new(),
        attrs: vec![opts_attr("from_parse")],
        data: DataDef::Struct(FieldsDef::Unit),
    };
    let derive = ParseOptionDerive::parse(from_parse).unwrap();
    assert!(matches!(derive, ParseOptionDerive::FromParse(_)));
    assert_eq!(derive.common().ident, "Wrapper");
}

#[test]
fn extract_fields_messages() {
    let err: ParseError = DataDef::Enum(EnumDef {}).extract_struct().unwrap_err().into_syn_err();
    assert_eq!(err.message(), "Only structs supported");
    let err = DataDef::Struct(FieldsDef::Unit).extract_enum().unwrap_err().into_syn_err();
    assert_eq!(err.message(), "Only enums supported");
    let err = DataDef::Struct(FieldsDef::Unit).extract_union().unwrap_err().into_syn_err();
    assert_eq!(err.message(), "Only unions supported");

    let err = FieldsDef::Unit.extract_any_fields().unwrap_err();
    assert_eq!(err.message(), "Unit structs not supported");
    let named = FieldsDef::Named(NamedFields {
        fields: vec![named_field("a", Vec::new())],
    });
    let err = named.extract_unnamed_fields().unwrap_err();
    assert_eq!(err.to_syn_err().message(), "Only unnamed fields supported");
    let unnamed = FieldsDef::Unnamed(UnnamedFields { fields: Vec::new() });
    let err = unnamed.extract_named_fields().unwrap_err();
    assert_eq!(err.to_syn_err().message(), "Only named fields supported");
    assert!(matches!(err, Rejection::A(_)));

    let fields = DataDef::Struct(FieldsDef::Named(NamedFields {
        fields: vec![named_field("a", Vec::new())],
    }))
    .extract_struct_fields()
    .unwrap();
    assert_eq!(fields.len(), 1);
}

#[test]
fn module_prefix_renders() {
    let prefixed = ModulePrefix::new(["foo", "bar"]);
    let prefixed_stream = render_tokens(&prefixed.into_token_stream());
    assert_eq!(prefixed_stream, ":: foo :: bar");

    let unprefixed = prefixed.with_leading_sep(false);
    let unprefixed_stream = render_tokens(&unprefixed.into_token_stream());
    assert_eq!(unprefixed_stream, "foo :: bar");

    assert_eq!(prefixed.render(), prefixed_stream);
    assert_eq!(unprefixed.render(), unprefixed_stream);
    assert_eq!(prefixed.segment_at(0), "foo");
    assert_eq!(prefixed.segment_at(1), "bar");
}

#[test]
fn module_prefix_chains() {
    let chained = ModulePrefix::new(["my_crate", "some_module"])
        .chain(TokenNode::create("foo"))
        .chain(TokenNode::create("Baz"));
    assert_eq!(
        render_tokens(&chained.into_token_stream()),
        ":: my_crate :: some_module :: foo :: Baz"
    );
}

#[test]
fn simple_attr_renders() {
    let outer = SimpleAttr::new_outer("inline");
    assert!(!outer.is_inner());
    assert_eq!(outer.text(), "inline");
    assert_eq!(render_tokens(&outer.into_token_stream()), "#[inline]");

    let inner = SimpleAttr::new_inner("foo");
    assert!(inner.is_inner());
    assert_eq!(render_tokens(&inner.into_token_stream()), "#![foo]");
}

#[test]
fn attributed_outer_and_inner() {
    let parsed = Attributed::parse_outer(lex("#[foo] rest")).unwrap();
    assert_eq!(parsed.attributes.len(), 1);
    assert!(parsed.attributes[0].path_is_ident("foo"));
    assert!(!parsed.attributes[0].inner);
    assert_eq!(render_tokens(&parsed.data), "rest");

    let parsed = AttributedInner::parse_inner(lex("#![bar] #[outer] x")).unwrap();
    assert_eq!(parsed.attributes.len(), 1);
    assert!(parsed.attributes[0].inner);
    assert_eq!(render_tokens(&parsed.data), "# [outer] x");

    let err = Attributed::parse_outer(lex("# nope")).unwrap_err();
    assert_eq!(err.message(), "expected square brackets");
}

#[test]
fn core_ext_constructors() {
    let created = TokenNode::create("foo");
    assert_eq!(created, TokenNode::Ident { text: "foo".to_owned() });

    let alone = TokenNode::new_alone('&');
    assert_eq!(alone, TokenNode::Punct { ch: '&', joint: false });
    let joint = TokenNode::new_joint('^');
    assert_eq!(joint, TokenNode::Punct { ch: '^', joint: true });

    let err = ParseError::call_site("msg");
    assert_eq!(err.message(), "msg");
}

#[test]
fn punctuated_list_syntaxes() {
    let v: Vec<StrLit> = ParseOption::from_stream(lex("(\"a\", \"b\")")).unwrap();
    assert_eq!(v.len(), 2);
    assert_eq!(v[0].repr(), "\"a\"");
    assert_eq!(v[1].repr(), "\"b\"");

    let v: Vec<StrLit> = ParseOption::from_stream(lex("= ([\"c\"])")).unwrap();
    assert_eq!(v.len(), 1);
    assert_eq!(v[0].repr(), "\"c\"");

    let v: Vec<StrLit> = ParseOption::from_stream(Vec::new()).unwrap();
    assert!(v.is_empty());

    let err = <Vec<StrLit> as ParseOption>::from_stream(lex("x")).unwrap_err();
    assert_eq!(err.message(), "Expected `=` or `(`");
    let err = <Vec<StrLit> as ParseOption>::from_stream(lex("= 5")).unwrap_err();
    assert_eq!(err.message(), "expected parentheses");
    let err = <Vec<StrLit> as ParseOption>::from_stream(lex("= (x)")).unwrap_err();
    assert_eq!(err.message(), "expected square brackets");
    let err = <Vec<StrLit> as ParseOption>::from_stream(lex("(1)")).unwrap_err();
    assert_eq!(err.message(), "expected string literal");
    let err = <Vec<StrLit> as ParseOption>::from_stream(lex("= ([\"c\"]) x")).unwrap_err();
    assert_eq!(err.message(), "unexpected token");
    let err = <Vec<StrLit> as ParseOption>::from_stream(lex("(\"c\") x")).unwrap_err();
    assert_eq!(err.message(), "unexpected token");
    let err = <Vec<StrLit> as ParseOption>::from_stream(lex("= ([\"c\"] y)")).unwrap_err();
    assert_eq!(err.message(), "unexpected token");
}

#[test]
fn field_with_opts_partition() {
    let serde_attr = Attr {
        inner: false,
        path: AttrPath {
            leading: false,
            segments: vec!["serde".to_owned()],
        },
        meta: AttrMetaKind::Path,
    };
    let field = named_field("num1", vec![serde_attr, opts_attr("rename = \"A\"")]);

    let decoded = FieldWithOpts::<FieldOpts>::from_attr_name(field, "attr_opts").unwrap();
    assert_eq!(decoded.field.ident.as_deref(), Some("num1"));
    assert_eq!(decoded.field.attrs.len(), 1);
    assert!(decoded.field.attrs[0].path_is_ident("serde"));
    assert_eq!(decoded.options.rename.as_ref().unwrap().repr(), "\"A\"");

    let field = named_field("num2", vec![opts_attr("default")]);
    let decoded =
        FieldWithOpts::<FieldOpts>::from_predicate(field, |a: &Attr| a.path_is_ident("attr_opts"))
            .unwrap();
    assert!(decoded.field.attrs.is_empty());
    assert!(matches!(decoded.options.default, Some(DefaultOption::Implicit)));

    let fields = FieldsDef::Named(NamedFields {
        fields: vec![
            named_field("a", vec![opts_attr("rename = \"X\"")]),
            named_field("b", Vec::new()),
        ],
    });
    match FieldsWithOpts::<FieldOpts>::from_attr_name(fields, "attr_opts").unwrap() {
        FieldsWithOpts::Named(out) => {
            assert_eq!(out.len(), 2);
            assert_eq!(out[0].options.rename.as_ref().unwrap().repr(), "\"X\"");
            assert!(out[1].options.rename.is_none());
        }
        _ => panic!("expected named fields"),
    }

    let fields = FieldsDef::Unnamed(UnnamedFields {
        fields: vec![FieldDef {
            ident: None,
            attrs: vec![opts_attr("default = true")],
        }],
    });
    match FieldsWithOpts::<FieldOpts>::from_predicate(fields, |a: &Attr| {
        a.path_is_ident("attr_opts")
    })
    .unwrap()
    {
        FieldsWithOpts::Unnamed(out) => {
            assert_eq!(out.len(), 1);
            assert!(matches!(
                out[0].options.default,
                Some(DefaultOption::Explicit(true))
            ));
        }
        _ => panic!("expected unnamed fields"),
    }

    let err = FieldsWithOpts::<FieldOpts>::from_attr_name(
        FieldsDef::Named(NamedFields {
            fields: vec![named_field("bad", vec![opts_attr("nope")])],
        }),
        "attr_opts",
    )
    .unwrap_err();
    assert_eq!(err.message(), "Unrecognised attribute: `nope`");
}

#[test]
fn generic_impl_renders() {
    let generics = SplitGenerics {
        impl_generics: lex("< T : Clone >"),
        ty_generics: lex("< T >"),
        where_clause: lex("where T : Copy"),
    };
    let (trait_path, _) = macroific::meta::parse_path(lex("::foo::Trait")).unwrap();
    let g_impl = GenericImpl::new(generics)
        .with_trait(trait_path)
        .with_target(TokenNode::create("SomeStruct"))
        .into_token_stream();
    assert_eq!(
        render_tokens(&g_impl),
        "impl < T : Clone > :: foo :: Trait for SomeStruct < T > where T : Copy"
    );

    let generics = SplitGenerics {
        impl_generics: lex("< T : Clone >"),
        ty_generics: lex("< T >"),
        where_clause: lex("where T : Copy"),
    };
    let g_impl = GenericImpl::new(generics)
        .with_target(TokenNode::create("SomeStruct"))
        .into_token_stream();
    assert_eq!(
        render_tokens(&g_impl),
        "impl < T : Clone > SomeStruct < T > where T : Copy"
    );
}

#[test]
fn impl_for_renders() {
    let generics = SplitGenerics {
        impl_generics: Vec::new(),
        ty_generics: Vec::new(),
        where_clause: Vec::new(),
    };
    let (trait_path, _) = macroific::meta::parse_path(lex("::foo::Trait")).unwrap();
    let header = ImplFor::new(generics, trait_path, "SomeStruct".to_owned()).into_token_stream();
    assert_eq!(render_tokens(&header), "impl :: foo :: Trait for SomeStruct");
}

#[test]
fn attributed_renders_back() {
    let parsed = Attributed::parse_outer(lex("#[foo] rest")).unwrap();
    assert_eq!(render_tokens(&parsed.into_token_stream()), "# [foo] rest");

    let parsed = AttributedInner::parse_inner(lex("#![bar]")).unwrap();
    assert_eq!(render_tokens(&parsed.into_token_stream()), "# ! [bar]");

    let parsed = Attributed::parse_outer(lex("#[doc = \"hi\"] #[foo(1)] x")).unwrap();
    assert_eq!(
        render_tokens(&parsed.into_token_stream()),
        "# [doc = \"hi\"] # [foo (1)] x"
    );

    let (path, _) = macroific::meta::parse_path(lex("::a::b")).unwrap();
    assert_eq!(render_tokens(&path.into_token_stream()), ":: a :: b");
}

#[test]
fn narrow_integer_widths() {
    let v: u8 = ParseOption::from_stream(lex("= 255")).unwrap();
    assert_eq!(v, 255);
    let err = <u8 as ParseOption>::from_stream(lex("= 256")).unwrap_err();
    assert_eq!(err.message(), "number too large to fit in target type");
    let v: u16 = ParseOption::from_stream(lex("(65_535)")).unwrap();
    assert_eq!(v, 65_535);
    let err = <u16 as ParseOption>::from_stream(lex("= 65536")).unwrap_err();
    assert_eq!(err.message(), "number too large to fit in target type");
}

#[test]
fn field_ident_names() {
    assert_eq!(field_ident_at(0), "field0");
    assert_eq!(field_ident_at(7), "field7");
    assert_eq!(field_ident_at(17), "field17");
    assert_eq!(field_ident_at(230), "field230");
}
