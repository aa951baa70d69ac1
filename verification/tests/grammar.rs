use macroific::bridge::lex_tokens;
use macroific::delimited::DelimitedIter;
use macroific::errors::ParseError;
use macroific::ext::{parse_bool_attr, parse_valued_attr};
use macroific::meta::{get_attr_ident, iterate_option_meta, parse_path, AttrPath, MetaValue};
use macroific::parse_option::ParseOption;
use macroific::parse_utils::{
    decode_attr_options_field, decode_parse_option_field, decode_parse_option_from_parse,
    nested_meta_runs,
};
use macroific::parse_wrapper::ParseWrapper;
use macroific::tokens::{render_tokens, Delim, StrLit, TokenNode};
use macroific::value_syntax::ValueSyntax;

fn lex(text: &str) -> Vec<TokenNode> {
    lex_tokens(text, 16).expect("input should lex")
}

fn ident(text: &str) -> TokenNode {
    TokenNode::Ident {
        text: text.to_owned(),
    }
}

#[test]
fn value_syntax_flags() {
    assert!(ValueSyntax::Eq.is_eq());
    assert!(!ValueSyntax::Paren.is_eq());
    assert!(ValueSyntax::Paren.is_paren());
    assert!(!ValueSyntax::Eq.is_paren());
}

#[test]
fn value_syntax_from_tokens() {
    assert_eq!(ValueSyntax::from_tokens(&lex("= 123")), Some(ValueSyntax::Eq));
    assert_eq!(ValueSyntax::from_tokens(&lex("(456)")), Some(ValueSyntax::Paren));
    assert_eq!(ValueSyntax::from_tokens(&lex("none")), None);
    assert_eq!(ValueSyntax::from_tokens(&Vec::new()), None);
    assert_eq!(ValueSyntax::from_tokens(&lex("[x]")), None);
}

#[test]
fn value_syntax_parse_token() {
    let (inner, rest) = ValueSyntax::Eq.parse_token(lex("= foo")).unwrap();
    assert!(inner.is_none());
    assert_eq!(rest, vec![ident("foo")]);

    let (inner, rest) = ValueSyntax::Paren.parse_token(lex("(bar) baz")).unwrap();
    assert_eq!(inner.unwrap(), vec![ident("bar")]);
    assert_eq!(rest, vec![ident("baz")]);

    let err = ValueSyntax::Eq.parse_token(lex("(bar)")).unwrap_err();
    assert_eq!(err.message(), "expected `=`");
    let err = ValueSyntax::Paren.parse_token(lex("= bar")).unwrap_err();
    assert_eq!(err.message(), "expected parentheses");
}

#[test]
fn value_syntax_parse_value() {
    assert_eq!(ValueSyntax::Eq.parse(lex("= foo")).unwrap(), vec![ident("foo")]);
    assert_eq!(ValueSyntax::Paren.parse(lex("(foo)")).unwrap(), vec![ident("foo")]);
}

#[test]
fn bool_attr_table() {
    assert_eq!(parse_bool_attr(Vec::new()).unwrap(), true);
    assert_eq!(parse_bool_attr(lex("(true)")).unwrap(), true);
    assert_eq!(parse_bool_attr(lex("(false)")).unwrap(), false);
    assert_eq!(parse_bool_attr(lex("= true")).unwrap(), true);
    assert_eq!(parse_bool_attr(lex("= false")).unwrap(), false);
    let err = parse_bool_attr(lex("(1)")).unwrap_err();
    assert_eq!(err.message(), "expected boolean literal");
}

#[test]
fn bool_attr_rejects_leftovers() {
    let err = parse_bool_attr(lex("= true extra")).unwrap_err();
    assert_eq!(err.message(), "unexpected token");
    let err = parse_bool_attr(lex("(true extra)")).unwrap_err();
    assert_eq!(err.message(), "unexpected token");
    let err = parse_bool_attr(lex("(true) extra")).unwrap_err();
    assert_eq!(err.message(), "unexpected token");
    let err = parse_bool_attr(lex("anything")).unwrap_err();
    assert_eq!(err.message(), "unexpected token");
}

#[test]
fn valued_attr_syntaxes() {
    assert_eq!(parse_valued_attr(lex("(foo)")).unwrap(), vec![ident("foo")]);
    assert_eq!(parse_valued_attr(lex("= bar")).unwrap(), vec![ident("bar")]);
    assert_eq!(parse_valued_attr(lex("qux")).unwrap(), vec![ident("qux")]);
    let err = parse_valued_attr(lex("(foo) bar")).unwrap_err();
    assert_eq!(err.message(), "unexpected token");
}

#[test]
fn delimited_iter_hands_out_runs() {
    let mut iter = DelimitedIter::new(lex("10 , 20 , 30"), ',');
    let first = iter.next_item().unwrap();
    assert_eq!(render_tokens(&first), "10");
    let second = iter.next_item().unwrap();
    assert_eq!(render_tokens(&second), "20");
    let third = iter.next_item().unwrap();
    assert_eq!(render_tokens(&third), "30");
    assert!(iter.next_item().is_none());
}

#[test]
fn delimited_iter_stops_after_error() {
    let mut iter = DelimitedIter::new(lex("a , b"), ',');
    let _ = iter.next_item().unwrap();
    iter.mark_errored();
    assert!(iter.next_item().is_none());
}

#[test]
fn path_parsing() {
    let (path, rest) = parse_path(lex("a::b followed")).unwrap();
    assert!(!path.leading);
    assert_eq!(path.segments, vec!["a".to_owned(), "b".to_owned()]);
    assert_eq!(rest, vec![ident("followed")]);

    let (path, _) = parse_path(lex("::core::option")).unwrap();
    assert!(path.leading);
    assert_eq!(path.segments, vec!["core".to_owned(), "option".to_owned()]);

    let err = parse_path(lex("a::")).unwrap_err();
    assert_eq!(err.message(), "expected path segment after `::`");
    let err = parse_path(lex("= x")).unwrap_err();
    assert_eq!(err.message(), "expected identifier");
}

#[test]
fn attr_ident_of_path() {
    let (path, _) = parse_path(lex("solo")).unwrap();
    assert_eq!(get_attr_ident(&path).unwrap(), "solo");

    let (path, _) = parse_path(lex("a::b")).unwrap();
    let err = get_attr_ident(&path).unwrap_err();
    assert_eq!(err.message(), "expected ident");
}

#[test]
fn iterate_option_meta_classifies_metas() {
    let entries =
        iterate_option_meta(lex("str_option = \"hello\", bool_option2, a_list(10, 20, 30)"))
            .unwrap();
    assert_eq!(entries.len(), 3);

    assert_eq!(entries[0].0, "str_option");
    match &entries[0].1 {
        Some(MetaValue::Expr(v)) => assert_eq!(render_tokens(v), "\"hello\""),
        other => panic!("unexpected value: {:?}", other),
    }

    assert_eq!(entries[1].0, "bool_option2");
    assert!(entries[1].1.is_none());

    assert_eq!(entries[2].0, "a_list");
    match &entries[2].1 {
        Some(MetaValue::Stream(v)) => assert_eq!(render_tokens(v), "10 , 20 , 30"),
        other => panic!("unexpected value: {:?}", other),
    }
}

#[test]
fn iterate_option_meta_unwraps_value_syntax() {
    let entries = iterate_option_meta(lex("(a, b)")).unwrap();
    assert_eq!(entries.len(), 2);
    assert_eq!(entries[0].0, "a");
    assert_eq!(entries[1].0, "b");

    let entries = iterate_option_meta(lex("= c")).unwrap();
    assert_eq!(entries.len(), 1);
    assert_eq!(entries[0].0, "c");
}

#[test]
fn iterate_option_meta_rejects_long_paths() {
    let err = iterate_option_meta(lex("a::b = 1")).unwrap_err();
    assert_eq!(err.message(), "expected ident");
}

#[test]
fn iterate_option_meta_rejects_stray_tokens() {
    let err = iterate_option_meta(lex("a b")).unwrap_err();
    assert_eq!(err.message(), "expected `,`");
}

#[test]
fn nested_runs_split_names_and_values() {
    let runs = nested_meta_runs(lex("a(1), b = 2")).unwrap();
    assert_eq!(runs.len(), 2);
    assert_eq!(runs[0].0, "a");
    assert_eq!(render_tokens(&runs[0].1), "(1)");
    assert_eq!(runs[1].0, "b");
    assert_eq!(render_tokens(&runs[1].1), "= 2");
}

#[test]
fn nested_runs_diagnostics() {
    let err = nested_meta_runs(lex("1")).unwrap_err();
    assert_eq!(
        err.message(),
        "unexpected literal in nested attribute, expected ident"
    );
    let err = nested_meta_runs(lex(", a")).unwrap_err();
    assert_eq!(
        err.message(),
        "unexpected token in nested attribute, expected ident"
    );
}

#[test]
fn decode_bool_field() {
    let mut option: Option<bool> = None;
    decode_parse_option_field::<bool>(&mut option, None).unwrap();
    assert_eq!(option, Some(true));

    let err = decode_parse_option_field::<bool>(&mut option, None).unwrap_err();
    assert_eq!(err.message(), "duplicate attribute");
    assert_eq!(option, Some(true));

    let mut option: Option<bool> = None;
    decode_parse_option_field::<bool>(&mut option, Some(MetaValue::Expr(lex("false")))).unwrap();
    assert_eq!(option, Some(false));

    let mut option: Option<bool> = None;
    decode_parse_option_field::<bool>(&mut option, Some(MetaValue::Stream(lex("(true)"))))
        .unwrap();
    assert_eq!(option, Some(true));

    let mut option: Option<bool> = None;
    let err = decode_parse_option_field::<bool>(&mut option, Some(MetaValue::Expr(lex("x + y"))))
        .unwrap_err();
    assert_eq!(err.message(), "Incompatible expression");
    assert_eq!(option, None);
}

#[test]
fn decode_expects_a_value() {
    let mut option: Option<StrLit> = None;
    let err = decode_parse_option_field::<StrLit>(&mut option, None).unwrap_err();
    assert_eq!(err.message(), "expected a value");
    assert!(option.is_none());

    let mut option: Option<StrLit> = None;
    let err = decode_parse_option_field::<StrLit>(&mut option, Some(MetaValue::Expr(lex("5"))))
        .unwrap_err();
    assert_eq!(err.message(), "Incompatible literal");

    let mut option: Option<StrLit> = None;
    decode_parse_option_field::<StrLit>(&mut option, Some(MetaValue::Expr(lex("\"ok\""))))
        .unwrap();
    assert_eq!(option.unwrap().repr(), "\"ok\"");
}

#[test]
fn decode_attr_options_field_duplicates() {
    let mut option: Option<bool> = None;
    decode_attr_options_field::<bool>(&mut option, lex("= true")).unwrap();
    assert_eq!(option, Some(true));
    let err = decode_attr_options_field::<bool>(&mut option, lex("= false")).unwrap_err();
    assert_eq!(err.message(), "duplicate attribute");
    assert_eq!(option, Some(true));
}

#[test]
fn parse_wrapper_round_trip() {
    let wrapped = ParseWrapper::new(5u32);
    assert_eq!(wrapped.inner(), 5u32);
    assert_eq!(ParseWrapper::<bool>::parse_self(lex("= true")).unwrap(), true);
    assert_eq!(ParseWrapper::<bool>::parse_stream_self(lex("(false)")).unwrap(), false);
}

#[test]
fn str_lit_from_stream() {
    let lit = StrLit::from_stream(lex("= \"A\"")).unwrap();
    assert_eq!(lit.repr(), "\"A\"");
    let err = StrLit::from_stream(lex("= 5")).unwrap_err();
    assert_eq!(err.message(), "expected string literal");
    let err = StrLit::from_stream(lex("= \"A\" extra")).unwrap_err();
    assert_eq!(err.message(), "unexpected token");
}

#[test]
fn str_lit_accepts_raw_strings() {
    let lit = StrLit::from_stream(lex("= r\"A\"")).unwrap();
    assert_eq!(lit.repr(), "r\"A\"");
    let lit = StrLit::from_stream(lex("(r#\"B\"#)")).unwrap();
    assert_eq!(lit.repr(), "r#\"B\"#");
    let err = StrLit::from_stream(lex("= rx")).unwrap_err();
    assert_eq!(err.message(), "expected string literal");
}

#[test]
fn render_matches_token_stream_display() {
    for text in [
        "= 123",
        "(456)",
        "a :: b",
        "foo , bar(1, 2)",
        "{ x }",
        "a[0]",
        "a += b",
        "x ..= y",
        "r#\"raw\"# s",
        "{ a { b } }",
        "#[foo(bar)]",
        "1e3 + 2",
        "b\"bytes\"",
        "()",
        "{}",
    ] {
        let ts: proc_macro2::TokenStream = text.parse().unwrap();
        let rendered = render_tokens(&lex(text));
        assert_eq!(rendered, ts.to_string(), "for input {text:?}");
    }
}

#[test]
fn path_parse_option() {
    let path: AttrPath = ParseOption::from_stream(lex("(std::fs::File)")).unwrap();
    assert_eq!(path.render(), "std::fs::File");
    let path: AttrPath = ParseOption::from_stream(lex("= std::fs::File")).unwrap();
    assert_eq!(path.render(), "std::fs::File");
    let err = <AttrPath as ParseOption>::from_stream(lex("= 5")).unwrap_err();
    assert_eq!(err.message(), "expected identifier");
    let err = <AttrPath as ParseOption>::from_stream(lex("= std junk")).unwrap_err();
    assert_eq!(err.message(), "unexpected token");
}

#[test]
fn from_parse_decode_unwraps_syntax() {
    let tokens = decode_parse_option_from_parse(lex("(foo bar)")).unwrap();
    assert_eq!(render_tokens(&tokens), "foo bar");
    let tokens = decode_parse_option_from_parse(lex("= baz")).unwrap();
    assert_eq!(render_tokens(&tokens), "baz");
}

#[test]
fn integer_options_decode() {
    let v: u32 = ParseOption::from_stream(lex("= 42")).unwrap();
    assert_eq!(v, 42);
    let v: u64 = ParseOption::from_stream(lex("(18_446_744_073_709_551_615)")).unwrap();
    assert_eq!(v, u64::MAX);
    let v: usize = ParseOption::from_stream(lex("= 12_000")).unwrap();
    assert_eq!(v, 12_000);
    let list: Vec<u32> = ParseOption::from_stream(lex("(10, 20, 30)")).unwrap();
    assert_eq!(list, vec![10, 20, 30]);

    let err = <u32 as ParseOption>::from_stream(lex("= 4294967296")).unwrap_err();
    assert_eq!(err.message(), "number too large to fit in target type");
    let err = <u64 as ParseOption>::from_stream(lex("= 18446744073709551616")).unwrap_err();
    assert_eq!(err.message(), "number too large to fit in target type");
    let err = <u32 as ParseOption>::from_stream(lex("= \"5\"")).unwrap_err();
    assert_eq!(err.message(), "expected integer literal");
    let err = <u32 as ParseOption>::from_stream(lex("= 5 x")).unwrap_err();
    assert_eq!(err.message(), "unexpected token");
}

#[test]
fn integer_expressions_decode() {
    let mut option: Option<u32> = None;
    decode_parse_option_field::<u32>(&mut option, Some(MetaValue::Expr(lex("7")))).unwrap();
    assert_eq!(option, Some(7));

    let mut option: Option<u32> = None;
    let err = decode_parse_option_field::<u32>(&mut option, Some(MetaValue::Expr(lex("\"x\""))))
        .unwrap_err();
    assert_eq!(err.message(), "Incompatible literal");

    let mut option: Option<u64> = None;
    let err = decode_parse_option_field::<u64>(&mut option, None).unwrap_err();
    assert_eq!(err.message(), "expected a value");
}

#[test]
fn parse_error_carries_message() {
    let err = ParseError::new("some message");
    assert_eq!(err.message(), "some message");
    let group = TokenNode::Group {
        delim: Delim::Paren,
        tokens: vec![ident("x")],
    };
    assert_eq!(render_tokens(&vec![group]), "(x)");
    let _ = AttrPath {
        leading: false,
        segments: vec!["a".to_owned()],
    };
}
