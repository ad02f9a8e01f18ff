use env2config::attr::{field_binding, find_env_attr, param_tokens, parse_binding, AttrMeta, FieldAttr, GenError};
use env2config::dispatch::{classify, elem_type_name, list_type_signature, ElemType, Template};
use env2config::emit::{field_init, generate_impl, FieldDecl, Policy, Shape};
use env2config::text::{join_with_commas, same_text, split_on_commas};

fn list(tokens: &[&str]) -> AttrMeta {
    AttrMeta::List(tokens.iter().map(|t| t.to_string()).collect())
}

fn env_attr(tokens: &[&str]) -> FieldAttr {
    FieldAttr { path: "env".to_string(), meta: list(tokens) }
}

fn field(name: &str, ty: &str, attrs: Vec<FieldAttr>) -> FieldDecl {
    FieldDecl { name: name.to_string(), ty: ty.to_string(), attrs }
}

#[test]
fn binding_takes_name_and_default() {
    let b = parse_binding(&list(&["\"HOST\"", ",", "\"127.0.0.1\""])).unwrap();
    assert_eq!(b.var, "\"HOST\"");
    assert_eq!(b.default, Some("\"127.0.0.1\"".to_string()));
    let c = parse_binding(&list(&["\"PORT\""])).unwrap();
    assert_eq!(c.var, "\"PORT\"");
    assert_eq!(c.default, None);
}

#[test]
fn binding_errors() {
    assert!(matches!(parse_binding(&list(&[])), Err(GenError::EmptyEnvAttr)));
    assert!(matches!(parse_binding(&list(&[","])), Err(GenError::EmptyEnvAttr)));
    assert!(matches!(parse_binding(&AttrMeta::NameValue), Err(GenError::InvalidEnvAttr)));
    assert!(matches!(parse_binding(&AttrMeta::Path), Err(GenError::InvalidEnvAttr)));
    let attrs = vec![FieldAttr { path: "doc".to_string(), meta: AttrMeta::NameValue }];
    assert!(matches!(field_binding(&attrs), Err(GenError::MissingEnvAttr)));
}

#[test]
fn first_env_annotation_counts() {
    let attrs = vec![
        FieldAttr { path: "doc".to_string(), meta: AttrMeta::NameValue },
        env_attr(&["\"A\""]),
        env_attr(&["\"B\""]),
    ];
    assert_eq!(find_env_attr(&attrs), Some(1));
    assert_eq!(field_binding(&attrs).unwrap().var, "\"A\"");
    assert_eq!(find_env_attr(&vec![]), None);
}

#[test]
fn commas_leave_the_params() {
    let t = param_tokens(&vec![",".to_string(), "a".to_string(), ",".to_string(), "b".to_string()]);
    assert_eq!(t, vec!["a".to_string(), "b".to_string()]);
}

#[test]
fn list_signatures_select_lists() {
    let all = [
        ElemType::Str, ElemType::Bool, ElemType::U8, ElemType::U16, ElemType::U32, ElemType::U64, ElemType::U128,
        ElemType::I8, ElemType::I16, ElemType::I32, ElemType::I64, ElemType::I128,
    ];
    for e in all {
        assert_eq!(classify(list_type_signature(e)), Template::List(e));
        assert_eq!(list_type_signature(e), format!("Vec < {} >", elem_type_name(e)));
    }
    assert_eq!(classify("Vec < String >"), Template::List(ElemType::Str));
    assert_eq!(classify("Vec<u8>"), Template::Parsed);
    assert_eq!(classify("Option < u8 >"), Template::Parsed);
    assert_eq!(classify("Vec < f64 >"), Template::Parsed);
    assert_eq!(classify("i32"), Template::Scalar(ElemType::I32));
}

#[test]
fn known_names_select_their_scalar() {
    assert_eq!(classify("String"), Template::Scalar(ElemType::Str));
    assert_eq!(classify("bool"), Template::Scalar(ElemType::Bool));
    assert_eq!(classify("u128"), Template::Scalar(ElemType::U128));
    assert_eq!(classify("i8"), Template::Scalar(ElemType::I8));
    assert_eq!(classify("usize"), Template::Parsed);
    assert_eq!(classify("char"), Template::Parsed);
    assert_eq!(classify("f64"), Template::Parsed);
    assert_eq!(classify("Ipv4Addr"), Template::Parsed);
    assert_eq!(classify("PathBuf"), Template::Parsed);
}

#[test]
fn other_types_parse_themselves() {
    let addr = field_binding(&vec![env_attr(&["\"ADDR\"", ",", "\"127.0.0.1\""])]).unwrap();
    assert_eq!(
        field_init(Policy::Lenient, "addr", "Ipv4Addr", &addr),
        "addr: env2config::load::lenient_parsed::<Ipv4Addr>(env2config::load::source(\
         std::env::var(\"ADDR\").ok().as_deref(), \"127.0.0.1\").parse::<Ipv4Addr>().ok(), Default::default())"
    );
    let ratio = field_binding(&vec![env_attr(&["\"RATIO\""])]).unwrap();
    assert_eq!(
        field_init(Policy::Strict, "ratio", "f64", &ratio),
        "ratio: { let value = std::env::var(\"RATIO\").ok(); env2config::load::strict_parsed::<f64>(\"RATIO\", \
         value.as_deref(), value.as_deref().and_then(|s| s.parse::<f64>().ok()))\
         .unwrap_or_else(|e| panic!(\"{}\", e.diagnostic())) }"
    );
}

#[test]
fn lenient_initializers() {
    let host = env_attr(&["\"HOST\"", ",", "\"127.0.0.1\""]);
    let b = field_binding(&vec![host]).unwrap();
    assert_eq!(
        field_init(Policy::Lenient, "host", "String", &b),
        "host: env2config::load::lenient_scalar::<String>(std::env::var(\"HOST\").ok().as_deref(), \"127.0.0.1\")"
    );
    let port = field_binding(&vec![env_attr(&["\"PORT\""])]).unwrap();
    assert_eq!(
        field_init(Policy::Lenient, "port", "i32", &port),
        "port: env2config::load::lenient_scalar::<i32>(std::env::var(\"PORT\").ok().as_deref(), \"\")"
    );
    let flags = field_binding(&vec![env_attr(&["\"FLAGS\"", ",", "\"true\""])]).unwrap();
    assert_eq!(
        field_init(Policy::Lenient, "flags", "Vec < bool >", &flags),
        "flags: env2config::load::lenient_list::<bool>(\"FLAGS\", std::env::var(\"FLAGS\").ok().as_deref(), \"false\")\
         .unwrap_or_else(|e| panic!(\"{}\", e.diagnostic()))"
    );
}

#[test]
fn strict_initializers() {
    let ids = field_binding(&vec![env_attr(&["\"IDS\"", ",", "\"1,2\""])]).unwrap();
    assert_eq!(
        field_init(Policy::Strict, "ids", "Vec < u64 >", &ids),
        "ids: env2config::load::strict_list::<u64>(\"IDS\", std::env::var(\"IDS\").ok().as_deref())\
         .unwrap_or_else(|e| panic!(\"{}\", e.diagnostic()))"
    );
    assert_eq!(
        field_init(Policy::Strict, "port", "u16", &ids),
        "port: env2config::load::strict_scalar::<u16>(\"IDS\", std::env::var(\"IDS\").ok().as_deref())\
         .unwrap_or_else(|e| panic!(\"{}\", e.diagnostic()))"
    );
}

#[test]
fn whole_implementation() {
    let fields = vec![
        field("host", "String", vec![env_attr(&["\"HOST\"", ",", "\"127.0.0.1\""])]),
        field("symbols", "Vec < String >", vec![env_attr(&["\"SYMBOLS\""])]),
    ];
    let code = generate_impl(Policy::Lenient, "Config", &Shape::Named(fields)).unwrap();
    assert_eq!(
        code,
        "impl env2config::FromEnv for Config { fn from_env() -> Self { Self { \
         host: env2config::load::lenient_scalar::<String>(std::env::var(\"HOST\").ok().as_deref(), \"127.0.0.1\"),\
         symbols: env2config::load::lenient_list::<String>(\"SYMBOLS\", std::env::var(\"SYMBOLS\").ok().as_deref(), \"\")\
         .unwrap_or_else(|e| panic!(\"{}\", e.diagnostic())) } } }"
    );
    let empty = generate_impl(Policy::Strict, "Empty", &Shape::Named(vec![])).unwrap();
    assert_eq!(empty, "impl env2config::FromEnv for Empty { fn from_env() -> Self { Self {  } } }");
}

#[test]
fn generation_errors() {
    assert_eq!(generate_impl(Policy::Lenient, "T", &Shape::Unnamed), Err(GenError::UnnamedFields));
    assert_eq!(generate_impl(Policy::Strict, "T", &Shape::Unit), Err(GenError::UnnamedFields));
    assert_eq!(generate_impl(Policy::Strict, "E", &Shape::NotAStruct), Err(GenError::NotAStruct));
    let fields = vec![
        field("a", "u8", vec![env_attr(&["\"A\""])]),
        field("b", "u8", vec![]),
        field("c", "u8", vec![FieldAttr { path: "env".to_string(), meta: AttrMeta::Path }]),
    ];
    assert_eq!(generate_impl(Policy::Lenient, "S", &Shape::Named(fields)), Err(GenError::MissingEnvAttr));
}

#[test]
fn text_helpers() {
    assert_eq!(split_on_commas("a,,b"), vec!["a".to_string(), String::new(), "b".to_string()]);
    assert_eq!(split_on_commas(""), vec![String::new()]);
    assert_eq!(split_on_commas(","), vec![String::new(), String::new()]);
    assert_eq!(join_with_commas(&vec!["x".to_string(), "y".to_string()]), "x,y");
    assert_eq!(join_with_commas(&vec![]), "");
    assert!(same_text("héllo", "héllo"));
    assert!(!same_text("abc", "abd"));
    assert!(!same_text("ab", "abc"));
}
