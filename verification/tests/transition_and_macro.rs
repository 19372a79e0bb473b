use cargo_test_fuzz::fuzz_macro::{
    call_form, find_test_fuzz_attr, is_arc_arg, is_ident, map_args, map_arg, map_ref_arg,
    match_type_path, mod_ident_name, opt_args, skipped_opts, ArgMapping, ArgsShape, CallForm,
    FnArgShape, GenericArgShape, OptArg, PathShape, SegmentShape, TestFuzzOpts, TypeShape,
};
use cargo_test_fuzz::targets::targets;
use cargo_test_fuzz::transition::{Object, TestFuzz, TestFuzzWithDeprecations};

fn seg(ident: &str, arguments: ArgsShape) -> SegmentShape {
    SegmentShape { ident: ident.to_string(), arguments }
}

fn path(segs: Vec<SegmentShape>) -> PathShape {
    PathShape { qualified: false, segments: segs }
}

#[test]
fn conversion_keeps_every_option() {
    let opts = TestFuzzWithDeprecations {
        backtrace: true,
        consolidate: false,
        consolidate_all: true,
        display: Some(Object::Crashes),
        exact: true,
        exit_code: false,
        features: vec!["a".to_string(), "b".to_string()],
        list: false,
        manifest_path: Some("Cargo.toml".to_string()),
        no_default_features: true,
        no_instrumentation: false,
        no_run: true,
        no_ui: false,
        package: Some("p".to_string()),
        persistent: true,
        pretty_print: false,
        replay: None,
        reset: true,
        reset_all: false,
        resume: true,
        run_until_crash: false,
        test: Some("t".to_string()),
        timeout: Some(7),
        verbose: true,
        ztarget: Some("parse".to_string()),
        zzargs: vec!["-V".to_string()],
    };
    let t = TestFuzz::from(opts);
    assert!(t.backtrace && !t.consolidate && t.consolidate_all);
    assert_eq!(t.display, Some(Object::Crashes));
    assert!(t.exact && !t.exit_code);
    assert_eq!(t.features, vec!["a".to_string(), "b".to_string()]);
    assert_eq!(t.manifest_path.as_deref(), Some("Cargo.toml"));
    assert!(t.no_default_features && !t.no_instrumentation && t.no_run && !t.no_ui);
    assert_eq!(t.package.as_deref(), Some("p"));
    assert!(t.persistent && !t.pretty_print);
    assert_eq!(t.replay, None);
    assert!(t.reset && !t.reset_all && t.resume && !t.run_until_crash);
    assert_eq!(t.test.as_deref(), Some("t"));
    assert_eq!(t.timeout, Some(7));
    assert!(t.verbose);
    assert_eq!(t.ztarget.as_deref(), Some("parse"));
    assert_eq!(t.zzargs, vec!["-V".to_string()]);
}

#[test]
fn type_paths_match_by_identifiers() {
    let arc = path(vec![
        seg("std", ArgsShape::Bare),
        seg("sync", ArgsShape::Bare),
        seg("Arc", ArgsShape::AngleBracketed(vec![GenericArgShape::Type])),
    ]);
    assert!(matches!(
        match_type_path(&arc, &["std", "sync", "Arc"]),
        Some(ArgsShape::AngleBracketed(ref a)) if a == &vec![GenericArgShape::Type]
    ));
    assert!(match_type_path(&arc, &["std", "sync"]).is_none());
    assert!(match_type_path(&arc, &["std", "rc", "Arc"]).is_none());
    assert!(is_arc_arg(&arc));
    // Arguments on a segment other than the last spoil the match.
    let odd = path(vec![
        seg("std", ArgsShape::Parenthesized),
        seg("sync", ArgsShape::Bare),
        seg("Arc", ArgsShape::AngleBracketed(vec![GenericArgShape::Type])),
    ]);
    assert!(match_type_path(&odd, &["std", "sync", "Arc"]).is_none());
    // A bare `Arc<T>` is not `std::sync::Arc<T>`.
    let short = path(vec![seg("Arc", ArgsShape::AngleBracketed(vec![GenericArgShape::Type]))]);
    assert!(!is_arc_arg(&short));
    let lifetime = path(vec![
        seg("std", ArgsShape::Bare),
        seg("sync", ArgsShape::Bare),
        seg("Arc", ArgsShape::AngleBracketed(vec![GenericArgShape::Other])),
    ]);
    assert!(!is_arc_arg(&lifetime));
    let qualified = PathShape { qualified: true, segments: vec![seg("str", ArgsShape::Bare)] };
    assert!(match_type_path(&qualified, &["str"]).is_none());
}

#[test]
fn arguments_are_mapped_by_type() {
    let str_ty = TypeShape::Path(path(vec![seg("str", ArgsShape::Bare)]));
    assert_eq!(map_ref_arg(&str_ty), ArgMapping::Str);
    assert_eq!(map_ref_arg(&TypeShape::Slice), ArgMapping::Slice);
    let u8_ty = TypeShape::Path(path(vec![seg("u8", ArgsShape::Bare)]));
    assert_eq!(map_ref_arg(&u8_ty), ArgMapping::Ref);
    let inputs = vec![
        FnArgShape::Receiver,
        FnArgShape::Typed(TypeShape::Reference(Box::new(str_ty))),
        FnArgShape::Typed(TypeShape::Reference(Box::new(TypeShape::Slice))),
        FnArgShape::Typed(TypeShape::Path(path(vec![
            seg("std", ArgsShape::Bare),
            seg("sync", ArgsShape::Bare),
            seg("Arc", ArgsShape::AngleBracketed(vec![GenericArgShape::Type])),
        ]))),
        FnArgShape::Typed(u8_ty),
        FnArgShape::Typed(TypeShape::Other),
    ];
    let (receiver, mappings) = map_args(&inputs);
    assert!(receiver);
    assert_eq!(
        mappings,
        vec![
            ArgMapping::Receiver,
            ArgMapping::Str,
            ArgMapping::Slice,
            ArgMapping::Arc,
            ArgMapping::Plain,
            ArgMapping::Plain
        ]
    );
    assert_eq!(map_arg(&FnArgShape::Typed(TypeShape::Slice)), ArgMapping::Plain);
    let (receiver, mappings) = map_args(&vec![]);
    assert!(!receiver);
    assert!(mappings.is_empty());
}

#[test]
fn call_forms() {
    assert_eq!(call_form(true, true), CallForm::Method);
    assert_eq!(call_form(false, true), CallForm::Associated);
    assert_eq!(call_form(false, false), CallForm::Free);
}

#[test]
fn harness_module_names_and_their_listing() {
    let plain = TestFuzzOpts { rename: None, skip: false };
    assert_eq!(mod_ident_name(&plain, "parse"), "parse_fuzz");
    let renamed = TestFuzzOpts { rename: Some("decode".to_string()), skip: false };
    assert_eq!(mod_ident_name(&renamed, "parse"), "decode_fuzz");
    let line = format!("tests::{}::entry: test", mod_ident_name(&renamed, "parse"));
    assert_eq!(targets(&vec![line, String::new()], true), Some(vec!["tests::decode".to_string()]));
}

#[test]
fn test_fuzz_attributes_are_found() {
    let attrs = vec![
        path(vec![seg("inline", ArgsShape::Bare)]),
        path(vec![seg("test_fuzz", ArgsShape::Parenthesized)]),
        path(vec![seg("test_fuzz", ArgsShape::Bare)]),
        path(vec![seg("test_fuzz", ArgsShape::Bare)]),
    ];
    assert_eq!(find_test_fuzz_attr(&attrs), Some(2));
    let none = vec![
        path(vec![seg("inline", ArgsShape::Bare)]),
        path(vec![seg("test_fuzz", ArgsShape::Parenthesized)]),
    ];
    assert_eq!(find_test_fuzz_attr(&none), None);
    let qualified = PathShape { qualified: true, segments: vec![seg("test_fuzz", ArgsShape::Bare)] };
    assert!(!is_ident(&qualified, "test_fuzz"));
    let long = path(vec![seg("test_fuzz", ArgsShape::Bare), seg("x", ArgsShape::Bare)]);
    assert!(!is_ident(&long, "test_fuzz"));
}

#[test]
fn skipping_keeps_the_rename() {
    let opts = TestFuzzOpts { rename: Some("r".to_string()), skip: false };
    let s = skipped_opts(&opts);
    assert!(s.skip);
    assert_eq!(s.rename.as_deref(), Some("r"));
    let args = opt_args(&s);
    assert_eq!(args.len(), 2);
    assert!(matches!(&args[0], OptArg::Rename(n) if n == "r"));
    assert!(matches!(&args[1], OptArg::Skip));
    assert!(opt_args(&TestFuzzOpts { rename: None, skip: false }).is_empty());
}
