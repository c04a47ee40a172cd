use std::collections::VecDeque;

use fnerror::return_type::{GenericErrType, ReturnType};
use fnerror::syntax::{Attr, Diagnostic, GenericParam, List, ParamKind, Syntax};
use fnerror::utils::{call_site_ident, path_from_args, path_from_ident, path_from_str};
use fnerror::visitors::fnerr::{FnErrErrorMeta, FnErrExprVistor};
use fnerror::visitors::generics::GenericsVisitor;
use fnerror::{
    err_ty_name, error_name_from_pascal, fnerror, name_argument, Expansion, ItemFn, NamedArg, Printer,
};

fn list<T>(v: Vec<T>) -> List<T> {
    v.into_iter()
        .rev()
        .fold(List::Nil, |acc, x| List::Cons(Box::new(x), Box::new(acc)))
}

fn s(x: &str) -> String {
    x.to_string()
}

fn path(segs: &[&str]) -> Syntax {
    Syntax::Path { segments: list(segs.iter().map(|x| s(x)).collect()) }
}

fn ty_args(name: &str, args: Vec<Syntax>) -> Syntax {
    Syntax::TypePath { leading_colon: false, segments: list(vec![s(name)]), args: list(args) }
}

fn ty(name: &str) -> Syntax {
    ty_args(name, vec![])
}

fn lit(t: &str) -> Syntax {
    Syntax::Other { tokens: s(t), children: List::Nil }
}

fn other(t: &str, children: Vec<Syntax>) -> Syntax {
    Syntax::Other { tokens: s(t), children: list(children) }
}

fn cast(e: Syntax, t: Syntax) -> Syntax {
    Syntax::Cast { expr: Box::new(e), ty: Box::new(t) }
}

fn reference(lt: Option<&str>, elem: Syntax) -> Syntax {
    Syntax::Reference { lifetime: lt.map(s), mutable: false, elem: Box::new(elem) }
}

fn marker() -> Attr {
    Attr { name: Some(s("fnerr")), tokens: s("# [fnerr]") }
}

fn call(attrs: Vec<Attr>, func: Syntax, args: Vec<Syntax>) -> Syntax {
    Syntax::Call { attrs: list(attrs), func: Box::new(func), args: list(args) }
}

fn marked(tag: &str, args: Vec<Syntax>) -> Syntax {
    call(vec![marker()], path(&[tag]), args)
}

fn result_ty(args: Vec<Syntax>) -> Option<Syntax> {
    Some(ty_args("Result", args))
}

fn param(kind: ParamKind, name: &str) -> GenericParam {
    GenericParam { kind, name: s(name), decl: s(name) }
}

fn item(ident: &str, generics: Vec<GenericParam>, output: Option<Syntax>, block: Syntax) -> ItemFn {
    ItemFn {
        head: format!("fn {} ()", ident),
        ident: s(ident),
        generics,
        output,
        where_clause: String::new(),
        block,
    }
}

/// `{ x . map_err (| e | <inner>) ? ; Ok (()) }` with `x` the call `callee()`.
fn map_err_stmt(callee: &str, inner: Syntax) -> Syntax {
    other(
        "__hole . map_err (__hole) ?",
        vec![call(vec![], path(&[callee]), vec![]), other("| e | __hole", vec![inner])],
    )
}

fn std_result(ok: Syntax, err: Syntax) -> Syntax {
    Syntax::TypePath {
        leading_colon: true,
        segments: list(vec![s("std"), s("result"), s("Result")]),
        args: list(vec![ok, err]),
    }
}

fn expand(it: &ItemFn) -> Expansion {
    fnerror(it, &None).unwrap()
}

#[test]
fn derived_name_single_variant() {
    let body = other(
        "{ __hole ; Ok (()) }",
        vec![map_err_stmt("bar", marked("Error2", vec![lit("\"{}\""), cast(path(&["e"]), ty("String"))]))],
    );
    let it = item("foo", vec![], result_ty(vec![lit("()")]), body);
    let x = expand(&it);
    assert_eq!(x.err_ty_ident, "FooError");
    assert_eq!(x.fnerr_meta.len(), 1);
    let v = &x.fnerr_meta[0];
    assert_eq!(v.ident, "Error2");
    assert_eq!(v.fmt, lit("\"{}\""));
    assert_eq!(v.tys, list(vec![ty("String")]));
    assert_eq!(v.field_indices(), vec![0usize]);
    let expected_body = other(
        "{ __hole ; Ok (()) }",
        vec![map_err_stmt("bar", call(vec![], path(&["FooError", "Error2"]), vec![path(&["e"])]))],
    );
    assert_eq!(x.block, expected_body);
    assert!(x.fnerr_generics.is_empty());
    assert_eq!(x.output, std_result(lit("()"), ty("FooError")));
}

#[test]
fn two_variants_no_generics() {
    let body = other(
        "{ __hole ; __hole ; Ok (()) }",
        vec![
            map_err_stmt("bar", marked("Error2", vec![lit("\"{}\""), cast(path(&["e"]), ty("String"))])),
            map_err_stmt(
                "baz",
                marked(
                    "Error3",
                    vec![
                        lit("\"{}, {}\""),
                        cast(path(&["e"]), reference(Some("'static"), ty("str"))),
                        cast(lit("123"), ty("u8")),
                    ],
                ),
            ),
        ],
    );
    let it = item("foo", vec![], result_ty(vec![lit("()"), ty("MyError")]), body);
    let x = expand(&it);
    assert_eq!(x.err_ty_ident, "MyError");
    assert_eq!(x.fnerr_meta.len(), 2);
    assert_eq!(x.fnerr_meta[0].ident, "Error2");
    let v = &x.fnerr_meta[1];
    assert_eq!(v.ident, "Error3");
    assert_eq!(v.fmt, lit("\"{}, {}\""));
    assert_eq!(v.tys, list(vec![reference(Some("'static"), ty("str")), ty("u8")]));
    assert_eq!(v.field_indices(), vec![0usize, 1]);
    assert!(x.fnerr_generics.is_empty());
    assert_eq!(x.output, std_result(lit("()"), ty("MyError")));
}

#[test]
fn lifetime_collected_before_type_parameter() {
    let generics = vec![param(ParamKind::Lifetime, "'a"), param(ParamKind::Type, "T")];
    let body = other(
        "{ __hole ; __hole ; Ok (()) }",
        vec![
            marked("Bad", vec![lit("\"{}\""), cast(path(&["v"]), ty("T"))]),
            marked("Worse", vec![lit("\"{}\""), cast(path(&["e"]), reference(Some("'a"), ty("str")))]),
        ],
    );
    let it = item("parse", generics, result_ty(vec![lit("()")]), body);
    let x = expand(&it);
    assert_eq!(x.err_ty_ident, "ParseError");
    let names: Vec<&str> = x.fnerr_generics.iter().map(|p| p.name.as_str()).collect();
    assert_eq!(names, vec!["'a", "T"]);
    assert_eq!(x.fnerr_generics[0].kind, ParamKind::Lifetime);
    assert_eq!(
        x.output,
        std_result(lit("()"), ty_args("ParseError", vec![Syntax::Lifetime(s("'a")), ty("T")]))
    );
}

#[test]
fn uncast_argument_is_rejected() {
    let body = other("{ __hole }", vec![marked("Error2", vec![lit("\"{}\""), path(&["e"])])]);
    let it = item("foo", vec![], result_ty(vec![lit("()")]), body);
    assert_eq!(fnerror(&it, &None), Err(Diagnostic::ExpectCast(path(&["e"]))));
}

#[test]
fn missing_template_is_rejected() {
    let body = other("{ __hole }", vec![marked("Error2", vec![])]);
    let it = item("foo", vec![], result_ty(vec![lit("()")]), body);
    assert_eq!(fnerror(&it, &None), Err(Diagnostic::ExpectTemplate(marked("Error2", vec![]))));
}

#[test]
fn path_callee_is_rejected() {
    let body = other(
        "{ __hole }",
        vec![call(vec![marker()], path(&["a", "B"]), vec![lit("\"x\"")])],
    );
    let it = item("foo", vec![], result_ty(vec![lit("()")]), body);
    assert_eq!(fnerror(&it, &None), Err(Diagnostic::ExpectIdentCallee(path(&["a", "B"]))));
}

#[test]
fn reference_without_lifetime_is_rejected() {
    let r = reference(None, ty("str"));
    let body = other("{ __hole }", vec![marked("E", vec![lit("\"{}\""), cast(path(&["e"]), r.copy())])]);
    let it = item("foo", vec![], result_ty(vec![lit("()")]), body);
    assert_eq!(fnerror(&it, &None), Err(Diagnostic::ExpectLifetime(r)));
}

#[test]
fn first_failing_call_decides() {
    let body = other(
        "{ __hole ; __hole }",
        vec![marked("A", vec![]), marked("B", vec![lit("\"{}\""), path(&["e"])])],
    );
    let it = item("foo", vec![], result_ty(vec![lit("()")]), body);
    assert_eq!(fnerror(&it, &None), Err(Diagnostic::ExpectTemplate(marked("A", vec![]))));
}

#[test]
fn return_type_must_be_result() {
    let body = lit("{ }");
    let it = item("foo", vec![], Some(ty_args("Option", vec![lit("()")])), body.copy());
    assert_eq!(fnerror(&it, &None), Err(Diagnostic::ExpectResult));
    let it = item("foo", vec![], None, body.copy());
    assert_eq!(fnerror(&it, &None), Err(Diagnostic::ExpectResult));
    let it = item("foo", vec![], result_ty(vec![lit("()"), ty("A"), ty("B")]), body.copy());
    assert_eq!(fnerror(&it, &None), Err(Diagnostic::ExpectResultArgs));
    let it = item("foo", vec![], result_ty(vec![]), body.copy());
    assert_eq!(fnerror(&it, &None), Err(Diagnostic::ExpectResultArgs));
    let slot = reference(Some("'a"), ty("E"));
    let it = item("foo", vec![], result_ty(vec![lit("()"), slot.copy()]), body);
    assert_eq!(fnerror(&it, &None), Err(Diagnostic::ExpectErrorIdent(slot)));
}

#[test]
fn return_type_checked_before_body() {
    let body = other("{ __hole }", vec![marked("E", vec![])]);
    let it = item("foo", vec![], Some(ty("Option")), body);
    assert_eq!(fnerror(&it, &None), Err(Diagnostic::ExpectResult));
}

#[test]
fn nested_declarations_are_not_walked() {
    let body = other(
        "{ __hole ; __hole }",
        vec![
            Syntax::Item(s("fn inner () { # [fnerr] Inner (\"x\") }")),
            marked("Outer", vec![lit("\"o\"")]),
        ],
    );
    let it = item("foo", vec![], result_ty(vec![lit("()")]), body);
    let x = expand(&it);
    assert_eq!(x.fnerr_meta.len(), 1);
    assert_eq!(x.fnerr_meta[0].ident, "Outer");
    assert_eq!(x.fnerr_meta[0].tys, List::Nil);
    assert!(x.fnerr_meta[0].field_indices().is_empty());
}

#[test]
fn marked_calls_inside_plain_calls_are_found_in_order() {
    let inner = marked("Second", vec![lit("\"2\"")]);
    let outer = call(
        vec![Attr { name: Some(s("inline")), tokens: s("# [inline]") }],
        path(&["wrap"]),
        vec![marked("First", vec![lit("\"1\"")]), inner],
    );
    let it = item("foo", vec![], result_ty(vec![lit("()")]), other("{ __hole }", vec![outer]));
    let x = expand(&it);
    let tags: Vec<&str> = x.fnerr_meta.iter().map(|m| m.ident.as_str()).collect();
    assert_eq!(tags, vec!["First", "Second"]);
    let expected = call(
        vec![Attr { name: Some(s("inline")), tokens: s("# [inline]") }],
        path(&["wrap"]),
        vec![
            call(vec![], path(&["FooError", "First"]), vec![]),
            call(vec![], path(&["FooError", "Second"]), vec![]),
        ],
    );
    assert_eq!(x.block, other("{ __hole }", vec![expected]));
}

#[test]
fn other_attributes_on_marked_call_are_kept() {
    let keep = Attr { name: Some(s("allow")), tokens: s("# [allow (unused)]") };
    let c = call(vec![keep.copy(), marker()], path(&["E"]), vec![lit("\"e\"")]);
    let it = item("foo", vec![], result_ty(vec![lit("()")]), c);
    let x = expand(&it);
    assert_eq!(x.block, call(vec![keep], path(&["FooError", "E"]), vec![]));
}

#[test]
fn generics_without_repeats_and_in_order() {
    let generics = vec![
        param(ParamKind::Lifetime, "'a"),
        param(ParamKind::Lifetime, "'b"),
        param(ParamKind::Type, "T"),
        param(ParamKind::Type, "U"),
        param(ParamKind::Const, "N"),
        param(ParamKind::Type, "Unused"),
    ];
    let body = other(
        "{ __hole ; __hole }",
        vec![
            marked(
                "A",
                vec![
                    lit("\"{} {}\""),
                    cast(path(&["u"]), ty_args("Vec", vec![ty("U")])),
                    cast(path(&["a"]), other("[__hole ; __hole]", vec![ty("u8"), path(&["N"])])),
                ],
            ),
            marked(
                "B",
                vec![
                    lit("\"{} {} {}\""),
                    cast(path(&["x"]), reference(Some("'a"), ty("T"))),
                    cast(path(&["y"]), reference(Some("'b"), ty("U"))),
                    cast(path(&["z"]), reference(Some("'a"), ty("str"))),
                ],
            ),
        ],
    );
    let it = item("foo", generics, result_ty(vec![lit("()")]), body);
    let x = expand(&it);
    let names: Vec<&str> = x.fnerr_generics.iter().map(|p| p.name.as_str()).collect();
    assert_eq!(names, vec!["'b", "'a", "U", "N", "T"]);
}

#[test]
fn name_argument_overrides() {
    let body = marked("E", vec![lit("\"e\"")]);
    let it = item("foo", vec![], result_ty(vec![lit("()"), ty("Slot")]), body);
    let x = fnerror(&it, &Some(s("Given"))).unwrap();
    assert_eq!(x.err_ty_ident, "Given");
    assert_eq!(x.block, call(vec![], path(&["Given", "E"]), vec![]));
}

#[test]
fn snake_case_name_becomes_type_name() {
    let it = item("read_config", vec![], result_ty(vec![lit("()")]), lit("{ }"));
    assert_eq!(expand(&it).err_ty_ident, "ReadConfigError");
}

#[test]
fn rewritten_return_type_reads_back() {
    let generics = vec![param(ParamKind::Lifetime, "'a")];
    let body = marked("E", vec![lit("\"{}\""), cast(path(&["e"]), reference(Some("'a"), ty("str")))]);
    let it = item("load", generics, result_ty(vec![ty("u32")]), body);
    let x = expand(&it);
    let again = item("load", vec![param(ParamKind::Lifetime, "'a")], Some(x.output.copy()), lit("{ }"));
    let rt = ReturnType::parse(&again.output).unwrap();
    assert_eq!(rt.err_type, Some(s("LoadError")));
    let err = GenericErrType::new(s("LoadError"), &x.fnerr_generics);
    assert_eq!(rt.rewrite(&err), x.output);
    let y = fnerror(&again, &Some(x.err_ty_ident.clone())).unwrap();
    assert_eq!(y.err_ty_ident, "LoadError");
    let z = fnerror(&again, &None).unwrap();
    assert_eq!(z.err_ty_ident, "LoadError");
}

#[test]
fn repeated_runs_agree() {
    let generics = vec![param(ParamKind::Type, "T")];
    let body = other(
        "{ __hole }",
        vec![marked("E", vec![lit("\"{}\""), cast(path(&["t"]), ty("T"))])],
    );
    let it = item("foo", generics, result_ty(vec![lit("()")]), body);
    assert_eq!(fnerror(&it, &None), fnerror(&it, &None));
}

#[test]
fn visitors_step_by_step() {
    let declared = vec![param(ParamKind::Const, "N")];
    let gv = GenericsVisitor::new(&declared);
    let mut found = VecDeque::new();
    gv.visit_type(&other("[__hole ; __hole]", vec![ty("u8"), path(&["N"])]), &mut found).unwrap();
    gv.visit_type(&ty_args("Foo", vec![path(&["N"])]), &mut found).unwrap();
    assert_eq!(found.len(), 1);
    assert_eq!(found[0].name, "N");

    let v = FnErrExprVistor::new(s("FooError"), &declared);
    let mut sites = Vec::new();
    let out = v.visit_expr(&marked("E", vec![lit("\"{}\""), cast(path(&["n"]), ty("u8"))]), &mut sites);
    assert_eq!(out, call(vec![], path(&["FooError", "E"]), vec![path(&["n"])]));
    assert_eq!(sites.len(), 1);
    let mut found = VecDeque::new();
    let metas = v.visit_sites(&sites, &mut found).unwrap();
    assert_eq!(
        metas,
        vec![FnErrErrorMeta::new(s("E"), lit("\"{}\""), list(vec![ty("u8")]))]
    );
}

#[test]
fn builders() {
    assert_eq!(call_site_ident("x"), "x");
    assert_eq!(path_from_str("x"), path(&["x"]));
    assert_eq!(path_from_ident(s("y")), path(&["y"]));
    assert_eq!(path_from_args(s("V"), list(vec![ty("T")])), ty_args("V", vec![ty("T")]));
    assert_eq!(error_name_from_pascal(s("Foo")), "FooError");
    let rt = ReturnType { ok_type: lit("()"), err_type: None };
    assert_eq!(err_ty_name(&s("do_it"), &None, &rt), "DoItError");
    let p = Printer::new(1u8, "m");
    assert_eq!((p.inner, p.meta), (1u8, "m"));
    assert_eq!(Diagnostic::ExpectTemplate(lit("x")).message(), "expect a format string");
    assert_eq!(Diagnostic::ExpectResult.message(), "expect Result");
}

#[test]
fn name_argument_picks_name_key() {
    let args = vec![
        NamedArg { key: s("other"), value: s("X") },
        NamedArg { key: s("name"), value: s("Chosen") },
        NamedArg { key: s("name"), value: s("Later") },
    ];
    assert_eq!(name_argument(&args), Some(s("Chosen")));
    assert_eq!(name_argument(&vec![]), None);
}

#[test]
fn other_paths_ending_in_result_are_rejected() {
    let body = lit("{ }");
    let io_result = Syntax::TypePath {
        leading_colon: false,
        segments: list(vec![s("io"), s("Result")]),
        args: list(vec![lit("()")]),
    };
    let it = item("foo", vec![], Some(io_result), body.copy());
    assert_eq!(fnerror(&it, &None), Err(Diagnostic::ExpectResult));
    let rooted = Syntax::TypePath {
        leading_colon: true,
        segments: list(vec![s("Result")]),
        args: list(vec![lit("()")]),
    };
    let it = item("foo", vec![], Some(rooted), body.copy());
    assert_eq!(fnerror(&it, &None), Err(Diagnostic::ExpectResult));
    let std_path = Syntax::TypePath {
        leading_colon: false,
        segments: list(vec![s("std"), s("result"), s("Result")]),
        args: list(vec![lit("()")]),
    };
    let it = item("foo", vec![], Some(std_path), body);
    assert_eq!(expand(&it).output, std_result(lit("()"), ty("FooError")));
}

#[test]
fn marked_call_inside_marked_call_value() {
    let inner = marked("Inner", vec![lit("\"i\""), cast(path(&["x"]), ty("u8"))]);
    let outer = marked("Outer", vec![lit("\"o {}\""), cast(inner, ty("FooError"))]);
    let it = item("foo", vec![], result_ty(vec![lit("()")]), other("{ __hole }", vec![outer]));
    let x = expand(&it);
    let tags: Vec<&str> = x.fnerr_meta.iter().map(|m| m.ident.as_str()).collect();
    assert_eq!(tags, vec!["Outer", "Inner"]);
    let expected = call(
        vec![],
        path(&["FooError", "Outer"]),
        vec![call(vec![], path(&["FooError", "Inner"]), vec![path(&["x"])])],
    );
    assert_eq!(x.block, other("{ __hole }", vec![expected]));
}

#[test]
fn marked_method_call_is_rejected() {
    let m = Syntax::MethodCall {
        attrs: list(vec![marker()]),
        receiver: Box::new(path(&["x"])),
        method: s("fail"),
        args: list(vec![lit("\"{}\"")]),
    };
    let it = item("foo", vec![], result_ty(vec![lit("()")]), other("{ __hole }", vec![m.copy()]));
    assert_eq!(fnerror(&it, &None), Err(Diagnostic::ExpectIdentCallee(m)));
}

#[test]
fn marked_calls_inside_plain_method_calls_are_found() {
    let m = Syntax::MethodCall {
        attrs: List::Nil,
        receiver: Box::new(call(vec![], path(&["bar"]), vec![])),
        method: s("map_err"),
        args: list(vec![other("| e | __hole", vec![marked("E", vec![lit("\"e\"")])])]),
    };
    let it = item("foo", vec![], result_ty(vec![lit("()")]), m);
    let x = expand(&it);
    assert_eq!(x.fnerr_meta.len(), 1);
    assert_eq!(x.fnerr_meta[0].ident, "E");
}

#[test]
fn associated_type_and_const_argument_generics() {
    let generics = vec![param(ParamKind::Type, "T"), param(ParamKind::Const, "N")];
    let assoc = Syntax::TypePath {
        leading_colon: false,
        segments: list(vec![s("T"), s("Assoc")]),
        args: List::Nil,
    };
    let body = other(
        "{ __hole }",
        vec![marked(
            "E",
            vec![lit("\"{} {}\""), cast(path(&["a"]), ty_args("Foo", vec![ty("N")])), cast(path(&["b"]), assoc)],
        )],
    );
    let it = item("foo", generics, result_ty(vec![lit("()")]), body);
    let x = expand(&it);
    let names: Vec<&str> = x.fnerr_generics.iter().map(|p| p.name.as_str()).collect();
    assert_eq!(names, vec!["N", "T"]);
    assert_eq!(x.fnerr_generics[0].kind, ParamKind::Const);
}

#[test]
fn unscoped_reference_leaves_found_unchanged() {
    let declared = vec![param(ParamKind::Type, "T")];
    let gv = GenericsVisitor::new(&declared);
    let mut found = VecDeque::new();
    gv.visit_type(&ty("T"), &mut found).unwrap();
    let r = reference(None, ty("T"));
    assert_eq!(gv.visit_type(&r, &mut found), Err(Diagnostic::ExpectLifetime(r.copy())));
    assert_eq!(found.len(), 1);
}

#[test]
fn first_uncast_argument_is_named() {
    let body = marked(
        "E",
        vec![lit("\"{} {} {}\""), cast(path(&["a"]), ty("u8")), path(&["b"]), path(&["c"])],
    );
    let it = item("foo", vec![], result_ty(vec![lit("()")]), body);
    assert_eq!(fnerror(&it, &None), Err(Diagnostic::ExpectCast(path(&["b"]))));
}
