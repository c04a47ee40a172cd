//! Synthesises a function's failure type from the marked calls in its body.
//!
//! A call marked `#[fnerr]`, written `Tag("template", value as Type, ..)`,
//! becomes the variant `Tag(Type, ..)` of the failure type, displayed with the
//! template, and the call becomes `FailureType::Tag(value, ..)`. The function's
//! return type is rewritten to name the failure type, applied to the generic
//! parameters of the function that the variants' types use.
use std::collections::VecDeque;
use vstd::prelude::*;

pub mod return_type;
pub mod syntax;
pub mod utils;
pub mod visitors;

use crate::return_type::{
    err_type_syntax, is_outcome, params_as_args, parse_return, GenericErrType, ReturnType,
};
use crate::syntax::{Diagnostic, GenericParam, Syntax};
use crate::syntax::{
    lemma_same_text_list_refl, lemma_same_text_refl, names, same_text, same_text_list, List,
};
use crate::visitors::fnerr::{
    first_error, lemma_cast_types, lemma_marked_calls_are_calls, lemma_no_error_from,
    is_site, lemma_first_uncast_reported, lemma_rewrite_same_text, marked_calls, first_error_from,
    first_uncast_at,
    record_of, rewrite, single_callee, site_error, sites_refs, tail, FnErrErrorMeta, FnErrExprVistor,
};
use crate::visitors::generics::{
    add_all, contains_param, lemma_add_all, lemma_add_all_non_lifetimes,
    lifetimes_first, no_dup, non_lifetimes,
};

verus! {

/// What the case conversion to a type name gives for an identifier.
pub uninterp spec fn pascal_case_of(s: Seq<char>) -> Seq<char>;

/// Relies on inflector's `to_pascal_case`: a function of the characters alone.
#[verifier::external_body]
fn to_pascal_case(s: &String) -> (r: String)
    ensures
        r@ == pascal_case_of(s@),
{
    inflector::cases::pascalcase::to_pascal_case(s)
}

/// The failure type's name made from the function's name in type-name case.
pub fn error_name_from_pascal(pascal: String) -> (r: String)
    ensures
        r@ == pascal@ + "Error"@,
{
    let mut r = pascal;
    r.append("Error");
    r
}

/// The failure type's name: the one given as an argument, else the one in
/// the return type's failure slot, else the function's name in type-name
/// case followed by `Error`.
pub open spec fn err_name(ident: Seq<char>, name: Option<String>, rt: ReturnType) -> Seq<char> {
    match name {
        Some(n) => n@,
        None => match rt.err_type {
            Some(e) => e@,
            None => pascal_case_of(ident) + "Error"@,
        },
    }
}

pub fn err_ty_name(ident: &String, name: &Option<String>, rt: &ReturnType) -> (r: String)
    ensures
        r@ == err_name(ident@, *name, *rt),
{
    match name {
        Some(n) => n.clone(),
        None => match &rt.err_type {
            Some(e) => e.clone(),
            None => error_name_from_pascal(to_pascal_case(ident)),
        },
    }
}

/// A `key = value` argument of the attribute.
#[derive(Debug, PartialEq, Eq)]
pub struct NamedArg {
    pub key: String,
    pub value: String,
}

/// The value of the first argument `name = ..` at or after `i`.
pub open spec fn name_arg_from(args: Seq<NamedArg>, i: int) -> Option<String>
    decreases args.len() - i,
{
    if i < 0 || i >= args.len() {
        None
    } else if args[i].key@ == "name"@ {
        Some(args[i].value)
    } else {
        name_arg_from(args, i + 1)
    }
}

/// The failure type's name given as `name = ..`; other arguments are ignored.
pub fn name_argument(args: &Vec<NamedArg>) -> (r: Option<String>)
    ensures
        r == name_arg_from(args@, 0),
{
    let key = crate::utils::call_site_ident("name");
    proof {
        reveal_strlit("name");
    }
    let mut i: usize = 0;
    while i < args.len()
        invariant
            i <= args@.len(),
            key@ == "name"@,
            name_arg_from(args@, 0) == name_arg_from(args@, i as int),
        decreases args@.len() - i,
    {
        if args[i].key == key {
            return Some(args[i].value.clone());
        }
        i = i + 1;
    }
    None
}

/// The annotated function.
#[derive(Debug, PartialEq, Eq)]
pub struct ItemFn {
    /// Attributes, visibility and signature up to the parameter list.
    pub head: String,
    pub ident: String,
    /// The declared generic parameters, in order.
    pub generics: Vec<GenericParam>,
    pub output: Option<Syntax>,
    pub where_clause: String,
    pub block: Syntax,
}

/// The rewritten function and its failure type.
#[derive(Debug, PartialEq, Eq)]
pub struct Expansion {
    pub head: String,
    pub output: Syntax,
    pub where_clause: String,
    pub block: Syntax,
    pub err_ty_ident: String,
    /// The failure type's generic parameters.
    pub fnerr_generics: VecDeque<GenericParam>,
    /// The failure type's variants, in order.
    pub fnerr_meta: Vec<FnErrErrorMeta>,
}

/// `x` is the expansion of `item` whose return type reads as `rt`.
pub open spec fn is_expansion(item: ItemFn, name: Option<String>, rt: ReturnType, x: Expansion) -> bool {
    let sites = marked_calls(item.block);
    &&& x.head == item.head
    &&& x.where_clause == item.where_clause
    &&& x.err_ty_ident@ == err_name(item.ident@, name, rt)
    &&& x.block == rewrite(item.block, x.err_ty_ident)
    &&& x.fnerr_meta@ == sites.map_values(|c: Syntax| record_of(c))
    &&& x.fnerr_generics@ == add_all(Seq::empty(), sites_refs(item.generics@, sites))
    &&& is_outcome(x.output, rt.ok_type, err_type_syntax(x.err_ty_ident, x.fnerr_generics@))
}

/// Rewrites the function and builds its failure type. `name`, when given,
/// names the failure type.
pub fn fnerror(item: &ItemFn, name: &Option<String>) -> (r: Result<Expansion, Diagnostic>)
    ensures
        match parse_return(item.output) {
            Err(e) => r == Err::<Expansion, Diagnostic>(e),
            Ok(rt) => match first_error(marked_calls(item.block)) {
                Some(e) => r == Err::<Expansion, Diagnostic>(e),
                None => r matches Ok(x) && is_expansion(*item, *name, rt, x),
            },
        },
{
    let rt = ReturnType::parse(&item.output)?;
    let err_ty_ident = err_ty_name(&item.ident, name, &rt);
    let visitor = FnErrExprVistor::new(err_ty_ident.clone(), &item.generics);
    let mut sites: Vec<Syntax> = Vec::new();
    let block = visitor.visit_expr(&item.block, &mut sites);
    assert(sites@ =~= marked_calls(item.block));
    proof {
        lemma_marked_calls_are_calls(item.block);
    }
    let mut found: VecDeque<GenericParam> = VecDeque::new();
    let fnerr_meta = visitor.visit_sites(&sites, &mut found)?;
    let err = GenericErrType::new(err_ty_ident.clone(), &found);
    let output = rt.rewrite(&err);
    Ok(
        Expansion {
            head: item.head.clone(),
            output,
            where_clause: item.where_clause.clone(),
            block,
            err_ty_ident,
            fnerr_generics: found,
            fnerr_meta,
        },
    )
}

/// The failure type has one variant per marked call outside nested
/// declarations, named after the call's callee, in pre-order.
pub proof fn lemma_variant_correspondence(item: ItemFn, name: Option<String>, rt: ReturnType, x: Expansion)
    requires
        is_expansion(item, name, rt, x),
        first_error(marked_calls(item.block)) is None,
    ensures
        x.fnerr_meta@.len() == marked_calls(item.block).len(),
        forall|i: int|
            0 <= i < x.fnerr_meta@.len() ==> Some((#[trigger] x.fnerr_meta@[i]).ident) == single_callee(
                *marked_calls(item.block)[i]->func,
            ),
{
    let sites = marked_calls(item.block);
    lemma_marked_calls_are_calls(item.block);
    lemma_no_error_from(sites, 0);
    assert forall|i: int| 0 <= i < x.fnerr_meta@.len() implies Some(
        (#[trigger] x.fnerr_meta@[i]).ident,
    ) == single_callee(*sites[i]->func) by {
        assert(is_site(sites[i]));
        assert(site_error(sites[i]) is None);
    }
}

/// Each variant's fields are the ascribed types of its call's arguments
/// after the template, in order.
pub proof fn lemma_field_order(item: ItemFn, name: Option<String>, rt: ReturnType, x: Expansion, i: int)
    requires
        is_expansion(item, name, rt, x),
        first_error(marked_calls(item.block)) is None,
        0 <= i < x.fnerr_meta@.len(),
    ensures
        ({
            let args = marked_calls(item.block)[i]->Call_args;
            let tys = x.fnerr_meta@[i].tys.elems();
            &&& args.elems().len() >= 1
            &&& tys.len() == args.elems().len() - 1
            &&& forall|j: int|
                0 <= j < tys.len() ==> (#[trigger] args.elems()[j + 1]) is Cast && tys[j]
                    == *args.elems()[j + 1]->ty
        }),
{
    let sites = marked_calls(item.block);
    lemma_marked_calls_are_calls(item.block);
    lemma_no_error_from(sites, 0);
    assert(is_site(sites[i]));
    assert(site_error(sites[i]) is None);
    let args = sites[i]->Call_args;
    let rest = tail(args);
    lemma_cast_types(rest);
    assert forall|j: int| 0 <= j < rest.elems().len() implies args.elems()[j + 1] == rest.elems()[j] by {}
}

/// A marked call with a one-identifier callee and a template, whose
/// argument `j` after the template is not an ascription while the ones
/// before it are well-formed ascriptions, fails with a diagnostic that
/// names that argument; so does the whole transformation when no call
/// before it fails.
pub proof fn lemma_uncast_argument_rejected(item: ItemFn, i: int, j: int)
    requires
        parse_return(item.output) is Ok,
        0 <= i < marked_calls(item.block).len(),
        forall|k: int| 0 <= k < i ==> site_error(#[trigger] marked_calls(item.block)[k]) is None,
        marked_calls(item.block)[i] is Call,
        single_callee(*marked_calls(item.block)[i]->func) is Some,
        marked_calls(item.block)[i]->Call_args is Cons,
        first_uncast_at(tail(marked_calls(item.block)[i]->Call_args), j),
    ensures
        ({
            let rest = tail(marked_calls(item.block)[i]->Call_args);
            &&& site_error(marked_calls(item.block)[i]) == Some(
                Diagnostic::ExpectCast(rest.elems()[j]),
            )
            &&& first_error(marked_calls(item.block)) == Some(
                Diagnostic::ExpectCast(rest.elems()[j]),
            )
        }),
{
    let sites = marked_calls(item.block);
    let rest = tail(sites[i]->Call_args);
    lemma_first_uncast_reported(rest, j);
    lemma_first_error_at(sites, 0, i);
}

/// The first failure is that of call `i` when no call before it fails.
proof fn lemma_first_error_at(sites: Seq<Syntax>, from: int, i: int)
    requires
        0 <= from <= i < sites.len(),
        forall|k: int| 0 <= k < i ==> site_error(#[trigger] sites[k]) is None,
    ensures
        first_error_from(sites, from) == site_error(sites[i]) || site_error(sites[i]) is None,
        site_error(sites[i]) is Some ==> first_error_from(sites, from) == site_error(sites[i]),
    decreases i - from,
{
    if from < i {
        lemma_first_error_at(sites, from + 1, i);
    }
}

/// The failure type's generic parameters: no repeats, lifetimes first, only
/// parameters that the variants' types refer to and all of them, and the type
/// and const parameters in order of first reference.
pub proof fn lemma_generics_minimal_ordered(item: ItemFn, name: Option<String>, rt: ReturnType, x: Expansion)
    requires
        is_expansion(item, name, rt, x),
    ensures
        ({
            let rs = sites_refs(item.generics@, marked_calls(item.block));
            let g = x.fnerr_generics@;
            &&& no_dup(g)
            &&& lifetimes_first(g)
            &&& forall|q: GenericParam| g.contains(q) ==> rs.contains(q)
            &&& forall|j: int|
                0 <= j < rs.len() ==> contains_param(g, (#[trigger] rs[j]).kind, rs[j].name@)
            &&& non_lifetimes(g) == add_all(Seq::empty(), non_lifetimes(rs))
        }),
{
    let rs = sites_refs(item.generics@, marked_calls(item.block));
    let e = Seq::<GenericParam>::empty();
    lemma_add_all(e, rs);
    lemma_add_all_non_lifetimes(e, rs);
    assert(non_lifetimes(e) =~= e) by {
        reveal(Seq::filter);
    }
}

/// Reading back a rewritten return type gives the success type and the
/// failure type's name, so rewriting it again gives the same type.
pub proof fn lemma_return_rewrite_stable(r: Syntax, ok: Syntax, name: String, generics: Seq<GenericParam>)
    requires
        is_outcome(r, ok, err_type_syntax(name, generics)),
    ensures
        parse_return(Some(r)) == Ok::<ReturnType, Diagnostic>(
            ReturnType { ok_type: ok, err_type: Some(name) },
        ),
        forall|ident: Seq<char>|
            err_name(ident, None, ReturnType { ok_type: ok, err_type: Some(name) }) == name@,
{
    reveal_strlit("Result");
}

/// Two runs on the same function give the same output: the same
/// signature, body and return type text, the same failure type name, the
/// same variants and the same generic parameters.
pub proof fn lemma_deterministic(
    item: ItemFn,
    name: Option<String>,
    rt: ReturnType,
    x1: Expansion,
    x2: Expansion,
)
    requires
        is_expansion(item, name, rt, x1),
        is_expansion(item, name, rt, x2),
    ensures
        x1.head == x2.head,
        x1.where_clause == x2.where_clause,
        x1.err_ty_ident@ == x2.err_ty_ident@,
        same_text(x1.block, x2.block),
        same_text(x1.output, x2.output),
        x1.fnerr_meta@ == x2.fnerr_meta@,
        x1.fnerr_generics@ == x2.fnerr_generics@,
{
    lemma_rewrite_same_text(item.block, x1.err_ty_ident, x2.err_ty_ident);
    lemma_same_text_refl(rt.ok_type);
    let gs = x1.fnerr_generics@;
    lemma_same_text_list_refl(params_as_args(gs, 0));
    let e1 = err_type_syntax(x1.err_ty_ident, gs);
    let e2 = err_type_syntax(x2.err_ty_ident, gs);
    let n1: List<String> = List::Cons(Box::new(x1.err_ty_ident), Box::new(List::Nil));
    let n2: List<String> = List::Cons(Box::new(x2.err_ty_ident), Box::new(List::Nil));
    assert(names(n1) == seq![x1.err_ty_ident@] + names(List::<String>::Nil));
    assert(names(n2) == seq![x2.err_ty_ident@] + names(List::<String>::Nil));
    assert(same_text(e1, e2));
    let t1: List<Syntax> = List::Cons(Box::new(e1), Box::new(List::Nil));
    let t2: List<Syntax> = List::Cons(Box::new(e2), Box::new(List::Nil));
    assert(same_text_list(List::<Syntax>::Nil, List::<Syntax>::Nil));
    assert(same_text_list(t1, t2));
    let a1 = List::Cons(Box::new(rt.ok_type), Box::new(t1));
    let a2 = List::Cons(Box::new(rt.ok_type), Box::new(t2));
    assert(same_text_list(a1, a2));
}

/// A value together with what is needed to print it.
pub struct Printer<T, M> {
    pub inner: T,
    pub meta: M,
}

impl<T, M> Printer<T, M> {
    pub fn new(inner: T, meta: M) -> (r: Self)
        ensures
            r.inner == inner,
            r.meta == meta,
    {
        Printer { inner, meta }
    }
}

} // verus!
