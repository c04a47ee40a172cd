//! Finds the marked calls of a function body, rewrites them, and turns each
//! into one variant of the failure type.
use std::collections::VecDeque;
use vstd::prelude::*;

use crate::syntax::{
    copy_attrs, copy_names, copy_nodes, lemma_same_attrs_refl, lemma_same_text_list_refl,
    lemma_same_text_refl, names, same_text, same_text_list, Attr, Diagnostic, GenericParam, List,
    Syntax,
};
use crate::visitors::generics::{add_all, first_unscoped, refs_list, single_name, GenericsVisitor};

verus! {

/// The name of the attribute that marks a call as an error site.
pub open spec fn marker_name() -> Seq<char> {
    "fnerr"@
}

pub open spec fn is_marker(a: Attr) -> bool {
    a.name matches Some(n) && n@ == marker_name()
}

pub open spec fn marked(attrs: List<Attr>) -> bool
    decreases attrs,
{
    match attrs {
        List::Nil => false,
        List::Cons(h, t) => is_marker(*h) || marked(*t),
    }
}

/// The attributes without the markers.
pub open spec fn strip(attrs: List<Attr>) -> List<Attr>
    decreases attrs,
{
    match attrs {
        List::Nil => List::Nil,
        List::Cons(h, t) => if is_marker(*h) {
            strip(*t)
        } else {
            List::Cons(h, Box::new(strip(*t)))
        },
    }
}

/// The marked calls and marked method calls of a tree in pre-order. Nested
/// declarations are not entered; of a marked call, the values of the
/// arguments after the template are.
pub open spec fn marked_calls(n: Syntax) -> Seq<Syntax>
    decreases n,
{
    match n {
        Syntax::Call { attrs, func, args } => if marked(attrs) {
            match args {
                List::Nil => seq![n],
                List::Cons(_, rest) => seq![n] + marked_calls_values(*rest),
            }
        } else {
            marked_calls(*func) + marked_calls_list(args)
        },
        Syntax::MethodCall { attrs, receiver, args, .. } => if marked(attrs) {
            seq![n]
        } else {
            marked_calls(*receiver) + marked_calls_list(args)
        },
        Syntax::Cast { expr, ty } => marked_calls(*expr) + marked_calls(*ty),
        Syntax::Reference { elem, .. } => marked_calls(*elem),
        Syntax::TypePath { args, .. } => marked_calls_list(args),
        Syntax::Other { children, .. } => marked_calls_list(children),
        _ => Seq::empty(),
    }
}

pub open spec fn marked_calls_list(l: List<Syntax>) -> Seq<Syntax>
    decreases l,
{
    match l {
        List::Nil => Seq::empty(),
        List::Cons(h, t) => marked_calls(*h) + marked_calls_list(*t),
    }
}

/// The marked calls in the values of ascriptions `value as Type` (in the
/// whole argument where it is not one).
pub open spec fn marked_calls_values(l: List<Syntax>) -> Seq<Syntax>
    decreases l,
{
    match l {
        List::Nil => Seq::empty(),
        List::Cons(h, t) => (match *h {
            Syntax::Cast { expr, .. } => marked_calls(*expr),
            _ => marked_calls(*h),
        }) + marked_calls_values(*t),
    }
}

/// The callee of a marked call, prefixed with the failure type's name.
pub open spec fn qualify(func: Syntax, err: String) -> Syntax {
    match func {
        Syntax::Path { segments } => Syntax::Path {
            segments: List::Cons(Box::new(err), Box::new(segments)),
        },
        _ => func,
    }
}

pub open spec fn tail(l: List<Syntax>) -> List<Syntax> {
    match l {
        List::Nil => List::Nil,
        List::Cons(_, t) => *t,
    }
}

/// The types of the ascriptions `value as Type`.
pub open spec fn cast_types(l: List<Syntax>) -> List<Syntax>
    decreases l,
{
    match l {
        List::Nil => List::Nil,
        List::Cons(h, t) => match *h {
            Syntax::Cast { ty, .. } => List::Cons(ty, Box::new(cast_types(*t))),
            _ => cast_types(*t),
        },
    }
}

/// The tree with every marked call rewritten: markers dropped, callee
/// qualified by the failure type, template dropped, each ascription
/// replaced by its value, itself rewritten. A marked method call, which
/// cannot become a variant, is left as it is.
pub open spec fn rewrite(n: Syntax, err: String) -> Syntax
    decreases n,
{
    match n {
        Syntax::Call { attrs, func, args } => if marked(attrs) {
            Syntax::Call {
                attrs: strip(attrs),
                func: Box::new(qualify(*func, err)),
                args: match args {
                    List::Nil => List::Nil,
                    List::Cons(_, rest) => rewrite_values(*rest, err),
                },
            }
        } else {
            Syntax::Call {
                attrs,
                func: Box::new(rewrite(*func, err)),
                args: rewrite_list(args, err),
            }
        },
        Syntax::MethodCall { attrs, receiver, method, args } => if marked(attrs) {
            n
        } else {
            Syntax::MethodCall {
                attrs,
                receiver: Box::new(rewrite(*receiver, err)),
                method,
                args: rewrite_list(args, err),
            }
        },
        Syntax::Cast { expr, ty } => Syntax::Cast {
            expr: Box::new(rewrite(*expr, err)),
            ty: Box::new(rewrite(*ty, err)),
        },
        Syntax::Reference { lifetime, mutable, elem } => Syntax::Reference {
            lifetime,
            mutable,
            elem: Box::new(rewrite(*elem, err)),
        },
        Syntax::TypePath { leading_colon, segments, args } => Syntax::TypePath {
            leading_colon,
            segments,
            args: rewrite_list(args, err),
        },
        Syntax::Other { tokens, children } => Syntax::Other {
            tokens,
            children: rewrite_list(children, err),
        },
        _ => n,
    }
}

/// Each ascription replaced by its rewritten value.
pub open spec fn rewrite_values(l: List<Syntax>, err: String) -> List<Syntax>
    decreases l,
{
    match l {
        List::Nil => List::Nil,
        List::Cons(h, t) => List::Cons(
            Box::new(
                match *h {
                    Syntax::Cast { expr, .. } => rewrite(*expr, err),
                    _ => rewrite(*h, err),
                },
            ),
            Box::new(rewrite_values(*t, err)),
        ),
    }
}

pub open spec fn rewrite_list(l: List<Syntax>, err: String) -> List<Syntax>
    decreases l,
{
    match l {
        List::Nil => List::Nil,
        List::Cons(h, t) => List::Cons(Box::new(rewrite(*h, err)), Box::new(rewrite_list(*t, err))),
    }
}

/// One variant of the failure type: its name, its display template and the
/// types of its unnamed fields, in order.
#[derive(Debug, PartialEq, Eq)]
pub struct FnErrErrorMeta {
    pub ident: String,
    pub fmt: Syntax,
    pub tys: List<Syntax>,
}

impl FnErrErrorMeta {
    pub fn new(ident: String, fmt: Syntax, tys: List<Syntax>) -> (r: Self)
        ensures
            r == (FnErrErrorMeta { ident, fmt, tys }),
    {
        FnErrErrorMeta { ident, fmt, tys }
    }

    /// The positions of the fields, `0, 1, ..`, which the display
    /// annotation hands to the template.
    pub fn field_indices(&self) -> (r: Vec<usize>)
        requires
            self.tys.len() <= usize::MAX,
        ensures
            r@.len() == self.tys.len(),
            forall|i: int| 0 <= i < r@.len() ==> r@[i] == i,
    {
        let mut r: Vec<usize> = Vec::new();
        let mut cur: &List<Syntax> = &self.tys;
        let mut i: usize = 0;
        loop
            invariant
                i + cur.len() == self.tys.len(),
                self.tys.len() <= usize::MAX,
                r@.len() == i,
                forall|k: int| 0 <= k < i ==> r@[k] == k,
            ensures
                r@.len() == self.tys.len(),
                forall|k: int| 0 <= k < r@.len() ==> r@[k] == k,
            decreases cur.len(),
        {
            match cur {
                List::Nil => break,
                List::Cons(_, t) => {
                    r.push(i);
                    i = i + 1;
                    cur = t;
                },
            }
        }
        r
    }
}

/// What stops a marked call from becoming a variant: a callee that is not a
/// single identifier, a missing template, then, argument by argument, one that
/// is not an ascription or whose type holds a reference without a lifetime.
pub open spec fn site_error(call: Syntax) -> Option<Diagnostic> {
    match call {
        Syntax::Call { func, args, .. } => if single_callee(*func) is Some {
            match args {
                List::Nil => Some(Diagnostic::ExpectTemplate(call)),
                List::Cons(_, rest) => args_error(*rest),
            }
        } else {
            Some(Diagnostic::ExpectIdentCallee(*func))
        },
        Syntax::MethodCall { .. } => Some(Diagnostic::ExpectIdentCallee(call)),
        _ => None,
    }
}

/// The identifier of a callee made of exactly one identifier.
pub open spec fn single_callee(func: Syntax) -> Option<String> {
    match func {
        Syntax::Path { segments } => match segments {
            List::Cons(h, t) => match *t {
                List::Nil => Some(*h),
                _ => None,
            },
            List::Nil => None,
        },
        _ => None,
    }
}

pub open spec fn args_error(l: List<Syntax>) -> Option<Diagnostic>
    decreases l,
{
    match l {
        List::Nil => None,
        List::Cons(h, t) => match *h {
            Syntax::Cast { ty, .. } => match first_unscoped(*ty) {
                Some(x) => Some(Diagnostic::ExpectLifetime(x)),
                None => args_error(*t),
            },
            _ => Some(Diagnostic::ExpectCast(*h)),
        },
    }
}

/// The variant that a well-formed marked call stands for.
pub open spec fn record_of(call: Syntax) -> FnErrErrorMeta {
    match call {
        Syntax::Call { func, args, .. } => FnErrErrorMeta {
            ident: single_callee(*func)->0,
            fmt: match args {
                List::Cons(h, _) => *h,
                List::Nil => call,
            },
            tys: cast_types(tail(args)),
        },
        _ => arbitrary(),
    }
}

/// The first failing call of `sites` from `i` on.
pub open spec fn first_error_from(sites: Seq<Syntax>, i: int) -> Option<Diagnostic>
    decreases sites.len() - i,
{
    if i < 0 || i >= sites.len() {
        None
    } else {
        match site_error(sites[i]) {
            Some(e) => Some(e),
            None => first_error_from(sites, i + 1),
        }
    }
}

pub open spec fn first_error(sites: Seq<Syntax>) -> Option<Diagnostic> {
    first_error_from(sites, 0)
}

/// The declared parameters that the ascribed types of `sites` refer to, in order.
pub open spec fn sites_refs(d: Seq<GenericParam>, sites: Seq<Syntax>) -> Seq<GenericParam>
    decreases sites.len(),
{
    if sites.len() == 0 {
        Seq::empty()
    } else {
        sites_refs(d, sites.drop_last()) + refs_list(d, record_of(sites.last()).tys)
    }
}

/// Every argument of a call that stops no walk is an ascription, and the
/// recorded types are theirs, in order.
pub proof fn lemma_cast_types(l: List<Syntax>)
    requires
        args_error(l) is None,
    ensures
        cast_types(l).elems().len() == l.elems().len(),
        forall|j: int|
            0 <= j < l.elems().len() ==> (#[trigger] l.elems()[j]) is Cast && cast_types(l).elems()[j]
                == *l.elems()[j]->ty,
    decreases l,
{
    match l {
        List::Nil => {},
        List::Cons(h, t) => {
            lemma_cast_types(*t);
            assert forall|j: int| 0 <= j < l.elems().len() implies (#[trigger] l.elems()[j]) is Cast
                && cast_types(l).elems()[j] == *l.elems()[j]->ty by {
                if j > 0 {
                    assert(l.elems()[j] == t.elems()[j - 1]);
                    assert(cast_types(l).elems()[j] == cast_types(*t).elems()[j - 1]);
                }
            }
        },
    }
}

/// Argument `j` is not an ascription, and every argument before it is an
/// ascription whose type has no reference without a lifetime.
pub open spec fn first_uncast_at(l: List<Syntax>, j: int) -> bool {
    &&& 0 <= j < l.elems().len()
    &&& !(l.elems()[j] is Cast)
    &&& forall|k: int|
        0 <= k < j ==> (#[trigger] l.elems()[k]) is Cast && first_unscoped(*l.elems()[k]->ty) is None
}

/// Among the arguments after the template, the first one that is not an
/// ascription is the one reported, when every ascription before it is well
/// formed.
pub proof fn lemma_first_uncast_reported(l: List<Syntax>, j: int)
    requires
        first_uncast_at(l, j),
    ensures
        args_error(l) == Some(Diagnostic::ExpectCast(l.elems()[j])),
    decreases l,
{
    if let List::Cons(h, t) = l {
        assert(l.elems()[0] == *h);
        if j > 0 {
            assert forall|k: int| 0 <= k < j - 1 implies (#[trigger] t.elems()[k]) is Cast
                && first_unscoped(*t.elems()[k]->ty) is None by {
                assert(t.elems()[k] == l.elems()[k + 1]);
            }
            assert(t.elems()[j - 1] == l.elems()[j]);
            lemma_first_uncast_reported(*t, j - 1);
        }
    }
}

/// Where no call fails, each call from `i` on passes.
pub proof fn lemma_no_error_from(sites: Seq<Syntax>, i: int)
    requires
        0 <= i,
        first_error_from(sites, i) is None,
    ensures
        forall|j: int| i <= j < sites.len() ==> site_error(#[trigger] sites[j]) is None,
    decreases sites.len() - i,
{
    if i < sites.len() {
        lemma_no_error_from(sites, i + 1);
    }
}

/// Rewriting with two names of the same text gives trees of the same text.
pub proof fn lemma_rewrite_same_text(n: Syntax, e1: String, e2: String)
    requires
        e1@ == e2@,
    ensures
        same_text(rewrite(n, e1), rewrite(n, e2)),
    decreases n,
{
    match n {
        Syntax::Call { attrs, func, args } => {
            lemma_same_attrs_refl(attrs);
            lemma_same_attrs_refl(strip(attrs));
            if marked(attrs) {
                match args {
                    List::Cons(_, rest) => {
                        lemma_rewrite_values_same_text(*rest, e1, e2);
                        assert(same_text_list(rewrite_values(*rest, e1), rewrite_values(*rest, e2)));
                    },
                    List::Nil => {
                        assert(same_text_list(List::<Syntax>::Nil, List::<Syntax>::Nil));
                    },
                }
                match *func {
                    Syntax::Path { segments } => {
                        let l1 = List::Cons(Box::new(e1), Box::new(segments));
                        let l2 = List::Cons(Box::new(e2), Box::new(segments));
                        assert(names(l1) == seq![e1@] + names(segments));
                        assert(names(l2) == seq![e2@] + names(segments));
                    },
                    _ => lemma_same_text_refl(*func),
                }
                assert(same_text(qualify(*func, e1), qualify(*func, e2)));
            } else {
                lemma_rewrite_same_text(*func, e1, e2);
                lemma_rewrite_list_same_text(args, e1, e2);
            }
        },
        Syntax::MethodCall { attrs, receiver, args, .. } => {
            if marked(attrs) {
                lemma_same_text_refl(n);
            } else {
                lemma_same_attrs_refl(attrs);
                lemma_rewrite_same_text(*receiver, e1, e2);
                lemma_rewrite_list_same_text(args, e1, e2);
            }
        },
        Syntax::Cast { expr, ty } => {
            lemma_rewrite_same_text(*expr, e1, e2);
            lemma_rewrite_same_text(*ty, e1, e2);
        },
        Syntax::Reference { elem, .. } => lemma_rewrite_same_text(*elem, e1, e2),
        Syntax::TypePath { args, .. } => lemma_rewrite_list_same_text(args, e1, e2),
        Syntax::Other { children, .. } => lemma_rewrite_list_same_text(children, e1, e2),
        _ => lemma_same_text_refl(n),
    }
}

pub proof fn lemma_rewrite_values_same_text(l: List<Syntax>, e1: String, e2: String)
    requires
        e1@ == e2@,
    ensures
        same_text_list(rewrite_values(l, e1), rewrite_values(l, e2)),
    decreases l,
{
    if let List::Cons(h, t) = l {
        match *h {
            Syntax::Cast { expr, .. } => lemma_rewrite_same_text(*expr, e1, e2),
            _ => lemma_rewrite_same_text(*h, e1, e2),
        }
        lemma_rewrite_values_same_text(*t, e1, e2);
    }
}

pub proof fn lemma_rewrite_list_same_text(l: List<Syntax>, e1: String, e2: String)
    requires
        e1@ == e2@,
    ensures
        same_text_list(rewrite_list(l, e1), rewrite_list(l, e2)),
    decreases l,
{
    if let List::Cons(h, t) = l {
        lemma_rewrite_same_text(*h, e1, e2);
        lemma_rewrite_list_same_text(*t, e1, e2);
    }
}

pub open spec fn all_calls(s: Seq<Syntax>) -> bool {
    forall|i: int| 0 <= i < s.len() ==> is_site(#[trigger] s[i])
}

pub open spec fn is_site(n: Syntax) -> bool {
    n is Call || n is MethodCall
}

pub proof fn lemma_marked_calls_are_calls(n: Syntax)
    ensures
        all_calls(marked_calls(n)),
    decreases n,
{
    match n {
        Syntax::Call { attrs, func, args } => {
            if !marked(attrs) {
                lemma_marked_calls_are_calls(*func);
                lemma_marked_calls_list_are_calls(args);
                lemma_all_calls_concat(marked_calls(*func), marked_calls_list(args));
            } else if let List::Cons(_, rest) = args {
                lemma_marked_calls_values_are_calls(*rest);
                lemma_all_calls_concat(seq![n], marked_calls_values(*rest));
            }
        },
        Syntax::MethodCall { attrs, receiver, args, .. } => {
            if !marked(attrs) {
                lemma_marked_calls_are_calls(*receiver);
                lemma_marked_calls_list_are_calls(args);
                lemma_all_calls_concat(marked_calls(*receiver), marked_calls_list(args));
            }
        },
        Syntax::Cast { expr, ty } => {
            lemma_marked_calls_are_calls(*expr);
            lemma_marked_calls_are_calls(*ty);
            lemma_all_calls_concat(marked_calls(*expr), marked_calls(*ty));
        },
        Syntax::Reference { elem, .. } => lemma_marked_calls_are_calls(*elem),
        Syntax::TypePath { args, .. } => lemma_marked_calls_list_are_calls(args),
        Syntax::Other { children, .. } => lemma_marked_calls_list_are_calls(children),
        _ => {},
    }
}

pub proof fn lemma_marked_calls_list_are_calls(l: List<Syntax>)
    ensures
        all_calls(marked_calls_list(l)),
    decreases l,
{
    match l {
        List::Nil => {},
        List::Cons(h, t) => {
            lemma_marked_calls_are_calls(*h);
            lemma_marked_calls_list_are_calls(*t);
            lemma_all_calls_concat(marked_calls(*h), marked_calls_list(*t));
        },
    }
}

pub proof fn lemma_marked_calls_values_are_calls(l: List<Syntax>)
    ensures
        all_calls(marked_calls_values(l)),
    decreases l,
{
    match l {
        List::Nil => {},
        List::Cons(h, t) => {
            let first = match *h {
                Syntax::Cast { expr, .. } => marked_calls(*expr),
                _ => marked_calls(*h),
            };
            match *h {
                Syntax::Cast { expr, .. } => lemma_marked_calls_are_calls(*expr),
                _ => lemma_marked_calls_are_calls(*h),
            }
            lemma_marked_calls_values_are_calls(*t);
            lemma_all_calls_concat(first, marked_calls_values(*t));
        },
    }
}

proof fn lemma_all_calls_concat(a: Seq<Syntax>, b: Seq<Syntax>)
    requires
        all_calls(a),
        all_calls(b),
    ensures
        all_calls(a + b),
{
    assert forall|i: int| 0 <= i < (a + b).len() implies is_site(#[trigger] (a + b)[i]) by {
        if i >= a.len() {
            assert((a + b)[i] == b[i - a.len()]);
        }
    }
}

fn is_marker_attr(a: &Attr) -> (r: bool)
    ensures
        r == is_marker(*a),
{
    match &a.name {
        Some(n) => {
            let m = "fnerr".to_owned();
            proof {
                reveal_strlit("fnerr");
            }
            *n == m
        },
        None => false,
    }
}

fn has_marker(attrs: &List<Attr>) -> (r: bool)
    ensures
        r == marked(*attrs),
    decreases attrs,
{
    match attrs {
        List::Nil => false,
        List::Cons(h, t) => is_marker_attr(h) || has_marker(t),
    }
}

fn strip_markers(attrs: &List<Attr>) -> (r: List<Attr>)
    ensures
        r == strip(*attrs),
    decreases attrs,
{
    match attrs {
        List::Nil => List::Nil,
        List::Cons(h, t) => if is_marker_attr(h) {
            strip_markers(t)
        } else {
            List::Cons(Box::new(h.copy()), Box::new(strip_markers(t)))
        },
    }
}

fn tail_of(l: &List<Syntax>) -> (r: &List<Syntax>)
    ensures
        *r == tail(*l),
{
    match l {
        List::Nil => l,
        List::Cons(_, t) => t,
    }
}

/// Walks a function body for marked calls and rewrites them.
pub struct FnErrExprVistor<'v> {
    pub err_ty_ident: String,
    pub declared_generics: &'v Vec<GenericParam>,
}

impl<'v> FnErrExprVistor<'v> {
    pub fn new(err_ty_ident: String, declared_generics: &'v Vec<GenericParam>) -> (r: Self)
        ensures
            r.err_ty_ident == err_ty_ident,
            r.declared_generics == declared_generics,
    {
        FnErrExprVistor { err_ty_ident, declared_generics }
    }

    fn qualify_callee(&self, func: &Syntax) -> (r: Syntax)
        ensures
            r == qualify(*func, self.err_ty_ident),
    {
        match func {
            Syntax::Path { segments } => Syntax::Path {
                segments: List::Cons(
                    Box::new(self.err_ty_ident.clone()),
                    Box::new(copy_names(segments)),
                ),
            },
            _ => func.copy(),
        }
    }

    /// Returns the tree with each marked call rewritten, and appends the
    /// marked calls, as they were, to `sites` in pre-order.
    pub fn visit_expr(&self, n: &Syntax, sites: &mut Vec<Syntax>) -> (r: Syntax)
        ensures
            r == rewrite(*n, self.err_ty_ident),
            final(sites)@ == old(sites)@ + marked_calls(*n),
        decreases n,
    {
        let ghost s0 = sites@;
        match n {
            Syntax::Call { attrs, func, args } => {
                if has_marker(attrs) {
                    sites.push(n.copy());
                    let a = match args {
                        List::Nil => List::Nil,
                        List::Cons(_, rest) => self.visit_values(rest, sites),
                    };
                    assert(sites@ =~= s0 + marked_calls(*n));
                    Syntax::Call {
                        attrs: strip_markers(attrs),
                        func: Box::new(self.qualify_callee(func)),
                        args: a,
                    }
                } else {
                    let f = self.visit_expr(func, sites);
                    let a = self.visit_list(args, sites);
                    assert(sites@ =~= s0 + marked_calls(*n));
                    Syntax::Call { attrs: copy_attrs(attrs), func: Box::new(f), args: a }
                }
            },
            Syntax::MethodCall { attrs, receiver, method, args } => {
                if has_marker(attrs) {
                    sites.push(n.copy());
                    n.copy()
                } else {
                    let v = self.visit_expr(receiver, sites);
                    let a = self.visit_list(args, sites);
                    assert(sites@ =~= s0 + marked_calls(*n));
                    Syntax::MethodCall {
                        attrs: copy_attrs(attrs),
                        receiver: Box::new(v),
                        method: method.clone(),
                        args: a,
                    }
                }
            },
            Syntax::Cast { expr, ty } => {
                let e = self.visit_expr(expr, sites);
                let t = self.visit_expr(ty, sites);
                assert(sites@ =~= s0 + marked_calls(*n));
                Syntax::Cast { expr: Box::new(e), ty: Box::new(t) }
            },
            Syntax::Reference { lifetime, mutable, elem } => {
                let e = self.visit_expr(elem, sites);
                Syntax::Reference {
                    lifetime: crate::syntax::copy_opt_string(lifetime),
                    mutable: *mutable,
                    elem: Box::new(e),
                }
            },
            Syntax::TypePath { leading_colon, segments, args } => {
                let a = self.visit_list(args, sites);
                Syntax::TypePath {
                    leading_colon: *leading_colon,
                    segments: copy_names(segments),
                    args: a,
                }
            },
            Syntax::Other { tokens, children } => {
                let c = self.visit_list(children, sites);
                Syntax::Other { tokens: tokens.clone(), children: c }
            },
            _ => {
                assert(sites@ =~= s0 + marked_calls(*n));
                n.copy()
            },
        }
    }

    /// `visit_expr` on the value of each ascription (on the whole argument
    /// where it is not one).
    pub fn visit_values(&self, l: &List<Syntax>, sites: &mut Vec<Syntax>) -> (r: List<Syntax>)
        ensures
            r == rewrite_values(*l, self.err_ty_ident),
            final(sites)@ == old(sites)@ + marked_calls_values(*l),
        decreases l,
    {
        match l {
            List::Nil => {
                assert(sites@ =~= sites@ + marked_calls_values(*l));
                List::Nil
            },
            List::Cons(h, t) => {
                let ghost s0 = sites@;
                let a = match &**h {
                    Syntax::Cast { expr, .. } => self.visit_expr(expr, sites),
                    _ => self.visit_expr(h, sites),
                };
                let b = self.visit_values(t, sites);
                assert(sites@ =~= s0 + marked_calls_values(*l));
                List::Cons(Box::new(a), Box::new(b))
            },
        }
    }

    pub fn visit_list(&self, l: &List<Syntax>, sites: &mut Vec<Syntax>) -> (r: List<Syntax>)
        ensures
            r == rewrite_list(*l, self.err_ty_ident),
            final(sites)@ == old(sites)@ + marked_calls_list(*l),
        decreases l,
    {
        match l {
            List::Nil => {
                assert(sites@ =~= sites@ + marked_calls_list(*l));
                List::Nil
            },
            List::Cons(h, t) => {
                let ghost s0 = sites@;
                let a = self.visit_expr(h, sites);
                let b = self.visit_list(t, sites);
                assert(sites@ =~= s0 + marked_calls_list(*l));
                List::Cons(Box::new(a), Box::new(b))
            },
        }
    }

    /// The ascribed types of the arguments after the template, recorded in
    /// `found` as the generics visitor sees them.
    pub fn visit_args(&self, l: &List<Syntax>, found: &mut VecDeque<GenericParam>) -> (r: Result<
        List<Syntax>,
        Diagnostic,
    >)
        ensures
            r == match args_error(*l) {
                Some(e) => Err(e),
                None => Ok(cast_types(*l)),
            },
            r is Ok ==> final(found)@ == add_all(
                old(found)@,
                refs_list(self.declared_generics@, cast_types(*l)),
            ),
        decreases l,
    {
        match l {
            List::Nil => Ok(List::Nil),
            List::Cons(h, t) => match &**h {
                Syntax::Cast { ty, .. } => {
                    let ghost f0 = found@;
                    let gv = GenericsVisitor::new(self.declared_generics);
                    gv.visit_type(ty, found)?;
                    let rest = self.visit_args(t, found)?;
                    proof {
                        crate::visitors::generics::lemma_add_all_concat(
                            f0,
                            crate::visitors::generics::refs(self.declared_generics@, **ty),
                            refs_list(self.declared_generics@, cast_types(**t)),
                        );
                    }
                    Ok(List::Cons(Box::new(ty.copy()), Box::new(rest)))
                },
                _ => Err(Diagnostic::ExpectCast(h.copy())),
            },
        }
    }

    /// The variant that a marked call stands for.
    pub fn visit_site(&self, call: &Syntax, found: &mut VecDeque<GenericParam>) -> (r: Result<
        FnErrErrorMeta,
        Diagnostic,
    >)
        requires
            is_site(*call),
        ensures
            r == match site_error(*call) {
                Some(e) => Err(e),
                None => Ok(record_of(*call)),
            },
            r is Ok ==> final(found)@ == add_all(
                old(found)@,
                refs_list(self.declared_generics@, record_of(*call).tys),
            ),
    {
        match call {
            Syntax::Call { func, args, .. } => {
                let ident = match &**func {
                    Syntax::Path { segments } => match segments {
                        List::Cons(h, t) => match &**t {
                            List::Nil => crate::syntax::copy_string(h),
                            _ => {
                                return Err(Diagnostic::ExpectIdentCallee(func.copy()));
                            },
                        },
                        List::Nil => {
                            return Err(Diagnostic::ExpectIdentCallee(func.copy()));
                        },
                    },
                    _ => {
                        return Err(Diagnostic::ExpectIdentCallee(func.copy()));
                    },
                };
                match args {
                    List::Nil => Err(Diagnostic::ExpectTemplate(call.copy())),
                    List::Cons(fmt, rest) => {
                        let tys = self.visit_args(rest, found)?;
                        Ok(FnErrErrorMeta { ident, fmt: fmt.copy(), tys })
                    },
                }
            },
            _ => Err(Diagnostic::ExpectIdentCallee(call.copy())),
        }
    }

    /// The variants for the marked calls `sites`, in order, with the
    /// parameters their types use recorded in `found`; the first call that
    /// cannot become a variant stops the walk.
    pub fn visit_sites(&self, sites: &Vec<Syntax>, found: &mut VecDeque<GenericParam>) -> (r: Result<
        Vec<FnErrErrorMeta>,
        Diagnostic,
    >)
        requires
            all_calls(sites@),
        ensures
            r is Err <==> first_error(sites@) is Some,
            r matches Err(e) ==> first_error(sites@) == Some(e),
            r matches Ok(v) ==> v@ == sites@.map_values(|c: Syntax| record_of(c)),
            r is Ok ==> final(found)@ == add_all(
                old(found)@,
                sites_refs(self.declared_generics@, sites@),
            ),
    {
        let ghost f0 = found@;
        let ghost d = self.declared_generics@;
        let mut out: Vec<FnErrErrorMeta> = Vec::new();
        let mut i: usize = 0;
        while i < sites.len()
            invariant
                i <= sites@.len(),
                all_calls(sites@),
                d == self.declared_generics@,
                first_error(sites@) == first_error_from(sites@, i as int),
                out@ == sites@.take(i as int).map_values(|c: Syntax| record_of(c)),
                found@ == add_all(f0, sites_refs(d, sites@.take(i as int))),
            decreases sites@.len() - i,
        {
            let ghost fi = found@;
            let rec = self.visit_site(&sites[i], found)?;
            proof {
                let t = sites@.take(i as int + 1);
                assert(t.drop_last() =~= sites@.take(i as int));
                assert(t.last() == sites@[i as int]);
                crate::visitors::generics::lemma_add_all_concat(
                    f0,
                    sites_refs(d, sites@.take(i as int)),
                    refs_list(d, record_of(sites@[i as int]).tys),
                );
            }
            out.push(rec);
            i = i + 1;
            assert(out@ =~= sites@.take(i as int).map_values(|c: Syntax| record_of(c)));
        }
        assert(sites@.take(i as int) =~= sites@);
        Ok(out)
    }
}

} // verus!
