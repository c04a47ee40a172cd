//! Finds which of a function's declared generic parameters a type refers to.
use std::collections::VecDeque;
use vstd::prelude::*;

use crate::syntax::{Diagnostic, GenericParam, List, ParamKind, Syntax};

verus! {

pub open spec fn same_param(p: GenericParam, kind: ParamKind, name: Seq<char>) -> bool {
    p.kind == kind && p.name@ == name
}

/// The first parameter at or after `i` with this kind and name.
pub open spec fn lookup_from(d: Seq<GenericParam>, kind: ParamKind, name: Seq<char>, i: int) -> Option<
    GenericParam,
>
    decreases d.len() - i,
{
    if i < 0 || i >= d.len() {
        None
    } else if same_param(d[i], kind, name) {
        Some(d[i])
    } else {
        lookup_from(d, kind, name, i + 1)
    }
}

/// The declared parameter of this kind and name, if any.
pub open spec fn lookup(d: Seq<GenericParam>, kind: ParamKind, name: Seq<char>) -> Option<GenericParam> {
    lookup_from(d, kind, name, 0)
}

pub open spec fn opt_seq(o: Option<GenericParam>) -> Seq<GenericParam> {
    match o {
        Some(p) => seq![p],
        None => Seq::empty(),
    }
}

/// The last segment of a path.
pub open spec fn last_name(l: List<String>) -> Option<Seq<char>>
    decreases l,
{
    match l {
        List::Nil => None,
        List::Cons(h, t) => match *t {
            List::Nil => Some(h@),
            _ => last_name(*t),
        },
    }
}

/// The only segment of a path, if it has exactly one.
pub open spec fn single_name(l: List<String>) -> Option<Seq<char>> {
    match l {
        List::Cons(h, t) => match *t {
            List::Nil => Some(h@),
            _ => None,
        },
        List::Nil => None,
    }
}

pub open spec fn lookup_name(d: Seq<GenericParam>, kind: ParamKind, name: Option<Seq<char>>) -> Seq<
    GenericParam,
> {
    match name {
        Some(n) => opt_seq(lookup(d, kind, n)),
        None => Seq::empty(),
    }
}

pub open spec fn lifetime_ref(d: Seq<GenericParam>, l: Option<String>) -> Seq<GenericParam> {
    match l {
        Some(l) => opt_seq(lookup(d, ParamKind::Lifetime, l@)),
        None => Seq::empty(),
    }
}

/// The parameters that a type path's own segments name: a path of one
/// segment names a type parameter, or, without generic arguments, a const
/// parameter (in `Foo<N>` the `N` reads as a type); a longer path names a
/// type parameter by its first segment (`T::Assoc`, unless it starts with
/// `::`) and by its last.
pub open spec fn path_refs(
    d: Seq<GenericParam>,
    leading_colon: bool,
    segments: List<String>,
    args: List<Syntax>,
) -> Seq<GenericParam> {
    match segments {
        List::Nil => Seq::empty(),
        List::Cons(h, t) => match *t {
            List::Nil => opt_seq(lookup(d, ParamKind::Type, h@)) + (if args is Nil {
                opt_seq(lookup(d, ParamKind::Const, h@))
            } else {
                Seq::empty()
            }),
            _ => (if leading_colon {
                Seq::<GenericParam>::empty()
            } else {
                opt_seq(lookup(d, ParamKind::Type, h@))
            }) + lookup_name(d, ParamKind::Type, last_name(*t)),
        },
    }
}

/// The declared parameters that a node refers to, in pre-order, repeats
/// included: a reference's lifetime, what a type path's segments name, a
/// lone identifier in expression position (a const parameter), and a
/// lifetime argument.
pub open spec fn refs(d: Seq<GenericParam>, n: Syntax) -> Seq<GenericParam>
    decreases n,
{
    match n {
        Syntax::Call { func, args, .. } => refs(d, *func) + refs_list(d, args),
        Syntax::MethodCall { receiver, args, .. } => refs(d, *receiver) + refs_list(d, args),
        Syntax::Cast { expr, ty } => refs(d, *expr) + refs(d, *ty),
        Syntax::Path { segments } => lookup_name(d, ParamKind::Const, single_name(segments)),
        Syntax::Reference { lifetime, elem, .. } => lifetime_ref(d, lifetime) + refs(d, *elem),
        Syntax::TypePath { leading_colon, segments, args } => path_refs(d, leading_colon, segments, args)
            + refs_list(d, args),
        Syntax::Lifetime(l) => opt_seq(lookup(d, ParamKind::Lifetime, l@)),
        Syntax::Item(_) => Seq::empty(),
        Syntax::Other { children, .. } => refs_list(d, children),
    }
}

pub open spec fn refs_list(d: Seq<GenericParam>, l: List<Syntax>) -> Seq<GenericParam>
    decreases l,
{
    match l {
        List::Nil => Seq::empty(),
        List::Cons(h, t) => refs(d, *h) + refs_list(d, *t),
    }
}

/// The first reference type without a lifetime, in pre-order.
pub open spec fn first_unscoped(n: Syntax) -> Option<Syntax>
    decreases n,
{
    match n {
        Syntax::Call { func, args, .. } => match first_unscoped(*func) {
            Some(x) => Some(x),
            None => first_unscoped_list(args),
        },
        Syntax::MethodCall { receiver, args, .. } => match first_unscoped(*receiver) {
            Some(x) => Some(x),
            None => first_unscoped_list(args),
        },
        Syntax::Cast { expr, ty } => match first_unscoped(*expr) {
            Some(x) => Some(x),
            None => first_unscoped(*ty),
        },
        Syntax::Reference { lifetime, elem, .. } => match lifetime {
            None => Some(n),
            Some(_) => first_unscoped(*elem),
        },
        Syntax::TypePath { args, .. } => first_unscoped_list(args),
        Syntax::Other { children, .. } => first_unscoped_list(children),
        _ => None,
    }
}

pub open spec fn first_unscoped_list(l: List<Syntax>) -> Option<Syntax>
    decreases l,
{
    match l {
        List::Nil => None,
        List::Cons(h, t) => match first_unscoped(*h) {
            Some(x) => Some(x),
            None => first_unscoped_list(*t),
        },
    }
}

pub open spec fn contains_param(found: Seq<GenericParam>, kind: ParamKind, name: Seq<char>) -> bool {
    exists|i: int| 0 <= i < found.len() && same_param(#[trigger] found[i], kind, name)
}

/// Records one parameter: lifetimes go to the front, the others to the back,
/// and a parameter already present is not added again.
pub open spec fn add_one(found: Seq<GenericParam>, p: GenericParam) -> Seq<GenericParam> {
    if contains_param(found, p.kind, p.name@) {
        found
    } else if p.kind == ParamKind::Lifetime {
        seq![p] + found
    } else {
        found.push(p)
    }
}

/// Records each parameter of `rs` in turn.
pub open spec fn add_all(found: Seq<GenericParam>, rs: Seq<GenericParam>) -> Seq<GenericParam>
    decreases rs.len(),
{
    if rs.len() == 0 {
        found
    } else {
        add_one(add_all(found, rs.drop_last()), rs.last())
    }
}

pub proof fn lemma_add_all_concat(f: Seq<GenericParam>, a: Seq<GenericParam>, b: Seq<GenericParam>)
    ensures
        add_all(f, a + b) == add_all(add_all(f, a), b),
    decreases b.len(),
{
    if b.len() == 0 {
        assert(a + b =~= a);
    } else {
        assert((a + b).drop_last() =~= a + b.drop_last());
        assert((a + b).last() == b.last());
        lemma_add_all_concat(f, a, b.drop_last());
    }
}

/// No parameter occurs twice.
pub open spec fn no_dup(s: Seq<GenericParam>) -> bool {
    forall|i: int, j: int|
        0 <= i < j < s.len() ==> !same_param(#[trigger] s[i], (#[trigger] s[j]).kind, s[j].name@)
}

/// Every lifetime stands before every type or const parameter.
pub open spec fn lifetimes_first(s: Seq<GenericParam>) -> bool {
    forall|i: int, j: int|
        0 <= i < j < s.len() && (#[trigger] s[j]).kind == ParamKind::Lifetime ==> (#[trigger] s[i]).kind
            == ParamKind::Lifetime
}

pub open spec fn is_not_lifetime(p: GenericParam) -> bool {
    p.kind != ParamKind::Lifetime
}

/// The type and const parameters of `s`, in order.
pub open spec fn non_lifetimes(s: Seq<GenericParam>) -> Seq<GenericParam> {
    s.filter(not_lifetime_pred())
}

pub open spec fn not_lifetime_pred() -> spec_fn(GenericParam) -> bool {
    |p: GenericParam| is_not_lifetime(p)
}

proof fn lemma_add_one(f: Seq<GenericParam>, p: GenericParam)
    requires
        no_dup(f),
        lifetimes_first(f),
    ensures
        no_dup(add_one(f, p)),
        lifetimes_first(add_one(f, p)),
        add_one(f, p).contains(p) || contains_param(f, p.kind, p.name@),
        forall|q: GenericParam| f.contains(q) ==> add_one(f, p).contains(q),
        forall|q: GenericParam| add_one(f, p).contains(q) ==> f.contains(q) || q == p,
{
    let g = add_one(f, p);
    if contains_param(f, p.kind, p.name@) {
    } else if p.kind == ParamKind::Lifetime {
        assert forall|i: int, j: int| 0 <= i < j < g.len() implies !same_param(
            #[trigger] g[i],
            (#[trigger] g[j]).kind,
            g[j].name@,
        ) by {
            if i == 0 {
                assert(g[j] == f[j - 1]);
                if same_param(g[i], g[j].kind, g[j].name@) {
                    assert(same_param(f[j - 1], p.kind, p.name@));
                }
            } else {
                assert(g[i] == f[i - 1] && g[j] == f[j - 1]);
            }
        }
        assert forall|i: int, j: int|
            0 <= i < j < g.len() && (#[trigger] g[j]).kind == ParamKind::Lifetime implies (
            #[trigger] g[i]).kind == ParamKind::Lifetime by {
            if i > 0 {
                assert(g[i] == f[i - 1] && g[j] == f[j - 1]);
            }
        }
        assert(g[0] == p);
        assert forall|q: GenericParam| f.contains(q) implies g.contains(q) by {
            let k = choose|k: int| 0 <= k < f.len() && f[k] == q;
            assert(g[k + 1] == q);
        }
        assert forall|q: GenericParam| g.contains(q) implies f.contains(q) || q == p by {
            let k = choose|k: int| 0 <= k < g.len() && g[k] == q;
            if k > 0 {
                assert(f[k - 1] == q);
            }
        }
    } else {
        assert forall|i: int, j: int| 0 <= i < j < g.len() implies !same_param(
            #[trigger] g[i],
            (#[trigger] g[j]).kind,
            g[j].name@,
        ) by {
            if j == f.len() {
                if same_param(g[i], g[j].kind, g[j].name@) {
                    assert(same_param(f[i], p.kind, p.name@));
                }
            } else {
                assert(g[i] == f[i] && g[j] == f[j]);
            }
        }
        assert forall|i: int, j: int|
            0 <= i < j < g.len() && (#[trigger] g[j]).kind == ParamKind::Lifetime implies (
            #[trigger] g[i]).kind == ParamKind::Lifetime by {
            assert(g[i] == f[i] && g[j] == f[j]);
        }
        assert(g[f.len() as int] == p);
        assert forall|q: GenericParam| f.contains(q) implies g.contains(q) by {
            let k = choose|k: int| 0 <= k < f.len() && f[k] == q;
            assert(g[k] == q);
        }
        assert forall|q: GenericParam| g.contains(q) implies f.contains(q) || q == p by {
            let k = choose|k: int| 0 <= k < g.len() && g[k] == q;
            if k < f.len() {
                assert(f[k] == q);
            }
        }
    }
}

/// Recording parameters keeps the collection free of repeats with lifetimes
/// first; it holds every parameter recorded and nothing else.
pub proof fn lemma_add_all(f: Seq<GenericParam>, rs: Seq<GenericParam>)
    requires
        no_dup(f),
        lifetimes_first(f),
    ensures
        no_dup(add_all(f, rs)),
        lifetimes_first(add_all(f, rs)),
        forall|j: int|
            0 <= j < rs.len() ==> contains_param(add_all(f, rs), (#[trigger] rs[j]).kind, rs[j].name@),
        forall|q: GenericParam| f.contains(q) ==> add_all(f, rs).contains(q),
        forall|q: GenericParam| add_all(f, rs).contains(q) ==> f.contains(q) || rs.contains(q),
    decreases rs.len(),
{
    if rs.len() > 0 {
        let a = add_all(f, rs.drop_last());
        let p = rs.last();
        lemma_add_all(f, rs.drop_last());
        lemma_add_one(a, p);
        let g = add_one(a, p);
        assert forall|j: int| 0 <= j < rs.len() implies contains_param(
            g,
            (#[trigger] rs[j]).kind,
            rs[j].name@,
        ) by {
            if j < rs.len() - 1 {
                assert(rs.drop_last()[j] == rs[j]);
                let k = choose|k: int| 0 <= k < a.len() && same_param(#[trigger] a[k], rs[j].kind, rs[j].name@);
                assert(a.contains(a[k]));
                assert(g.contains(a[k]));
                let m = choose|m: int| 0 <= m < g.len() && g[m] == a[k];
                assert(same_param(g[m], rs[j].kind, rs[j].name@));
            } else if g.contains(p) {
                let m = choose|m: int| 0 <= m < g.len() && g[m] == p;
                assert(same_param(g[m], p.kind, p.name@));
            } else {
                let k = choose|k: int| 0 <= k < a.len() && same_param(#[trigger] a[k], p.kind, p.name@);
                assert(a.contains(a[k]));
                assert(g.contains(a[k]));
                let m = choose|m: int| 0 <= m < g.len() && g[m] == a[k];
                assert(same_param(g[m], p.kind, p.name@));
            }
        }
        assert forall|q: GenericParam| g.contains(q) implies f.contains(q) || rs.contains(q) by {
            if a.contains(q) && !f.contains(q) {
                let k = choose|k: int| 0 <= k < rs.drop_last().len() && rs.drop_last()[k] == q;
                assert(rs[k] == q);
            }
            if q == p {
                assert(rs[rs.len() - 1] == q);
            }
        }
    }
}

/// Among type and const parameters, recording goes by first occurrence:
/// their order in the collection is the one `add_all` gives on them alone,
/// which only ever appends.
pub proof fn lemma_add_all_non_lifetimes(f: Seq<GenericParam>, rs: Seq<GenericParam>)
    ensures
        non_lifetimes(add_all(f, rs)) == add_all(non_lifetimes(f), non_lifetimes(rs)),
    decreases rs.len(),
{
    let pred = not_lifetime_pred();
    reveal(Seq::filter);
    if rs.len() == 0 {
    } else {
        let a = add_all(f, rs.drop_last());
        let p = rs.last();
        lemma_add_all_non_lifetimes(f, rs.drop_last());
        let na = non_lifetimes(a);
        assert(non_lifetimes(rs) == if pred(p) {
            non_lifetimes(rs.drop_last()).push(p)
        } else {
            non_lifetimes(rs.drop_last())
        });
        if contains_param(a, p.kind, p.name@) {
            if pred(p) {
                let k = choose|k: int| 0 <= k < a.len() && same_param(#[trigger] a[k], p.kind, p.name@);
                broadcast use vstd::seq_lib::group_filter_ensures;
                assert(pred(a[k]));
                assert(na.contains(a[k]));
                let m = choose|m: int| 0 <= m < na.len() && na[m] == a[k];
                assert(same_param(na[m], p.kind, p.name@));
                let np = non_lifetimes(rs);
                assert(np.drop_last() =~= non_lifetimes(rs.drop_last()));
            }
        } else if p.kind == ParamKind::Lifetime {
            Seq::filter_distributes_over_add(seq![p], a, pred);
            assert(seq![p].filter(pred) =~= Seq::<GenericParam>::empty()) by {
                reveal_with_fuel(Seq::filter, 2);
            }
            assert(Seq::<GenericParam>::empty() + na =~= na);
        } else {
            assert(a.push(p).drop_last() =~= a);
            if contains_param(na, p.kind, p.name@) {
                let m = choose|m: int| 0 <= m < na.len() && same_param(#[trigger] na[m], p.kind, p.name@);
                assert(na.contains(na[m]));
                a.lemma_filter_contains_rev(pred, na[m]);
                assert(a.contains(na[m]));
                let k = choose|k: int| 0 <= k < a.len() && a[k] == na[m];
                assert(same_param(a[k], p.kind, p.name@));
            }
            let np = non_lifetimes(rs);
            assert(np.drop_last() =~= non_lifetimes(rs.drop_last()));
        }
    }
}

/// Index of the first parameter of this kind and name.
fn find_param(d: &Vec<GenericParam>, kind: ParamKind, name: &String) -> (r: Option<usize>)
    ensures
        match r {
            Some(i) => i < d@.len() && lookup(d@, kind, name@) == Some(d@[i as int]),
            None => lookup(d@, kind, name@) is None,
        },
{
    let mut i: usize = 0;
    while i < d.len()
        invariant
            i <= d@.len(),
            lookup(d@, kind, name@) == lookup_from(d@, kind, name@, i as int),
        decreases d@.len() - i,
    {
        if d[i].kind == kind && d[i].name == *name {
            return Some(i);
        }
        i = i + 1;
    }
    None
}

fn has_param(found: &VecDeque<GenericParam>, kind: ParamKind, name: &String) -> (r: bool)
    ensures
        r == contains_param(found@, kind, name@),
{
    let mut i: usize = 0;
    while i < found.len()
        invariant
            i <= found@.len(),
            forall|j: int| 0 <= j < i ==> !same_param(#[trigger] found@[j], kind, name@),
        decreases found@.len() - i,
    {
        if found[i].kind == kind && found[i].name == *name {
            return true;
        }
        i = i + 1;
    }
    false
}

fn add_param(found: &mut VecDeque<GenericParam>, p: &GenericParam)
    ensures
        final(found)@ == add_one(old(found)@, *p),
{
    if has_param(found, p.kind, &p.name) {
        return;
    }
    if p.kind == ParamKind::Lifetime {
        found.push_front(p.copy());
    } else {
        found.push_back(p.copy());
    }
}

/// Looks a name up among the declared parameters and records what it finds.
fn add_named(d: &Vec<GenericParam>, kind: ParamKind, name: &String, found: &mut VecDeque<GenericParam>)
    ensures
        final(found)@ == add_all(old(found)@, opt_seq(lookup(d@, kind, name@))),
{
    match find_param(d, kind, name) {
        Some(i) => {
            let ghost f0 = found@;
            add_param(found, &d[i]);
            let ghost s = seq![d@[i as int]];
            assert(s.drop_last() =~= Seq::<GenericParam>::empty());
            assert(add_all(f0, s.drop_last()) == f0);
            assert(s.last() == d@[i as int]);
        },
        None => {
            assert(add_all(found@, Seq::<GenericParam>::empty()) == found@);
        },
    }
}

fn add_path_refs(
    d: &Vec<GenericParam>,
    leading_colon: bool,
    segments: &List<String>,
    args: &List<Syntax>,
    found: &mut VecDeque<GenericParam>,
)
    ensures
        final(found)@ == add_all(old(found)@, path_refs(d@, leading_colon, *segments, *args)),
{
    let ghost f0 = found@;
    match segments {
        List::Nil => {
            assert(add_all(f0, Seq::<GenericParam>::empty()) == f0);
        },
        List::Cons(h, t) => match &**t {
            List::Nil => {
                add_named(d, ParamKind::Type, h, found);
                let ghost f1 = found@;
                let ghost second = if *args is Nil {
                    opt_seq(lookup(d@, ParamKind::Const, h@))
                } else {
                    Seq::empty()
                };
                match args {
                    List::Nil => add_named(d, ParamKind::Const, h, found),
                    _ => {
                        assert(add_all(f1, Seq::<GenericParam>::empty()) == f1);
                    },
                }
                proof {
                    lemma_add_all_concat(f0, opt_seq(lookup(d@, ParamKind::Type, h@)), second);
                }
            },
            _ => {
                let ghost first = if leading_colon {
                    Seq::<GenericParam>::empty()
                } else {
                    opt_seq(lookup(d@, ParamKind::Type, h@))
                };
                if !leading_colon {
                    add_named(d, ParamKind::Type, h, found);
                } else {
                    assert(add_all(f0, Seq::<GenericParam>::empty()) == f0);
                }
                let ghost f1 = found@;
                match last_segment(t) {
                    Some(n) => add_named(d, ParamKind::Type, n, found),
                    None => {
                        assert(add_all(f1, Seq::<GenericParam>::empty()) == f1);
                    },
                }
                proof {
                    lemma_add_all_concat(f0, first, lookup_name(d@, ParamKind::Type, last_name(**t)));
                }
            },
        },
    }
}

/// Walks types for references to a function's declared generic parameters.
pub struct GenericsVisitor<'a> {
    pub declared_generics: &'a Vec<GenericParam>,
}

impl<'a> GenericsVisitor<'a> {
    pub fn new(declared_generics: &'a Vec<GenericParam>) -> (r: Self)
        ensures
            r.declared_generics == declared_generics,
    {
        GenericsVisitor { declared_generics }
    }

    /// Records in `found` each declared parameter that `ty` refers to, in
    /// pre-order; fails on the first reference type without a lifetime.
    pub fn visit_type(&self, ty: &Syntax, found: &mut VecDeque<GenericParam>) -> (r: Result<(), Diagnostic>)
        ensures
            r == match first_unscoped(*ty) {
                Some(x) => Err(Diagnostic::ExpectLifetime(x)),
                None => Ok(()),
            },
            r is Ok ==> final(found)@ == add_all(old(found)@, refs(self.declared_generics@, *ty)),
            (*ty matches Syntax::Reference { lifetime: None, .. }) ==> final(found)@ == old(found)@,
        decreases ty,
    {
        let d = self.declared_generics;
        let ghost f0 = found@;
        match ty {
            Syntax::Call { func, args, .. } => {
                self.visit_type(func, found)?;
                self.visit_list(args, found)?;
                proof {
                    lemma_add_all_concat(f0, refs(d@, **func), refs_list(d@, *args));
                }
                Ok(())
            },
            Syntax::MethodCall { receiver, args, .. } => {
                self.visit_type(receiver, found)?;
                self.visit_list(args, found)?;
                proof {
                    lemma_add_all_concat(f0, refs(d@, **receiver), refs_list(d@, *args));
                }
                Ok(())
            },
            Syntax::Cast { expr, ty: t } => {
                self.visit_type(expr, found)?;
                self.visit_type(t, found)?;
                proof {
                    lemma_add_all_concat(f0, refs(d@, **expr), refs(d@, **t));
                }
                Ok(())
            },
            Syntax::Path { segments } => {
                match segments {
                    List::Cons(h, t) => match &**t {
                        List::Nil => add_named(d, ParamKind::Const, h, found),
                        _ => {},
                    },
                    List::Nil => {},
                }
                Ok(())
            },
            Syntax::Reference { lifetime, elem, .. } => {
                match lifetime {
                    None => Err(Diagnostic::ExpectLifetime(ty.copy())),
                    Some(l) => {
                        add_named(d, ParamKind::Lifetime, l, found);
                        self.visit_type(elem, found)?;
                        proof {
                            lemma_add_all_concat(
                                f0,
                                lifetime_ref(d@, *lifetime),
                                refs(d@, **elem),
                            );
                        }
                        Ok(())
                    },
                }
            },
            Syntax::TypePath { leading_colon, segments, args } => {
                add_path_refs(d, *leading_colon, segments, args, found);
                self.visit_list(args, found)?;
                proof {
                    lemma_add_all_concat(
                        f0,
                        path_refs(d@, *leading_colon, *segments, *args),
                        refs_list(d@, *args),
                    );
                }
                Ok(())
            },
            Syntax::Lifetime(l) => {
                add_named(d, ParamKind::Lifetime, l, found);
                Ok(())
            },
            Syntax::Item(_) => Ok(()),
            Syntax::Other { children, .. } => self.visit_list(children, found),
        }
    }

    /// `visit_type` on each node of a list, front first.
    pub fn visit_list(&self, l: &List<Syntax>, found: &mut VecDeque<GenericParam>) -> (r: Result<(), Diagnostic>)
        ensures
            r == match first_unscoped_list(*l) {
                Some(x) => Err(Diagnostic::ExpectLifetime(x)),
                None => Ok(()),
            },
            r is Ok ==> final(found)@ == add_all(old(found)@, refs_list(self.declared_generics@, *l)),
        decreases l,
    {
        match l {
            List::Nil => Ok(()),
            List::Cons(h, t) => {
                let ghost f0 = found@;
                self.visit_type(h, found)?;
                self.visit_list(t, found)?;
                proof {
                    lemma_add_all_concat(
                        f0,
                        refs(self.declared_generics@, **h),
                        refs_list(self.declared_generics@, **t),
                    );
                }
                Ok(())
            },
        }
    }
}

/// The last segment of a path.
pub fn last_segment(l: &List<String>) -> (r: Option<&String>)
    ensures
        match r {
            Some(s) => last_name(*l) == Some(s@),
            None => last_name(*l) is None,
        },
    decreases l,
{
    match l {
        List::Nil => None,
        List::Cons(h, t) => match &**t {
            List::Nil => Some(&**h),
            _ => last_segment(t),
        },
    }
}

} // verus!
