//! The syntax model the engine works on: the parts of a Rust function that the
//! transformation reads are explicit nodes, everything else is carried as
//! tokens with holes filled by child nodes, in order.
use vstd::prelude::*;

verus! {

/// An ordered sequence of nodes, built so that spec code can construct it.
#[derive(Debug, PartialEq, Eq)]
pub enum List<T> {
    Nil,
    Cons(Box<T>, Box<List<T>>),
}

impl<T> List<T> {
    /// The elements, front first.
    pub open spec fn elems(self) -> Seq<T>
        decreases self,
    {
        match self {
            List::Nil => Seq::empty(),
            List::Cons(h, t) => seq![*h] + t.elems(),
        }
    }

    pub open spec fn len(self) -> nat {
        self.elems().len()
    }
}

/// An outer attribute: the identifier of its path when the path is a single
/// identifier, and its tokens.
#[derive(Debug, PartialEq, Eq)]
pub struct Attr {
    pub name: Option<String>,
    pub tokens: String,
}

/// A node of the syntax tree.
#[derive(Debug, PartialEq, Eq)]
pub enum Syntax {
    /// A call `func(args..)` with the call's outer attributes.
    Call { attrs: List<Attr>, func: Box<Syntax>, args: List<Syntax> },
    /// A method call `receiver.method(args..)` with its outer attributes;
    /// `method` holds the method's name and any turbofish, as tokens.
    MethodCall { attrs: List<Attr>, receiver: Box<Syntax>, method: String, args: List<Syntax> },
    /// A type ascription `expr as ty`.
    Cast { expr: Box<Syntax>, ty: Box<Syntax> },
    /// An expression path made of plain identifiers, `a::b::c`.
    Path { segments: List<String> },
    /// A reference type `&'a T` / `&'a mut T`.
    Reference { lifetime: Option<String>, mutable: bool, elem: Box<Syntax> },
    /// A type path; the generic arguments belong to the last segment.
    TypePath { leading_colon: bool, segments: List<String>, args: List<Syntax> },
    /// A lifetime in generic-argument position, apostrophe included.
    Lifetime(String),
    /// A nested declaration, opaque to the transformation.
    Item(String),
    /// Any other node: its tokens, with one hole per child.
    Other { tokens: String, children: List<Syntax> },
}

/// The kind of a generic parameter.
#[derive(Clone, Copy, Debug, PartialEq, Eq, Structural)]
pub enum ParamKind {
    Lifetime,
    Type,
    Const,
}

/// A generic parameter: its kind, its name (a lifetime's apostrophe
/// included) and the tokens of its whole declaration, bounds included.
#[derive(Debug, PartialEq, Eq)]
pub struct GenericParam {
    pub kind: ParamKind,
    pub name: String,
    pub decl: String,
}

/// Why a function cannot be transformed.
#[derive(Debug, PartialEq, Eq)]
pub enum Diagnostic {
    /// The return type is not `Result<..>`.
    ExpectResult,
    /// `Result` takes one success type and at most one failure type.
    ExpectResultArgs,
    /// The failure slot of the return type is not a plain type name.
    ExpectErrorIdent(Syntax),
    /// A marked call's callee is not a single identifier (a marked method
    /// call among them).
    ExpectIdentCallee(Syntax),
    /// A marked call has no display template.
    ExpectTemplate(Syntax),
    /// An argument of a marked call after the template is not `value as Type`.
    ExpectCast(Syntax),
    /// A reference type among the ascribed types has no explicit lifetime.
    ExpectLifetime(Syntax),
}

pub open spec fn names(l: List<String>) -> Seq<Seq<char>>
    decreases l,
{
    match l {
        List::Nil => Seq::empty(),
        List::Cons(h, t) => seq![h@] + names(*t),
    }
}

pub open spec fn same_opt(a: Option<String>, b: Option<String>) -> bool {
    match a {
        None => b is None,
        Some(x) => b matches Some(y) && x@ == y@,
    }
}

pub open spec fn same_attrs(a: List<Attr>, b: List<Attr>) -> bool
    decreases a,
{
    match a {
        List::Nil => b is Nil,
        List::Cons(h, t) => b matches List::Cons(h2, t2) && same_opt(h.name, h2.name) && h.tokens@
            == h2.tokens@ && same_attrs(*t, *t2),
    }
}

/// `a` and `b` are the same tree with the same text in every identifier
/// and token string: they print the same.
pub open spec fn same_text(a: Syntax, b: Syntax) -> bool
    decreases a,
{
    match a {
        Syntax::Call { attrs, func, args } => b matches Syntax::Call { attrs: a2, func: f2, args: r2 }
            && same_attrs(attrs, a2) && same_text(*func, *f2) && same_text_list(args, r2),
        Syntax::MethodCall { attrs, receiver, method, args } => b matches Syntax::MethodCall {
            attrs: a2,
            receiver: v2,
            method: m2,
            args: r2,
        } && same_attrs(attrs, a2) && same_text(*receiver, *v2) && method@ == m2@ && same_text_list(
            args,
            r2,
        ),
        Syntax::Cast { expr, ty } => b matches Syntax::Cast { expr: e2, ty: t2 } && same_text(*expr, *e2)
            && same_text(*ty, *t2),
        Syntax::Path { segments } => b matches Syntax::Path { segments: s2 } && names(segments) == names(
            s2,
        ),
        Syntax::Reference { lifetime, mutable, elem } => b matches Syntax::Reference {
            lifetime: l2,
            mutable: m2,
            elem: e2,
        } && same_opt(lifetime, l2) && mutable == m2 && same_text(*elem, *e2),
        Syntax::TypePath { leading_colon, segments, args } => b matches Syntax::TypePath {
            leading_colon: c2,
            segments: s2,
            args: r2,
        } && leading_colon == c2 && names(segments) == names(s2) && same_text_list(args, r2),
        Syntax::Lifetime(l) => b matches Syntax::Lifetime(l2) && l@ == l2@,
        Syntax::Item(t) => b matches Syntax::Item(t2) && t@ == t2@,
        Syntax::Other { tokens, children } => b matches Syntax::Other { tokens: t2, children: c2 }
            && tokens@ == t2@ && same_text_list(children, c2),
    }
}

pub open spec fn same_text_list(a: List<Syntax>, b: List<Syntax>) -> bool
    decreases a,
{
    match a {
        List::Nil => b is Nil,
        List::Cons(h, t) => b matches List::Cons(h2, t2) && same_text(*h, *h2) && same_text_list(
            *t,
            *t2,
        ),
    }
}

pub proof fn lemma_same_attrs_refl(a: List<Attr>)
    ensures
        same_attrs(a, a),
    decreases a,
{
    if let List::Cons(_, t) = a {
        lemma_same_attrs_refl(*t);
    }
}

pub proof fn lemma_same_text_refl(a: Syntax)
    ensures
        same_text(a, a),
    decreases a,
{
    match a {
        Syntax::Call { attrs, func, args } => {
            lemma_same_attrs_refl(attrs);
            lemma_same_text_refl(*func);
            lemma_same_text_list_refl(args);
        },
        Syntax::MethodCall { attrs, receiver, args, .. } => {
            lemma_same_attrs_refl(attrs);
            lemma_same_text_refl(*receiver);
            lemma_same_text_list_refl(args);
        },
        Syntax::Cast { expr, ty } => {
            lemma_same_text_refl(*expr);
            lemma_same_text_refl(*ty);
        },
        Syntax::Reference { elem, .. } => lemma_same_text_refl(*elem),
        Syntax::TypePath { args, .. } => lemma_same_text_list_refl(args),
        Syntax::Other { children, .. } => lemma_same_text_list_refl(children),
        _ => {},
    }
}

pub proof fn lemma_same_text_list_refl(a: List<Syntax>)
    ensures
        same_text_list(a, a),
    decreases a,
{
    if let List::Cons(h, t) = a {
        lemma_same_text_refl(*h);
        lemma_same_text_list_refl(*t);
    }
}

pub fn copy_string(s: &String) -> (r: String)
    ensures
        r == *s,
{
    s.clone()
}

pub fn copy_names(l: &List<String>) -> (r: List<String>)
    ensures
        r == *l,
    decreases l,
{
    match l {
        List::Nil => List::Nil,
        List::Cons(h, t) => List::Cons(Box::new(copy_string(h)), Box::new(copy_names(t))),
    }
}

pub fn copy_opt_string(s: &Option<String>) -> (r: Option<String>)
    ensures
        r == *s,
{
    match s {
        None => None,
        Some(v) => Some(v.clone()),
    }
}

/// The message of each diagnostic.
pub open spec fn message_of(d: Diagnostic) -> Seq<char> {
    match d {
        Diagnostic::ExpectResult => "expect Result"@,
        Diagnostic::ExpectResultArgs => "expect Result<T> or Result<T, E>"@,
        Diagnostic::ExpectErrorIdent(_) => "expect the name of the failure type"@,
        Diagnostic::ExpectIdentCallee(_) => "expect a single identifier"@,
        Diagnostic::ExpectTemplate(_) => "expect a format string"@,
        Diagnostic::ExpectCast(_) => "expect a cast expression, like: `context as &'static str`"@,
        Diagnostic::ExpectLifetime(_) => "expect a lifetime"@,
    }
}

impl Diagnostic {
    /// A message for the author of the annotated function.
    pub fn message(&self) -> (r: String)
        ensures
            r@ == message_of(*self),
    {
        let m = match self {
            Diagnostic::ExpectResult => "expect Result",
            Diagnostic::ExpectResultArgs => "expect Result<T> or Result<T, E>",
            Diagnostic::ExpectErrorIdent(_) => "expect the name of the failure type",
            Diagnostic::ExpectIdentCallee(_) => "expect a single identifier",
            Diagnostic::ExpectTemplate(_) => "expect a format string",
            Diagnostic::ExpectCast(_) => "expect a cast expression, like: `context as &'static str`",
            Diagnostic::ExpectLifetime(_) => "expect a lifetime",
        };
        m.to_owned()
    }
}

impl Attr {
    pub fn copy(&self) -> (r: Attr)
        ensures
            r == *self,
    {
        Attr { name: copy_opt_string(&self.name), tokens: self.tokens.clone() }
    }
}

pub fn copy_attrs(l: &List<Attr>) -> (r: List<Attr>)
    ensures
        r == *l,
    decreases l,
{
    match l {
        List::Nil => List::Nil,
        List::Cons(h, t) => List::Cons(Box::new(h.copy()), Box::new(copy_attrs(t))),
    }
}

impl Syntax {
    /// A copy of the whole subtree.
    pub fn copy(&self) -> (r: Syntax)
        ensures
            r == *self,
        decreases self,
    {
        match self {
            Syntax::Call { attrs, func, args } => Syntax::Call {
                attrs: copy_attrs(attrs),
                func: Box::new(func.copy()),
                args: copy_nodes(args),
            },
            Syntax::MethodCall { attrs, receiver, method, args } => Syntax::MethodCall {
                attrs: copy_attrs(attrs),
                receiver: Box::new(receiver.copy()),
                method: method.clone(),
                args: copy_nodes(args),
            },
            Syntax::Cast { expr, ty } => Syntax::Cast {
                expr: Box::new(expr.copy()),
                ty: Box::new(ty.copy()),
            },
            Syntax::Path { segments } => Syntax::Path { segments: copy_names(segments) },
            Syntax::Reference { lifetime, mutable, elem } => Syntax::Reference {
                lifetime: copy_opt_string(lifetime),
                mutable: *mutable,
                elem: Box::new(elem.copy()),
            },
            Syntax::TypePath { leading_colon, segments, args } => Syntax::TypePath {
                leading_colon: *leading_colon,
                segments: copy_names(segments),
                args: copy_nodes(args),
            },
            Syntax::Lifetime(l) => Syntax::Lifetime(l.clone()),
            Syntax::Item(t) => Syntax::Item(t.clone()),
            Syntax::Other { tokens, children } => Syntax::Other {
                tokens: tokens.clone(),
                children: copy_nodes(children),
            },
        }
    }
}

pub fn copy_nodes(l: &List<Syntax>) -> (r: List<Syntax>)
    ensures
        r == *l,
    decreases l,
{
    match l {
        List::Nil => List::Nil,
        List::Cons(h, t) => List::Cons(Box::new(h.copy()), Box::new(copy_nodes(t))),
    }
}

impl GenericParam {
    pub fn copy(&self) -> (r: GenericParam)
        ensures
            r == *self,
    {
        GenericParam { kind: self.kind, name: self.name.clone(), decl: self.decl.clone() }
    }
}

} // verus!
