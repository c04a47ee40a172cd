//! Builders for identifiers and paths.
use vstd::prelude::*;

use crate::syntax::{names, List, Syntax};

verus! {

/// An identifier with the given text.
pub fn call_site_ident(ident: &str) -> (r: String)
    ensures
        r@ == ident@,
{
    ident.to_owned()
}

/// The expression path made of one identifier.
pub fn path_from_ident(ident: String) -> (r: Syntax)
    ensures
        r == (Syntax::Path { segments: List::Cons(Box::new(ident), Box::new(List::Nil)) }),
{
    Syntax::Path { segments: List::Cons(Box::new(ident), Box::new(List::Nil)) }
}

/// The expression path made of one identifier with the given text.
pub fn path_from_str(ident: &str) -> (r: Syntax)
    ensures
        r matches Syntax::Path { segments } && names(segments) == seq![ident@],
{
    let r = path_from_ident(call_site_ident(ident));
    proof {
        let l: List<String> = List::Nil;
        assert(names(l) =~= Seq::empty());
        assert(seq![ident@] + names(l) =~= seq![ident@]);
    }
    r
}

/// The type path `ident<args>`.
pub fn path_from_args(ident: String, args: List<Syntax>) -> (r: Syntax)
    ensures
        r == (Syntax::TypePath {
            leading_colon: false,
            segments: List::Cons(Box::new(ident), Box::new(List::Nil)),
            args,
        }),
{
    Syntax::TypePath {
        leading_colon: false,
        segments: List::Cons(Box::new(ident), Box::new(List::Nil)),
        args,
    }
}

} // verus!
