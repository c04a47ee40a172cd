//! The function's declared outcome type, and its rewrite to name the
//! synthesised failure type.
use std::collections::VecDeque;
use vstd::prelude::*;

use crate::syntax::{copy_nodes, names, Diagnostic, GenericParam, List, ParamKind, Syntax};
use crate::utils::{call_site_ident, path_from_args, path_from_ident};

verus! {

/// The declared return type `Result<ok_type>` or `Result<ok_type, Name<..>>`.
#[derive(Debug, PartialEq, Eq)]
pub struct ReturnType {
    pub ok_type: Syntax,
    /// The name in the failure slot, when there is one.
    pub err_type: Option<String>,
}

/// The failure type applied to its generic arguments.
#[derive(Debug, PartialEq, Eq)]
pub struct GenericErrType {
    pub ident: String,
    pub generics: List<Syntax>,
}

pub open spec fn outcome_name() -> Seq<char> {
    "Result"@
}

/// The name of a type path of one segment.
pub open spec fn single_type_name(t: Syntax) -> Option<String> {
    match t {
        Syntax::TypePath { leading_colon: false, segments, .. } => match segments {
            List::Cons(h, rest) => match *rest {
                List::Nil => Some(*h),
                _ => None,
            },
            List::Nil => None,
        },
        _ => None,
    }
}

/// The paths that name the outcome type: `Result`, and
/// `std::result::Result` with or without a leading `::`. Any other path,
/// `io::Result` among them, does not.
pub open spec fn is_result_path(leading_colon: bool, segments: List<String>) -> bool {
    ||| !leading_colon && names(segments) == seq![outcome_name()]
    ||| names(segments) == seq!["std"@, "result"@, outcome_name()]
}

/// The return type read as `Result<Ok>` or `Result<Ok, Name<..>>`.
pub open spec fn parse_return(output: Option<Syntax>) -> Result<ReturnType, Diagnostic> {
    match output {
        Some(Syntax::TypePath { leading_colon, segments, args }) => if is_result_path(
            leading_colon,
            segments,
        ) {
            match args {
                List::Nil => Err(Diagnostic::ExpectResultArgs),
                List::Cons(ok, rest) => match *rest {
                    List::Nil => Ok(ReturnType { ok_type: *ok, err_type: None }),
                    List::Cons(e, more) => match *more {
                        List::Nil => match single_type_name(*e) {
                            Some(n) => Ok(ReturnType { ok_type: *ok, err_type: Some(n) }),
                            None => Err(Diagnostic::ExpectErrorIdent(*e)),
                        },
                        _ => Err(Diagnostic::ExpectResultArgs),
                    },
                },
            }
        } else {
            Err(Diagnostic::ExpectResult)
        },
        _ => Err(Diagnostic::ExpectResult),
    }
}

/// A generic parameter in argument position.
pub open spec fn param_arg(p: GenericParam) -> Syntax {
    match p.kind {
        ParamKind::Lifetime => Syntax::Lifetime(p.name),
        ParamKind::Type => Syntax::TypePath {
            leading_colon: false,
            segments: List::Cons(Box::new(p.name), Box::new(List::Nil)),
            args: List::Nil,
        },
        ParamKind::Const => Syntax::Path {
            segments: List::Cons(Box::new(p.name), Box::new(List::Nil)),
        },
    }
}

/// The parameters of `ps` from `i` on, in argument position.
pub open spec fn params_as_args(ps: Seq<GenericParam>, i: int) -> List<Syntax>
    decreases ps.len() - i,
{
    if i < 0 || i >= ps.len() {
        List::Nil
    } else {
        List::Cons(Box::new(param_arg(ps[i])), Box::new(params_as_args(ps, i + 1)))
    }
}

/// The type `name<generics..>`.
pub open spec fn err_type_syntax(name: String, generics: Seq<GenericParam>) -> Syntax {
    Syntax::TypePath {
        leading_colon: false,
        segments: List::Cons(Box::new(name), Box::new(List::Nil)),
        args: params_as_args(generics, 0),
    }
}

/// `r` is `::std::result::Result<ok, err>`.
pub open spec fn is_outcome(r: Syntax, ok: Syntax, err: Syntax) -> bool {
    &&& r matches Syntax::TypePath { leading_colon, segments, args }
    &&& leading_colon
    &&& names(segments) == seq!["std"@, "result"@, "Result"@]
    &&& args == List::Cons(Box::new(ok), Box::new(List::Cons(Box::new(err), Box::new(List::Nil))))
}

impl ReturnType {
    /// Reads the declared return type.
    pub fn parse(output: &Option<Syntax>) -> (r: Result<ReturnType, Diagnostic>)
        ensures
            r == parse_return(*output),
    {
        match output {
            Some(Syntax::TypePath { leading_colon, segments, args }) => {
                if !result_path(*leading_colon, segments) {
                    return Err(Diagnostic::ExpectResult);
                }
                match args {
                    List::Nil => Err(Diagnostic::ExpectResultArgs),
                    List::Cons(ok, rest) => match &**rest {
                        List::Nil => Ok(ReturnType { ok_type: ok.copy(), err_type: None }),
                        List::Cons(e, more) => match &**more {
                            List::Nil => match single_type_ident(e) {
                                Some(n) => Ok(ReturnType { ok_type: ok.copy(), err_type: Some(n) }),
                                None => Err(Diagnostic::ExpectErrorIdent(e.copy())),
                            },
                            _ => Err(Diagnostic::ExpectResultArgs),
                        },
                    },
                }
            },
            _ => Err(Diagnostic::ExpectResult),
        }
    }

    /// `::std::result::Result<ok_type, err>`.
    pub fn rewrite(&self, err: &GenericErrType) -> (r: Syntax)
        ensures
            is_outcome(r, self.ok_type, err.spec_to_syntax()),
    {
        proof {
            reveal_strlit("std");
            reveal_strlit("result");
            reveal_strlit("Result");
        }
        let segments = List::Cons(
            Box::new(call_site_ident("std")),
            Box::new(
                List::Cons(
                    Box::new(call_site_ident("result")),
                    Box::new(List::Cons(Box::new(call_site_ident("Result")), Box::new(List::Nil))),
                ),
            ),
        );
        let args = List::Cons(
            Box::new(self.ok_type.copy()),
            Box::new(List::Cons(Box::new(err.to_syntax()), Box::new(List::Nil))),
        );
        proof {
            reveal_with_fuel(names, 4);
            assert(names(segments) =~= seq!["std"@, "result"@, "Result"@]);
        }
        Syntax::TypePath { leading_colon: true, segments, args }
    }
}

fn is_name(s: &String, text: &str) -> (r: bool)
    ensures
        r == (s@ == text@),
{
    *s == call_site_ident(text)
}

fn result_path(leading_colon: bool, segments: &List<String>) -> (r: bool)
    ensures
        r == is_result_path(leading_colon, *segments),
{
    proof {
        reveal_strlit("Result");
        reveal_strlit("std");
        reveal_strlit("result");
        reveal_with_fuel(names, 4);
    }
    match segments {
        List::Cons(a, t1) => match &**t1 {
            List::Nil => {
                proof {
                    assert(names(*segments) =~= seq![a@]);
                    assert(seq![a@].len() != seq!["std"@, "result"@, outcome_name()].len());
                    assert(seq![a@] == seq![outcome_name()] <==> a@ == outcome_name()) by {
                        if a@ == outcome_name() {
                            assert(seq![a@] =~= seq![outcome_name()]);
                        }
                        if seq![a@] == seq![outcome_name()] {
                            assert(seq![a@][0] == seq![outcome_name()][0]);
                        }
                    }
                }
                !leading_colon && is_name(a, "Result")
            },
            List::Cons(b, t2) => match &**t2 {
                List::Cons(c, t3) => match &**t3 {
                    List::Nil => {
                        proof {
                            let x = seq![a@, b@, c@];
                            let y = seq!["std"@, "result"@, outcome_name()];
                            assert(names(*segments) =~= x);
                            assert(x.len() != seq![outcome_name()].len());
                            assert(x == y <==> (a@ == "std"@ && b@ == "result"@ && c@ == "Result"@))
                                by {
                                if a@ == "std"@ && b@ == "result"@ && c@ == "Result"@ {
                                    assert(x =~= y);
                                }
                                if x == y {
                                    assert(x[0] == y[0] && x[1] == y[1] && x[2] == y[2]);
                                }
                            }
                        }
                        is_name(a, "std") && is_name(b, "result") && is_name(c, "Result")
                    },
                    List::Cons(_, _) => {
                        proof {
                            assert(names(*segments) =~= seq![a@, b@, c@] + names(**t3));
                            assert(names(**t3).len() > 0);
                            assert(names(*segments).len() != seq![outcome_name()].len());
                            assert(names(*segments).len() != seq!["std"@, "result"@, outcome_name()].len());
                        }
                        false
                    },
                },
                List::Nil => {
                    proof {
                        assert(names(*segments) =~= seq![a@, b@]);
                        assert(names(*segments).len() != seq![outcome_name()].len());
                        assert(names(*segments).len() != seq!["std"@, "result"@, outcome_name()].len());
                    }
                    false
                },
            },
        },
        List::Nil => {
            proof {
                assert(names(*segments).len() != seq![outcome_name()].len());
                assert(names(*segments).len() != seq!["std"@, "result"@, outcome_name()].len());
            }
            false
        },
    }
}

fn single_type_ident(t: &Syntax) -> (r: Option<String>)
    ensures
        r == single_type_name(*t),
{
    match t {
        Syntax::TypePath { leading_colon: false, segments, .. } => match segments {
            List::Cons(h, rest) => match &**rest {
                List::Nil => Some(crate::syntax::copy_string(h)),
                _ => None,
            },
            List::Nil => None,
        },
        _ => None,
    }
}

fn param_as_arg(p: &GenericParam) -> (r: Syntax)
    ensures
        r == param_arg(*p),
{
    match p.kind {
        ParamKind::Lifetime => Syntax::Lifetime(p.name.clone()),
        ParamKind::Type => path_from_args(p.name.clone(), List::Nil),
        ParamKind::Const => path_from_ident(p.name.clone()),
    }
}

impl GenericErrType {
    /// The failure type named `ident`, applied to `generics` in argument position.
    pub fn new(ident: String, generics: &VecDeque<GenericParam>) -> (r: GenericErrType)
        ensures
            r.ident == ident,
            r.generics == params_as_args(generics@, 0),
    {
        let mut l: List<Syntax> = List::Nil;
        let mut i: usize = generics.len();
        while i > 0
            invariant
                i <= generics@.len(),
                l == params_as_args(generics@, i as int),
            decreases i,
        {
            i = i - 1;
            l = List::Cons(Box::new(param_as_arg(&generics[i])), Box::new(l));
        }
        GenericErrType { ident, generics: l }
    }

    pub open spec fn spec_to_syntax(&self) -> Syntax {
        Syntax::TypePath {
            leading_colon: false,
            segments: List::Cons(Box::new(self.ident), Box::new(List::Nil)),
            args: self.generics,
        }
    }

    /// The type `ident<generics..>`.
    pub fn to_syntax(&self) -> (r: Syntax)
        ensures
            r == self.spec_to_syntax(),
    {
        path_from_args(self.ident.clone(), copy_nodes(&self.generics))
    }
}

} // verus!
