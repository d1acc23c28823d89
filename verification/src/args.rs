//! The annotation argument grammar.
//!
//! An argument list is a comma-separated sequence of items, an item being
//! either a simple identifier or a grouped form `name(ident, ident, ...)`;
//! a trailing comma is allowed at either level and the whole list may be
//! empty.  Anything else is malformed and parsing reports failure.
//!
//! The grammar is stated as a token-at-a-time automaton ([`step`], [`run`],
//! [`finish`]); [`parse_meta_args`] is proved to return exactly what the
//! automaton accepts.

use vstd::prelude::*;
use crate::model::{arg_view, args_view, tok_view, toks_view, strs_view, ArgToken, MetaArg,
    MetaArgView, TokenView};

verus! {

/// The automaton's state between two tokens of an argument list.
pub enum StateView {
    /// At the start, after a top-level comma: an item may begin or the list
    /// may end.
    ExpectItem,
    /// After a top-level identifier that may still grow into a grouped item.
    AfterPath(Seq<char>),
    /// Inside a group, after `(` or an inner comma.
    GroupExpect(Seq<char>, Seq<Seq<char>>),
    /// Inside a group, after an inner identifier.
    GroupAfter(Seq<char>, Seq<Seq<char>>),
    /// After a group's closing `)`.
    AfterGroup,
}

/// One transition of the automaton: from state `st` with the items emitted so
/// far `out`, reading token `t`; `None` is a syntax error.
pub open spec fn step(st: StateView, out: Seq<MetaArgView>, t: TokenView) -> Option<
    (StateView, Seq<MetaArgView>),
> {
    match st {
        StateView::ExpectItem => match t {
            TokenView::Ident(n) => Some((StateView::AfterPath(n), out)),
            _ => None,
        },
        StateView::AfterPath(n) => match t {
            TokenView::Comma => Some((StateView::ExpectItem, out.push(MetaArgView::Path(n)))),
            TokenView::LParen => Some((StateView::GroupExpect(n, Seq::empty()), out)),
            _ => None,
        },
        StateView::GroupExpect(n, ids) => match t {
            TokenView::Ident(id) => Some((StateView::GroupAfter(n, ids.push(id)), out)),
            TokenView::RParen => Some(
                (StateView::AfterGroup, out.push(MetaArgView::Group(n, ids))),
            ),
            _ => None,
        },
        StateView::GroupAfter(n, ids) => match t {
            TokenView::Comma => Some((StateView::GroupExpect(n, ids), out)),
            TokenView::RParen => Some(
                (StateView::AfterGroup, out.push(MetaArgView::Group(n, ids))),
            ),
            _ => None,
        },
        StateView::AfterGroup => match t {
            TokenView::Comma => Some((StateView::ExpectItem, out)),
            _ => None,
        },
    }
}

/// Runs the automaton over a whole token sequence.
pub open spec fn run(ts: Seq<TokenView>) -> Option<(StateView, Seq<MetaArgView>)>
    decreases ts.len(),
{
    if ts.len() == 0 {
        Some((StateView::ExpectItem, Seq::empty()))
    } else {
        match run(ts.drop_last()) {
            None => None,
            Some((st, out)) => step(st, out, ts.last()),
        }
    }
}

/// Accepts the automaton's final state: a pending top-level identifier is a
/// last path item; an unclosed group is a syntax error.
pub open spec fn finish(st: StateView, out: Seq<MetaArgView>) -> Option<Seq<MetaArgView>> {
    match st {
        StateView::ExpectItem => Some(out),
        StateView::AfterPath(n) => Some(out.push(MetaArgView::Path(n))),
        StateView::GroupExpect(_, _) => None,
        StateView::GroupAfter(_, _) => None,
        StateView::AfterGroup => Some(out),
    }
}

/// What an argument token sequence parses to, or `None` when it is malformed.
pub open spec fn parse_meta_args_spec(ts: Seq<TokenView>) -> Option<Seq<MetaArgView>> {
    match run(ts) {
        None => None,
        Some((st, out)) => finish(st, out),
    }
}

/// Once the automaton has failed on a prefix, it has failed on the whole
/// sequence.
pub proof fn lemma_run_none_persists(ts: Seq<TokenView>, k: int)
    requires
        0 <= k <= ts.len(),
        run(ts.take(k)) is None,
    ensures
        run(ts) is None,
    decreases ts.len() - k,
{
    if k == ts.len() {
        assert(ts.take(k) =~= ts);
    } else {
        assert(ts.take(k + 1).drop_last() =~= ts.take(k));
        lemma_run_none_persists(ts, k + 1);
    }
}

/// Executable mirror of [`StateView`].
enum ParserState {
    ExpectItem,
    AfterPath(String),
    GroupExpect(String, Vec<String>),
    GroupAfter(String, Vec<String>),
    AfterGroup,
}

spec fn state_view(st: ParserState) -> StateView {
    match st {
        ParserState::ExpectItem => StateView::ExpectItem,
        ParserState::AfterPath(n) => StateView::AfterPath(n@),
        ParserState::GroupExpect(n, ids) => StateView::GroupExpect(n@, strs_view(ids@)),
        ParserState::GroupAfter(n, ids) => StateView::GroupAfter(n@, strs_view(ids@)),
        ParserState::AfterGroup => StateView::AfterGroup,
    }
}

/// Parses an annotation's argument tokens into structured items, or reports
/// the list malformed, exactly as [`parse_meta_args_spec`] says.
pub fn parse_meta_args(tokens: &Vec<ArgToken>) -> (r: Option<Vec<MetaArg>>)
    ensures
        match r {
            Some(items) => parse_meta_args_spec(toks_view(tokens@)) == Some(args_view(items@)),
            None => parse_meta_args_spec(toks_view(tokens@)) is None,
        },
{
    let ghost ts = toks_view(tokens@);
    let mut st = ParserState::ExpectItem;
    let mut out: Vec<MetaArg> = Vec::new();
    let mut i: usize = 0;
    while i < tokens.len()
        invariant
            i <= tokens@.len(),
            ts == toks_view(tokens@),
            run(ts.take(i as int)) == Some((state_view(st), args_view(out@))),
        decreases tokens@.len() - i,
    {
        proof {
            assert(ts.take(i + 1 as int).drop_last() =~= ts.take(i as int));
            assert(ts.take(i + 1 as int).last() == tok_view(tokens@[i as int]));
        }
        let ghost out0 = out@;
        let t = &tokens[i];
        let cur = st;
        match cur {
            ParserState::ExpectItem => match t {
                ArgToken::Ident(s) => {
                    st = ParserState::AfterPath(s.clone());
                },
                _ => {
                    proof {
                        lemma_run_none_persists(ts, i + 1 as int);
                    }
                    return None;
                },
            },
            ParserState::AfterPath(n) => match t {
                ArgToken::Comma => {
                    out.push(MetaArg::Path(n));
                    st = ParserState::ExpectItem;
                    proof {
                        assert(args_view(out@) =~= out0.map_values(|a: MetaArg| arg_view(a)).push(
                            MetaArgView::Path(n@),
                        ));
                    }
                },
                ArgToken::LParen => {
                    let ids: Vec<String> = Vec::new();
                    proof {
                        assert(strs_view(ids@) =~= Seq::<Seq<char>>::empty());
                    }
                    st = ParserState::GroupExpect(n, ids);
                },
                _ => {
                    proof {
                        lemma_run_none_persists(ts, i + 1 as int);
                    }
                    return None;
                },
            },
            ParserState::GroupExpect(n, ids) => match t {
                ArgToken::Ident(s) => {
                    let ghost ids0 = ids@;
                    let mut ids2 = ids;
                    ids2.push(s.clone());
                    proof {
                        assert(strs_view(ids2@) =~= strs_view(ids0).push(s@));
                    }
                    st = ParserState::GroupAfter(n, ids2);
                },
                ArgToken::RParen => {
                    let ghost idsv = strs_view(ids@);
                    out.push(MetaArg::Group(n, ids));
                    st = ParserState::AfterGroup;
                    proof {
                        assert(args_view(out@) =~= out0.map_values(|a: MetaArg| arg_view(a)).push(
                            MetaArgView::Group(n@, idsv),
                        ));
                    }
                },
                _ => {
                    proof {
                        lemma_run_none_persists(ts, i + 1 as int);
                    }
                    return None;
                },
            },
            ParserState::GroupAfter(n, ids) => match t {
                ArgToken::Comma => {
                    st = ParserState::GroupExpect(n, ids);
                },
                ArgToken::RParen => {
                    let ghost idsv = strs_view(ids@);
                    out.push(MetaArg::Group(n, ids));
                    st = ParserState::AfterGroup;
                    proof {
                        assert(args_view(out@) =~= out0.map_values(|a: MetaArg| arg_view(a)).push(
                            MetaArgView::Group(n@, idsv),
                        ));
                    }
                },
                _ => {
                    proof {
                        lemma_run_none_persists(ts, i + 1 as int);
                    }
                    return None;
                },
            },
            ParserState::AfterGroup => match t {
                ArgToken::Comma => {
                    st = ParserState::ExpectItem;
                },
                _ => {
                    proof {
                        lemma_run_none_persists(ts, i + 1 as int);
                    }
                    return None;
                },
            },
        }
        i = i + 1;
    }
    proof {
        assert(ts.take(tokens@.len() as int) =~= ts);
    }
    match st {
        ParserState::ExpectItem => Some(out),
        ParserState::AfterPath(n) => {
            let ghost out0 = out@;
            out.push(MetaArg::Path(n));
            proof {
                assert(args_view(out@) =~= out0.map_values(|a: MetaArg| arg_view(a)).push(
                    MetaArgView::Path(n@),
                ));
            }
            Some(out)
        },
        ParserState::GroupExpect(_, _) => None,
        ParserState::GroupAfter(_, _) => None,
        ParserState::AfterGroup => Some(out),
    }
}

} // verus!
