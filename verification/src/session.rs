//! The session orchestrator.
//!
//! A `State` holds the caller-installed rewrite rules across requests.
//! `handle_request` answers `version` and `load-rewrites` outright; for
//! `simplify-expressions` it validates the request and, when everything is
//! in order, hands the host an engine run to perform: the installed rules
//! printed in the grammar's notation, the validated expression texts, the
//! fold flag and the node ceiling. `finish_simplify` then turns the
//! before/after cheapest forms the engine found into the response, with
//! costs computed by the verified unit-cost metric.

use vstd::prelude::*;
use crate::grammar::{Term, TermV, term_wf, term_size, ast_size, print_term, print_bytes};
use crate::parser::{parse, spec_parse, similar, ParseError, subvec};

verus! {

/// One rewrite rule as text: its name and its two pattern texts.
pub struct RuleText {
    pub name: Vec<u8>,
    pub lhs: Vec<u8>,
    pub rhs: Vec<u8>,
}

/// An installed rewrite rule: its name and its parsed patterns.
pub struct Rule {
    pub name: Vec<u8>,
    pub lhs: Term,
    pub rhs: Term,
}

/// A request, as the transport hands it over.
pub enum Request {
    Version,
    LoadRewrites(Vec<RuleText>),
    SimplifyExpressions { exprs: Vec<Vec<u8>>, constant_fold: bool },
}

/// Why a request was refused.
pub enum RequestError {
    /// `simplify-expressions` before any successful `load-rewrites`.
    NoRules,
    /// A pattern or expression text failed to parse; no state was changed.
    Parse(ParseError),
}

/// The cheapest form of one root before and after rewriting, with its cost
/// under the unit-cost metric.
pub struct Comparison {
    pub initial_expr: Vec<u8>,
    pub initial_cost: usize,
    pub final_expr: Vec<u8>,
    pub final_cost: usize,
}

/// A response to one request.
pub enum Response {
    Error(RequestError),
    Version(Vec<u8>),
    LoadRewrites(usize),
    SimplifyExpressions(Vec<Comparison>),
}

/// What the host is to do for one request: answer outright, or run the
/// rewriting engine and then build the response with `finish_simplify`.
pub enum Action {
    Respond(Response),
    RunEngine { rules: Vec<RuleText>, exprs: Vec<Vec<u8>>, constant_fold: bool, node_limit: usize },
}

/// Every pattern text of the batch parses (in pattern mode).
pub open spec fn rule_texts_ok(rs: Seq<RuleText>) -> bool {
    forall|i: int| 0 <= i < rs.len() ==> (#[trigger] spec_parse(rs[i].lhs@, true)).is_some()
        && spec_parse(rs[i].rhs@, true).is_some()
}

/// Every expression text of the batch parses (no pattern variables).
pub open spec fn exprs_ok(es: Seq<Vec<u8>>) -> bool {
    forall|i: int| 0 <= i < es.len() ==> (#[trigger] spec_parse(es[i]@, false)).is_some()
}

/// The session state: the rules installed by the last successful
/// `load-rewrites`, and nothing else.
pub struct State {
    rewrites: Vec<Rule>,
}

impl Default for State {
    /// A fresh session has no rules installed.
    fn default() -> (r: Self)
        ensures
            r.rules().len() == 0,
    {
        State { rewrites: Vec::new() }
    }
}

impl State {
    /// All installed patterns are well-formed terms.
    #[verifier::type_invariant]
    spec fn inv(self) -> bool {
        forall|i: int| 0 <= i < self.rewrites@.len() ==> term_wf(
            (#[trigger] self.rewrites@[i]).lhs@,
        ) && term_wf(self.rewrites@[i].rhs@)
    }

    /// The installed rules.
    pub closed spec fn rules(self) -> Seq<Rule> {
        self.rewrites@
    }

    /// Answers one request. `version` is the host's version string, echoed
    /// in the `version` response.
    ///
    /// - `version` never touches the state.
    /// - `load-rewrites` parses every pattern; on any failure it answers
    ///   with that parse error and leaves the installed rules exactly as
    ///   they were; on success it replaces them wholesale and reports the
    ///   count installed.
    /// - `simplify-expressions` never touches the state, so one request
    ///   cannot leak into the next. With no rules installed it is refused;
    ///   with any expression failing to parse it is refused with that
    ///   error; otherwise the host is to run the engine on the validated
    ///   texts with the installed rules (printed losslessly), the
    ///   requested fold flag, and a node ceiling of 10000.
    #[verifier::loop_isolation(false)]
    pub fn handle_request(&mut self, req: Request, version: Vec<u8>) -> (r: Action)
        ensures
            req is Version ==> *final(self) == *old(self) && r == Action::Respond(
                Response::Version(version),
            ),
            req matches Request::LoadRewrites(rs) ==> if rule_texts_ok(rs@) {
                &&& final(self).rules().len() == rs@.len()
                &&& (forall|i: int| 0 <= i < rs@.len() ==> {
                    &&& (#[trigger] final(self).rules()[i]).name@ == rs@[i].name@
                    &&& similar(final(self).rules()[i].lhs@, spec_parse(rs@[i].lhs@, true).unwrap())
                    &&& similar(final(self).rules()[i].rhs@, spec_parse(rs@[i].rhs@, true).unwrap())
                    &&& term_wf(final(self).rules()[i].lhs@)
                    &&& term_wf(final(self).rules()[i].rhs@)
                })
                &&& (r matches Action::Respond(Response::LoadRewrites(n)) && n == rs@.len())
            } else {
                &&& *final(self) == *old(self)
                &&& r matches Action::Respond(Response::Error(RequestError::Parse(_)))
            },
            req matches Request::SimplifyExpressions { exprs, constant_fold } ==> {
                &&& *final(self) == *old(self)
                &&& if old(self).rules().len() == 0 {
                    r == Action::Respond(Response::Error(RequestError::NoRules))
                } else if exprs_ok(exprs@) {
                    r matches Action::RunEngine {
                        rules: rls,
                        exprs: es,
                        constant_fold: cf,
                        node_limit: nl,
                    } && ({
                        &&& es@ == exprs@
                        &&& cf == constant_fold
                        &&& nl == 10000
                        &&& rls@.len() == final(self).rules().len()
                        &&& (forall|i: int| 0 <= i < rls@.len() ==> {
                            &&& (#[trigger] rls@[i]).name@ == final(self).rules()[i].name@
                            &&& rls@[i].lhs@ == print_term(final(self).rules()[i].lhs@)
                            &&& rls@[i].rhs@ == print_term(final(self).rules()[i].rhs@)
                        })
                    })
                } else {
                    r matches Action::Respond(Response::Error(RequestError::Parse(_)))
                }
            },
    {
        match req {
            Request::Version => Action::Respond(Response::Version(version)),
            Request::LoadRewrites(rs) => {
                let mut staged: Vec<Rule> = Vec::new();
                let mut i: usize = 0;
                while i < rs.len()
                    invariant
                        i <= rs@.len(),
                        staged@.len() == i,
                        forall|j: int| 0 <= j < i ==> (#[trigger] spec_parse(
                            rs@[j].lhs@,
                            true,
                        )).is_some() && spec_parse(rs@[j].rhs@, true).is_some(),
                        forall|j: int| 0 <= j < i ==> {
                            &&& (#[trigger] staged@[j]).name@ == rs@[j].name@
                            &&& similar(staged@[j].lhs@, spec_parse(rs@[j].lhs@, true).unwrap())
                            &&& similar(staged@[j].rhs@, spec_parse(rs@[j].rhs@, true).unwrap())
                            &&& term_wf(staged@[j].lhs@)
                            &&& term_wf(staged@[j].rhs@)
                        },
                    decreases rs@.len() - i,
                {
                    let rt = &rs[i];
                    let lhs = match parse(&rt.lhs, true) {
                        Ok(t) => t,
                        Err(e) => {
                            proof {
                                use_type_invariant(&*self);
                                assert(!rule_texts_ok(rs@));
                            }
                            return Action::Respond(Response::Error(RequestError::Parse(e)));
                        }
                    };
                    let rhs = match parse(&rt.rhs, true) {
                        Ok(t) => t,
                        Err(e) => {
                            proof {
                                use_type_invariant(&*self);
                                assert(!rule_texts_ok(rs@));
                            }
                            return Action::Respond(Response::Error(RequestError::Parse(e)));
                        }
                    };
                    let name = subvec(&rt.name, 0, rt.name.len());
                    proof {
                        assert(name@ =~= rs@[i as int].name@);
                    }
                    staged.push(Rule { name, lhs, rhs });
                    i += 1;
                }
                let n = staged.len();
                self.rewrites = staged;
                Action::Respond(Response::LoadRewrites(n))
            }
            Request::SimplifyExpressions { exprs, constant_fold } => {
                proof {
                    use_type_invariant(&*self);
                }
                if self.rewrites.len() == 0 {
                    return Action::Respond(Response::Error(RequestError::NoRules));
                }
                let mut i: usize = 0;
                while i < exprs.len()
                    invariant
                        i <= exprs@.len(),
                        forall|j: int| 0 <= j < i ==> (#[trigger] spec_parse(
                            exprs@[j]@,
                            false,
                        )).is_some(),
                    decreases exprs@.len() - i,
                {
                    match parse(&exprs[i], false) {
                        Ok(_) => {}
                        Err(e) => {
                            proof {
                                assert(!exprs_ok(exprs@));
                            }
                            return Action::Respond(Response::Error(RequestError::Parse(e)));
                        }
                    }
                    i += 1;
                }
                let mut rls: Vec<RuleText> = Vec::new();
                let mut k: usize = 0;
                while k < self.rewrites.len()
                    invariant
                        k <= self.rewrites@.len(),
                        rls@.len() == k,
                        forall|j: int| 0 <= j < self.rewrites@.len() ==> term_wf(
                            (#[trigger] self.rewrites@[j]).lhs@,
                        ) && term_wf(self.rewrites@[j].rhs@),
                        forall|j: int| 0 <= j < k ==> {
                            &&& (#[trigger] rls@[j]).name@ == self.rewrites@[j].name@
                            &&& rls@[j].lhs@ == print_term(self.rewrites@[j].lhs@)
                            &&& rls@[j].rhs@ == print_term(self.rewrites@[j].rhs@)
                        },
                    decreases self.rewrites@.len() - k,
                {
                    let rule = &self.rewrites[k];
                    let name = subvec(&rule.name, 0, rule.name.len());
                    proof {
                        assert(name@ =~= self.rewrites@[k as int].name@);
                    }
                    let lhs = print_bytes(&rule.lhs);
                    let rhs = print_bytes(&rule.rhs);
                    rls.push(RuleText { name, lhs, rhs });
                    k += 1;
                }
                Action::RunEngine { rules: rls, exprs, constant_fold, node_limit: 10000 }
            }
        }
    }
}

/// Terms of the same shape have the same size.
proof fn lemma_similar_size(a: TermV, b: TermV)
    requires
        similar(a, b),
    ensures
        term_size(a) == term_size(b),
    decreases a,
{
    match (a, b) {
        (TermV::App1(_, a1), TermV::App1(_, b1)) => {
            lemma_similar_size(*a1, *b1);
        }
        (TermV::App2(_, a1, a2), TermV::App2(_, b1, b2)) => {
            lemma_similar_size(*a1, *b1);
            lemma_similar_size(*a2, *b2);
        }
        (TermV::App3(_, a1, a2, a3), TermV::App3(_, b1, b2, b3)) => {
            lemma_similar_size(*a1, *b1);
            lemma_similar_size(*a2, *b2);
            lemma_similar_size(*a3, *b3);
        }
        _ => {}
    }
}

/// Builds the `simplify-expressions` response from the engine's results:
/// for each root, the cheapest form's text before and after rewriting. Each
/// text is echoed as received, and its cost is the node count of the term it
/// parses to; a text the grammar cannot parse yields that parse error.
#[verifier::loop_isolation(false)]
pub fn finish_simplify(pairs: Vec<(Vec<u8>, Vec<u8>)>) -> (r: Result<Response, ParseError>)
    ensures
        r.is_ok() == (forall|i: int| 0 <= i < pairs@.len() ==> (#[trigger] spec_parse(
            pairs@[i].0@,
            false,
        )).is_some() && spec_parse(pairs@[i].1@, false).is_some()),
        r matches Ok(resp) ==> resp matches Response::SimplifyExpressions(cs) && ({
            &&& cs@.len() == pairs@.len()
            &&& (forall|i: int| 0 <= i < cs@.len() ==> {
                &&& (#[trigger] cs@[i]).initial_expr@ == pairs@[i].0@
                &&& cs@[i].final_expr@ == pairs@[i].1@
                &&& cs@[i].initial_cost == term_size(spec_parse(pairs@[i].0@, false).unwrap())
                &&& cs@[i].final_cost == term_size(spec_parse(pairs@[i].1@, false).unwrap())
            })
        }),
{
    let mut cs: Vec<Comparison> = Vec::new();
    let mut i: usize = 0;
    while i < pairs.len()
        invariant
            i <= pairs@.len(),
            cs@.len() == i,
            forall|j: int| 0 <= j < i ==> (#[trigger] spec_parse(pairs@[j].0@, false)).is_some()
                && spec_parse(pairs@[j].1@, false).is_some(),
            forall|j: int| 0 <= j < i ==> {
                &&& (#[trigger] cs@[j]).initial_expr@ == pairs@[j].0@
                &&& cs@[j].final_expr@ == pairs@[j].1@
                &&& cs@[j].initial_cost == term_size(spec_parse(pairs@[j].0@, false).unwrap())
                &&& cs@[j].final_cost == term_size(spec_parse(pairs@[j].1@, false).unwrap())
            },
        decreases pairs@.len() - i,
    {
        let pair = &pairs[i];
        let before = match parse(&pair.0, false) {
            Ok(t) => t,
            Err(e) => {
                return Err(e);
            }
        };
        let after = match parse(&pair.1, false) {
            Ok(t) => t,
            Err(e) => {
                return Err(e);
            }
        };
        proof {
            lemma_similar_size(before@, spec_parse(pairs@[i as int].0@, false).unwrap());
            lemma_similar_size(after@, spec_parse(pairs@[i as int].1@, false).unwrap());
        }
        let initial_cost = ast_size(&before);
        let final_cost = ast_size(&after);
        let initial_expr = subvec(&pair.0, 0, pair.0.len());
        let final_expr = subvec(&pair.1, 0, pair.1.len());
        proof {
            assert(initial_expr@ =~= pairs@[i as int].0@);
            assert(final_expr@ =~= pairs@[i as int].1@);
        }
        cs.push(Comparison { initial_expr, initial_cost, final_expr, final_cost });
        i += 1;
    }
    Ok(Response::SimplifyExpressions(cs))
}

} // verus!
