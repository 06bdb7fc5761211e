//! # `typechain`
//!
//! A schema-driven interface synthesizer. Users declare capability
//! contracts ("chainlinks": named sets of abstract accessors) and
//! entities ("chains": named records whose fields may back one or more
//! contracts), in a small textual declaration language. The library
//! parses those declarations and emits source declarations: for each
//! contract an abstract trait named by appending the `Chainlink` suffix
//! together with a type alias under the original name, and for each
//! entity a record plus one trait implementation per contract its
//! fields participate in.
//!
//! The entry points mirror the four declaration forms:
//! [`chainlink`], [`chain`], [`use_chains`] and [`impl_chains`].
//! Each parses one declaration and returns the generated source, or
//! the first diagnostic for a malformed declaration. [`batch::Generator`]
//! accumulates declarations and withholds all output once any
//! diagnostic has been recorded.

use vstd::prelude::*;

pub mod ast;
pub mod batch;
pub mod laws;
pub mod parse;
pub mod scan;
pub mod synth;

use crate::ast::{
    Chain, Chainlink, ErrorKind, ImplChains, ParseError, ParseErrorV, UseChains, UseChainsV,
};
use crate::parse::{
    spec_parse_chain, spec_parse_chainlink, spec_parse_impl_chains, spec_use_paths, vis_err,
};
use crate::synth::{
    emit_chain, emit_chainlink, emit_impl_chains, emit_use_chains, find_vis_violation,
    spec_emit_chain, spec_emit_chainlink, spec_emit_impl_chains, spec_emit_use_chains,
    spec_vis_violation,
};

verus! {

/// What [`chainlink`] produces for a declaration text: the generated
/// declarations, or the first diagnostic.
pub open spec fn chainlink_output(s: Seq<char>) -> Result<Seq<char>, ParseErrorV> {
    match spec_parse_chainlink(s) {
        Ok(c) => Ok(spec_emit_chainlink(c)),
        Err(e) => Err(e),
    }
}

/// Generates the declarations for one contract: the suffixed abstract
/// trait and the alias under the original name.
pub fn chainlink(input: &str) -> (r: Result<String, ParseError>)
    ensures
        ({
            let sp = chainlink_output(input@);
            match r {
                Ok(out) => sp matches Ok(o) && out@ == o,
                Err(e) => sp matches Err(ev) && e.deep_view() == ev,
            }
        }),
{
    match Chainlink::parse(input) {
        Err(e) => Err(e),
        Ok(c) => Ok(emit_chainlink(&c)),
    }
}

/// What [`chain`] produces for a declaration text: the generated
/// declarations; or the visibility diagnostic for the first
/// contract-tagged value field with an explicit visibility marker; or
/// the first parse diagnostic.
pub open spec fn chain_output(s: Seq<char>) -> Result<Seq<char>, ParseErrorV> {
    match spec_parse_chain(s) {
        Err(e) => Err(e),
        Ok(ev) => match spec_vis_violation(ev.fields) {
            Some(at) => Err(vis_err(at)),
            None => Ok(spec_emit_chain(ev)),
        },
    }
}

/// Generates the declarations for one entity: its record and one
/// implementation per tagged contract.
pub fn chain(input: &str) -> (r: Result<String, ParseError>)
    ensures
        ({
            let sp = chain_output(input@);
            match r {
                Ok(out) => sp matches Ok(o) && out@ == o,
                Err(e) => sp matches Err(ev) && e.deep_view() == ev,
            }
        }),
{
    let e = match Chain::parse(input) {
        Err(er) => {
            return Err(er);
        },
        Ok(e) => e,
    };
    proof {
        assert(e.fields.deep_view().skip(0) =~= e.deep_view().fields);
    }
    match find_vis_violation(&e.fields, 0) {
        Some(at) => Err(ParseError { kind: ErrorKind::Visibility, pos: at }),
        None => Ok(emit_chain(&e)),
    }
}

/// What [`use_chains`] produces for a declaration text.
pub open spec fn use_chains_output(s: Seq<char>) -> Result<Seq<char>, ParseErrorV> {
    match spec_use_paths(s, 0, Seq::empty()) {
        Ok((ps, _)) => Ok(spec_emit_use_chains(UseChainsV { paths: ps })),
        Err(e) => Err(e),
    }
}

/// Generates the imports for a list of contract paths: for each, one
/// `use` of the suffixed interface and one of the alias name.
pub fn use_chains(input: &str) -> (r: Result<String, ParseError>)
    ensures
        ({
            let sp = use_chains_output(input@);
            match r {
                Ok(out) => sp matches Ok(o) && out@ == o,
                Err(e) => sp matches Err(ev) && e.deep_view() == ev,
            }
        }),
{
    match UseChains::parse(input) {
        Err(e) => Err(e),
        Ok(u) => Ok(emit_use_chains(&u)),
    }
}

/// What [`impl_chains`] produces for a declaration text.
pub open spec fn impl_chains_output(s: Seq<char>) -> Result<Seq<char>, ParseErrorV> {
    match spec_parse_impl_chains(s) {
        Ok(ic) => Ok(spec_emit_impl_chains(ic)),
        Err(e) => Err(e),
    }
}

/// Generates the implementations a manual-binding block supplies: one
/// block of the suffixed interface per distinct contract, with the
/// given functions passed through verbatim.
pub fn impl_chains(input: &str) -> (r: Result<String, ParseError>)
    ensures
        ({
            let sp = impl_chains_output(input@);
            match r {
                Ok(out) => sp matches Ok(o) && out@ == o,
                Err(e) => sp matches Err(ev) && e.deep_view() == ev,
            }
        }),
{
    match ImplChains::parse(input) {
        Err(e) => Err(e),
        Ok(ic) => Ok(emit_impl_chains(&ic)),
    }
}

} // verus!
