//! Batch generation with all-or-nothing output.
//!
//! A [`Generator`] takes declarations one at a time and accumulates
//! both the generated source and the diagnostics. Once any diagnostic
//! has been recorded the batch is dirty, and [`Generator::finish`]
//! withholds every generated declaration: a batch either yields all of
//! its output or none of it, so no partial, inconsistent set of
//! declarations is ever emitted.

use vstd::prelude::*;

use crate::ast::{ParseError, ParseErrorV};
use crate::{chain, chain_output, chainlink, chainlink_output, impl_chains, impl_chains_output,
    use_chains, use_chains_output};

verus! {

/// The outputs of a finished batch, separated by blank lines.
pub open spec fn join_decls(ds: Seq<Seq<char>>) -> Seq<char>
    decreases ds.len(),
{
    if ds.len() == 0 {
        Seq::empty()
    } else if ds.len() == 1 {
        ds[0]
    } else {
        ds[0] + "\n"@ + join_decls(ds.drop_first())
    }
}

/// Accumulates generated declarations and diagnostics for one batch.
pub struct Generator {
    decls: Vec<String>,
    errors: Vec<ParseError>,
}

impl Generator {
    /// The declarations generated so far, in input order.
    pub closed spec fn outputs(&self) -> Seq<Seq<char>> {
        self.decls.deep_view()
    }

    /// The diagnostics recorded so far, in input order.
    pub closed spec fn diagnostics(&self) -> Seq<ParseErrorV> {
        self.errors.deep_view()
    }

    /// Whether any diagnostic has been recorded: a dirty batch emits
    /// nothing.
    pub open spec fn dirty(&self) -> bool {
        self.diagnostics().len() > 0
    }

    /// An empty batch.
    pub fn new() -> (g: Generator)
        ensures
            g.outputs() == Seq::<Seq<char>>::empty(),
            g.diagnostics() == Seq::<ParseErrorV>::empty(),
    {
        let g = Generator { decls: Vec::new(), errors: Vec::new() };
        proof {
            assert(g.outputs() =~= Seq::<Seq<char>>::empty());
            assert(g.diagnostics() =~= Seq::<ParseErrorV>::empty());
        }
        g
    }

    /// Records one generated declaration or one diagnostic.
    fn take(&mut self, r: Result<String, ParseError>)
        ensures
            match r {
                Ok(out) => final(self).outputs() == old(self).outputs().push(out@) && final(self).diagnostics() == old(self).diagnostics(),
                Err(e) => final(self).outputs() == old(self).outputs() && final(self).diagnostics()
                    == old(self).diagnostics().push(e.deep_view()),
            },
    {
        match r {
            Ok(out) => {
                let ghost ov = out@;
                self.decls.push(out);
                proof {
                    assert(self.decls.deep_view() =~= old(self).decls.deep_view().push(ov));
                }
            },
            Err(e) => {
                let ghost ev = e.deep_view();
                self.errors.push(e);
                proof {
                    assert(self.errors.deep_view() =~= old(self).errors.deep_view().push(ev));
                }
            },
        }
    }

    /// Takes one contract declaration into the batch.
    pub fn add_chainlink(&mut self, src: &str)
        ensures
            match chainlink_output(src@) {
                Ok(o) => final(self).outputs() == old(self).outputs().push(o) && final(self).diagnostics() == old(self).diagnostics(),
                Err(e) => final(self).outputs() == old(self).outputs() && final(self).diagnostics()
                    == old(self).diagnostics().push(e),
            },
    {
        self.take(chainlink(src));
    }

    /// Takes one entity declaration into the batch.
    pub fn add_chain(&mut self, src: &str)
        ensures
            match chain_output(src@) {
                Ok(o) => final(self).outputs() == old(self).outputs().push(o) && final(self).diagnostics() == old(self).diagnostics(),
                Err(e) => final(self).outputs() == old(self).outputs() && final(self).diagnostics()
                    == old(self).diagnostics().push(e),
            },
    {
        self.take(chain(src));
    }

    /// Takes one import list into the batch.
    pub fn add_use_chains(&mut self, src: &str)
        ensures
            match use_chains_output(src@) {
                Ok(o) => final(self).outputs() == old(self).outputs().push(o) && final(self).diagnostics() == old(self).diagnostics(),
                Err(e) => final(self).outputs() == old(self).outputs() && final(self).diagnostics()
                    == old(self).diagnostics().push(e),
            },
    {
        self.take(use_chains(src));
    }

    /// Takes one manual-binding declaration into the batch.
    pub fn add_impl_chains(&mut self, src: &str)
        ensures
            match impl_chains_output(src@) {
                Ok(o) => final(self).outputs() == old(self).outputs().push(o) && final(self).diagnostics() == old(self).diagnostics(),
                Err(e) => final(self).outputs() == old(self).outputs() && final(self).diagnostics()
                    == old(self).diagnostics().push(e),
            },
    {
        self.take(impl_chains(src));
    }

    /// Writes [`join_decls`] of `decls[k..]`.
    fn append_decls(out: &mut String, decls: &Vec<String>, k: usize)
        requires
            k < decls@.len(),
        ensures
            final(out)@ == old(out)@ + join_decls(decls.deep_view().skip(k as int)),
        decreases decls@.len() - k,
    {
        let n = decls.len();
        out.append(decls[k].as_str());
        proof {
            assert(decls.deep_view().skip(k as int)[0] == decls.deep_view()[k as int]);
        }
        let ghost mid = out@;
        if k + 1 < n {
            out.append("\n");
            Self::append_decls(out, decls, k + 1);
            proof {
                let dv = decls.deep_view();
                assert(dv.skip(k as int).drop_first() =~= dv.skip(k as int + 1));
                assert(out@ == mid + "\n"@ + join_decls(dv.skip(k as int + 1)));
                assert(out@ =~= old(out)@ + join_decls(dv.skip(k as int)));
            }
        } else {
            proof {
                assert(decls.deep_view().skip(k as int).len() == 1);
            }
        }
    }

    /// Ends the batch: every generated declaration when no diagnostic
    /// was recorded, otherwise all the diagnostics and no output.
    pub fn finish(self) -> (r: Result<String, Vec<ParseError>>)
        ensures
            match r {
                Ok(out) => !self.dirty() && out@ == join_decls(self.outputs()),
                Err(es) => self.dirty() && es.deep_view() == self.diagnostics(),
            },
    {
        if self.errors.len() > 0 {
            return Err(self.errors);
        }
        let mut out = String::new();
        if self.decls.len() > 0 {
            Self::append_decls(&mut out, &self.decls, 0);
            proof {
                assert(self.decls.deep_view().skip(0) =~= self.decls.deep_view());
            }
        } else {
            proof {
                assert(self.decls.deep_view().len() == 0);
            }
        }
        Ok(out)
    }
}

} // verus!
