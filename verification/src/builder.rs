//! A builder for when the transducer needs to be constructed incrementally:
//! certain information arrives later, or is optional. Fields are accumulated
//! freely and validated only when the lazy transducer is finally produced.

use core::marker::PhantomData;
use vstd::prelude::*;

use crate::lazy_transducer::IndexedView;
use crate::lazy_transducer::LazyTransducer;
use crate::record::FromCtx;
use crate::scroll_transducer::ScrollTransducer;
use crate::TransducerError;

verus! {

broadcast use vstd::string::group_string_axioms;

/// Accumulates the source, the element count, and the transducer before
/// producing a [`LazyTransducer`]. The count is optional and defaults to 0 —
/// an empty view, not an error — while a missing source or transducer is
/// reported when the builder is finished, not before.
#[verifier::reject_recursive_types(Output)]
pub struct Builder<Input, Output, F> where Input: Copy, F: Fn(Input, usize) -> Output {
    input: Option<Input>,
    count: usize,
    transducer: Option<F>,
    _marker: PhantomData<Output>,
}

impl<Input, Output, F> Builder<Input, Output, F> where
    Input: Copy,
    F: Fn(Input, usize) -> Output,
 {
    /// The source set so far, if any.
    pub closed spec fn spec_input(&self) -> Option<Input> {
        self.input
    }

    /// The element count set so far.
    pub closed spec fn spec_count(&self) -> usize {
        self.count
    }

    /// The transducer set so far, if any.
    pub closed spec fn spec_transducer(&self) -> Option<F> {
        self.transducer
    }

    /// Creates an empty builder; the input and the transducer must be set
    /// before `finish`, otherwise finishing reports an error.
    pub fn empty() -> (r: Self)
        ensures
            r.spec_input() is None,
            r.spec_count() == 0,
            r.spec_transducer() is None,
    {
        Builder { input: None, count: 0, transducer: None, _marker: PhantomData }
    }

    /// Create a new builder with the given `input`; the transducer must be
    /// set before `finish`, otherwise finishing reports an error.
    pub fn new(input: Input) -> (r: Self)
        ensures
            r.spec_input() == Some(input),
            r.spec_count() == 0,
            r.spec_transducer() is None,
    {
        Builder { input: Some(input), count: 0, transducer: None, _marker: PhantomData }
    }

    /// Set (or reset) the input.
    pub fn input(self, input: Input) -> (r: Self)
        ensures
            r.spec_input() == Some(input),
            r.spec_count() == self.spec_count(),
            r.spec_transducer() == self.spec_transducer(),
    {
        Builder { input: Some(input), ..self }
    }

    /// Set the number of output elements in the input source.
    pub fn count(self, count: usize) -> (r: Self)
        ensures
            r.spec_input() == self.spec_input(),
            r.spec_count() == count,
            r.spec_transducer() == self.spec_transducer(),
    {
        Builder { count, ..self }
    }

    /// Set the transducer from input source to output elements.
    pub fn transducer(self, transducer: F) -> (r: Self)
        ensures
            r.spec_input() == self.spec_input(),
            r.spec_count() == self.spec_count(),
            r.spec_transducer() == Some(transducer),
    {
        Builder { transducer: Some(transducer), ..self }
    }

    /// Finish building the lazy transducer and return it; if the input
    /// source or the transducer is missing, that is reported as an error,
    /// the source taking precedence when both are absent.
    pub fn finish(self) -> (r: Result<LazyTransducer<Input, Output, F>, TransducerError>)
        ensures
            match r {
                Ok(lt) => {
                    &&& self.spec_input() matches Some(contents) && lt.spec_contents() == contents
                    &&& self.spec_transducer() matches Some(f) && lt.func() == f
                    &&& lt.spec_len() == self.spec_count()
                },
                Err(e) => {
                    if self.spec_input() is None {
                        e matches TransducerError::BuilderError(m) && m@ == "No input given"@
                    } else {
                        &&& self.spec_transducer() is None
                        &&& e matches TransducerError::BuilderError(m) && m@
                            == "No transducer given"@
                    }
                },
            },
    {
        let count = self.count;
        match (self.input, self.transducer) {
            (Some(contents), Some(transducer)) => Ok(
                LazyTransducer::new(contents, count, transducer),
            ),
            (None, _) => Err(TransducerError::BuilderError("No input given".to_string())),
            (Some(_), None) => Err(
                TransducerError::BuilderError("No transducer given".to_string()),
            ),
        }
    }
}

impl<'a, Output, F> Builder<&'a [u8], Output, F> where F: Fn(&'a [u8], usize) -> Output {
    /// Create a fixed-width transducer that decodes the accumulated input
    /// with the given decoding `ctx`; the accumulated transducer slot is not
    /// consulted, since the record type's own decoder takes its place.
    pub fn parse_with<Ctx>(self, ctx: Ctx) -> (r: Result<
        ScrollTransducer<'a, Output, Ctx>,
        TransducerError,
    >) where Ctx: Copy, Output: FromCtx<Ctx>
        ensures
            match r {
                Ok(lt) => self.spec_input() matches Some(contents) && {
                    &&& (self.spec_count() as nat) * Output::spec_size_with(ctx) <= contents@.len()
                    &&& lt.wf()
                    &&& lt.spec_len() == self.spec_count()
                    &&& lt.spec_bytes() == contents@
                    &&& lt.spec_ctx() == ctx
                },
                Err(e) => {
                    if self.spec_input() is None {
                        e matches TransducerError::BuilderError(m) && m@ == "No input given"@
                    } else {
                        self.spec_input() matches Some(contents) && {
                            &&& (self.spec_count() as nat) * Output::spec_size_with(ctx)
                                > contents@.len()
                            &&& e == (TransducerError::ElementOverflow {
                                nelements: self.spec_count(),
                                sizeof_element: Output::spec_size_with(ctx) as usize,
                                src_size: contents@.len() as usize,
                            })
                        }
                    }
                },
            },
    {
        match self.input {
            Some(input) => ScrollTransducer::parse_with(input, self.count, ctx),
            None => Err(TransducerError::BuilderError("No input given".to_string())),
        }
    }
}

} // verus!
