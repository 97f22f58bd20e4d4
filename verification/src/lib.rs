//! A lazy transducer is a declarative description of the transformation of one
//! kind of data into another: a data source, a fixed element count, and a pure
//! extractor mapping `(source, index)` to the `index`th element.
//!
//! Lazy transducers are
//!
//! 1. lazy: no element is materialized until it is asked for,
//! 2. indexable: random access is a single extractor call,
//! 3. iterable: elements come out strictly in index order, and
//! 4. splittable: a contiguous index range divides into balanced halves so
//!    that independent workers can consume disjoint slices of one view.
//!
//! The fixed-width specialization [`ScrollTransducer`] binds the source to a
//! byte buffer plus a decoding context and checks the aggregate bounds once at
//! construction, which is what makes every later access cheap and in-bounds.

use vstd::prelude::*;

mod builder;
mod lazy_transducer;
mod record;
mod scroll_transducer;

pub use builder::Builder;
pub use lazy_transducer::flatten_ranges;
pub use lazy_transducer::leaf_ranges;
pub use lazy_transducer::lemma_lazy_transducer_elem_ok;
pub use lazy_transducer::lemma_lazy_transducer_ok;
pub use lazy_transducer::lemma_order_equivalence;
pub use lazy_transducer::lemma_split_work_conservation;
pub use lazy_transducer::range_indices;
pub use lazy_transducer::select_at;
pub use lazy_transducer::IndexedView;
pub use lazy_transducer::IntoIter;
pub use lazy_transducer::IntoParIter;
pub use lazy_transducer::LazyTransducer;
pub use lazy_transducer::Producer;
pub use record::Endian;
pub use record::FromCtx;
pub use scroll_transducer::lemma_scroll_order_equivalence;
pub use scroll_transducer::ScrollTransducer;

verus! {

/// The kinds of errors reported when a lazy transducer cannot be constructed.
#[derive(Debug, PartialEq)]
pub enum TransducerError {
    /// The builder was finished while a required field was still unset.
    BuilderError(String),
    /// More bytes were requested (`nelements * sizeof_element`) than the
    /// source holds (`src_size`).
    ElementOverflow { nelements: usize, sizeof_element: usize, src_size: usize },
}

} // verus!
