//! A lazy running-fold (prefix-scan) adaptor over a pull-based sequence
//! producer.
//!
//! [`Accumulate`] wraps a producer of elements, an initial accumulator value,
//! and a combining closure. Each time a value is requested, it draws exactly
//! one element from the producer, folds it into the stored accumulator with
//! the closure, stores the result, and yields that same result. The last
//! value it yields, once the producer is drained, is therefore exactly what a
//! direct left fold of the whole sequence — same initial value, same closure,
//! same strictly left-to-right order — would have returned.
//!
//! Producers are modelled by the [`Source`] trait, whose `remaining` spec
//! function gives the sequence of elements still to be yielded; [`VecSource`]
//! is the producer backed by a vector. The extension trait [`IterAccumulate`]
//! puts an [`accumulate`](IterAccumulate::accumulate) entry point on every
//! producer. Because the freshly combined value is both stored and handed to
//! the caller, the accumulator type must be `Copy`.
//!
//! The mathematical side of the story: [`scan`] is the prefix scan of a spec
//! function over a sequence, and [`chained`] is the relation the adaptor's
//! invariant maintains between its accumulator and the elements drawn so far.
//! When the combining closure implements a spec function ([`obeys`]), the
//! proof functions here pin the adaptor down completely: every value it
//! yields is the corresponding element of the scan
//! ([`lemma_yield_is_scan`]), and its accumulator is always the left fold of
//! what it has consumed ([`lemma_acc_is_fold`]).

mod adaptor;
mod model;
mod source;

pub use adaptor::Accumulate;
pub use adaptor::IterAccumulate;
pub use adaptor::lemma_acc_is_fold;
pub use adaptor::lemma_yield_is_scan;
pub use model::chained;
pub use model::lemma_chained_is_fold;
pub use model::lemma_scan_index;
pub use model::lemma_scan_last_is_fold;
pub use model::lemma_scan_len;
pub use model::obeys;
pub use model::scan;
pub use source::Source;
pub use source::VecSource;
