//! Chained errors: an error remembers what kind of failure it is, which
//! error caused it, and the call stack at which the chain started.
//!
//! An error family is an enumeration of kinds (see [`Kind`]) together with
//! the error type [`Error`] over it.  An error enters a chain in one of
//! three ways:
//!
//! * [`ChainedError::chain_err`] puts a new error of the same family in
//!   front of an error, which becomes its cause;
//! * [`Error::link`] takes an error of a linked family into another family:
//!   its kind is held inside a kind of that family, and the chain gets no
//!   new entry;
//! * [`ChainedError::with_chain`] makes an error of any type (see
//!   [`ToError`]) the cause of a new error, which adds an entry to the
//!   chain.
//!
//! A chain has one backtrace, captured where the chain starts and shared by
//! every error that is put in front of it later.  A chain is walked with
//! [`Iter`] and rendered with [`DisplayChain`]; [`propagate`] holds the
//! helpers that leave a function with an error, and [`quick_main`] says how
//! a program ends after its entry point has failed.
//!
//! Contracts speak of an error through its view, [`ErrorView`], and of a
//! chain as a sequence of [`Layer`]s, the outermost error first.

pub mod backtrace;
pub mod chained_error;
pub mod dyn_error;
pub mod error;
pub mod example;
pub mod iter;
pub mod kind;
pub mod mock;
pub mod propagate;
pub mod quick_main;
pub mod state;

pub use backtrace::{Backtrace, InternalBacktrace};
pub use chained_error::{ChainedError, DisplayChain, ErrorView};
pub use dyn_error::{DynError, Layer, ToError};
pub use error::Error;
pub use iter::Iter;
pub use kind::Kind;
pub use state::State;
