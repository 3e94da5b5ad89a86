//! The trait through which users receive batches of change events.

use vstd::prelude::*;
use crate::types::ChangeEvent;

verus! {

/// Trait for processing batches of Debezium change events.
///
/// Implement this trait to define custom change data capture processing.
/// The engine calls [`ChangeHandler::handle_batch`] for each batch of events
/// received from the Debezium connector.
pub trait ChangeHandler: Send + Sync + 'static {
    /// Process a batch of change events.
    ///
    /// Called by the engine, possibly from a JVM worker thread, whenever a
    /// batch of events is ready. After it returns, the engine marks all
    /// records of the batch as processed and signals batch completion.
    fn handle_batch(&self, records: &[ChangeEvent]);

    /// Called when the engine encounters a fatal error.
    ///
    /// The default implementation ignores the error.
    fn on_error(&self, _error: &str) {
    }
}

/// A boxed handler handles batches and errors as the handler in the box.
impl<T: ChangeHandler + ?Sized> ChangeHandler for Box<T> {
    fn handle_batch(&self, records: &[ChangeEvent]) {
        (**self).handle_batch(records)
    }

    fn on_error(&self, error: &str) {
        (**self).on_error(error)
    }
}

} // verus!
