//! Widget identity and the events widgets emit from their updates.

use vstd::prelude::*;

verus! {

/// Unique identifier for widgets, allocated by the manager and never
/// reused during its lifetime.
pub type WidgetId = usize;

/// Events that can be emitted by widgets during an update.
#[derive(Debug, Clone, PartialEq)]
pub enum WidgetEvent {
    /// A button was clicked.
    ButtonClicked(WidgetId),
    /// Text content changed.
    TextChanged(WidgetId, String),
    /// Custom event with string data.
    Custom(String, WidgetId),
}

} // verus!
