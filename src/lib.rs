//! Per-element style data used by an incremental style system: cached
//! computed styles, eager pseudo-element styles, restyle hints and the
//! transient restyle record of an element.

pub mod computed_style;
pub mod element_data;
pub mod pseudo;
pub mod restyle_data;
pub mod restyle_hint;
pub mod snapshot;
pub mod styles;
