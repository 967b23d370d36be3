//! Lifecycle control for an embedded, asynchronously loaded media widget.
//!
//! `ext` holds the widget's playback states and construction options,
//! `gate` the shared one-time loader of the widget's script, and
//! `component` the controller that drives one widget instance.
pub mod component;
pub mod ext;
pub mod gate;
