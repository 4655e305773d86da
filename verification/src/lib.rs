//! A verified model of a window-registry command façade.
//!
//! The façade exposes create-or-show, close, show, hide, drag-initiation,
//! minimize, maximize, unmaximize, toggle-maximize and a maximized-state
//! query over a label-keyed registry of windows. The registry is modelled
//! as a map from labels to window states; every operation's effect and
//! result string are pinned down by its contract.

pub mod laws;
pub mod model;
pub mod plan;
pub mod registry;
