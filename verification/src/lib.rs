//! Time windows for dashboard graphs.
//!
//! A dashboard holds graphs, and a graph draws the queries of its plots
//! against a metrics backend. The window of time that those queries cover is
//! configured as text, on the dashboard, on the graph, or with a request.
//! This library reads such spans, settles which of them is in force, resolves
//! it against a clock, and builds the connections that are handed to the
//! backend, one for each plot.
//!
//! - [`duration`]: lengths of time and their texts.
//! - [`instant`]: points in time and the end of a window.
//! - [`query`]: the connections.
//! - [`dashboard`]: the configuration, the choice among the spans, and the
//!   connections of a graph.

pub mod dashboard;
pub mod duration;
pub mod instant;
pub mod query;
