//! Paginated loading of bounded, ordered time series.
//!
//! A caller-specified time window and sampling interval determine how many
//! samples a load needs; a remote source returns at most a fixed number of
//! samples per request, so the window is split into sequential pages.
//! [`scheduler::PageScheduler`] does the page arithmetic; an
//! [`orchestrator::LoadOrchestrator`] drives it page by page against a
//! non-blocking fetch collaborator and reports progress to a polling caller.
//! [`log_buffer`] holds the filtered message buffer behind the debug view,
//! [`elements`] the selected graph elements of the network widgets, and the
//! small plain widget-state types live in [`button_clicks`] and
//! [`net_settings`].

pub mod button_clicks;
pub mod elements;
pub mod log_buffer;
pub mod net_settings;
pub mod orchestrator;
pub mod scheduler;
