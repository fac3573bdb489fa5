//! The engine of an uptime monitor: a job queue with its workers and cron
//! schedule, the classification of HTTP probes, windowed statistics over the
//! recorded checkins, and the sampling of checkins into plot data.

pub mod checkin;
pub mod create_checkin;
pub mod cron;
pub mod dashboard;
pub mod drawing;
pub mod fixed;
pub mod forms;
pub mod graph;
pub mod interval;
pub mod jobs;
pub mod labels;
pub mod series;
pub mod sidebar;
pub mod site;
pub mod stats;
pub mod store;
pub mod window;
pub mod worker;
