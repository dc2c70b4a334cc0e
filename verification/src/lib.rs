//! Translation of Graylog content-pack dashboards into Grafana dashboards.
//!
//! The source model lives in [`graylog`], the target model and the
//! widget-to-panel translation in [`grafana`], the run options in
//! [`options`], what holds of the translation as a whole in [`laws`], and
//! the string primitives they rely on in [`text`].

pub mod grafana;
pub mod graylog;
pub mod laws;
pub mod options;
pub mod text;
