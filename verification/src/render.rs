//! The calls into the crates that do the rendering.
//!
//! Nothing in this file is proved: each function states what the crate it
//! calls does, and the rest of the library is proved from that.

use crate::exposition::{joined, metric_block, texts, MetricKind};
use itertools::Itertools;
use prometheus_exporter_base::{MetricType, PrometheusInstance, PrometheusMetric};
use std::time::SystemTimeError;
use vstd::prelude::*;

verus! {

/// `std::time::SystemTimeError`: what reading the clock fails with when the
/// clock stands before the Unix epoch. Nothing is known of its content.
#[verifier::external_type_specification]
#[verifier::external_body]
pub struct ExSystemTimeError(SystemTimeError);

/// Renders a metric with one sample, stamped with the current time, by
/// `prometheus_exporter_base`: `PrometheusInstance::new`, `with_label`,
/// `with_value` and `with_current_timestamp` build the sample,
/// `PrometheusMetric::new` and `render_and_append_instance` the metric, and
/// `PrometheusMetric::render` gives the text.
///
/// The crate writes the help line, the type line and the sample line with
/// `format!`, without escaping anything, and prints value and timestamp in
/// decimal. The timestamp is whatever the clock said, in milliseconds since
/// the Unix epoch; the call fails only where the clock stands before it.
#[verifier::external_body]
#[allow(deprecated)]
pub(crate) fn render_stamped(
    name: &str,
    kind: MetricKind,
    help: &str,
    label: &str,
    label_value: &str,
    value: i128,
) -> (r: Result<String, SystemTimeError>)
    ensures
        r matches Ok(text) ==> exists|timestamp: nat|
            timestamp <= u128::MAX && text@ == #[trigger] metric_block(
                name@,
                kind,
                help@,
                label@,
                label_value@,
                value as int,
                timestamp,
            ),
{
    let instance = PrometheusInstance::new()
        .with_label(label, label_value)
        .with_value(value)
        .with_current_timestamp()?;
    let metric_type = match kind {
        MetricKind::Counter => MetricType::Counter,
        MetricKind::Gauge => MetricType::Gauge,
        MetricKind::Histogram => MetricType::Histogram,
        MetricKind::Summary => MetricType::Summary,
    };
    let mut metric = PrometheusMetric::new(name, metric_type, help);
    metric.render_and_append_instance(&instance);
    Ok(metric.render())
}

/// Joins the parts by `itertools::Itertools::join`, which writes each
/// element as it displays, with the separator between each two; no element
/// gives the empty string.
///
/// The crate reserves room for the separators by multiplying their length
/// with the number of parts. With a separator of one character at most,
/// that product cannot overflow for a vector that fits in memory.
#[verifier::external_body]
pub(crate) fn join(parts: Vec<String>, sep: &str) -> (r: String)
    requires
        sep@.len() <= 1,
    ensures
        r@ == joined(texts(parts@), sep@),
{
    parts.into_iter().join(sep)
}

} // verus!
