//! One statistic on its way to the exposition text: the value as it came
//! from the daemon, the number it is published as, and its rendered block.

use crate::duration::{Duration, NANOS_PER_SEC};
use crate::exposition::{metric_block, MetricKind, MetricSample, INSTANCE_LABEL};
use crate::render::render_stamped;
use std::time::SystemTimeError;
use vstd::prelude::*;

verus! {

/// A value that can be published as the number of a sample. Each kind of
/// source value has one conversion, and none of them loses more than the
/// fraction of a second.
pub trait IntoNumMetric: Sized {
    /// The number that the value is published as.
    spec fn num_metric(&self) -> int;

    /// Converts the value into the number that is written on the wire.
    fn into_num_metric(self) -> (n: i128)
        ensures
            n == self.num_metric(),
    ;
}

/// A span of time is published as its whole seconds.
impl IntoNumMetric for Duration {
    open spec fn num_metric(&self) -> int {
        (self@ / (NANOS_PER_SEC as nat)) as int
    }

    fn into_num_metric(self) -> (n: i128) {
        self.as_secs() as i128
    }
}

impl IntoNumMetric for u8 {
    open spec fn num_metric(&self) -> int {
        *self as int
    }

    fn into_num_metric(self) -> (n: i128) {
        self as i128
    }
}

impl IntoNumMetric for u32 {
    open spec fn num_metric(&self) -> int {
        *self as int
    }

    fn into_num_metric(self) -> (n: i128) {
        self as i128
    }
}

impl IntoNumMetric for i32 {
    open spec fn num_metric(&self) -> int {
        *self as int
    }

    fn into_num_metric(self) -> (n: i128) {
        self as i128
    }
}

/// Why a metric could not be rendered.
#[derive(Clone, Copy, Debug, PartialEq, Eq)]
pub enum FormatError {
    /// The clock could not give the time of the reading.
    Timestamp,
}

/// A statistic that is ready to be rendered: a counter with a fixed name
/// and description, the value as the daemon gave it, and the label value
/// that tells the instance it was read on.
pub struct Metric<'a, T: IntoNumMetric> {
    name: &'static str,
    value: T,
    description: &'static str,
    instance: &'a str,
}

impl<'a, T: IntoNumMetric> View for Metric<'a, T> {
    type V = MetricSample;

    closed spec fn view(&self) -> MetricSample {
        MetricSample {
            name: self.name@,
            value: self.value.num_metric(),
            description: self.description@,
            kind: MetricKind::Counter,
            instance: self.instance@,
        }
    }
}

/// The rendered block of one metric: its help line, its type line and its
/// sample line, each closed by a line feed.
pub struct RenderedMetric {
    text: String,
}

impl View for RenderedMetric {
    type V = Seq<char>;

    closed spec fn view(&self) -> Seq<char> {
        self.text@
    }
}

impl RenderedMetric {
    /// What has become of a rendering: the text as it came, or the failure
    /// of the clock.
    pub fn from_outcome(outcome: Result<String, SystemTimeError>) -> (r: Result<
        RenderedMetric,
        FormatError,
    >)
        ensures
            match outcome {
                Ok(text) => r matches Ok(block) && block@ == text@,
                Err(_) => r == Err::<RenderedMetric, FormatError>(FormatError::Timestamp),
            },
    {
        match outcome {
            Ok(text) => Ok(RenderedMetric { text }),
            Err(_) => Err(FormatError::Timestamp),
        }
    }

    /// The text of the block.
    pub fn render(&self) -> (text: String)
        ensures
            text@ == self@,
    {
        self.text.clone()
    }
}

impl<'a, T: IntoNumMetric> Metric<'a, T> {
    /// A counter named `name` and described by `description`, with the
    /// value as read on `instance`.
    pub fn new(name: &'static str, value: T, description: &'static str, instance: &'a str) -> (m:
        Self)
        ensures
            m@ == (MetricSample {
                name: name@,
                value: value.num_metric(),
                description: description@,
                kind: MetricKind::Counter,
                instance: instance@,
            }),
    {
        Metric { name, value, description, instance }
    }

    /// Renders the metric, stamped with the time of the call. The block is
    /// that of the sample at some reading of the clock; the one failure is
    /// that of the clock.
    pub fn into_metric(self) -> (r: Result<RenderedMetric, FormatError>)
        ensures
            match r {
                Ok(block) => exists|timestamp: nat|
                    timestamp <= u128::MAX && block@ == #[trigger] self@.block(timestamp),
                Err(e) => e == FormatError::Timestamp,
            },
    {
        let value = self.value.into_num_metric();
        let outcome = render_stamped(
            self.name,
            MetricKind::Counter,
            self.description,
            INSTANCE_LABEL,
            self.instance,
            value,
        );
        proof {
            if outcome is Ok {
                let text = outcome->Ok_0;
                let timestamp = choose|timestamp: nat|
                    timestamp <= u128::MAX && text@ == #[trigger] metric_block(
                        self.name@,
                        MetricKind::Counter,
                        self.description@,
                        INSTANCE_LABEL@,
                        self.instance@,
                        value as int,
                        timestamp,
                    );
                assert(text@ == self@.block(timestamp));
            }
        }
        RenderedMetric::from_outcome(outcome)
    }
}

} // verus!
