//! The metrics that the echo worker reports.

use vstd::prelude::*;

verus! {

/// Tag of a latency sample. The server counts one thing only: echoes that
/// were answered.
#[derive(Clone, Copy, Debug, PartialEq, Eq, Hash, Structural)]
pub enum Metric {
    /// A datagram was received and its reply handed to the stack.
    Okay,
}

impl Metric {
    /// The text under which the collector lists this metric.
    pub open spec fn spec_label(self) -> Seq<char> {
        match self {
            Metric::Okay => "ok"@,
        }
    }

    /// Renders the metric as the collector shows it.
    pub fn label(&self) -> (text: String)
        ensures
            text@ == self.spec_label(),
    {
        match self {
            Metric::Okay => "ok".to_owned(),
        }
    }
}

} // verus!
