//! Which layers a subscriber gets, and in what order.

use vstd::prelude::*;

verus! {

/// The optional sinks that are switched on. The console layer is always
/// present and needs no switch.
#[derive(Clone, Copy, Debug, PartialEq, Eq, Structural)]
pub struct Capabilities {
    /// A trace-event file for a timeline viewer.
    pub trace_file: bool,
    /// A stream to a real-time profiler.
    pub realtime: bool,
}

/// One layer of the subscriber.
#[derive(Clone, Copy, Debug, PartialEq, Eq, Structural)]
pub enum LayerKind {
    Console,
    TraceFile,
    Realtime,
}

/// The console layer, then the trace-file layer if switched on, then the
/// real-time profiler layer if switched on.
pub open spec fn layer_plan_of(c: Capabilities) -> Seq<LayerKind> {
    seq![LayerKind::Console]
        + (if c.trace_file { seq![LayerKind::TraceFile] } else { Seq::empty() })
        + (if c.realtime { seq![LayerKind::Realtime] } else { Seq::empty() })
}

/// The layers to attach for `c`, in the order of attachment.
pub fn layer_plan(c: Capabilities) -> (r: Vec<LayerKind>)
    ensures
        r@ == layer_plan_of(c),
{
    let mut r: Vec<LayerKind> = Vec::new();
    r.push(LayerKind::Console);
    if c.trace_file {
        r.push(LayerKind::TraceFile);
    }
    if c.realtime {
        r.push(LayerKind::Realtime);
    }
    assert(r@ =~= layer_plan_of(c));
    r
}

/// With no optional capability switched on, the console layer is the only
/// one: no trace file and no real-time profiler.
pub proof fn lemma_console_only()
    ensures
        layer_plan_of(Capabilities { trace_file: false, realtime: false }) == seq![LayerKind::Console],
{
    assert(layer_plan_of(Capabilities { trace_file: false, realtime: false }) =~= seq![
        LayerKind::Console,
    ]);
}

/// Switching on one more capability adds exactly one layer, of that kind,
/// and leaves the others (the console layer first among them) as they were.
pub proof fn lemma_each_capability_adds_one_layer(c: Capabilities)
    ensures
        !c.trace_file ==> {
            let w = layer_plan_of(Capabilities { trace_file: true, ..c });
            &&& w.len() == layer_plan_of(c).len() + 1
            &&& w[0] == LayerKind::Console
            &&& w[1] == LayerKind::TraceFile
            &&& w.remove(1) == layer_plan_of(c)
        },
        !c.realtime ==> layer_plan_of(Capabilities { realtime: true, ..c }) == layer_plan_of(c).push(
            LayerKind::Realtime,
        ),
        layer_plan_of(c)[0] == LayerKind::Console,
{
    if !c.trace_file {
        let w = layer_plan_of(Capabilities { trace_file: true, ..c });
        assert(w.remove(1) =~= layer_plan_of(c));
    }
    if !c.realtime {
        assert(layer_plan_of(Capabilities { realtime: true, ..c }) =~= layer_plan_of(c).push(
            LayerKind::Realtime,
        ));
    }
}

} // verus!
