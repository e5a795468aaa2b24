use trace_profiler::layers::{layer_plan, Capabilities, LayerKind};

#[test]
fn console_only() {
    let plan = layer_plan(Capabilities { trace_file: false, realtime: false });
    assert_eq!(plan, vec![LayerKind::Console]);
}

#[test]
fn trace_file_adds_one_layer() {
    let plan = layer_plan(Capabilities { trace_file: true, realtime: false });
    assert_eq!(plan, vec![LayerKind::Console, LayerKind::TraceFile]);
}

#[test]
fn realtime_adds_one_layer() {
    let plan = layer_plan(Capabilities { trace_file: false, realtime: true });
    assert_eq!(plan, vec![LayerKind::Console, LayerKind::Realtime]);
}

#[test]
fn all_layers_in_order() {
    let plan = layer_plan(Capabilities { trace_file: true, realtime: true });
    assert_eq!(plan, vec![LayerKind::Console, LayerKind::TraceFile, LayerKind::Realtime]);
}
