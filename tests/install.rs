use trace_profiler::layers::Capabilities;
use trace_profiler::profiler::{InitError, Profiler};

#[test]
fn second_install_fails() {
    let caps = Capabilities { trace_file: false, realtime: false };
    let first = Profiler::init(caps, tracing::Dispatch::none(), None);
    assert!(first.is_ok());
    let second = Profiler::init(caps, tracing::Dispatch::none(), None);
    assert!(matches!(second, Err(InitError::AlreadyInstalled)));
    assert_eq!(
        InitError::AlreadyInstalled.message(),
        "Tracer could not set the global default subscriber."
    );
    let session = first.unwrap();
    assert_eq!(session.describe(), "Profiler ---- Chrome? false, Tracy false");
}
