use raug_iced::builder::Graph;
use raug_iced::runtime::{
    AudioCommand, IcedRuntime, IcedRuntimeApp, IcedRuntimeError, IcedRuntimeMessage, StreamHandle,
};
use raug_iced::widgets::{DragNumber, Visual};

fn fresh_app() -> IcedRuntimeApp<DragNumber> {
    IcedRuntimeApp::new(Graph::new(), DragNumber::new(0))
}

#[test]
fn start_twice_acquires_once() {
    let mut app = fresh_app();
    let mut acquisitions = 0;
    for _ in 0..2 {
        match app.update(IcedRuntimeMessage::StartAudio) {
            AudioCommand::Acquire => {
                acquisitions += 1;
                if !app.is_running() {
                    app.finish_start(Ok(StreamHandle { id: 1 })).unwrap();
                }
            }
            AudioCommand::Nothing => {}
            AudioCommand::Release(_) => panic!("start never releases"),
        }
    }
    assert_eq!(acquisitions, 1);
    assert!(app.is_running());
}

#[test]
fn stop_twice_releases_once() {
    let mut app = fresh_app();
    assert_eq!(app.update(IcedRuntimeMessage::StartAudio), AudioCommand::Acquire);
    app.finish_start(Ok(StreamHandle { id: 7 })).unwrap();
    assert!(app.is_running());
    let mut releases = 0;
    for _ in 0..2 {
        if let AudioCommand::Release(h) = app.update(IcedRuntimeMessage::StopAudio) {
            assert_eq!(h, StreamHandle { id: 7 });
            releases += 1;
        }
    }
    assert_eq!(releases, 1);
    assert!(!app.is_running());
}

#[test]
fn stop_in_idle_is_noop() {
    let mut app = fresh_app();
    assert_eq!(app.update(IcedRuntimeMessage::StopAudio), AudioCommand::Nothing);
    assert!(!app.is_running());
}

#[test]
fn start_while_running_keeps_handle() {
    let mut app = fresh_app();
    app.update(IcedRuntimeMessage::StartAudio);
    app.finish_start(Ok(StreamHandle { id: 3 })).unwrap();
    assert_eq!(app.update(IcedRuntimeMessage::StartAudio), AudioCommand::Nothing);
    assert!(app.is_running());
    assert_eq!(
        app.update(IcedRuntimeMessage::StopAudio),
        AudioCommand::Release(StreamHandle { id: 3 })
    );
}

#[test]
fn start_failure_leaves_idle_and_retries() {
    let mut app = fresh_app();
    assert_eq!(app.update(IcedRuntimeMessage::StartAudio), AudioCommand::Acquire);
    let err = IcedRuntimeError::StreamAcquisition("device unavailable".to_string());
    let r = app.finish_start(Err(err.clone()));
    assert_eq!(r, Err(err));
    assert!(!app.is_running());
    assert_eq!(app.update(IcedRuntimeMessage::StartAudio), AudioCommand::Acquire);
    app.finish_start(Ok(StreamHandle { id: 2 })).unwrap();
    assert!(app.is_running());
}

#[test]
fn control_messages_are_forwarded() {
    let mut app = fresh_app();
    assert_eq!(app.update(IcedRuntimeMessage::Message(41)), AudioCommand::Nothing);
    assert!(!app.is_running());
    assert_eq!(app.main_widget().current_value(), 41);
}

#[test]
fn control_messages_keep_lifecycle() {
    let mut app = fresh_app();
    app.update(IcedRuntimeMessage::StartAudio);
    app.finish_start(Ok(StreamHandle { id: 4 })).unwrap();
    assert_eq!(app.update(IcedRuntimeMessage::Message(9)), AudioCommand::Nothing);
    assert!(app.is_running());
}

#[test]
fn view_shows_lifecycle_buttons_then_control() {
    let app = fresh_app();
    let v = app.view();
    assert_eq!(v.len(), 3);
    assert_eq!(v[0], Visual::Button { label: "Start Audio".to_string() });
    assert_eq!(v[1], Visual::Button { label: "Stop Audio".to_string() });
    assert_eq!(v[2], Visual::DragNumber { value: 0 });
}

#[test]
fn title_names_the_engine() {
    let app = fresh_app();
    assert_eq!(app.title(), "raug");
}

#[test]
fn runtime_bundle_becomes_idle_app() {
    let rt = IcedRuntime::new(Graph::new(), DragNumber::new(5));
    let app = rt.into_app();
    assert!(!app.is_running());
    assert_eq!(app.main_widget().current_value(), 5);
}
