use instance_bootstrap::app::{App, AppData, Lifecycle, LoopAction, LoopEvent};
use instance_bootstrap::name::ExtensionName;
use instance_bootstrap::request::InstanceRequest;

fn running() -> App {
    let required = vec![ExtensionName::from_bytes(b"VK_KHR_surface")];
    App::new(InstanceRequest::plan(&required, false, false, &Vec::new()).unwrap())
}

const EVENTS: [LoopEvent; 6] = [
    LoopEvent::MainEventsCleared,
    LoopEvent::CloseRequested,
    LoopEvent::DeviceEvent,
    LoopEvent::RedrawEventsCleared,
    LoopEvent::NewEvents,
    LoopEvent::Other,
];

#[test]
fn a_new_application_runs() {
    let app = running();
    assert_eq!(app.state(), Lifecycle::Running);
    assert!(app.is_live());
    assert_eq!(app.request().extensions, vec![ExtensionName::from_bytes(b"VK_KHR_surface")]);
}

#[test]
fn rendering_succeeds_and_changes_nothing() {
    let mut app = running();
    assert_eq!(app.render(), Ok(()));
    assert_eq!(app.state(), Lifecycle::Running);
    assert_eq!(app.render(), Ok(()));
    assert!(app.is_live());
}

#[test]
fn a_running_application_draws_when_a_frame_is_due() {
    let mut app = running();
    assert_eq!(app.on_event(LoopEvent::MainEventsCleared), LoopAction::Render);
    assert_eq!(app.state(), Lifecycle::Running);
    assert_eq!(app.on_event(LoopEvent::MainEventsCleared), LoopAction::Render);
}

#[test]
fn a_running_application_reports_what_it_does_not_know() {
    let mut app = running();
    assert_eq!(app.on_event(LoopEvent::Other), LoopAction::Report);
    assert_eq!(app.on_event(LoopEvent::DeviceEvent), LoopAction::Ignore);
    assert_eq!(app.on_event(LoopEvent::RedrawEventsCleared), LoopAction::Ignore);
    assert_eq!(app.on_event(LoopEvent::NewEvents), LoopAction::Ignore);
    assert_eq!(app.state(), Lifecycle::Running);
}

#[test]
fn a_close_request_starts_the_shutdown() {
    let mut app = running();
    assert_eq!(app.on_event(LoopEvent::CloseRequested), LoopAction::Teardown);
    assert_eq!(app.state(), Lifecycle::ShuttingDown);
    assert!(app.is_live());
    app.destroy();
    assert_eq!(app.state(), Lifecycle::Destroyed);
    assert!(!app.is_live());
}

#[test]
fn the_release_is_asked_for_once() {
    let mut app = running();
    assert_eq!(app.on_event(LoopEvent::CloseRequested), LoopAction::Teardown);
    assert_eq!(app.on_event(LoopEvent::CloseRequested), LoopAction::Exit);
    assert_eq!(app.state(), Lifecycle::ShuttingDown);
    app.destroy();
    assert_eq!(app.on_event(LoopEvent::CloseRequested), LoopAction::Exit);
    assert_eq!(app.state(), Lifecycle::Destroyed);
}

#[test]
fn no_frame_is_drawn_after_a_close_request() {
    let mut app = running();
    app.on_event(LoopEvent::CloseRequested);
    assert_eq!(app.on_event(LoopEvent::MainEventsCleared), LoopAction::Report);
    app.destroy();
    assert_eq!(app.on_event(LoopEvent::MainEventsCleared), LoopAction::Report);
    assert_eq!(app.on_event(LoopEvent::Other), LoopAction::Report);
    assert_eq!(app.on_event(LoopEvent::DeviceEvent), LoopAction::Ignore);
    assert_eq!(app.on_event(LoopEvent::RedrawEventsCleared), LoopAction::Ignore);
    assert_eq!(app.on_event(LoopEvent::NewEvents), LoopAction::Ignore);
}

#[test]
fn a_released_instance_stays_released() {
    let mut app = running();
    app.destroy();
    for event in EVENTS {
        let action = app.on_event(event);
        assert_ne!(action, LoopAction::Render);
        assert_ne!(action, LoopAction::Teardown);
        assert_eq!(app.state(), Lifecycle::Destroyed);
    }
}

#[test]
fn an_instance_can_be_released_without_a_close_request() {
    let mut app = running();
    app.destroy();
    assert_eq!(app.state(), Lifecycle::Destroyed);
    assert_eq!(app.request().flags, 0);
}

#[test]
fn the_application_data_is_empty() {
    let data = AppData::default();
    let copy = data.clone();
    assert_eq!(format!("{:?}", copy), "AppData");
}
