use std::time::Duration;

use eth_trigger::config::{Config, DeviceChoice, TrigByte};
use eth_trigger::trigger::{Action, EngineError, Event, Phase, TriggerControl};

fn config(trig: Option<Vec<TrigByte>>, init_run: bool) -> Config {
    Config::new(init_run, "eth1".to_string(), "udp".to_string(), 10, 3, 12, trig)
}

fn engine() -> TriggerControl {
    TriggerControl::new(config(Some(vec![TrigByte::new(1, 0x34)]), false))
}

fn is_read(a: Action) -> bool {
    matches!(a, Action::ReadNext)
}

#[test]
fn default_config() {
    let c = Config::default();
    assert!(*c.get_init_run());
    assert_eq!(c.get_interface(), "eth0");
    assert_eq!(c.get_filter(), "");
    assert_eq!(c.get_delay_ms(), 100);
    assert_eq!(c.get_delay(), Duration::from_millis(100));
    assert_eq!(c.get_delay().as_millis(), 100);
    assert_eq!(*c.get_frame_count(), 1);
    assert_eq!(*c.get_gpio_pin(), 1);
    assert_eq!(*c.get_trigger_bytes(), Some(vec![]));
}

#[test]
fn delay_in_milliseconds() {
    let c = config(None, true);
    assert_eq!(c.get_delay(), Duration::from_millis(10));
    assert_ne!(c.get_delay(), Duration::from_secs(10));
}

#[test]
fn device_by_name() {
    let c = config(None, true);
    let names = vec!["lo".to_string(), "eth1".to_string(), "eth1".to_string()];
    assert_eq!(c.get_device(&names, true), Ok(DeviceChoice::Named(1)));
    assert_eq!(c.get_device(&names, false), Ok(DeviceChoice::Named(1)));
}

#[test]
fn device_falls_back_to_default() {
    let c = config(None, true);
    let names = vec!["lo".to_string(), "eth0".to_string()];
    assert_eq!(c.get_device(&names, true), Ok(DeviceChoice::Default));
}

#[test]
fn no_device_at_all() {
    let c = config(None, true);
    assert_eq!(c.get_device(&vec![], false), Err(EngineError::DeviceNotFound));
    assert_eq!(c.get_device(&vec!["lo".to_string()], false), Err(EngineError::DeviceNotFound));
}

#[test]
fn new_engine_is_constructed() {
    let e = engine();
    assert!(matches!(e.get_phase(), Phase::Constructed));
    assert_eq!(e.get_gpio().get_pin(), 12);
    assert_eq!(e.get_config().get_filter(), "udp");
}

#[test]
fn full_cycle() {
    let mut e = engine();
    assert!(matches!(e.step(&Event::SessionOpened, false), Action::InstallFilter));
    assert!(matches!(e.get_phase(), Phase::Capturing));
    assert!(is_read(e.step(&Event::FilterInstalled, false)));
    assert!(matches!(e.step(&Event::Packet(vec![0x12, 0x34, 0x56]), false), Action::Burst));
    assert!(matches!(e.get_phase(), Phase::Triggering));
    assert!(is_read(e.step(&Event::BurstFinished, false)));
    assert!(is_read(e.step(&Event::Packet(vec![0x12, 0x35]), false)));
    assert!(is_read(e.step(&Event::ReadFailed, false)));
    assert!(matches!(e.get_phase(), Phase::Capturing));
}

#[test]
fn check_bytes_uses_config() {
    let e = engine();
    assert!(e.check_bytes(&[0x12, 0x34, 0x56]));
    assert!(!e.check_bytes(&[0x34]));
    let any = TriggerControl::new(config(None, true));
    assert!(any.check_bytes(&[]));
}

#[test]
fn cancel_stops_without_error() {
    let mut e = engine();
    e.step(&Event::SessionOpened, false);
    e.step(&Event::FilterInstalled, false);
    assert!(matches!(e.step(&Event::ReadFailed, true), Action::Shutdown(Ok(()))));
    assert!(matches!(e.get_phase(), Phase::Terminated(Ok(()))));
    assert!(matches!(e.step(&Event::Packet(vec![0x12, 0x34]), false), Action::Shutdown(Ok(()))));
}

#[test]
fn cancel_after_unmatched_packet() {
    let mut e = engine();
    e.step(&Event::SessionOpened, false);
    assert!(matches!(e.step(&Event::Packet(vec![0x00]), true), Action::Shutdown(Ok(()))));
}

#[test]
fn matched_packet_bursts_before_cancel() {
    let mut e = engine();
    e.step(&Event::SessionOpened, false);
    assert!(matches!(e.step(&Event::Packet(vec![0x12, 0x34]), true), Action::Burst));
    assert!(matches!(e.step(&Event::BurstFinished, true), Action::Shutdown(Ok(()))));
}

#[test]
fn open_failure_is_fatal() {
    let mut e = engine();
    let a = e.step(&Event::SessionOpenFailed, false);
    assert!(matches!(a, Action::Shutdown(Err(EngineError::CaptureOpenError))));
}

#[test]
fn bad_filter_is_fatal() {
    let mut e = engine();
    e.step(&Event::SessionOpened, false);
    let a = e.step(&Event::FilterRejected, false);
    assert!(matches!(a, Action::Shutdown(Err(EngineError::FilterSyntaxError))));
    assert!(matches!(e.step(&Event::FilterInstalled, false), Action::Shutdown(Err(EngineError::FilterSyntaxError))));
}

#[test]
fn lost_session_is_fatal() {
    let mut e = engine();
    e.step(&Event::SessionOpened, false);
    e.step(&Event::FilterInstalled, false);
    let a = e.step(&Event::SessionLost, false);
    assert!(matches!(a, Action::Shutdown(Err(EngineError::CaptureReadError))));
}

#[test]
fn gpio_open_error_is_a_variant() {
    assert_ne!(EngineError::GpioOpenError, EngineError::CaptureOpenError);
}
