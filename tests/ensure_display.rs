use std::sync::Mutex;
use virtual_display::binding::{Capabilities, DisplayError, DriverFunction};
use virtual_display::manager::{ensure_display_advance, ensure_display_begin, Step};
use virtual_display::registry::MonitorIndexRegistry;

/// A driver whose calls answer in turn from a script; an exhausted script
/// answers with success.
struct ScriptedDriver {
    replies: Vec<Result<(), anyhow::Error>>,
    calls: Vec<String>,
}

impl ScriptedDriver {
    fn new(replies: Vec<Result<(), anyhow::Error>>) -> Self {
        ScriptedDriver { replies, calls: Vec::new() }
    }

    fn answer(&mut self, call: String) -> Result<(), anyhow::Error> {
        self.calls.push(call);
        if self.replies.is_empty() {
            Ok(())
        } else {
            self.replies.remove(0)
        }
    }

    fn plug_ins(&self) -> usize {
        self.calls.iter().filter(|c| c.starts_with("plug_in")).count()
    }
}

fn ensure_display(
    caps: &Capabilities,
    registry: &mut MonitorIndexRegistry,
    driver: &mut ScriptedDriver,
) -> Result<(), DisplayError> {
    let mut step = ensure_display_begin(caps);
    loop {
        let reply = match &step {
            Step::Finished(_) => break,
            Step::CreateDevice => driver.answer("create".to_string()),
            Step::PlugInMonitor { index, width, height, sync } => {
                driver.answer(format!("plug_in {} {} {} {}", index, width, height, sync))
            }
            Step::UpdateMonitorModes { index } => driver.answer(format!("update {}", index)),
        };
        step = ensure_display_advance(caps, registry, &step, reply);
    }
    match step {
        Step::Finished(r) => r,
        _ => unreachable!(),
    }
}

fn full_caps() -> Capabilities {
    let mut caps = Capabilities::none();
    caps.create_device = true;
    caps.plug_in_monitor = true;
    caps.update_monitor_modes = true;
    caps
}

#[test]
fn missing_create_device_fails_without_allocation() {
    let mut caps = full_caps();
    caps.create_device = false;
    let mut reg = MonitorIndexRegistry::new();
    let mut driver = ScriptedDriver::new(vec![]);
    let r = ensure_display(&caps, &mut reg, &mut driver);
    assert!(matches!(r, Err(DisplayError::Unavailable(DriverFunction::CreateDevice))));
    assert!(reg.is_empty());
    assert!(driver.calls.is_empty());
}

#[test]
fn begin_without_create_device_finishes_at_once() {
    let step = ensure_display_begin(&Capabilities::none());
    assert!(matches!(
        step,
        Step::Finished(Err(DisplayError::Unavailable(DriverFunction::CreateDevice)))
    ));
}

#[test]
fn first_call_attaches_default_monitor_once() {
    let caps = full_caps();
    let mut reg = MonitorIndexRegistry::new();
    let mut driver = ScriptedDriver::new(vec![]);
    assert!(ensure_display(&caps, &mut reg, &mut driver).is_ok());
    assert_eq!(reg.len(), 1);
    assert!(reg.contains(0));
    assert_eq!(
        driver.calls,
        vec!["create".to_string(), "plug_in 0 1920 1080 60".to_string(), "update 0".to_string()]
    );
    assert!(ensure_display(&caps, &mut reg, &mut driver).is_ok());
    assert_eq!(reg.len(), 1);
    assert_eq!(driver.plug_ins(), 1);
    assert_eq!(driver.calls.len(), 4);
}

#[test]
fn no_plug_in_still_succeeds_with_empty_registry() {
    let mut caps = full_caps();
    caps.plug_in_monitor = false;
    let mut reg = MonitorIndexRegistry::new();
    let mut driver = ScriptedDriver::new(vec![]);
    assert!(ensure_display(&caps, &mut reg, &mut driver).is_ok());
    assert!(reg.is_empty());
    assert_eq!(driver.calls, vec!["create".to_string()]);
}

#[test]
fn no_update_modes_skips_that_call() {
    let mut caps = full_caps();
    caps.update_monitor_modes = false;
    let mut reg = MonitorIndexRegistry::new();
    let mut driver = ScriptedDriver::new(vec![]);
    assert!(ensure_display(&caps, &mut reg, &mut driver).is_ok());
    assert!(reg.contains(0));
    assert_eq!(driver.calls.len(), 2);
}

#[test]
fn two_callers_behind_one_lock_plug_in_once() {
    let caps = full_caps();
    let shared = Mutex::new(MonitorIndexRegistry::new());
    let mut driver = ScriptedDriver::new(vec![]);
    for _ in 0..2 {
        let mut guard = shared.lock().unwrap();
        assert!(ensure_display(&caps, &mut guard, &mut driver).is_ok());
    }
    assert_eq!(driver.plug_ins(), 1);
    assert_eq!(shared.lock().unwrap().len(), 1);
}

#[test]
fn failed_update_keeps_monitor_recorded() {
    let caps = full_caps();
    let mut reg = MonitorIndexRegistry::new();
    let mut driver =
        ScriptedDriver::new(vec![Ok(()), Ok(()), Err(anyhow::Error::msg("modes rejected"))]);
    let r = ensure_display(&caps, &mut reg, &mut driver);
    match r {
        Err(DisplayError::Driver(e)) => assert_eq!(e.to_string(), "modes rejected"),
        _ => panic!("expected the driver's error"),
    }
    assert!(reg.contains(0));
}

#[test]
fn failed_create_device_propagates_unchanged() {
    let caps = full_caps();
    let mut reg = MonitorIndexRegistry::new();
    let mut driver = ScriptedDriver::new(vec![Err(anyhow::Error::msg("no adapter"))]);
    let r = ensure_display(&caps, &mut reg, &mut driver);
    match r {
        Err(DisplayError::Driver(e)) => assert_eq!(e.to_string(), "no adapter"),
        _ => panic!("expected the driver's error"),
    }
    assert!(reg.is_empty());
    assert_eq!(driver.calls.len(), 1);
}

#[test]
fn failed_plug_in_leaves_index_allocated() {
    let caps = full_caps();
    let mut reg = MonitorIndexRegistry::new();
    let mut driver = ScriptedDriver::new(vec![Ok(()), Err(anyhow::Error::msg("plug-in refused"))]);
    let r = ensure_display(&caps, &mut reg, &mut driver);
    assert!(matches!(r, Err(DisplayError::Driver(_))));
    assert!(reg.contains(0));
    assert_eq!(driver.calls.len(), 2);
}

#[test]
fn populated_registry_skips_default_monitor() {
    let caps = full_caps();
    let mut reg = MonitorIndexRegistry::new();
    reg.insert(3);
    let mut driver = ScriptedDriver::new(vec![]);
    assert!(ensure_display(&caps, &mut reg, &mut driver).is_ok());
    assert_eq!(driver.calls, vec!["create".to_string()]);
    assert_eq!(reg.len(), 1);
}

#[test]
fn advance_after_create_on_empty_registry_plugs_in_index_zero() {
    let caps = full_caps();
    let mut reg = MonitorIndexRegistry::new();
    let step = ensure_display_advance(&caps, &mut reg, &Step::CreateDevice, Ok(()));
    assert!(matches!(
        step,
        Step::PlugInMonitor { index: 0, width: 1920, height: 1080, sync: 60 }
    ));
    assert!(reg.contains(0));
}

#[test]
fn successful_plug_out_frees_the_index() {
    let mut reg = MonitorIndexRegistry::new();
    reg.insert(0);
    reg.insert(1);
    assert!(virtual_display::manager::finish_plug_out(&mut reg, 0, Ok(())).is_ok());
    assert!(!reg.contains(0));
    assert!(reg.contains(1));
    assert_eq!(virtual_display::registry::generate_monitor_index(&mut reg), 0);
}

#[test]
fn failed_plug_out_keeps_the_index() {
    let mut reg = MonitorIndexRegistry::new();
    reg.insert(0);
    let r = virtual_display::manager::finish_plug_out(
        &mut reg,
        0,
        Err(anyhow::Error::msg("busy")),
    );
    match r {
        Err(DisplayError::Driver(e)) => assert_eq!(e.to_string(), "busy"),
        _ => panic!("expected the driver's error"),
    }
    assert!(reg.contains(0));
}
