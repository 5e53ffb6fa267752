//! What the driver binary is called, which of its entry points were resolved,
//! and the values handed to it.

use vstd::prelude::*;
use vstd::string::StringExecFns;

verus! {

/// Base name of the driver binary; the platform decides prefix and suffix.
pub const LIB_NAME_VIRTUAL_DISPLAY: &'static str = "dylib_virtual_display";

pub const DEFAULT_WIDTH: u32 = 1920;

pub const DEFAULT_HEIGHT: u32 = 1080;

pub const DEFAULT_REFRESH_RATE: u32 = 60;

pub const SECONDARY_WIDTH: u32 = 1280;

pub const SECONDARY_HEIGHT: u32 = 720;

pub const SECONDARY_REFRESH_RATE: u32 = 60;

/// Relies on `anyhow::Error`, the error a driver entry point reports: it is
/// only carried through, never looked into.
#[verifier::external_type_specification]
#[verifier::external_body]
pub struct ExAnyhowError(anyhow::Error);

/// The platform families whose dynamic-library naming differs.
#[derive(Clone, Copy, Debug, PartialEq, Eq, Structural)]
pub enum Platform {
    Windows,
    Unix,
    MacOs,
}

/// File name under which the driver binary `base` is looked up on `platform`.
pub open spec fn lib_file_name(platform: Platform, base: Seq<char>) -> Seq<char> {
    match platform {
        Platform::Windows => base + ".dll"@,
        Platform::Unix => "lib"@ + base + ".so"@,
        Platform::MacOs => "lib"@ + base + ".dylib"@,
    }
}

/// The file name of the driver binary on `platform`.
pub fn get_lib_name(platform: Platform) -> (r: String)
    ensures
        r@ == lib_file_name(platform, LIB_NAME_VIRTUAL_DISPLAY@),
{
    match platform {
        Platform::Windows => {
            let mut name = String::from_str(LIB_NAME_VIRTUAL_DISPLAY);
            name.append(".dll");
            name
        },
        Platform::Unix => {
            let mut name = String::from_str("lib");
            name.append(LIB_NAME_VIRTUAL_DISPLAY);
            name.append(".so");
            name
        },
        Platform::MacOs => {
            let mut name = String::from_str("lib");
            name.append(LIB_NAME_VIRTUAL_DISPLAY);
            name.append(".dylib");
            name
        },
    }
}

/// One entry point of the driver binary.
#[derive(Clone, Copy, Debug, PartialEq, Eq, Structural)]
pub enum DriverFunction {
    GetDriverInstallPath,
    IsDeviceCreated,
    CloseDevice,
    CreateDevice,
    PlugInMonitor,
    PlugOutMonitor,
    UpdateMonitorModes,
}

pub open spec fn entry_point_name(f: DriverFunction) -> Seq<char> {
    match f {
        DriverFunction::GetDriverInstallPath => "GetDriverInstallPath"@,
        DriverFunction::IsDeviceCreated => "IsDeviceCreated"@,
        DriverFunction::CloseDevice => "CloseDevice"@,
        DriverFunction::CreateDevice => "CreateDevice"@,
        DriverFunction::PlugInMonitor => "PlugInMonitor"@,
        DriverFunction::PlugOutMonitor => "PlugOutMonitor"@,
        DriverFunction::UpdateMonitorModes => "UpdateMonitorModes"@,
    }
}

impl DriverFunction {
    /// The name under which the driver exports this entry point.
    pub fn name(&self) -> (r: &'static str)
        ensures
            r@ == entry_point_name(*self),
    {
        match self {
            DriverFunction::GetDriverInstallPath => "GetDriverInstallPath",
            DriverFunction::IsDeviceCreated => "IsDeviceCreated",
            DriverFunction::CloseDevice => "CloseDevice",
            DriverFunction::CreateDevice => "CreateDevice",
            DriverFunction::PlugInMonitor => "PlugInMonitor",
            DriverFunction::PlugOutMonitor => "PlugOutMonitor",
            DriverFunction::UpdateMonitorModes => "UpdateMonitorModes",
        }
    }
}

/// Which entry points the loaded driver binary exposes. Each may be absent on
/// its own; a binary that failed to load exposes none.
#[derive(Clone, Copy, Debug, PartialEq, Eq, Structural)]
pub struct Capabilities {
    pub get_driver_install_path: bool,
    pub is_device_created: bool,
    pub close_device: bool,
    pub create_device: bool,
    pub plug_in_monitor: bool,
    pub plug_out_monitor: bool,
    pub update_monitor_modes: bool,
}

pub open spec fn has_function(caps: Capabilities, f: DriverFunction) -> bool {
    match f {
        DriverFunction::GetDriverInstallPath => caps.get_driver_install_path,
        DriverFunction::IsDeviceCreated => caps.is_device_created,
        DriverFunction::CloseDevice => caps.close_device,
        DriverFunction::CreateDevice => caps.create_device,
        DriverFunction::PlugInMonitor => caps.plug_in_monitor,
        DriverFunction::PlugOutMonitor => caps.plug_out_monitor,
        DriverFunction::UpdateMonitorModes => caps.update_monitor_modes,
    }
}

impl Capabilities {
    /// What a binding exposes when the driver binary could not be loaded.
    pub fn none() -> (r: Self)
        ensures
            forall|f: DriverFunction| !has_function(r, f),
    {
        Capabilities {
            get_driver_install_path: false,
            is_device_created: false,
            close_device: false,
            create_device: false,
            plug_in_monitor: false,
            plug_out_monitor: false,
            update_monitor_modes: false,
        }
    }

    pub fn has(&self, f: DriverFunction) -> (r: bool)
        ensures
            r == has_function(*self, f),
    {
        match f {
            DriverFunction::GetDriverInstallPath => self.get_driver_install_path,
            DriverFunction::IsDeviceCreated => self.is_device_created,
            DriverFunction::CloseDevice => self.close_device,
            DriverFunction::CreateDevice => self.create_device,
            DriverFunction::PlugInMonitor => self.plug_in_monitor,
            DriverFunction::PlugOutMonitor => self.plug_out_monitor,
            DriverFunction::UpdateMonitorModes => self.update_monitor_modes,
        }
    }

    /// `Ok` when the entry point `f` is exposed, else the error naming it.
    pub fn require(&self, f: DriverFunction) -> (r: Result<(), DisplayError>)
        ensures
            has_function(*self, f) ==> r == Ok::<(), DisplayError>(()),
            !has_function(*self, f) ==> r == Err::<(), DisplayError>(DisplayError::Unavailable(f)),
    {
        if self.has(f) {
            Ok(())
        } else {
            Err(DisplayError::Unavailable(f))
        }
    }
}

/// One resolution and refresh combination a monitor supports.
#[derive(Clone, Copy, Debug, PartialEq, Eq, Structural)]
pub struct MonitorMode {
    pub width: u32,
    pub height: u32,
    pub sync: u32,
}

/// The modes a default monitor offers, most preferred first.
pub open spec fn default_modes() -> Seq<MonitorMode> {
    seq![
        MonitorMode { width: DEFAULT_WIDTH, height: DEFAULT_HEIGHT, sync: DEFAULT_REFRESH_RATE },
        MonitorMode { width: SECONDARY_WIDTH, height: SECONDARY_HEIGHT, sync: SECONDARY_REFRESH_RATE },
    ]
}

pub fn default_monitor_modes() -> (r: Vec<MonitorMode>)
    ensures
        r@ == default_modes(),
{
    let r = vec![
        MonitorMode { width: DEFAULT_WIDTH, height: DEFAULT_HEIGHT, sync: DEFAULT_REFRESH_RATE },
        MonitorMode { width: SECONDARY_WIDTH, height: SECONDARY_HEIGHT, sync: SECONDARY_REFRESH_RATE },
    ];
    assert(r@ =~= default_modes());
    r
}

/// Why bringing the display up failed.
#[derive(Debug)]
pub enum DisplayError {
    /// A required entry point is not exposed by the driver.
    Unavailable(DriverFunction),
    /// A driver entry point reported failure; its error is kept as it came.
    Driver(anyhow::Error),
}

} // verus!
