//! The settings record of the panel.

use vstd::prelude::*;
use crate::error::ServiceError;

verus! {

/// User settings. Read-only once loaded.
#[derive(Debug, PartialEq, Eq)]
pub struct Config {
    /// Delay before the panel hides itself, in milliseconds.
    pub auto_hide_delay: u64,
    /// Time between two scheduled refreshes, in milliseconds.
    pub refresh_interval: u64,
    pub show_battery_levels: bool,
    pub show_device_addresses: bool,
    pub window_width: i32,
    pub window_height: i32,
    pub theme: String,
    /// When false, power and device commands are accepted and reported as
    /// successful without reaching the Bluetooth adapter.
    pub enable_bluetooth_functionality: bool,
}

/// What a `Config` holds, as mathematical values.
pub struct ConfigView {
    pub auto_hide_delay: u64,
    pub refresh_interval: u64,
    pub show_battery_levels: bool,
    pub show_device_addresses: bool,
    pub window_width: i32,
    pub window_height: i32,
    pub theme: Seq<char>,
    pub enable_bluetooth_functionality: bool,
}

impl View for Config {
    type V = ConfigView;

    open spec fn view(&self) -> ConfigView {
        ConfigView {
            auto_hide_delay: self.auto_hide_delay,
            refresh_interval: self.refresh_interval,
            show_battery_levels: self.show_battery_levels,
            show_device_addresses: self.show_device_addresses,
            window_width: self.window_width,
            window_height: self.window_height,
            theme: self.theme@,
            enable_bluetooth_functionality: self.enable_bluetooth_functionality,
        }
    }
}

/// What was found where the settings are stored.
#[derive(Debug, PartialEq, Eq)]
pub enum StoredSettings {
    /// There is no place for settings on this system.
    Unlocated,
    /// The settings file does not exist.
    Missing,
    /// The settings file cannot be read.
    Unreadable,
    /// The settings file does not hold settings.
    Malformed,
    /// The settings file holds these settings.
    Found(Config),
}

/// The settings to run with, and what was absorbed in getting them.
#[derive(Debug, PartialEq, Eq)]
pub struct LoadedConfig {
    pub config: Config,
    /// `SettingsLoadFailure` where the defaults were taken: they should
    /// then be written back, as far as that is possible.
    pub condition: Option<ServiceError>,
}

impl Config {
    /// Settles the settings to run with. Stored settings are taken as they
    /// are. Where none are found, for whatever reason, the defaults are
    /// taken and the failure is reported, never raised.
    pub fn load(stored: StoredSettings) -> (loaded: LoadedConfig)
        ensures
            match stored {
                StoredSettings::Found(config) => loaded.config == config
                    && loaded.condition is None,
                _ => loaded.config@ == Config::defaults() && loaded.condition == Some(
                    ServiceError::SettingsLoadFailure,
                ),
            },
    {
        match stored {
            StoredSettings::Found(config) => LoadedConfig { config, condition: None },
            _ => LoadedConfig {
                config: Config::default(),
                condition: Some(ServiceError::SettingsLoadFailure),
            },
        }
    }

    /// The settings used when none are stored.
    pub open spec fn defaults() -> ConfigView {
        ConfigView {
            auto_hide_delay: 100,
            refresh_interval: 5000,
            show_battery_levels: true,
            show_device_addresses: true,
            window_width: 300,
            window_height: 400,
            theme: "auto"@,
            enable_bluetooth_functionality: true,
        }
    }
}

impl Default for Config {
    fn default() -> (config: Self)
        ensures
            config@ == Config::defaults(),
    {
        Config {
            auto_hide_delay: 100,
            refresh_interval: 5000,
            show_battery_levels: true,
            show_device_addresses: true,
            window_width: 300,
            window_height: 400,
            theme: "auto".to_string(),
            enable_bluetooth_functionality: true,
        }
    }
}

impl Clone for Config {
    fn clone(&self) -> (copy: Self)
        ensures
            copy == *self,
    {
        Config {
            auto_hide_delay: self.auto_hide_delay,
            refresh_interval: self.refresh_interval,
            show_battery_levels: self.show_battery_levels,
            show_device_addresses: self.show_device_addresses,
            window_width: self.window_width,
            window_height: self.window_height,
            theme: self.theme.clone(),
            enable_bluetooth_functionality: self.enable_bluetooth_functionality,
        }
    }
}

} // verus!
