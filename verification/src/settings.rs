//! Settings that the environment may override.
use vstd::prelude::*;
use crate::text;

verus! {

/// The writable partition's directory for the state that changes on the device. Never a path on
/// the read-only root file system.
pub const WRITABLE_ROOT: &'static str = "/var/lib/avocado/container-dev";

/// Where the host writes the bootstrap file by default.
pub const DEFAULT_BOOTSTRAP_PATH: &'static str = "/var/lib/avocado/container-dev/bootstrap.json";

/// The loopback port that the device engine pulls from by default.
pub const DEFAULT_LOOPBACK_PORT: u16 = 15151;

/// The container that is restarted by default.
pub const DEFAULT_CONTAINER: &'static str = "avocado-dev";

/// The engine binary that is run by default.
pub const DEFAULT_ENGINE: &'static str = "docker";

/// The identity of a device that has none.
pub const UNKNOWN_DEVICE: &'static str = "unknown";

/// Overrides the bootstrap path.
pub const BOOTSTRAP_PATH_ENV: &'static str = "AVOCADO_CONTAINER_DEV_BOOTSTRAP";

/// Gives the device's identity.
pub const DEVICE_ID_ENV: &'static str = "AVOCADO_DEVICE_ID";

/// Overrides the loopback port.
pub const LOOPBACK_PORT_ENV: &'static str = "AVOCADO_CONTAINER_DEV_LOOPBACK_PORT";

/// Selects the container engine binary.
pub const ENGINE_ENV: &'static str = "AVOCADO_CONTAINER_DEV_ENGINE";

/// Selects the container to restart.
pub const CONTAINER_ENV: &'static str = "AVOCADO_CONTAINER_DEV_CONTAINER";

/// Overrides the directory for writable state.
pub const STATE_ROOT_ENV: &'static str = "AVOCADO_CONTAINER_DEV_STATE_ROOT";

/// Names the systemd unit that owns the container.
pub const SERVICE_ENV: &'static str = "AVOCADO_CONTAINER_DEV_SERVICE";

/// What a setting holds once the white space around it is gone; an empty setting counts as unset.
pub open spec fn set_value(setting: Option<Seq<char>>) -> Option<Seq<char>> {
    match setting {
        Some(v) => if text::trimmed(v).len() > 0 {
            Some(text::trimmed(v))
        } else {
            None
        },
        None => None,
    }
}

/// The text that an optional text holds.
pub open spec fn text_of(t: Option<&str>) -> Option<Seq<char>> {
    match t {
        Some(s) => Some(s@),
        None => None,
    }
}

/// The text that an optional string holds.
pub open spec fn string_of(t: Option<String>) -> Option<Seq<char>> {
    match t {
        Some(s) => Some(s@),
        None => None,
    }
}

/// The text, or `default` where there is none.
pub open spec fn or_default(t: Option<Seq<char>>, default: Seq<char>) -> Seq<char> {
    match t {
        Some(s) => s,
        None => default,
    }
}

/// What a setting holds once the white space around it is gone; an empty setting counts as unset.
pub fn setting_value(setting: Option<&str>) -> (r: Option<String>)
    ensures
        string_of(r) == set_value(text_of(setting)),
{
    match setting {
        Some(v) => {
            let t = text::trim(v);
            if t.is_empty() {
                None
            } else {
                Some(t.to_string())
            }
        },
        None => None,
    }
}

/// What a setting holds, or `default` where it holds nothing.
pub fn setting_or(setting: Option<&str>, default: &str) -> (r: String)
    ensures
        r@ == or_default(set_value(text_of(setting)), default@),
{
    match setting_value(setting) {
        Some(v) => v,
        None => default.to_string(),
    }
}

/// The bootstrap path: the override as it stands, or the default.
pub fn bootstrap_path(setting: Option<&str>) -> (r: String)
    ensures
        r@ == or_default(text_of(setting), DEFAULT_BOOTSTRAP_PATH@),
{
    match setting {
        Some(v) => v.to_string(),
        None => DEFAULT_BOOTSTRAP_PATH.to_string(),
    }
}

/// The directory for writable state: the override as it stands, or the default.
pub fn writable_root(setting: Option<&str>) -> (r: String)
    ensures
        r@ == or_default(text_of(setting), WRITABLE_ROOT@),
{
    match setting {
        Some(v) => v.to_string(),
        None => WRITABLE_ROOT.to_string(),
    }
}

/// The port that a setting spells, white space aside, or the default.
pub open spec fn chosen_port(setting: Option<Seq<char>>) -> u16 {
    match setting {
        Some(v) => match text::spelled_u16(text::trimmed(v)) {
            Some(port) => port,
            None => DEFAULT_LOOPBACK_PORT,
        },
        None => DEFAULT_LOOPBACK_PORT,
    }
}

/// The loopback port: the override where it is a port number, or the default.
pub fn loopback_port(setting: Option<&str>) -> (r: u16)
    ensures
        r == chosen_port(text_of(setting)),
{
    match setting {
        Some(v) => match text::parse_u16(text::trim(v)) {
            Some(port) => port,
            None => DEFAULT_LOOPBACK_PORT,
        },
        None => DEFAULT_LOOPBACK_PORT,
    }
}

/// The device's identity: the one that is configured, else the host name, else `"unknown"`.
pub fn resolve_device_id(setting: Option<&str>, hostname: Option<&str>) -> (r: String)
    ensures
        r@ == or_default(
            set_value(text_of(setting)),
            or_default(set_value(text_of(hostname)), UNKNOWN_DEVICE@),
        ),
{
    match setting_value(setting) {
        Some(id) => id,
        None => setting_or(hostname, UNKNOWN_DEVICE),
    }
}

/// The engine binary: the one that is configured, or `docker`.
pub fn engine_binary(setting: Option<&str>) -> (r: String)
    ensures
        r@ == or_default(set_value(text_of(setting)), DEFAULT_ENGINE@),
{
    setting_or(setting, DEFAULT_ENGINE)
}

/// The container to restart: the one that is configured, or the default.
pub fn container_name(setting: Option<&str>) -> (r: String)
    ensures
        r@ == or_default(set_value(text_of(setting)), DEFAULT_CONTAINER@),
{
    setting_or(setting, DEFAULT_CONTAINER)
}

/// The systemd unit that owns the container, where one is configured.
pub fn owning_service(setting: Option<&str>) -> (r: Option<String>)
    ensures
        string_of(r) == set_value(text_of(setting)),
{
    setting_value(setting)
}

} // verus!
