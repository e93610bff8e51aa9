//! Laws of the settings and of the bootstrap.
use vstd::prelude::*;
use crate::bootstrap::{endpoint_host, Bootstrap};
use crate::bootstrap;
use crate::laws::text as text_laws;
use crate::settings;
use crate::settings::{
    bootstrap_path, container_name, engine_binary, loopback_port, owning_service,
    resolve_device_id, setting_or, setting_value, writable_root,
};
use crate::text;
use crate::text::{parse_u16, trim};

verus! {

/// Whether a setting holds `value`, with any white space around it.
pub open spec fn holds(setting: Option<&str>, value: Seq<char>) -> bool {
    setting is Some && exists|a: Seq<char>, b: Seq<char>|
        text_laws::blank(a) && text_laws::blank(b) && text_laws::bare(value) && setting->0@
            == #[trigger] (a + value + b)
}

/// Whether a setting is not there, or holds white space alone.
pub open spec fn unset(setting: Option<&str>) -> bool {
    setting is None || text_laws::blank(setting->0@)
}

proof fn lemma_holds(setting: Option<&str>, value: Seq<char>)
    requires
        holds(setting, value),
    ensures
        text::trimmed(setting->0@) == value,
        value.len() > 0,
{
    let (a, b) = choose|a: Seq<char>, b: Seq<char>|
        text_laws::blank(a) && text_laws::blank(b) && text_laws::bare(value) && setting->0@
            == #[trigger] (a + value + b);
    text_laws::lemma_trimmed(a, value, b);
}

proof fn lemma_unset(setting: Option<&str>)
    requires
        unset(setting),
    ensures
        setting is Some ==> text::trimmed(setting->0@).len() == 0,
{
    if setting is Some {
        text_laws::lemma_trimmed_blank(setting->0@);
    }
}

/// A setting is what it holds, white space around it aside, and one that holds nothing is none.
pub proof fn law_a_setting_is_what_it_holds(
    setting: Option<&str>,
    value: Seq<char>,
    default: &str,
    r: Option<String>,
    q: String,
)
    requires
        call_ensures(setting_value, (setting,), r),
        call_ensures(setting_or, (setting, default), q),
    ensures
        holds(setting, value) ==> r is Some && r->0@ == value && q@ == value,
        unset(setting) ==> r is None && q@ == default@,
{
    if holds(setting, value) {
        lemma_holds(setting, value);
    }
    if unset(setting) {
        lemma_unset(setting);
    }
}

/// The engine, the container and the owning unit are those that are configured; else the engine is
/// `docker`, the container is `avocado-dev`, and no unit owns it.
pub proof fn law_names_are_configured_or_default(
    setting: Option<&str>,
    value: Seq<char>,
    engine: String,
    container: String,
    service: Option<String>,
)
    requires
        call_ensures(engine_binary, (setting,), engine),
        call_ensures(container_name, (setting,), container),
        call_ensures(owning_service, (setting,), service),
    ensures
        holds(setting, value) ==> engine@ == value && container@ == value && service is Some
            && service->0@ == value,
        unset(setting) ==> engine@ == "docker"@ && container@ == "avocado-dev"@ && service is None,
{
    if holds(setting, value) {
        lemma_holds(setting, value);
    }
    if unset(setting) {
        lemma_unset(setting);
    }
}

/// The device is who its setting says; else what its host is called; else unknown.
pub proof fn law_identity_comes_from_the_setting_then_the_host(
    setting: Option<&str>,
    hostname: Option<&str>,
    value: Seq<char>,
    r: String,
)
    requires
        call_ensures(resolve_device_id, (setting, hostname), r),
    ensures
        holds(setting, value) ==> r@ == value,
        unset(setting) && holds(hostname, value) ==> r@ == value,
        unset(setting) && unset(hostname) ==> r@ == "unknown"@,
{
    if holds(setting, value) {
        lemma_holds(setting, value);
    }
    if unset(setting) {
        lemma_unset(setting);
        if holds(hostname, value) {
            lemma_holds(hostname, value);
        }
        if unset(hostname) {
            lemma_unset(hostname);
        }
    }
}

/// A path that is set is taken as it stands, white space and all; else it is on the writable
/// partition.
pub proof fn law_paths_are_taken_as_they_stand(setting: Option<&str>, b: String, w: String)
    requires
        call_ensures(bootstrap_path, (setting,), b),
        call_ensures(writable_root, (setting,), w),
    ensures
        setting is Some ==> b@ == setting->0@ && w@ == setting->0@,
        setting is None ==> b@ == "/var/lib/avocado/container-dev/bootstrap.json"@ && w@
            == "/var/lib/avocado/container-dev"@,
{
}

/// The port is the number that the setting reads as once it is trimmed; where it reads as none, or
/// there is no setting, it is 15151.
pub proof fn law_port_is_the_number_that_is_set(
    setting: Option<&str>,
    bare: &str,
    number: Option<u16>,
    r: u16,
)
    requires
        call_ensures(loopback_port, (setting,), r),
        setting is Some ==> call_ensures(trim, (setting->0,), bare),
        call_ensures(parse_u16, (bare,), number),
    ensures
        setting is Some && number is Some ==> r == number->0,
        setting is Some && number is None ==> r == 15151,
        setting is None ==> r == 15151,
{
}

/// Every port can be set.
pub proof fn law_every_port_can_be_set(setting: Option<&str>, port: u16, r: u16)
    requires
        call_ensures(loopback_port, (setting,), r),
        holds(setting, text::decimal(port as nat)),
    ensures
        r == port,
{
    lemma_holds(setting, text::decimal(port as nat));
    text::law_decimal_reads_back(port as nat);
    let s = text::decimal(port as nat);
    assert(text::is_digit(s[0]));
    assert(text::without_plus(s) == s);
}

/// Two bootstraps are of one session exactly where the token, both endpoints and the CA are the
/// same in both.
pub proof fn law_any_change_ends_the_session(a: Bootstrap, b: Bootstrap, r: bool)
    requires
        call_ensures(Bootstrap::same_session_as, (&a, &b), r),
    ensures
        a.read_token@ != b.read_token@ ==> !r,
        a.bulk_endpoint@ != b.bulk_endpoint@ ==> !r,
        a.ws_endpoint@ != b.ws_endpoint@ ==> !r,
        a.ca_cert_pem@ != b.ca_cert_pem@ ==> !r,
        !r ==> a.read_token@ != b.read_token@ || a.bulk_endpoint@ != b.bulk_endpoint@
            || a.ws_endpoint@ != b.ws_endpoint@ || a.ca_cert_pem@ != b.ca_cert_pem@,
{
}

/// The host of an endpoint is what comes before its last colon, all of it, and an endpoint without
/// a colon is its own host.
pub proof fn law_host_is_what_precedes_the_port(
    endpoint: &str,
    host: Seq<char>,
    port: Seq<char>,
    r: &str,
)
    requires
        call_ensures(endpoint_host, (endpoint,), r),
    ensures
        endpoint@ == host.push(':') + port && !port.contains(':') ==> r@ == host,
        !endpoint@.contains(':') ==> r@ == endpoint@,
{
    if endpoint@ == host.push(':') + port && !port.contains(':') {
        assert(endpoint@[host.len() as int] == ':');
        assert(bootstrap::host_part(endpoint@, host));
        bootstrap::law_host_is_unique(endpoint@, host, r@);
    }
}

/// Each setting has its one name, the agent's own but for the device's identity.
pub proof fn law_each_setting_has_its_name()
    ensures
        settings::BOOTSTRAP_PATH_ENV@ == "AVOCADO_CONTAINER_DEV_BOOTSTRAP"@,
        settings::DEVICE_ID_ENV@ == "AVOCADO_DEVICE_ID"@,
        settings::LOOPBACK_PORT_ENV@ == "AVOCADO_CONTAINER_DEV_LOOPBACK_PORT"@,
        settings::ENGINE_ENV@ == "AVOCADO_CONTAINER_DEV_ENGINE"@,
        settings::CONTAINER_ENV@ == "AVOCADO_CONTAINER_DEV_CONTAINER"@,
        settings::STATE_ROOT_ENV@ == "AVOCADO_CONTAINER_DEV_STATE_ROOT"@,
        settings::SERVICE_ENV@ == "AVOCADO_CONTAINER_DEV_SERVICE"@,
{
}

} // verus!
