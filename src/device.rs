use vstd::prelude::*;
use vstd::string::*;
use sysinfo::SystemExt;

verus! {

/// Name of the operating system family reported in every device descriptor.
pub const OS_NAME: &'static str = "Linux";

/// Identity of this SDK as the ingestion service knows it.
pub const SDK_NAME: &'static str = "appcenter.custom";

/// Version of this SDK as the ingestion service knows it.
pub const SDK_VERSION: &'static str = "3.2.2";

/// A snapshot of the host environment, copied into every log entry.
pub struct Device {
    pub model: String,
    pub sdk_name: String,
    pub sdk_version: String,
    pub os_name: String,
    pub os_version: String,
    pub locale: String,
    pub app_version: String,
    pub app_build: String,
}

/// Two descriptors hold the same text in every field.
pub open spec fn same_device(a: Device, b: Device) -> bool {
    &&& a.model@ == b.model@
    &&& a.sdk_name@ == b.sdk_name@
    &&& a.sdk_version@ == b.sdk_version@
    &&& a.os_name@ == b.os_name@
    &&& a.os_version@ == b.os_version@
    &&& a.locale@ == b.locale@
    &&& a.app_version@ == b.app_version@
    &&& a.app_build@ == b.app_build@
}

/// The text of an optional string, or the empty text when it is absent.
pub open spec fn text_or_empty(s: Option<String>) -> Seq<char> {
    match s {
        Some(t) => t@,
        None => Seq::empty(),
    }
}

/// A descriptor of this host for the given application version and build.
pub open spec fn describes_host(d: Device, app_version: Seq<char>, app_build: Option<String>) -> bool {
    &&& d.model@ == "Computer"@
    &&& d.sdk_name@ == SDK_NAME@
    &&& d.sdk_version@ == SDK_VERSION@
    &&& d.os_name@ == OS_NAME@
    &&& d.locale@ == "en_US"@
    &&& d.app_version@ == app_version
    &&& d.app_build@ == text_or_empty(app_build)
}

pub struct Utils {}

/// Relies on sysinfo's `SystemExt::long_os_version`, which reads the host's
/// release files and may find none.
#[verifier::external_body]
fn long_os_version() -> (r: Option<String>) {
    sysinfo::System::new().long_os_version()
}

impl Utils {
    /// The reported operating system version, or "Unknown" when the host
    /// reported none.
    pub fn os_version_or_unknown(reported: Option<String>) -> (r: String)
        ensures
            r@ == match reported {
                Some(v) => v@,
                None => "Unknown"@,
            },
    {
        match reported {
            Some(v) => v,
            None => String::from_str("Unknown"),
        }
    }

    /// The long name of the running operating system, or "Unknown" when the
    /// host does not tell.
    pub fn get_os_version() -> (r: String) {
        Utils::os_version_or_unknown(long_os_version())
    }

    /// The locale reported for this host.
    pub fn get_locale() -> (r: String)
        ensures
            r@ == "en_US"@,
    {
        String::from_str("en_US")
    }

    /// The model name reported for this host.
    pub fn get_model() -> (r: String)
        ensures
            r@ == "Computer"@,
    {
        String::from_str("Computer")
    }
}

impl Device {
    /// A copy that holds the same text in every field.
    pub fn duplicate(&self) -> (r: Device)
        ensures
            same_device(r, *self),
    {
        Device {
            model: self.model.clone(),
            sdk_name: self.sdk_name.clone(),
            sdk_version: self.sdk_version.clone(),
            os_name: self.os_name.clone(),
            os_version: self.os_version.clone(),
            locale: self.locale.clone(),
            app_version: self.app_version.clone(),
            app_build: self.app_build.clone(),
        }
    }

    /// The descriptor of this host for the given application version and
    /// build; an absent build is reported as the empty text.
    pub fn current_device(app_version: &str, app_build: &Option<String>) -> (r: Device)
        ensures
            describes_host(r, app_version@, *app_build),
    {
        let app_build = match app_build {
            Some(b) => b.clone(),
            None => String::new(),
        };
        Device {
            model: Utils::get_model(),
            sdk_name: String::from_str(SDK_NAME),
            sdk_version: String::from_str(SDK_VERSION),
            os_name: String::from_str(OS_NAME),
            os_version: Utils::get_os_version(),
            locale: Utils::get_locale(),
            app_version: String::from_str(app_version),
            app_build,
        }
    }
}

} // verus!
