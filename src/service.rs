//! The systemd unit that runs the daemon as a service.

use vstd::prelude::*;

verus! {

/// The text of the unit file.
pub open spec fn service_unit_text() -> Seq<char> {
    "
[Unit]
Description=phantom_ci
After=network.target

[Service]
User=root
Group=root
Type=simple
RemainAfterExit=no
Restart=always
ExecStart=/root/.cargo/bin/phantom_ci

[Install]
WantedBy=default.target
"@
}

/// Where systemd looks for the unit of service `f`.
pub fn default_systemd_service_dir(f: &str) -> (r: String)
    ensures
        r@ == "/usr/lib/systemd/system/"@ + f@ + ".service"@,
{
    let mut s = String::from_str("/usr/lib/systemd/system/");
    s.append(f);
    s.append(".service");
    s
}

/// The unit file that runs the daemon as root, restarting it when it stops.
pub fn default_systemd_service_file() -> (r: &'static str)
    ensures
        r@ == service_unit_text(),
{
    "
[Unit]
Description=phantom_ci
After=network.target

[Service]
User=root
Group=root
Type=simple
RemainAfterExit=no
Restart=always
ExecStart=/root/.cargo/bin/phantom_ci

[Install]
WantedBy=default.target
"
}

} // verus!
