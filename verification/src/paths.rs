//! Where files and sockets are.

use vstd::prelude::*;

use crate::text;
use crate::text::{decimal, same_text};

verus! {

/// Path of the configuration below the data directory.
pub const SETTINGS_FILE: &'static str = "/razercontrol/daemon.json";

/// Path of the control socket, below the runtime directory of the session
/// where there is one.
pub fn socket_path(runtime_dir: Option<String>) -> (path: String)
    ensures
        path@ == (match runtime_dir {
            Some(dir) => dir@ + "/razercontrol-socket"@,
            None => "/tmp/razercontrol-socket"@,
        }),
{
    match runtime_dir {
        Some(dir) => {
            let mut path = dir;
            path.append("/razercontrol-socket");
            path
        },
        None => "/tmp/razercontrol-socket".to_owned(),
    }
}

/// Path of the device list.
pub fn device_file_path(given: Option<String>) -> (path: String)
    ensures
        path@ == (match given {
            Some(p) => p@,
            None => "/usr/share/razercontrol/laptops.json"@,
        }),
{
    match given {
        Some(p) => p,
        None => "/usr/share/razercontrol/laptops.json".to_owned(),
    }
}

/// The data directory: `xdg` unless it is absent or empty, else below the home
/// directory, else /tmp.
pub open spec fn data_directory(xdg: Option<String>, home: Option<String>) -> Seq<char> {
    match xdg {
        Some(x) if x@.len() > 0 => x@,
        _ => match home {
            Some(h) => h@ + "/.local/share"@,
            None => "/tmp"@,
        },
    }
}

/// The data directory of the user.
pub fn get_home_directory(xdg: Option<String>, home: Option<String>) -> (dir: String)
    ensures
        dir@ == data_directory(xdg, home),
{
    if let Some(x) = xdg {
        if x.as_str().unicode_len() > 0 {
            return x;
        }
    }
    match home {
        Some(h) => {
            let mut dir = h;
            dir.append("/.local/share");
            dir
        },
        None => "/tmp".to_owned(),
    }
}

/// Directory of the configuration.
pub fn config_directory(data: &str) -> (dir: String)
    ensures
        dir@ == data@ + "/razercontrol"@,
{
    let mut dir = data.to_owned();
    dir.append("/razercontrol");
    dir
}

/// The configuration file.
pub fn config_path(data: &str) -> (path: String)
    ensures
        path@ == data@ + SETTINGS_FILE@,
{
    let mut path = data.to_owned();
    path.append(SETTINGS_FILE);
    path
}

/// The configuration file of the earlier location, where it is another one.
pub fn legacy_path(home: Option<String>, path: &str) -> (r: Option<String>)
    ensures
        match home {
            Some(h) => {
                let legacy = h@ + "/.local/share"@ + SETTINGS_FILE@;
                if legacy == path@ {
                    r is None
                } else {
                    r matches Some(p) && p@ == legacy
                }
            },
            None => r is None,
        },
{
    match home {
        Some(h) => {
            let mut legacy = h;
            legacy.append("/.local/share");
            legacy.append(SETTINGS_FILE);
            if same_text(legacy.as_str(), path) {
                None
            } else {
                Some(legacy)
            }
        },
        None => None,
    }
}

/// The name under which a migrated file is parked.
pub fn parked_path(path: &str) -> (r: String)
    ensures
        r@ == path@ + ".migrated"@,
{
    let mut r = path.to_owned();
    r.append(".migrated");
    r
}

/// The name under which a file is written before it takes its place.
pub fn temporary_path(path: &str) -> (r: String)
    ensures
        r@ == path@ + ".tmp"@,
{
    let mut r = path.to_owned();
    r.append(".tmp");
    r
}

/// The name under which a damaged file is kept, by the time in seconds.
pub fn quarantine_path(path: &str, seconds: u64) -> (r: String)
    ensures
        r@ == path@ + ".corrupt-"@ + text::dec(seconds as nat),
{
    let mut r = path.to_owned();
    r.append(".corrupt-");
    r.append(decimal(seconds).as_str());
    r
}

} // verus!
