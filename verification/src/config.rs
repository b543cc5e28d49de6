//! The launch configuration for the supervised server binary, and the
//! derived address text and argument vector handed to it.

use vstd::prelude::*;

use crate::numfmt::dec_seq;
use crate::numfmt::push_dec_u64;

verus! {

/// The inputs of a launch request. Optional fields fall back to the
/// defaults below when absent.
pub struct RustFsConfig {
    /// An explicit path to the server binary, overriding platform
    /// resolution.
    pub binary_path: Option<String>,
    /// The storage data directory; required and must exist before launch.
    pub data_path: String,
    /// The listen port; defaults to 9000.
    pub port: Option<u16>,
    /// The listen host; defaults to 127.0.0.1.
    pub host: Option<String>,
    /// The access key handed to the server; defaults to rustfsadmin.
    pub access_key: Option<String>,
    /// The secret key handed to the server; defaults to rustfsadmin.
    pub secret_key: Option<String>,
    /// Whether the server's console is enabled.
    pub console_enable: bool,
}

impl Default for RustFsConfig {
    /// The default configuration: no binary path, an empty data path, and
    /// the documented fallback values filled in explicitly.
    fn default() -> (r: Self)
        ensures
            r.binary_path is None,
            r.data_path@ == Seq::<char>::empty(),
            r.port == Some(9000u16),
            r.host matches Some(h) && h@ == "127.0.0.1"@,
            r.access_key matches Some(k) && k@ == "rustfsadmin"@,
            r.secret_key matches Some(k) && k@ == "rustfsadmin"@,
            !r.console_enable,
    {
        RustFsConfig {
            binary_path: None,
            data_path: String::new(),
            port: Some(9000),
            host: Some("127.0.0.1".to_owned()),
            access_key: Some("rustfsadmin".to_owned()),
            secret_key: Some("rustfsadmin".to_owned()),
            console_enable: false,
        }
    }
}

/// The listen host: the configured one, or the default.
pub open spec fn host_seq(c: &RustFsConfig) -> Seq<char> {
    match c.host {
        Some(h) => h@,
        None => "127.0.0.1"@,
    }
}

/// The listen port: the configured one, or the default.
pub open spec fn port_val(c: &RustFsConfig) -> int {
    match c.port {
        Some(p) => p as int,
        None => 9000,
    }
}

/// The `host:port` address text handed to the server.
pub open spec fn address_seq(c: &RustFsConfig) -> Seq<char> {
    host_seq(c) + seq![':'] + dec_seq(port_val(c))
}

/// The full argument vector handed to the server binary: the data path,
/// the address, the optional credentials, and the optional console flag.
pub open spec fn launch_args_seq(c: &RustFsConfig) -> Seq<Seq<char>> {
    seq![c.data_path@, "--address"@, address_seq(c)] + (match c.access_key {
        Some(k) => seq!["--access-key"@, k@],
        None => Seq::<Seq<char>>::empty(),
    }) + (match c.secret_key {
        Some(k) => seq!["--secret-key"@, k@],
        None => Seq::<Seq<char>>::empty(),
    }) + (if c.console_enable {
        seq!["--console-enable"@]
    } else {
        Seq::<Seq<char>>::empty()
    })
}

/// Builds the `host:port` address text.
pub fn build_address(c: &RustFsConfig) -> (r: String)
    ensures
        r@ == address_seq(c),
{
    let mut r: String = match &c.host {
        Some(h) => h.clone(),
        None => "127.0.0.1".to_owned(),
    };
    r.push(':');
    let port: u16 = match c.port {
        Some(p) => p,
        None => 9000,
    };
    push_dec_u64(&mut r, port as u64);
    proof {
        assert(r@ =~= address_seq(c));
    }
    r
}

/// Builds the argument vector handed to the server binary.
pub fn build_launch_args(c: &RustFsConfig) -> (r: Vec<String>)
    ensures
        r@.map_values(|s: String| s@) == launch_args_seq(c),
{
    let mut r: Vec<String> = Vec::new();
    r.push(c.data_path.clone());
    r.push("--address".to_owned());
    r.push(build_address(c));
    match &c.access_key {
        Some(k) => {
            r.push("--access-key".to_owned());
            r.push(k.clone());
        },
        None => {},
    }
    match &c.secret_key {
        Some(k) => {
            r.push("--secret-key".to_owned());
            r.push(k.clone());
        },
        None => {},
    }
    if c.console_enable {
        r.push("--console-enable".to_owned());
    }
    proof {
        assert(r@.map_values(|s: String| s@) =~= launch_args_seq(c));
    }
    r
}

} // verus!
