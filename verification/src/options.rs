//! Startup configuration: resolving the parsed flag values into the
//! server's options.

use vstd::prelude::*;
use vstd::string::StringExecFns;
use crate::content::ServerError;

verus! {

/// The resolved startup options.
#[derive(Debug)]
pub struct ServerOptions {
    pub server_name: String,
    pub address: String,
    pub port: String,
}

/// Resolves the raw flag values: the name and the port are required, the
/// address defaults to `127.0.0.1`. A missing name is reported before a
/// missing port.
pub fn resolve_options(name: Option<String>, address: Option<String>, port: Option<String>) -> (r:
    Result<ServerOptions, ServerError>)
    ensures
        r is Ok <==> name is Some && port is Some,
        r is Ok ==> {
            &&& r->Ok_0.server_name@ == name->Some_0@
            &&& r->Ok_0.port@ == port->Some_0@
            &&& r->Ok_0.address@ == if address is Some {
                address->Some_0@
            } else {
                "127.0.0.1"@
            }
        },
        r is Err ==> r->Err_0.msg@ == if name is None {
            "Error parsing SERVER_NAME flag"@
        } else {
            "Error parsing PORT flag"@
        },
{
    let address = match address {
        Some(val) => val,
        None => String::from_str("127.0.0.1"),
    };
    let server_name = match name {
        Some(val) => val,
        None => {
            return Err(ServerError { msg: String::from_str("Error parsing SERVER_NAME flag") });
        },
    };
    let port = match port {
        Some(val) => val,
        None => {
            return Err(ServerError { msg: String::from_str("Error parsing PORT flag") });
        },
    };
    Ok(ServerOptions { server_name, address, port })
}

} // verus!
