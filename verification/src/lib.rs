//! Monitoring of periodically scheduled tasks.

use vstd::prelude::*;
use vstd::string::*;

pub mod addr;
pub mod cfg;
pub mod cli;
pub mod cmd;
pub mod db;
pub mod text;
pub mod time;
pub mod util;

pub use cfg::ServerConfig;

verus! {

/// What a server says that has nothing but its configuration.
pub fn dashboard() -> (res: &'static str)
    ensures
        res@ == "Hello World!"@,
{
    "Hello World!"
}

/// How such a server answers a ping.
pub fn ping(token: &str) -> (res: String)
    ensures
        res@ == "pinged "@ + token@,
{
    let mut res: String = "pinged ".to_string();
    res.append(token);
    res
}

} // verus!
