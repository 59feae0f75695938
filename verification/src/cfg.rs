//! A configuration that is written in code.

use vstd::prelude::*;
use vstd::string::*;

use crate::addr::SocketAddr;
use crate::time::Duration;

verus! {

/// What to serve, and where.
#[derive(Debug)]
pub struct ServerConfig {
    pub listen_addr: SocketAddr,
    pub pings: Vec<PingConfig>,
}

/// A scheduled task.
#[derive(Debug)]
pub struct PingConfig {
    /// Token used in ping URL, unique identifier.
    pub token: String,
    /// Name of the ping to display on dashboard and in reports.
    pub name: String,
    /// Expected amount of time between pings.
    pub period: Duration,
    /// Amount of time after a missed deadline before this item is considered to be in error state.
    pub grace: Duration,
}

/// A scheduled task, in mathematical terms.
pub struct PingConfigSpec {
    pub token: Seq<char>,
    pub name: Seq<char>,
    /// in nanoseconds
    pub period: int,
    /// in nanoseconds
    pub grace: int,
}

impl View for PingConfig {
    type V = PingConfigSpec;

    open spec fn view(&self) -> PingConfigSpec {
        PingConfigSpec {
            token: self.token@,
            name: self.name@,
            period: self.period@,
            grace: self.grace@,
        }
    }
}

/// The loopback address of a host.
pub const LOCALHOST: u32 = 0x7f00_0001;

impl ServerConfig {
    /// The scheduled tasks.
    pub open spec fn tasks(&self) -> Seq<PingConfigSpec> {
        self.pings@.map_values(|p: PingConfig| p@)
    }

    /// A configuration without any tasks.
    pub fn new() -> (res: Self)
        ensures
            res.listen_addr == (SocketAddr::V4 { ip: LOCALHOST, port: 3000 }),
            res.tasks() == Seq::<PingConfigSpec>::empty(),
    {
        let res = ServerConfig {
            listen_addr: SocketAddr::V4 { ip: LOCALHOST, port: 3000 },
            pings: Vec::new(),
        };
        assert(res.tasks() =~= Seq::<PingConfigSpec>::empty());
        res
    }

    /// Adds a task.
    pub fn ping(&mut self, token: &str, name: &str, period: Duration, grace: Duration)
        ensures
            final(self).listen_addr == old(self).listen_addr,
            final(self).tasks() == old(self).tasks().push(
                PingConfigSpec { token: token@, name: name@, period: period@, grace: grace@ },
            ),
    {
        self.pings.push(
            PingConfig { token: token.to_string(), name: name.to_string(), period, grace },
        );
        assert(self.tasks() =~= old(self).tasks().push(
            PingConfigSpec { token: token@, name: name@, period: period@, grace: grace@ },
        ));
    }
}

/// The tasks are those that were added, each as it was.
pub proof fn law_tasks_as_added(cfg: ServerConfig, i: int)
    requires
        0 <= i < cfg.pings.len(),
    ensures
        cfg.tasks().len() == cfg.pings.len(),
        cfg.tasks()[i].token == cfg.pings[i].token@,
        cfg.tasks()[i].name == cfg.pings[i].name@,
        cfg.tasks()[i].period == cfg.pings[i].period@,
        cfg.tasks()[i].grace == cfg.pings[i].grace@,
{
}

} // verus!
