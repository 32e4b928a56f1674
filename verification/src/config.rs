//! The client's configuration: named broker profiles, one of them active.

use crate::error::CliError;
use crate::maps::NameMap;
use vstd::prelude::*;

verus! {

/// Where a broker's HTTP API is, and the token to use with it.
pub struct BrokerProfile {
    pub broker_ip: String,
    pub broker_api_port: usize,
    pub token: Option<String>,
}

/// The characters of a profile.
pub struct ProfileModel {
    pub broker_ip: Seq<char>,
    pub broker_api_port: usize,
    pub token: Option<Seq<char>>,
}

impl View for BrokerProfile {
    type V = ProfileModel;

    open spec fn view(&self) -> ProfileModel {
        ProfileModel {
            broker_ip: self.broker_ip@,
            broker_api_port: self.broker_api_port,
            token: match self.token {
                Some(t) => Some(t@),
                None => None,
            },
        }
    }
}

/// The profiles by name, and the name of the active one.
pub struct AetherConfig {
    pub profiles: NameMap<BrokerProfile>,
    pub active: Option<String>,
}

/// What a profile lookup answers: the active profile, or why there is none.
pub open spec fn active_profile_of(cfg: AetherConfig, r: Result<BrokerProfile, CliError>) -> bool {
    match cfg.active {
        None => r matches Err(CliError::BrokerProfileResolveError(m)) && m@ == "There's no active default profile."@,
        Some(a) => if cfg.profiles@.contains_key(a@) {
            r matches Ok(p) && p@ == cfg.profiles@[a@]@
        } else {
            r matches Err(CliError::BrokerProfileResolveError(m))
                && m@ == "Could not get active profile for unexpected reasons."@
        },
    }
}

impl BrokerProfile {
    /// A profile for the broker at `broker_ip:broker_api_port` with `token`.
    pub fn new(broker_ip: &str, broker_api_port: usize, token: &str) -> (r: BrokerProfile)
        ensures
            r@ == (ProfileModel { broker_ip: broker_ip@, broker_api_port, token: Some(token@) }),
    {
        BrokerProfile { broker_ip: broker_ip.to_owned(), broker_api_port, token: Some(token.to_owned()) }
    }

    /// A copy of this profile.
    pub fn duplicate(&self) -> (r: BrokerProfile)
        ensures
            r@ == self@,
    {
        let token = match &self.token {
            Some(t) => Some(t.clone()),
            None => None,
        };
        BrokerProfile { broker_ip: self.broker_ip.clone(), broker_api_port: self.broker_api_port, token }
    }

    /// The broker to talk to: the one given in full on the command line, or
    /// else the active profile of the configuration that `load_config`
    /// reads, whose failure is passed on.
    pub fn resolve<F: FnOnce() -> Result<AetherConfig, CliError>>(
        broker_ip: Option<String>,
        broker_api_port: Option<usize>,
        token: Option<String>,
        load_config: F,
    ) -> (r: Result<BrokerProfile, CliError>)
        requires
            call_requires(load_config, ()),
            forall|c: Result<AetherConfig, CliError>|
                #[trigger] call_ensures(load_config, (), c) ==> (c matches Ok(cfg) ==> cfg.profiles.wf()),
        ensures
            broker_ip is Some && broker_api_port is Some && token is Some ==> (r matches Ok(p) && p@ == (
            ProfileModel {
                broker_ip: broker_ip->Some_0@,
                broker_api_port: broker_api_port->Some_0,
                token: Some(token->Some_0@),
            })),
            !(broker_ip is Some && broker_api_port is Some && token is Some) ==> exists|
                c: Result<AetherConfig, CliError>,
            |
                call_ensures(load_config, (), c) && match c {
                    Err(e) => r == Err::<BrokerProfile, CliError>(e),
                    Ok(cfg) => active_profile_of(cfg, r),
                },
    {
        match (broker_ip, broker_api_port, token) {
            (Some(ip), Some(port), Some(t)) => {
                return Ok(BrokerProfile { broker_ip: ip, broker_api_port: port, token: Some(t) });
            },
            _ => {},
        }
        let loaded = load_config();
        match loaded {
            Err(e) => Err(e),
            Ok(cfg) => cfg.active_profile(),
        }
    }
}

impl AetherConfig {
    /// A configuration with no profile and none active.
    pub fn empty() -> (r: AetherConfig)
        ensures
            r.profiles.wf(),
            r.profiles@ == Map::<Seq<char>, BrokerProfile>::empty(),
            r.active is None,
    {
        AetherConfig { profiles: NameMap::new(), active: None }
    }

    /// The active profile.
    pub fn active_profile(&self) -> (r: Result<BrokerProfile, CliError>)
        requires
            self.profiles.wf(),
        ensures
            active_profile_of(*self, r),
    {
        match &self.active {
            None => Err(CliError::BrokerProfileResolveError("There's no active default profile.".to_owned())),
            Some(a) => match self.profiles.get(a.as_str()) {
                Some(p) => Ok(p.duplicate()),
                None => Err(
                    CliError::BrokerProfileResolveError(
                        "Could not get active profile for unexpected reasons.".to_owned(),
                    ),
                ),
            },
        }
    }
}

} // verus!
