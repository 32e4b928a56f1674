//! What the panels of the terminal interface show.

pub mod menu;

use crate::config::{AetherConfig, BrokerProfile};
use crate::text::{decimal, decimal_chars};
use vstd::prelude::*;
use vstd::string::StringSliceAdditionalSpecFns;
use vstd::string::StrSliceExecFns;
use vstd::utf8::encode_utf8;

verus! {

/// The profile panel: the active profile of a configuration.
pub struct ProfileSection<'a> {
    cfg: &'a AetherConfig,
    active: bool,
}

/// What the profile panel shows: the active profile's name, address and
/// port, or that there is none.
pub enum ProfileContent {
    Details { name: String, broker_ip: String, broker_port: String },
    NoActiveProfile,
}

impl<'a> ProfileSection<'a> {
    pub fn new(cfg: &'a AetherConfig, active: bool) -> (r: ProfileSection<'a>)
        ensures
            r.config() == *cfg,
            r.is_active() == active,
    {
        ProfileSection { cfg, active }
    }

    pub closed spec fn config(&self) -> AetherConfig {
        *self.cfg
    }

    /// Whether the panel has the focus.
    pub closed spec fn is_active(&self) -> bool {
        self.active
    }

    /// Whether to highlight the border.
    pub fn active(&self) -> (r: bool)
        ensures
            r == self.is_active(),
    {
        self.active
    }

    /// What to show: the details of the active profile when one is active
    /// and on file, else that none is active.
    pub fn content(&self) -> (r: ProfileContent)
        requires
            self.config().profiles.wf(),
        ensures
            match self.config().active {
                Some(a) if self.config().profiles@.contains_key(a@) => r matches ProfileContent::Details {
                    name,
                    broker_ip,
                    broker_port,
                } && name@ == a@ && broker_ip@ == self.config().profiles@[a@].broker_ip@ && broker_port@
                    == decimal_chars(self.config().profiles@[a@].broker_api_port as nat),
                _ => r is NoActiveProfile,
            },
    {
        match &self.cfg.active {
            Some(a) => match self.cfg.profiles.get(a.as_str()) {
                Some(p) => ProfileContent::Details {
                    name: a.clone(),
                    broker_ip: p.broker_ip.clone(),
                    broker_port: decimal(p.broker_api_port),
                },
                None => ProfileContent::NoActiveProfile,
            },
            None => ProfileContent::NoActiveProfile,
        }
    }
}

/// The menu panel; its border is highlighted when it has the focus.
pub struct MenuSection {
    active: bool,
}

impl MenuSection {
    pub fn new(active: bool) -> (r: MenuSection)
        ensures
            r.is_active() == active,
    {
        MenuSection { active }
    }

    /// Whether the panel has the focus.
    pub closed spec fn is_active(&self) -> bool {
        self.active
    }

    /// Whether to highlight the border.
    pub fn active(&self) -> (r: bool)
        ensures
            r == self.is_active(),
    {
        self.active
    }
}

/// The popup that lists the profiles to choose from.
pub struct ProfileSelectionPopup<'a> {
    cfg: &'a AetherConfig,
}

/// The length in bytes of the line `{name}: {broker_ip}:{broker_api_port}`
/// that lists a profile (the port's digits take one byte each).
pub open spec fn line_len(name: Seq<char>, p: BrokerProfile) -> nat {
    encode_utf8(name).len() + 2 + encode_utf8(p.broker_ip@).len() + 1 + decimal_chars(p.broker_api_port as nat).len()
}

impl<'a> ProfileSelectionPopup<'a> {
    pub fn new(cfg: &'a AetherConfig) -> (r: ProfileSelectionPopup<'a>)
        ensures
            r.config() == *cfg,
    {
        ProfileSelectionPopup { cfg }
    }

    pub closed spec fn config(&self) -> AetherConfig {
        *self.cfg
    }

    /// The length of the longest line of the list, or `None` without
    /// profiles.
    pub fn max_line_len(&self) -> (r: Option<usize>)
        requires
            forall|i: int|
                0 <= i < self.config().profiles.entries().len() ==> line_len(
                    #[trigger] self.config().profiles.entries()[i].0,
                    self.config().profiles.entries()[i].1,
                ) <= usize::MAX,
        ensures
            self.config().profiles.entries().len() == 0 ==> r is None,
            self.config().profiles.entries().len() > 0 ==> (r matches Some(m) && (exists|i: int|
                0 <= i < self.config().profiles.entries().len() && m == line_len(
                    self.config().profiles.entries()[i].0,
                    self.config().profiles.entries()[i].1,
                )) && forall|i: int|
                0 <= i < self.config().profiles.entries().len() ==> line_len(
                    #[trigger] self.config().profiles.entries()[i].0,
                    self.config().profiles.entries()[i].1,
                ) <= m),
    {
        let n = self.cfg.profiles.len();
        if n < 1 {
            return None;
        }
        let ghost es = self.cfg.profiles.entries();
        let mut best: usize = 0;
        let mut i: usize = 0;
        while i < n
            invariant
                n == es.len(),
                es == self.cfg.profiles.entries(),
                i <= n,
                forall|j: int| 0 <= j < es.len() ==> line_len(#[trigger] es[j].0, es[j].1) <= usize::MAX,
                forall|j: int| 0 <= j < i ==> line_len(#[trigger] es[j].0, es[j].1) <= best,
                i > 0 ==> exists|j: int| 0 <= j < i && best == line_len(es[j].0, es[j].1),
            decreases n - i,
        {
            let (name, prof) = self.cfg.profiles.entry(i);
            let port = decimal(prof.broker_api_port);
            let ghost want = line_len(es[i as int].0, es[i as int].1);
            assert(line_len(es[i as int].0, es[i as int].1) <= usize::MAX);
            let len = name.as_str().len() + 2 + prof.broker_ip.as_str().len() + 1 + port.as_str().unicode_len();
            assert(len == want);
            if i == 0 || len > best {
                best = len;
            }
            i = i + 1;
        }
        Some(best)
    }

    /// How many profiles there are, as the popup's height counts them
    /// (wrapping at 65536, as a cast to `u16` does).
    pub fn num_profiles(&self) -> (r: u16)
        ensures
            r == self.config().profiles.entries().len() as u16,
    {
        self.cfg.profiles.len() as u16
    }
}

} // verus!
