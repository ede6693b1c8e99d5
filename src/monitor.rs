//! A monitor: one endpoint's settings, its status, and the samples that
//! led to it.

use crate::clock::Moment;
use crate::state::{replay, step, State};
use std::time::Duration;
use vstd::prelude::*;

verus! {

/// An IP address, version 4 or 6.
#[derive(Clone, Copy, Debug, PartialEq, Eq)]
pub enum IpAddress {
    V4([u8; 4]),
    V6 { segments: [u16; 8], flowinfo: u32, scope_id: u32 },
}

/// A resolved socket address: an IP address and a port.
#[derive(Clone, Copy, Debug, PartialEq, Eq)]
pub struct Address {
    pub ip: IpAddress,
    pub port: u16,
}

/// Where and how often one endpoint is probed.
#[derive(Clone, Copy)]
pub struct Config {
    /// The endpoint.
    pub address: Address,
    /// Longest wait for one probe.
    pub timeout: Duration,
    /// Delay between two probes.
    pub interval: Duration,
}

/// A status together with the samples that led to it.
#[derive(Clone, Copy)]
struct Record {
    state: State,
    history: Ghost<Seq<(bool, Moment)>>,
}

impl Record {
    /// The status is always the outcome of the recorded samples.
    #[verifier::type_invariant]
    spec fn replays_history(&self) -> bool {
        self.state@ == replay(self.history@)
    }
}

/// One endpoint under watch.
///
/// The monitor is the single owner of its status record. Samples are
/// recorded through `&mut self` and snapshots are copies taken through
/// `&self`, so a caller that shares a monitor between execution units behind
/// one lock sees each snapshot as the outcome of whole recording calls only.
pub struct Monitor {
    name: String,
    config: Config,
    record: Record,
}

impl Monitor {
    /// Display name of the endpoint.
    pub closed spec fn spec_name(&self) -> Seq<char> {
        self.name@
    }

    /// Settings of the endpoint.
    pub closed spec fn spec_config(&self) -> Config {
        self.config
    }

    /// The samples recorded so far, oldest first, each with its moment.
    pub closed spec fn history(&self) -> Seq<(bool, Moment)> {
        self.record.history@
    }

    /// A monitor of `config.address` that has seen no sample.
    pub fn new(name: String, config: Config) -> (r: Monitor)
        ensures
            r.spec_name() == name@,
            r.spec_config() == config,
            r.history() == Seq::<(bool, Moment)>::empty(),
    {
        let state = State::new();
        let record = Record { state, history: Ghost(Seq::empty()) };
        Monitor { name, config, record }
    }

    /// The endpoint.
    pub fn address(&self) -> (r: Address)
        ensures
            r == self.spec_config().address,
    {
        self.config.address
    }

    /// Display name of the endpoint.
    pub fn name(&self) -> (r: &str)
        ensures
            r@ == self.spec_name(),
    {
        self.name.as_str()
    }

    /// Settings of the endpoint.
    pub fn config(&self) -> (r: Config)
        ensures
            r == self.spec_config(),
    {
        self.config
    }

    /// Records `is_online`, sampled at `at`, and returns the state that it left.
    pub fn record_sample_at(&mut self, is_online: bool, at: Moment) -> (r: State)
        ensures
            final(self).spec_name() == old(self).spec_name(),
            final(self).spec_config() == old(self).spec_config(),
            final(self).history() == old(self).history().push((is_online, at)),
            r@ == replay(final(self).history()),
            r@ == step(replay(old(self).history()), is_online, at),
    {
        proof {
            use_type_invariant(&self.record);
        }
        let ghost h = self.record.history@;
        let ghost next = h.push((is_online, at));
        proof {
            assert(next.drop_last() =~= h);
        }
        let mut state = self.record.state;
        state.set_is_online_at(is_online, at);
        self.record = Record { state, history: Ghost(next) };
        state
    }

    /// Records `is_online`, sampled now, and returns the state that it left.
    pub fn record_sample(&mut self, is_online: bool) -> (r: State)
        ensures
            final(self).spec_name() == old(self).spec_name(),
            final(self).spec_config() == old(self).spec_config(),
            exists|at: Moment| #[trigger]
                final(self).history() == old(self).history().push((is_online, at)),
            r@ == replay(final(self).history()),
    {
        let at = Moment::now();
        self.record_sample_at(is_online, at)
    }

    /// A copy of the current state: the outcome of all samples recorded so far,
    /// and the fresh state while there is none.
    pub fn get_state(&self) -> (r: State)
        ensures
            r@ == replay(self.history()),
    {
        proof {
            use_type_invariant(&self.record);
        }
        self.record.state
    }
}

/// The address to watch among those that a name resolved to: the first one,
/// or none where the name resolved to nothing.
pub fn first_address(candidates: &Vec<Address>) -> (r: Option<Address>)
    ensures
        r == (if candidates.len() > 0 { Some(candidates[0]) } else { None::<Address> }),
{
    if candidates.len() > 0 {
        Some(candidates[0])
    } else {
        None
    }
}

/// One monitor for each `(name, address)` pair, in the order given, each with
/// `timeout` and `interval` and none with a sample yet.
pub fn new_monitors(addresses: &Vec<(String, Address)>, timeout: Duration, interval: Duration) -> (r:
    Vec<Monitor>)
    ensures
        r.len() == addresses.len(),
        forall|i: int|
            0 <= i < r.len() ==> {
                &&& (#[trigger] r[i]).spec_name() == addresses[i].0@
                &&& r[i].spec_config() == (Config { address: addresses[i].1, timeout, interval })
                &&& r[i].history() == Seq::<(bool, Moment)>::empty()
            },
{
    let mut monitors: Vec<Monitor> = Vec::new();
    let mut i: usize = 0;
    while i < addresses.len()
        invariant
            i <= addresses.len(),
            monitors.len() == i,
            forall|j: int|
                0 <= j < i ==> {
                    &&& (#[trigger] monitors[j]).spec_name() == addresses[j].0@
                    &&& monitors[j].spec_config() == (Config {
                        address: addresses[j].1,
                        timeout,
                        interval,
                    })
                    &&& monitors[j].history() == Seq::<(bool, Moment)>::empty()
                },
        decreases addresses.len() - i,
    {
        let name = addresses[i].0.clone();
        let config = Config { address: addresses[i].1, timeout, interval };
        monitors.push(Monitor::new(name, config));
        i = i + 1;
    }
    monitors
}

} // verus!
