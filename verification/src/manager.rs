use crate::association::AssocAction;
use crate::association::AssocEvent;
use crate::association::AssocState;
use crate::association::spec_step;
use crate::association::step;
use crate::readiness::GateStep;
use crate::readiness::LinkObservation;
use crate::readiness::gate_step;
use crate::readiness::spec_ready;
use crate::request::RESPONSE_CAPACITY;
use crate::request::ReadEvent;
use crate::request::RequestError;
use crate::request::read_to_end;
use crate::request::spec_read_concludes;
use crate::request::spec_read_outcome;
use crate::seeds::RandomSeeds;
use crate::seeds::spec_combined;
use vstd::prelude::*;

verus! {

/// Network name and pre-shared key, supplied at boot and immutable for
/// the process lifetime.
#[derive(Debug)]
pub struct Credentials {
    pub ssid: String,
    pub psk: String,
}

/// Whether one stage of the request pipeline succeeded, as reported by
/// the collaborator that ran it.
#[derive(Clone, Copy, Debug, PartialEq, Eq, Structural)]
pub enum StageOutcome {
    Succeeded,
    Failed,
}

/// What a whole request returns, stage by stage: the first failing stage
/// names the error; only when every stage succeeds does the read loop's
/// outcome decide.
pub open spec fn spec_get_outcome(
    dns: StageOutcome,
    connect: StageOutcome,
    tls: StageOutcome,
    send: StageOutcome,
    events: Seq<ReadEvent>,
    deadline: u64,
) -> Result<Seq<u8>, RequestError> {
    if dns is Failed {
        Err(RequestError::DnsFailed)
    } else if connect is Failed {
        Err(RequestError::ConnectFailed)
    } else if tls is Failed {
        Err(RequestError::TlsFailed)
    } else if send is Failed {
        Err(RequestError::SendFailed)
    } else {
        spec_read_outcome(events, Seq::empty(), RESPONSE_CAPACITY as nat, deadline)
    }
}

/// The connectivity manager: owns the credentials, the two random seeds
/// and the association state machine, and fronts the readiness gate and
/// the request executor for the rest of the firmware. Construction is
/// immediate; the firmware then schedules the association machine and the
/// network stack pump as long-running activities and routes their events
/// through this facade.
pub struct Wifi {
    credentials: Credentials,
    seeds: RandomSeeds,
    assoc: AssocState,
}

impl Wifi {
    /// The association machine's state. Owned exclusively by the machine;
    /// other components observe only derived signals.
    pub closed spec fn spec_assoc(self) -> AssocState {
        self.assoc
    }

    /// The seed of the network stack's transport-layer randomness.
    pub closed spec fn spec_net_seed(self) -> u64 {
        self.seeds.net_seed
    }

    /// The seed of the TLS client's randomness.
    pub closed spec fn spec_tls_seed(self) -> u64 {
        self.seeds.tls_seed
    }

    /// The stored network name.
    pub closed spec fn spec_ssid(self) -> Seq<char> {
        self.credentials.ssid@
    }

    /// The stored pre-shared key.
    pub closed spec fn spec_psk(self) -> Seq<char> {
        self.credentials.psk@
    }

    /// Build the manager: store the credentials for the process lifetime
    /// and pack the four 32-bit hardware draws into the two independent
    /// 64-bit seeds, drawn once and never regenerated. The association
    /// machine starts idle; the firmware delivers its first activation.
    pub fn new(credentials: Credentials, net_lo: u32, net_hi: u32, tls_lo: u32, tls_hi: u32) -> (w:
        Wifi)
        ensures
            w.spec_assoc() == AssocState::Idle,
            w.spec_net_seed() == spec_combined(net_lo, net_hi),
            w.spec_tls_seed() == spec_combined(tls_lo, tls_hi),
            w.spec_ssid() == credentials.ssid@,
            w.spec_psk() == credentials.psk@,
    {
        Wifi {
            credentials,
            seeds: RandomSeeds::from_draws(net_lo, net_hi, tls_lo, tls_hi),
            assoc: AssocState::Idle,
        }
    }

    /// The network seed, handed to the stack once at construction time.
    pub fn net_seed(&self) -> (s: u64)
        ensures
            s == self.spec_net_seed(),
    {
        self.seeds.net_seed
    }

    /// The TLS seed, handed to the TLS client on each request.
    pub fn tls_seed(&self) -> (s: u64)
        ensures
            s == self.spec_tls_seed(),
    {
        self.seeds.tls_seed
    }

    /// Feed one driver or timer event to the association machine and hand
    /// back the action the firmware must perform next. Credentials and
    /// seeds are untouched by any transition: reconnects never regenerate
    /// or weaken either protocol's randomness.
    pub fn on_assoc_event(&mut self, e: AssocEvent) -> (a: AssocAction)
        ensures
            final(self).spec_assoc() == spec_step(old(self).spec_assoc(), e).next,
            a == spec_step(old(self).spec_assoc(), e).action,
            final(self).spec_net_seed() == old(self).spec_net_seed(),
            final(self).spec_tls_seed() == old(self).spec_tls_seed(),
            final(self).spec_ssid() == old(self).spec_ssid(),
            final(self).spec_psk() == old(self).spec_psk(),
    {
        let outcome = step(self.assoc, e);
        self.assoc = outcome.next;
        outcome.action
    }

    /// Walk a sequence of gate polls and report the first at which the
    /// network was usable: the link up and a non-empty lease held, both
    /// at the same instant. `None` means no poll so far was ready and the
    /// firmware keeps polling at the fixed readiness interval — by design
    /// this wait has no timeout of its own.
    pub fn wait_for_connection(&self, polls: &Vec<LinkObservation>) -> (r: Option<usize>)
        ensures
            r matches Some(i) ==> i < polls@.len() && spec_ready(polls@[i as int]) && forall|
                j: int,
            | 0 <= j < i ==> !spec_ready(polls@[j]),
            r is None ==> forall|j: int| 0 <= j < polls@.len() ==> !spec_ready(polls@[j]),
    {
        let mut i: usize = 0;
        while i < polls.len()
            invariant
                i <= polls@.len(),
                forall|j: int| 0 <= j < i ==> !spec_ready(polls@[j]),
            decreases polls@.len() - i,
        {
            match gate_step(&polls[i]) {
                GateStep::Ready => {
                    return Some(i);
                },
                GateStep::Recheck { millis: _ } => {},
            }
            i = i + 1;
        }
        None
    }

    /// Perform one GET: resolve the host, open one TCP connection,
    /// negotiate TLS, send a single request, and run the deadline-bounded
    /// read loop over what the socket reports. Each argument is the
    /// outcome of the corresponding collaborator stage; the first failure
    /// is the call's error and nothing is retried here — retry policy
    /// belongs to the caller. TLS runs with certificate verification
    /// deliberately disabled: a documented trust-everything policy that
    /// production reuse must replace.
    pub fn get(
        &self,
        dns: StageOutcome,
        connect: StageOutcome,
        tls: StageOutcome,
        send: StageOutcome,
        events: &Vec<ReadEvent>,
        deadline: u64,
    ) -> (r: Result<Vec<u8>, RequestError>)
        requires
            dns == StageOutcome::Succeeded && connect == StageOutcome::Succeeded && tls
                == StageOutcome::Succeeded && send == StageOutcome::Succeeded
                ==> spec_read_concludes(events@, 0, RESPONSE_CAPACITY as nat, deadline),
        ensures
            r matches Ok(body) ==> spec_get_outcome(dns, connect, tls, send, events@, deadline)
                == Ok::<Seq<u8>, RequestError>(body@),
            r matches Err(e) ==> spec_get_outcome(dns, connect, tls, send, events@, deadline)
                == Err::<Seq<u8>, RequestError>(e),
    {
        if matches!(dns, StageOutcome::Failed) {
            return Err(RequestError::DnsFailed);
        }
        if matches!(connect, StageOutcome::Failed) {
            return Err(RequestError::ConnectFailed);
        }
        if matches!(tls, StageOutcome::Failed) {
            return Err(RequestError::TlsFailed);
        }
        if matches!(send, StageOutcome::Failed) {
            return Err(RequestError::SendFailed);
        }
        read_to_end(events, RESPONSE_CAPACITY, deadline)
    }
}

} // verus!
