//! Diagnostic-session state.

use vstd::prelude::*;
use crate::error::Obd2Error;
use crate::protocol::service::{ActuatorCommand, DiagSession};
use crate::text::str_eq;

verus! {

/// State of the active diagnostic session.
#[derive(Debug, Clone, PartialEq, Eq)]
pub enum SessionState {
    /// Default session: no special access.
    Default,
    /// Extended session, with the modules unlocked by security access.
    Extended { unlocked_modules: Vec<String> },
    /// Programming session (for reflash; the library does not flash).
    Programming,
}

impl Default for SessionState {
    fn default() -> (s: Self)
        ensures
            s is Default,
    {
        SessionState::Default
    }
}

/// The Mode 10 sub-function that enters a session.
pub open spec fn session_code(s: DiagSession) -> u8 {
    match s {
        DiagSession::Default => 0x01,
        DiagSession::Programming => 0x02,
        DiagSession::Extended => 0x03,
    }
}

pub fn session_subfunction(s: DiagSession) -> (b: u8)
    ensures
        b == session_code(s),
{
    match s {
        DiagSession::Default => 0x01,
        DiagSession::Programming => 0x02,
        DiagSession::Extended => 0x03,
    }
}

/// The session state after entering a session: an extended session starts
/// with no module unlocked.
pub fn state_for_session(s: DiagSession) -> (st: SessionState)
    ensures
        s is Default ==> st is Default,
        s is Programming ==> st is Programming,
        s is Extended ==> (st matches SessionState::Extended { unlocked_modules } && unlocked_modules@.len() == 0),
{
    match s {
        DiagSession::Default => SessionState::Default,
        DiagSession::Extended => SessionState::Extended { unlocked_modules: Vec::new() },
        DiagSession::Programming => SessionState::Programming,
    }
}

/// Whether a security seed needs a key: an empty seed is an error, an
/// all-zero seed means the module is already unlocked.
pub fn seed_needs_key(seed: &[u8]) -> (r: Result<bool, Obd2Error>)
    ensures
        seed@.len() == 0 ==> (r matches Err(Obd2Error::Adapter(m)) && m@ == "empty seed from Mode 27"@),
        seed@.len() > 0 ==> r == Result::<bool, Obd2Error>::Ok(exists|i: int| 0 <= i < seed@.len() && seed@[i] != 0),
{
    if seed.len() == 0 {
        return Err(Obd2Error::Adapter(String::from_str("empty seed from Mode 27")));
    }
    let mut i: usize = 0;
    while i < seed.len()
        invariant
            i <= seed.len(),
            forall|j: int| 0 <= j < i ==> seed@[j] == 0,
        decreases seed.len() - i,
    {
        if seed[i] != 0 {
            return Ok(true);
        }
        i = i + 1;
    }
    Ok(false)
}

/// The data of the Mode 27 request that sends a key: sub-function 2, then
/// the key.
pub fn key_request_data(key: &[u8]) -> (d: Vec<u8>)
    ensures
        d@ == seq![0x02u8] + key@,
{
    let mut d: Vec<u8> = vec![0x02];
    let mut i: usize = 0;
    while i < key.len()
        invariant
            i <= key.len(),
            d@ == seq![0x02u8] + key@.take(i as int),
        decreases key.len() - i,
    {
        d.push(key[i]);
        proof {
            assert(key@.take(i + 1) =~= key@.take(i as int).push(key@[i as int]));
        }
        i = i + 1;
    }
    proof {
        assert(key@.take(key.len() as int) =~= key@);
    }
    d
}

/// Whether a module name is among the unlocked ones.
pub open spec fn lists_module(mods: Seq<String>, module: Seq<char>) -> bool {
    exists|i: int| 0 <= i < mods.len() && (#[trigger] mods[i])@ == module
}

fn module_listed(mods: &Vec<String>, module: &str) -> (r: bool)
    ensures
        r == lists_module(mods@, module@),
{
    let mut i: usize = 0;
    while i < mods.len()
        invariant
            i <= mods.len(),
            forall|j: int| 0 <= j < i ==> (#[trigger] mods@[j])@ != module@,
        decreases mods.len() - i,
    {
        if str_eq(mods[i].as_str(), module) {
            return true;
        }
        i = i + 1;
    }
    false
}

/// Record that security access unlocked a module: added to the extended
/// session's unlocked modules (once), or an extended session with just that
/// module is entered.
pub fn unlock_module(state: &mut SessionState, module: &str)
    ensures
        match *old(state) {
            SessionState::Extended { unlocked_modules: old_mods } => *final(state) matches SessionState::Extended { unlocked_modules }
                && if lists_module(old_mods@, module@) {
                    unlocked_modules@ == old_mods@
                } else {
                    unlocked_modules@.len() == old_mods@.len() + 1 && unlocked_modules@.drop_last() == old_mods@
                        && unlocked_modules@.last()@ == module@
                },
            _ => *final(state) matches SessionState::Extended { unlocked_modules } && unlocked_modules@.len() == 1
                && unlocked_modules@[0]@ == module@,
        },
{
    match state {
        SessionState::Extended { unlocked_modules } => {
            if !module_listed(unlocked_modules, module) {
                unlocked_modules.push(String::from_str(module));
                proof {
                    assert(unlocked_modules@.drop_last() =~= old(state)->unlocked_modules@);
                }
            }
        },
        _ => {
            *state = SessionState::Extended { unlocked_modules: vec![String::from_str(module)] };
        },
    }
}

/// Whether actuator control is allowed on a module: it was unlocked in the
/// extended session.
pub fn actuator_allowed(state: &SessionState, module: &str) -> (r: bool)
    ensures
        r == (state matches SessionState::Extended { unlocked_modules } && lists_module(unlocked_modules@, module@)),
{
    match state {
        SessionState::Extended { unlocked_modules } => module_listed(unlocked_modules, module),
        _ => false,
    }
}

/// The data of a Mode 2F actuator request: the DID big-endian, then `00`
/// to return control, `03` to activate, or `03` and the adjustment bytes.
pub open spec fn actuator_data(did: u16, command: ActuatorCommand) -> Seq<u8> {
    seq![(did / 256) as u8, (did % 256) as u8] + match command {
        ActuatorCommand::ReturnToEcu => seq![0x00u8],
        ActuatorCommand::Activate => seq![0x03u8],
        ActuatorCommand::Adjust(bytes) => seq![0x03u8] + bytes@,
    }
}

pub fn actuator_request_data(did: u16, command: &ActuatorCommand) -> (d: Vec<u8>)
    ensures
        d@ == actuator_data(did, *command),
{
    let mut d: Vec<u8> = vec![(did / 256) as u8, (did % 256) as u8];
    match command {
        ActuatorCommand::ReturnToEcu => d.push(0x00),
        ActuatorCommand::Activate => d.push(0x03),
        ActuatorCommand::Adjust(bytes) => {
            d.push(0x03);
            let ghost start = d@;
            let mut i: usize = 0;
            while i < bytes.len()
                invariant
                    i <= bytes.len(),
                    d@ == start + bytes@.take(i as int),
                decreases bytes.len() - i,
            {
                d.push(bytes[i]);
                proof {
                    assert(bytes@.take(i + 1) =~= bytes@.take(i as int).push(bytes@[i as int]));
                }
                i = i + 1;
            }
            proof {
                assert(bytes@.take(bytes.len() as int) =~= bytes@);
            }
        },
    }
    proof {
        assert(d@ =~= actuator_data(did, *command));
    }
    d
}

/// The data of the Mode 2F request that returns control to the ECU.
pub fn actuator_release_data(did: u16) -> (d: Vec<u8>)
    ensures
        d@ == actuator_data(did, ActuatorCommand::ReturnToEcu),
{
    let d: Vec<u8> = vec![(did / 256) as u8, (did % 256) as u8, 0x00];
    proof {
        assert(d@ =~= actuator_data(did, ActuatorCommand::ReturnToEcu));
    }
    d
}

} // verus!
