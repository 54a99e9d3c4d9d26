//! The ELM327 initialization sequence as a state machine: reset, STN probe,
//! configuration, automatic protocol detection with explicit probes as the
//! fallback, then the protocol's runtime settings. Each step names the next
//! command to send; the caller sends it and hands back the answer.

use vstd::prelude::*;
use super::{
    copy_info, AdapterEvent, AdapterEventKind, AdapterInfo, InitializationReport, ProbeAttempt,
    ProbeResult, ProtocolSelectionSource,
};
use super::detect::detection;
use super::elm327::{
    classify_probe_result, fallback_protocols, is_default_info, parse_protocol_response,
    probe_outcome, probe_succeeded, protocol_from_response, protocol_policy,
    protocol_policy_commands, selects_protocol, sti_accepted, Elm327State,
};
use crate::error::Obd2Error;
use crate::text::{contains_seq, opt_string_view, str_chars, string_from_chars, trim, trim_chars};
use crate::vehicle::Protocol;

verus! {

broadcast use vstd::string::group_string_axioms;

/// Where initialization stands: which answer it waits for.
#[derive(Debug, Clone, Copy, PartialEq, Eq, Structural)]
pub enum InitStep {
    AwaitReset,
    AwaitStnProbe,
    /// Answer to the configuration command of this index.
    AwaitConfig(u8),
    AwaitAutoProbe,
    AwaitProtocolNumber,
    /// Answer to the command that selects fallback protocol of this index.
    AwaitSelect(u8),
    /// Answer to `0100` after selecting fallback protocol of this index.
    AwaitProbe(u8),
    /// Answer to the runtime-policy command of this index.
    AwaitPolicy(u8),
    Finished,
}

/// What the caller does next.
#[derive(Debug)]
pub enum InitAction {
    /// Send this command (recording its events and recovering from faults).
    Command(String),
    /// Send this command as is.
    RawCommand(String),
    /// Initialization is complete.
    Done(InitializationReport),
    /// Initialization failed.
    Fail(Obd2Error),
}

/// The configuration commands sent after the STN probe, in order: echo,
/// line feeds, headers and spaces off, adaptive timing on, automatic
/// protocol search.
pub open spec fn config_command(i: int) -> Seq<char> {
    seq!["ATE0"@, "ATL0"@, "ATH0"@, "ATS0"@, "ATAT1"@, "ATSP0"@][i]
}

/// The command that selects fallback protocol `i`.
pub open spec fn fallback_command(i: int) -> Seq<char> {
    seq!["ATTP6"@, "ATTP7"@, "ATTP8"@, "ATTP9"@, "ATTP2"@, "ATTP1"@, "ATTP3"@, "ATTP5"@, "ATTP4"@][i]
}

/// Each fallback command selects the fallback protocol of the same index.
pub proof fn lemma_fallback_commands_select(i: int)
    requires
        0 <= i < 9,
    ensures
        selects_protocol(fallback_command(i), fallback_protocols()[i]),
{
    reveal_strlit("ATTP");
    reveal_strlit("ATTP6");
    reveal_strlit("ATTP7");
    reveal_strlit("ATTP8");
    reveal_strlit("ATTP9");
    reveal_strlit("ATTP2");
    reveal_strlit("ATTP1");
    reveal_strlit("ATTP3");
    reveal_strlit("ATTP5");
    reveal_strlit("ATTP4");
    assert("ATTP6"@.subrange(0, 4) =~= "ATTP"@);
    assert("ATTP7"@.subrange(0, 4) =~= "ATTP"@);
    assert("ATTP8"@.subrange(0, 4) =~= "ATTP"@);
    assert("ATTP9"@.subrange(0, 4) =~= "ATTP"@);
    assert("ATTP2"@.subrange(0, 4) =~= "ATTP"@);
    assert("ATTP1"@.subrange(0, 4) =~= "ATTP"@);
    assert("ATTP3"@.subrange(0, 4) =~= "ATTP"@);
    assert("ATTP5"@.subrange(0, 4) =~= "ATTP"@);
    assert("ATTP4"@.subrange(0, 4) =~= "ATTP"@);
}

/// The step after a protocol has been chosen (or not): its runtime policy,
/// if it has one, else the end.
pub open spec fn after_selection(p: Protocol) -> InitStep {
    if p != Protocol::Auto && protocol_policy(p).len() > 0 {
        InitStep::AwaitPolicy(0)
    } else {
        InitStep::Finished
    }
}

/// The next step, given the answer (`None` for a failed exchange) and the
/// protocol selected so far.
pub open spec fn next_step(step: InitStep, answer: Option<Seq<char>>, protocol: Protocol) -> InitStep {
    match step {
        InitStep::AwaitReset => if answer is Some { InitStep::AwaitStnProbe } else { InitStep::Finished },
        InitStep::AwaitStnProbe => InitStep::AwaitConfig(0),
        InitStep::AwaitConfig(i) => if answer is None {
            InitStep::Finished
        } else if i < 5 {
            InitStep::AwaitConfig((i + 1) as u8)
        } else {
            InitStep::AwaitAutoProbe
        },
        InitStep::AwaitAutoProbe => match answer {
            None => InitStep::Finished,
            Some(t) => if contains_seq(t, "41 00"@) || contains_seq(t, "4100"@) {
                InitStep::AwaitProtocolNumber
            } else {
                InitStep::AwaitSelect(0)
            },
        },
        InitStep::AwaitProtocolNumber => after_selection(
            match answer {
                Some(t) => protocol_from_response(t),
                None => protocol,
            },
        ),
        InitStep::AwaitSelect(i) => if answer is Some { InitStep::AwaitProbe(i) } else { InitStep::Finished },
        InitStep::AwaitProbe(i) => match answer {
            None => InitStep::Finished,
            Some(t) => if contains_seq(t, "41 00"@) || contains_seq(t, "4100"@) {
                after_selection(fallback_protocols()[i as int])
            } else if i + 1 < 9 {
                InitStep::AwaitSelect((i + 1) as u8)
            } else {
                after_selection(protocol)
            },
        },
        InitStep::AwaitPolicy(i) => if answer is None {
            InitStep::Finished
        } else if i + 1 < protocol_policy(protocol).len() {
            InitStep::AwaitPolicy((i + 1) as u8)
        } else {
            InitStep::Finished
        },
        InitStep::Finished => InitStep::Finished,
    }
}

/// The command that a waiting step has just sent, and so the one the
/// caller sends on entering it.
pub open spec fn step_command(step: InitStep, protocol: Protocol) -> Seq<char> {
    match step {
        InitStep::AwaitReset => "ATZ"@,
        InitStep::AwaitStnProbe => "STI"@,
        InitStep::AwaitConfig(i) => config_command(i as int),
        InitStep::AwaitAutoProbe => "0100"@,
        InitStep::AwaitProtocolNumber => "ATDPN"@,
        InitStep::AwaitSelect(i) => fallback_command(i as int),
        InitStep::AwaitProbe(_) => "0100"@,
        InitStep::AwaitPolicy(i) => protocol_policy(protocol)[i as int],
        InitStep::Finished => Seq::empty(),
    }
}

/// Whether an action asks for the command of `step`: raw for the runtime
/// policy, with event recording otherwise.
pub open spec fn asks_for(action: InitAction, step: InitStep, protocol: Protocol) -> bool {
    if step is AwaitPolicy {
        action matches InitAction::RawCommand(c) && c@ == step_command(step, protocol)
    } else {
        action matches InitAction::Command(c) && c@ == step_command(step, protocol)
    }
}

/// Whether `a` is the probe attempt recorded for answer `t`.
pub open spec fn is_attempt(a: ProbeAttempt, p: Protocol, source: ProtocolSelectionSource, t: Seq<char>) -> bool {
    &&& a.protocol == p
    &&& a.source == source
    &&& a.result == if contains_seq(t, "41 00"@) || contains_seq(t, "4100"@) {
        ProbeResult::Success
    } else {
        probe_outcome(t)
    }
    &&& opt_string_view(a.detail) == Some(trim(t))
}

/// The answer of an exchange, `None` when it failed.
pub open spec fn answer_of(response: Result<String, Obd2Error>) -> Option<Seq<char>> {
    match response {
        Ok(r) => Some(r@),
        Err(_) => None,
    }
}

/// Whether a failed exchange at this step ends initialization with that
/// error (the STN probe and the protocol-number query may fail harmlessly).
pub open spec fn fails_on_error(step: InitStep) -> bool {
    !(step is AwaitStnProbe || step is AwaitProtocolNumber || step is Finished)
}

/// The probe attempts made so far, wherever the action leaves them.
pub open spec fn attempts_after(init: Elm327Init, action: InitAction) -> Seq<ProbeAttempt> {
    match action {
        InitAction::Done(rep) => rep.probe_attempts@,
        _ => init.probe_attempts@,
    }
}

/// The STN probe answer that counts: one that holds no `?`.
pub open spec fn sti_answer(response: Result<String, Obd2Error>) -> Option<Seq<char>> {
    match response {
        Ok(r) => if contains_seq(r@, "?"@) { None } else { Some(r@) },
        Err(_) => None,
    }
}

/// Initialization in progress: the step, the reset answer, the information
/// gathered so far and the protocol probes made.
#[derive(Debug)]
pub struct Elm327Init {
    pub step: InitStep,
    pub atz_response: String,
    pub info: AdapterInfo,
    pub probe_attempts: Vec<ProbeAttempt>,
}

fn config_commands() -> (r: Vec<&'static str>)
    ensures
        r@.len() == 6,
        forall|i: int| 0 <= i < 6 ==> (#[trigger] r@[i])@ == config_command(i),
{
    vec!["ATE0", "ATL0", "ATH0", "ATS0", "ATAT1", "ATSP0"]
}

fn fallback_commands() -> (r: Vec<&'static str>)
    ensures
        r@.len() == 9,
        forall|i: int| 0 <= i < 9 ==> (#[trigger] r@[i])@ == fallback_command(i),
{
    vec!["ATTP6", "ATTP7", "ATTP8", "ATTP9", "ATTP2", "ATTP1", "ATTP3", "ATTP5", "ATTP4"]
}

fn fallback_protocol(i: u8) -> (p: Protocol)
    requires
        i < 9,
    ensures
        p == fallback_protocols()[i as int],
{
    let order = super::elm327::fallback_probe_order();
    order[i as usize].0
}

fn trimmed_string(s: &str) -> (r: String)
    ensures
        r@ == trim(s@),
{
    let all = str_chars(s);
    let t = trim_chars(&all);
    string_from_chars(&t)
}

/// Whether two adapter informations agree: chipset, firmware text,
/// protocol and capabilities.
pub open spec fn same_info(a: AdapterInfo, b: AdapterInfo) -> bool {
    &&& a.chipset == b.chipset
    &&& a.firmware@ == b.firmware@
    &&& a.protocol == b.protocol
    &&& a.capabilities == b.capabilities
}

/// Whether an adapter state is initialized with the given information.
pub open spec fn holds_info(state: Elm327State, info: AdapterInfo) -> bool {
    state.initialized && same_info(state.info, info)
}

/// How initialization starts on an adapter initialized before: finished at
/// once, with a report of the state's information, no probe attempts and
/// the pending events.
pub open spec fn restart_report(before: Elm327State, r: (Elm327Init, InitAction)) -> bool {
    &&& r.0.step is Finished
    &&& r.1 matches InitAction::Done(rep)
    &&& same_info(rep.info, before.info)
    &&& rep.probe_attempts@.len() == 0
    &&& rep.events@ == before.events@
}

/// Initializing an adapter a second time gives what the first
/// initialization reported: the start of initialization on the state that a
/// successful initialization left finishes at once (no command is sent, no
/// protocol probed) and reports the same information.
pub proof fn lemma_initialize_again(state: Elm327State, first: InitializationReport, r: (Elm327Init, InitAction))
    requires
        holds_info(state, first.info),
        state.initialized ==> restart_report(state, r),
    ensures
        r.0.step is Finished,
        r.1 matches InitAction::Done(rep) && same_info(rep.info, first.info) && rep.probe_attempts@.len() == 0,
{
}

impl Elm327Init {
    /// The step indices are in range and a policy step belongs to a
    /// selected protocol.
    pub open spec fn well_formed(&self) -> bool {
        &&& self.step is AwaitConfig ==> self.step->AwaitConfig_0 < 6
        &&& self.step is AwaitSelect ==> self.step->AwaitSelect_0 < 9
        &&& self.step is AwaitProbe ==> self.step->AwaitProbe_0 < 9
        &&& self.step is AwaitPolicy ==> self.info.protocol != Protocol::Auto
            && self.step->AwaitPolicy_0 < protocol_policy(self.info.protocol).len()
    }

    /// Begin initialization. An adapter initialized before reports its
    /// information again at once; otherwise a reset is recorded and `ATZ`
    /// is the first command.
    pub fn start(state: &mut Elm327State) -> (r: (Self, InitAction))
        ensures
            old(state).initialized ==> restart_report(*old(state), r) && final(state).events@.len() == 0,
            !old(state).initialized ==> (final(state).events@.last().detail matches Some(d)
                && r.0.step is AwaitReset
                && asks_for(r.1, InitStep::AwaitReset, r.0.info.protocol)
                && final(state).events@.len() == old(state).events@.len() + 1
                && final(state).events@.drop_last() == old(state).events@
                && final(state).events@.last().kind is Reset
                && d@ == "initializing adapter"@),
            r.0.probe_attempts@.len() == 0,
            r.0.well_formed(),
            is_default_info(r.0.info),
            final(state).info == old(state).info,
            final(state).initialized == old(state).initialized,
            final(state).current_header == old(state).current_header,
    {
        let init = Elm327Init {
            step: InitStep::AwaitReset,
            atz_response: String::new(),
            info: Elm327State::new().info,
            probe_attempts: Vec::new(),
        };
        if state.initialized {
            let events = state.drain_events();
            let rep = InitializationReport { info: copy_info(&state.info), probe_attempts: Vec::new(), events };
            let mut init = init;
            init.step = InitStep::Finished;
            return (init, InitAction::Done(rep));
        }
        state.push_event(AdapterEventKind::Reset, Some(String::from_str("initializing adapter")));
        proof {
            assert(state.events@.drop_last() =~= old(state).events@);
        }
        (init, InitAction::Command(String::from_str("ATZ")))
    }

    /// Protocol chosen: record the outcome and continue with the runtime
    /// policy, or fail when no protocol could be selected.
    fn finish_selection(&mut self, state: &mut Elm327State) -> (action: InitAction)
        requires
            old(self).step is Finished,
        ensures
            final(self).step == after_selection(old(self).info.protocol),
            final(self).info == old(self).info,
            !(final(self).step is Finished && old(self).info.protocol != Protocol::Auto)
                ==> final(self).probe_attempts == old(self).probe_attempts,
            old(self).info.protocol == Protocol::Auto ==> (action matches InitAction::Fail(Obd2Error::Adapter(m))
                && m@ == "unable to determine active protocol"@)
                && final(state).events@.len() == old(state).events@.len() + 1
                && final(state).events@.drop_last() == old(state).events@
                && final(state).events@.last().kind is UnsupportedProtocol
                && final(state).info == old(state).info
                && final(state).initialized == old(state).initialized,
            old(self).info.protocol != Protocol::Auto ==> final(state).info.chipset == old(self).info.chipset
                && final(state).info.firmware@ == old(self).info.firmware@
                && final(state).info.protocol == old(self).info.protocol
                && final(state).info.capabilities == old(self).info.capabilities,
            old(self).info.protocol != Protocol::Auto && final(self).step is AwaitPolicy ==> (
                asks_for(action, final(self).step, old(self).info.protocol)
                && final(state).events@.len() == old(state).events@.len() + 1
                && final(state).events@.drop_last() == old(state).events@
                && final(state).events@.last().kind == AdapterEventKind::ProtocolSelected(old(self).info.protocol)
                && final(state).initialized == old(state).initialized),
            old(self).info.protocol != Protocol::Auto && final(self).step is Finished ==> (
                action matches InitAction::Done(rep)
                && final(state).initialized
                && rep.info.chipset == old(self).info.chipset
                && rep.info.firmware@ == old(self).info.firmware@
                && rep.info.protocol == old(self).info.protocol
                && rep.info.capabilities == old(self).info.capabilities
                && rep.probe_attempts@ == old(self).probe_attempts@
                && rep.events@.len() == old(state).events@.len() + 1
                && rep.events@.drop_last() == old(state).events@
                && rep.events@.last().kind == AdapterEventKind::ProtocolSelected(old(self).info.protocol)
                && final(state).events@.len() == 0),
            final(state).current_header == old(state).current_header,
    {
        let p = self.info.protocol;
        if p == Protocol::Auto {
            state.push_event(
                AdapterEventKind::UnsupportedProtocol,
                Some(String::from_str("no supported protocol could be selected")),
            );
            proof {
                assert(state.events@.drop_last() =~= old(state).events@);
            }
            return InitAction::Fail(Obd2Error::Adapter(String::from_str("unable to determine active protocol")));
        }
        state.push_event(AdapterEventKind::ProtocolSelected(p), None);
        state.info = copy_info(&self.info);
        proof {
            assert(state.events@.drop_last() =~= old(state).events@);
        }
        let cmds = protocol_policy_commands(p);
        if cmds.len() > 0 {
            self.step = InitStep::AwaitPolicy(0);
            InitAction::RawCommand(String::from_str(cmds[0]))
        } else {
            self.complete(state)
        }
    }

    /// All steps done: mark the adapter initialized with the detected
    /// information and report it.
    fn complete(&mut self, state: &mut Elm327State) -> (action: InitAction)
        ensures
            final(self).step is Finished,
            final(self).info == old(self).info,
            final(self).probe_attempts@.len() == 0,
            final(state).initialized,
            final(state).info.chipset == old(self).info.chipset,
            final(state).info.firmware@ == old(self).info.firmware@,
            final(state).info.protocol == old(self).info.protocol,
            final(state).info.capabilities == old(self).info.capabilities,
            final(state).current_header == old(state).current_header,
            final(state).events@.len() == 0,
            action matches InitAction::Done(rep)
                && rep.info.chipset == old(self).info.chipset
                && rep.info.firmware@ == old(self).info.firmware@
                && rep.info.protocol == old(self).info.protocol
                && rep.info.capabilities == old(self).info.capabilities
                && rep.probe_attempts@ == old(self).probe_attempts@
                && rep.events@ == old(state).events@,
    {
        self.step = InitStep::Finished;
        state.initialized = true;
        state.info = copy_info(&self.info);
        let mut attempts: Vec<ProbeAttempt> = Vec::new();
        std::mem::swap(&mut attempts, &mut self.probe_attempts);
        let info = copy_info(&self.info);
        let events = state.drain_events();
        InitAction::Done(InitializationReport { info, probe_attempts: attempts, events })
    }

    fn fail(&mut self, e: Obd2Error) -> (action: InitAction)
        ensures
            final(self).step is Finished,
            final(self).info == old(self).info,
            final(self).probe_attempts == old(self).probe_attempts,
            action == InitAction::Fail(e),
    {
        self.step = InitStep::Finished;
        InitAction::Fail(e)
    }

    fn record_attempt(&mut self, p: Protocol, source: ProtocolSelectionSource, response: &String) -> (ok: bool)
        ensures
            ok == (contains_seq(response@, "41 00"@) || contains_seq(response@, "4100"@)),
            final(self).probe_attempts@.len() == old(self).probe_attempts@.len() + 1,
            final(self).probe_attempts@.drop_last() == old(self).probe_attempts@,
            is_attempt(final(self).probe_attempts@.last(), p, source, response@),
            final(self).step == old(self).step,
            final(self).info == old(self).info,
    {
        let ok = probe_succeeded(response.as_str());
        let result = if ok { ProbeResult::Success } else { classify_probe_result(response.as_str()) };
        let detail = trimmed_string(response.as_str());
        self.probe_attempts.push(ProbeAttempt { protocol: p, source, result, detail: Some(detail) });
        proof {
            assert(self.probe_attempts@.drop_last() =~= old(self).probe_attempts@);
        }
        ok
    }

    /// Take the answer to the last command and decide the next action.
    pub fn on_response(&mut self, state: &mut Elm327State, response: Result<String, Obd2Error>) -> (action: InitAction)
        requires
            !(old(self).step is Finished),
            old(self).well_formed(),
        ensures
            final(self).well_formed(),
            final(self).step == next_step(old(self).step, answer_of(response), old(self).info.protocol),
            !(final(self).step is Finished) ==> asks_for(action, final(self).step, final(self).info.protocol),
            fails_on_error(old(self).step) && response is Err ==> (action matches InitAction::Fail(e)
                && response == Result::<String, Obd2Error>::Err(e)),
            old(self).step is AwaitReset && response is Ok ==> final(self).atz_response@ == answer_of(response)->0,
            old(self).step is AwaitStnProbe ==> ({
                let d = detection(old(self).atz_response@, sti_answer(response));
                &&& final(self).info.chipset == d.0
                &&& final(self).info.firmware@ == d.1
                &&& final(self).info.protocol == Protocol::Auto
                &&& final(self).info.capabilities == super::detect::capabilities_of(d.0)
            }),
            old(self).step is AwaitProtocolNumber && response is Ok
                ==> final(self).info.protocol == protocol_from_response(answer_of(response)->0),
            old(self).step is AwaitProbe && response is Ok && (contains_seq(answer_of(response)->0, "41 00"@)
                || contains_seq(answer_of(response)->0, "4100"@))
                ==> final(self).info.protocol == fallback_protocols()[old(self).step->AwaitProbe_0 as int],
            old(self).step is AwaitAutoProbe && response is Ok ==> ({
                let a = attempts_after(*final(self), action);
                &&& a.len() == old(self).probe_attempts@.len() + 1
                &&& a.drop_last() == old(self).probe_attempts@
                &&& is_attempt(a.last(), Protocol::Auto, ProtocolSelectionSource::AutoDetect, answer_of(response)->0)
            }),
            old(self).step is AwaitProbe && response is Ok ==> ({
                let a = attempts_after(*final(self), action);
                &&& a.len() == old(self).probe_attempts@.len() + 1
                &&& a.drop_last() == old(self).probe_attempts@
                &&& is_attempt(a.last(), fallback_protocols()[old(self).step->AwaitProbe_0 as int],
                    ProtocolSelectionSource::ExplicitProbe, answer_of(response)->0)
            }),
            final(self).step is Finished && !(fails_on_error(old(self).step) && response is Err) ==> (
                final(self).info.protocol == Protocol::Auto ==> (action matches InitAction::Fail(Obd2Error::Adapter(m))
                    && m@ == "unable to determine active protocol"@)),
            final(self).step is Finished && !(fails_on_error(old(self).step) && response is Err)
                && final(self).info.protocol != Protocol::Auto ==> (action matches InitAction::Done(rep)
                && final(state).initialized
                && rep.info.chipset == final(self).info.chipset
                && rep.info.firmware@ == final(self).info.firmware@
                && rep.info.protocol == final(self).info.protocol
                && rep.info.capabilities == final(self).info.capabilities
                && holds_info(*final(state), rep.info)),
            final(state).current_header == old(state).current_header,
    {
        let step = self.step;
        let p = self.info.protocol;
        match step {
            InitStep::AwaitReset => match response {
                Ok(r) => {
                    self.atz_response = r;
                    self.step = InitStep::AwaitStnProbe;
                    InitAction::Command(String::from_str("STI"))
                },
                Err(e) => self.fail(e),
            },
            InitStep::AwaitStnProbe => {
                let info = match &response {
                    Ok(r) => if sti_accepted(r.as_str()) {
                        super::AdapterInfo::detect(self.atz_response.as_str(), Some(r.as_str()))
                    } else {
                        super::AdapterInfo::detect(self.atz_response.as_str(), None)
                    },
                    Err(_) => super::AdapterInfo::detect(self.atz_response.as_str(), None),
                };
                self.info = info;
                self.step = InitStep::AwaitConfig(0);
                let cmds = config_commands();
                InitAction::Command(String::from_str(cmds[0]))
            },
            InitStep::AwaitConfig(i) => match response {
                Err(e) => self.fail(e),
                Ok(_) => {
                    if i < 5 {
                        self.step = InitStep::AwaitConfig(i + 1);
                        let cmds = config_commands();
                        InitAction::Command(String::from_str(cmds[(i + 1) as usize]))
                    } else {
                        state.push_event(AdapterEventKind::ProtocolSearching, Some(String::from_str("ATSP0")));
                        self.step = InitStep::AwaitAutoProbe;
                        InitAction::Command(String::from_str("0100"))
                    }
                },
            },
            InitStep::AwaitAutoProbe => match response {
                Err(e) => self.fail(e),
                Ok(r) => {
                    let ok = self.record_attempt(Protocol::Auto, ProtocolSelectionSource::AutoDetect, &r);
                    if ok {
                        self.step = InitStep::AwaitProtocolNumber;
                        InitAction::Command(String::from_str("ATDPN"))
                    } else {
                        self.step = InitStep::AwaitSelect(0);
                        let cmds = fallback_commands();
                        InitAction::Command(String::from_str(cmds[0]))
                    }
                },
            },
            InitStep::AwaitProtocolNumber => {
                if let Ok(r) = &response {
                    self.info.protocol = parse_protocol_response(r.as_str());
                }
                self.step = InitStep::Finished;
                self.finish_selection(state)
            },
            InitStep::AwaitSelect(i) => match response {
                Err(e) => self.fail(e),
                Ok(_) => {
                    self.step = InitStep::AwaitProbe(i);
                    InitAction::Command(String::from_str("0100"))
                },
            },
            InitStep::AwaitProbe(i) => match response {
                Err(e) => self.fail(e),
                Ok(r) => {
                    let fp = fallback_protocol(i);
                    let ok = self.record_attempt(fp, ProtocolSelectionSource::ExplicitProbe, &r);
                    if ok {
                        self.info.protocol = fp;
                        self.step = InitStep::Finished;
                        self.finish_selection(state)
                    } else if i + 1 < 9 {
                        self.step = InitStep::AwaitSelect(i + 1);
                        let cmds = fallback_commands();
                        InitAction::Command(String::from_str(cmds[(i + 1) as usize]))
                    } else {
                        self.step = InitStep::Finished;
                        self.finish_selection(state)
                    }
                },
            },
            InitStep::AwaitPolicy(i) => match response {
                Err(e) => self.fail(e),
                Ok(_) => {
                    let cmds = protocol_policy_commands(p);
                    if ((i + 1) as usize) < cmds.len() {
                        self.step = InitStep::AwaitPolicy(i + 1);
                        InitAction::RawCommand(String::from_str(cmds[(i + 1) as usize]))
                    } else {
                        self.complete(state)
                    }
                },
            },
            InitStep::Finished => self.fail(Obd2Error::Timeout),
        }
    }
}

} // verus!
