//! Mock transport that answers commands from a script of expected
//! command/response pairs.

use vstd::prelude::*;
use std::collections::VecDeque;
use crate::error::Obd2Error;
use crate::text::{
    chars_eq, contains_chars, contains_seq, copy_bytes, decode_utf8_lossy, str_chars,
    string_from_chars, trim, trim_chars, utf8_lossy,
};

verus! {

broadcast use vstd::string::group_string_axioms;

/// Whether a written command matches an expected one: it is that command or
/// contains it.
pub open spec fn command_matches(cmd: Seq<char>, expected: Seq<char>) -> bool {
    cmd == expected || contains_seq(cmd, expected)
}

/// Whether expectation `i` is the first one that the command matches.
pub open spec fn first_match(cmd: Seq<char>, exps: Seq<(String, String)>, i: int) -> bool {
    &&& 0 <= i < exps.len()
    &&& command_matches(cmd, exps[i].0@)
    &&& forall|j: int| 0 <= j < i ==> !command_matches(cmd, #[trigger] exps[j].0@)
}

/// The command a write carries: its bytes read as UTF-8, trimmed.
pub open spec fn written_command(data: Seq<u8>) -> Seq<char> {
    trim(utf8_lossy(data))
}

/// A mock transport that returns pre-configured responses.
///
/// `expect()` queues command/response pairs. When `write()` receives a
/// command, the first pair whose command matches is consumed and its
/// response is queued for `read()`.
#[derive(Debug)]
pub struct MockTransport {
    pub expectations: Vec<(String, String)>,
    pub pending_response: VecDeque<String>,
}

impl MockTransport {
    /// Create a new empty MockTransport.
    pub fn new() -> (t: Self)
        ensures
            t.expectations@.len() == 0,
            t.pending_response@.len() == 0,
    {
        MockTransport { expectations: Vec::new(), pending_response: VecDeque::new() }
    }

    /// Add an expected command/response pair.
    pub fn expect(&mut self, command: &str, response: &str)
        ensures
            final(self).expectations@.len() == old(self).expectations@.len() + 1,
            final(self).expectations@.drop_last() == old(self).expectations@,
            final(self).expectations@.last().0@ == command@,
            final(self).expectations@.last().1@ == response@,
            final(self).pending_response == old(self).pending_response,
    {
        self.expectations.push((String::from_str(command), String::from_str(response)));
        proof {
            assert(self.expectations@.drop_last() =~= old(self).expectations@);
        }
    }

    /// Take a written command: queue the response of the first matching
    /// expectation (consuming it), or `NO DATA\r>` when none matches.
    pub fn write(&mut self, data: &[u8]) -> (r: Result<(), Obd2Error>)
        ensures
            r is Ok,
            ({
                let cmd = written_command(data@);
                if exists|i: int| first_match(cmd, old(self).expectations@, i) {
                    let i = choose|i: int| first_match(cmd, old(self).expectations@, i);
                    &&& final(self).expectations@ == old(self).expectations@.remove(i)
                    &&& final(self).pending_response@ == old(self).pending_response@.push(
                        old(self).expectations@[i].1,
                    )
                } else {
                    &&& final(self).expectations@ == old(self).expectations@
                    &&& final(self).pending_response@.len() == old(self).pending_response@.len() + 1
                    &&& final(self).pending_response@.drop_last() == old(self).pending_response@
                    &&& final(self).pending_response@.last()@ == "NO DATA\r>"@
                }
            }),
    {
        let text = decode_utf8_lossy(data);
        let all = str_chars(text.as_str());
        let cmd = trim_chars(&all);
        let ghost c = written_command(data@);
        let mut idx: usize = 0;
        while idx < self.expectations.len()
            invariant
                idx <= self.expectations.len(),
                cmd@ == c,
                c == written_command(data@),
                self.expectations == old(self).expectations,
                self.pending_response == old(self).pending_response,
                forall|j: int| 0 <= j < idx ==> !command_matches(c, #[trigger] self.expectations@[j].0@),
            decreases self.expectations.len() - idx,
        {
            let expected = str_chars(self.expectations[idx].0.as_str());
            if chars_eq(&cmd, &expected) || contains_chars(&cmd, &expected) {
                let ghost exps = self.expectations@;
                proof {
                    assert(command_matches(c, exps[idx as int].0@));
                    assert(first_match(c, exps, idx as int));
                    let k = choose|i: int| first_match(c, exps, i);
                    if k < idx {
                        assert(!command_matches(c, exps[k].0@));
                    } else if k > idx {
                        assert(!command_matches(c, exps[idx as int].0@));
                    }
                    assert(k == idx);
                }
                let response = self.expectations[idx].1.clone();
                self.pending_response.push_back(response);
                self.expectations.remove(idx);
                return Ok(());
            }
            idx = idx + 1;
        }
        self.pending_response.push_back(String::from_str("NO DATA\r>"));
        proof {
            assert(self.pending_response@.drop_last() =~= old(self).pending_response@);
        }
        Ok(())
    }

    /// Hand out the oldest queued response, or time out when none is queued.
    pub fn read(&mut self) -> (r: Result<Vec<u8>, Obd2Error>)
        ensures
            old(self).pending_response@.len() > 0 ==> (r matches Ok(b)
                && b@ == vstd::utf8::encode_utf8(old(self).pending_response@[0]@)
                && final(self).pending_response@ == old(self).pending_response@.drop_first()),
            old(self).pending_response@.len() == 0 ==> (r matches Err(e) && e is Timeout
                && final(self).pending_response@ == old(self).pending_response@),
            final(self).expectations == old(self).expectations,
    {
        match self.pending_response.pop_front() {
            Some(response) => {
                proof {
                    assert(self.pending_response@ =~= old(self).pending_response@.drop_first());
                }
                Ok(copy_bytes(response.as_str().as_bytes()))
            },
            None => Err(Obd2Error::Timeout),
        }
    }

    /// Drop all queued responses.
    pub fn reset(&mut self) -> (r: Result<(), Obd2Error>)
        ensures
            r is Ok,
            final(self).pending_response@.len() == 0,
            final(self).expectations == old(self).expectations,
    {
        self.pending_response.clear();
        Ok(())
    }

    /// The transport's name.
    pub fn name(&self) -> (n: &'static str)
        ensures
            n@ == "mock"@,
    {
        "mock"
    }
}

impl Default for MockTransport {
    fn default() -> (t: Self)
        ensures
            t.expectations@.len() == 0,
            t.pending_response@.len() == 0,
    {
        Self::new()
    }
}

} // verus!
