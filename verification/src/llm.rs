//! The scripted model used for deterministic runs: preset responses handed
//! out in the order given.

use vstd::prelude::*;
use vstd::string::*;
use crate::types::{CompletionResponse, HarnessError};

verus! {

/// The error once the script is used up.
pub open spec fn exhausted_message() -> Seq<char> {
    "No preset responses left"@
}

/// The smaller of two counts.
pub open spec fn min_nat(a: nat, b: nat) -> nat {
    if a <= b {
        a
    } else {
        b
    }
}

/// Preset responses, handed out first to last.
pub struct ScriptedResponses {
    pending: Vec<CompletionResponse>,
    script: Ghost<Seq<CompletionResponse>>,
    calls: Ghost<nat>,
}

impl ScriptedResponses {
    /// The responses given at construction, in order.
    pub closed spec fn script(&self) -> Seq<CompletionResponse> {
        self.script@
    }

    /// How many times `next` has been called.
    pub closed spec fn calls(&self) -> nat {
        self.calls@
    }

    /// The responses not handed out yet, next one first.
    pub closed spec fn remaining(&self) -> Seq<CompletionResponse> {
        self.pending@.reverse()
    }

    /// What is left is the script without the responses handed out so far:
    /// one per call, until the script is used up.
    pub closed spec fn wf(&self) -> bool {
        self.pending@.reverse() == self.script@.skip(min_nat(self.calls@, self.script@.len()) as int)
    }

    pub fn new(responses: Vec<CompletionResponse>) -> (r: Self)
        ensures
            r.wf(),
            r.script() == responses@,
            r.calls() == 0,
            r.remaining() == responses@,
    {
        let ghost all = responses@;
        let mut rest = responses;
        let mut pending: Vec<CompletionResponse> = Vec::new();
        while rest.len() > 0
            invariant
                all == rest@ + pending@.reverse(),
            decreases rest@.len(),
        {
            let ghost before = pending@;
            let ghost rest_before = rest@;
            let item = rest.pop().unwrap();
            pending.push(item);
            assert(pending@.reverse() =~= seq![item] + before.reverse());
            assert(rest_before =~= rest@.push(item));
            assert(all =~= rest@ + pending@.reverse());
        }
        assert(rest@ =~= Seq::<CompletionResponse>::empty());
        assert(all =~= pending@.reverse());
        assert(all.skip(0) =~= all);
        ScriptedResponses { pending, script: Ghost(all), calls: Ghost(0) }
    }

    /// How many responses are left.
    pub fn len(&self) -> (r: usize)
        ensures
            r == self.remaining().len(),
    {
        self.pending.len()
    }

    /// The next response, or an error once none is left: the call made after
    /// `k` earlier calls gives the `k`-th response of the script (counted
    /// from 0) while there is one.
    pub fn next(&mut self) -> (r: Result<CompletionResponse, HarnessError>)
        requires
            old(self).wf(),
        ensures
            final(self).wf(),
            final(self).script() == old(self).script(),
            final(self).calls() == old(self).calls() + 1,
            old(self).calls() < old(self).script().len() ==> r == Ok::<
                CompletionResponse,
                HarnessError,
            >(old(self).script()[old(self).calls() as int]),
            old(self).calls() >= old(self).script().len() ==> (r matches Err(
                HarnessError::Provider(m),
            ) && m@ == exhausted_message()),
            old(self).remaining().len() > 0 ==> r == Ok::<CompletionResponse, HarnessError>(
                old(self).remaining()[0],
            ) && final(self).remaining() == old(self).remaining().drop_first(),
            old(self).remaining().len() == 0 ==> final(self).remaining() == old(self).remaining(),
    {
        let ghost before = self.pending@;
        let ghost k = self.calls@;
        let ghost script = self.script@;
        let ghost h = min_nat(k, script.len());
        self.calls = Ghost(k + 1);
        match self.pending.pop() {
            Some(x) => {
                assert(before =~= self.pending@.push(x));
                assert(before.reverse() =~= seq![x] + self.pending@.reverse());
                assert(self.pending@.reverse() =~= before.reverse().drop_first());
                assert(h < script.len());
                assert(before.reverse()[0] == script[k as int]);
                assert(script.skip(k as int).drop_first() =~= script.skip((k + 1) as int));
                Ok(x)
            },
            None => {
                assert(before.reverse().len() == 0);
                assert(h == script.len());
                assert(self.pending@.reverse() =~= script.skip(script.len() as int));
                Err(HarnessError::Provider(String::from_str("No preset responses left")))
            },
        }
    }
}

} // verus!
