use crate::channel::{post, ChannelError};
use crate::message::{MidiMessage, RouterRequest, RouterResponse};
use crate::table::{has_name, index_of, inserted, names_distinct, names_of, removed, EndpointTable};
use crossbeam_channel::{Receiver, Sender};
use vstd::prelude::*;

verus! {

/// The output indices that one classifier target reaches: every output for
/// "all", else the output of that name if there is one.
pub open spec fn resolve<E>(outs: Seq<(Seq<char>, E)>, name: Seq<char>) -> Seq<int> {
    if name == "all"@ {
        Seq::new(outs.len(), |i: int| i)
    } else if has_name(outs, name) {
        seq![index_of(outs, name)]
    } else {
        Seq::empty()
    }
}

/// The output indices that a message reaches, target after target.
pub open spec fn fan_out<E>(outs: Seq<(Seq<char>, E)>, names: Seq<Seq<char>>) -> Seq<int>
    decreases names.len(),
{
    if names.len() == 0 {
        Seq::empty()
    } else {
        fan_out(outs, names.drop_last()) + resolve(outs, names.last())
    }
}

/// The names as character sequences.
pub open spec fn name_seqs(v: Seq<String>) -> Seq<Seq<char>> {
    v.map_values(|s: String| s@)
}

/// Classifier that sends a message to the output named after its device.
pub fn by_device(msg: &mut MidiMessage) -> (r: Vec<String>)
    ensures
        name_seqs(r@) == seq![old(msg).device@],
        *final(msg) == *old(msg),
{
    let r = vec![msg.device.clone()];
    proof {
        assert(name_seqs(r@) =~= seq![msg.device@]);
    }
    r
}

/// Classifier that sends a message to "off" when its velocity is zero, else to "on".
pub fn on_off(msg: &mut MidiMessage) -> (r: Vec<String>)
    ensures
        name_seqs(r@) == seq![
            if old(msg).velocity == 0 {
                "off"@
            } else {
                "on"@
            },
        ],
        *final(msg) == *old(msg),
{
    let name = if msg.velocity == 0 {
        "off".to_owned()
    } else {
        "on".to_owned()
    };
    let r = vec![name];
    proof {
        assert(name_seqs(r@) =~= seq![r@[0]@]);
    }
    r
}

/// Classifier that sends every message to every output.
pub fn mirror_all(msg: &mut MidiMessage) -> (r: Vec<String>)
    ensures
        name_seqs(r@) == seq!["all"@],
        *final(msg) == *old(msg),
{
    let r = vec!["all".to_owned()];
    proof {
        assert(name_seqs(r@) =~= seq![r@[0]@]);
    }
    r
}

/// The router's endpoint tables: named input receivers and named output
/// senders. Adding a name that is there replaces its endpoint; a name may
/// be both an input and an output.
pub struct RouterState {
    inputs: EndpointTable<Receiver<MidiMessage>>,
    outputs: EndpointTable<Sender<MidiMessage>>,
}

impl RouterState {
    pub closed spec fn input_table(&self) -> Seq<(Seq<char>, Receiver<MidiMessage>)> {
        self.inputs@
    }

    pub closed spec fn output_table(&self) -> Seq<(Seq<char>, Sender<MidiMessage>)> {
        self.outputs@
    }

    pub open spec fn wf(&self) -> bool {
        names_distinct(self.input_table()) && names_distinct(self.output_table())
    }

    pub fn new() -> (r: RouterState)
        ensures
            r.wf(),
            r.input_table().len() == 0,
            r.output_table().len() == 0,
    {
        RouterState { inputs: EndpointTable::new(), outputs: EndpointTable::new() }
    }

    /// The inputs, for the dispatch loop to wait on.
    pub fn inputs(&self) -> (r: &EndpointTable<Receiver<MidiMessage>>)
        ensures
            r@ == self.input_table(),
    {
        &self.inputs
    }

    /// Serves one control request; the flag says whether it was Shutdown.
    pub fn handle(&mut self, req: RouterRequest) -> (r: (RouterResponse, bool))
        requires
            old(self).wf(),
        ensures
            final(self).wf(),
            r.1 == (req is Shutdown),
            match req {
                RouterRequest::AddInput(n, p) => r.0 == RouterResponse::Success
                    && final(self).input_table() == inserted(old(self).input_table(), n@, p)
                    && final(self).output_table() == old(self).output_table(),
                RouterRequest::AddOutput(n, p) => r.0 == RouterResponse::Success
                    && final(self).output_table() == inserted(old(self).output_table(), n@, p)
                    && final(self).input_table() == old(self).input_table(),
                RouterRequest::RemoveInput(n) => r.0 == RouterResponse::Success
                    && final(self).input_table() == removed(old(self).input_table(), n@)
                    && final(self).output_table() == old(self).output_table(),
                RouterRequest::RemoveOutput(n) => r.0 == RouterResponse::Success
                    && final(self).output_table() == removed(old(self).output_table(), n@)
                    && final(self).input_table() == old(self).input_table(),
                RouterRequest::QueryInput(n) => r.0 == RouterResponse::Device(
                    n,
                    has_name(old(self).input_table(), n@),
                ) && *final(self) == *old(self),
                RouterRequest::QueryOutput(n) => r.0 == RouterResponse::Device(
                    n,
                    has_name(old(self).output_table(), n@),
                ) && *final(self) == *old(self),
                RouterRequest::QueryAllInputs => (r.0 matches RouterResponse::List(v) && name_seqs(
                    v@,
                ) == names_of(old(self).input_table())) && *final(self) == *old(self),
                RouterRequest::QueryAllOutputs => (r.0 matches RouterResponse::List(v) && name_seqs(
                    v@,
                ) == names_of(old(self).output_table())) && *final(self) == *old(self),
                RouterRequest::Shutdown => r.0 == RouterResponse::Success && *final(self) == *old(
                    self,
                ),
            },
    {
        match req {
            RouterRequest::AddInput(name, port) => {
                self.inputs.insert(name, port);
                (RouterResponse::Success, false)
            },
            RouterRequest::AddOutput(name, port) => {
                self.outputs.insert(name, port);
                (RouterResponse::Success, false)
            },
            RouterRequest::RemoveInput(name) => {
                let _ = self.inputs.remove(&name);
                (RouterResponse::Success, false)
            },
            RouterRequest::RemoveOutput(name) => {
                let _ = self.outputs.remove(&name);
                (RouterResponse::Success, false)
            },
            RouterRequest::QueryInput(name) => {
                let present = self.inputs.contains(&name);
                (RouterResponse::Device(name, present), false)
            },
            RouterRequest::QueryOutput(name) => {
                let present = self.outputs.contains(&name);
                (RouterResponse::Device(name, present), false)
            },
            RouterRequest::QueryAllInputs => (RouterResponse::List(self.inputs.names()), false),
            RouterRequest::QueryAllOutputs => (RouterResponse::List(self.outputs.names()), false),
            RouterRequest::Shutdown => (RouterResponse::Success, true),
        }
    }

    /// The output indices that a message with these classifier targets
    /// reaches, in the order in which it is sent (see `fan_out`).
    pub fn targets(&self, names: &Vec<String>) -> (r: Vec<usize>)
        requires
            self.wf(),
        ensures
            r@.map_values(|i: usize| i as int) == fan_out(self.output_table(), name_seqs(names@)),
            forall|k: int| 0 <= k < r@.len() ==> #[trigger] r@[k] < self.output_table().len(),
    {
        let all = "all".to_owned();
        let n = self.outputs.len();
        let mut out: Vec<usize> = Vec::new();
        let mut t: usize = 0;
        while t < names.len()
            invariant
                t <= names@.len(),
                self.wf(),
                n == self.output_table().len(),
                all@ == "all"@,
                out@.map_values(|i: usize| i as int) == fan_out(
                    self.output_table(),
                    name_seqs(names@).subrange(0, t as int),
                ),
                forall|k: int| 0 <= k < out@.len() ==> #[trigger] out@[k] < n,
            decreases names@.len() - t,
        {
            let ghost before = out@;
            let ghost prefix = name_seqs(names@).subrange(0, t + 1);
            proof {
                assert(prefix.drop_last() =~= name_seqs(names@).subrange(0, t as int));
                assert(prefix.last() == names@[t as int]@);
            }
            if names[t] == all {
                let mut i: usize = 0;
                while i < n
                    invariant
                        i <= n,
                        out@.len() == before.len() + i,
                        out@.map_values(|i: usize| i as int) == before.map_values(|i: usize| i as int)
                            + Seq::new(i as nat, |j: int| j),
                        forall|k: int| 0 <= k < out@.len() ==> #[trigger] out@[k] < n,
                    decreases n - i,
                {
                    let ghost prev = out@;
                    out.push(i);
                    proof {
                        assert(out@.map_values(|x: usize| x as int) =~= prev.map_values(
                            |x: usize| x as int,
                        ).push(i as int));
                        assert(Seq::new((i + 1) as nat, |j: int| j) =~= Seq::new(
                            i as nat,
                            |j: int| j,
                        ).push(i as int));
                    }
                    i = i + 1;
                    proof {
                        assert(out@.map_values(|x: usize| x as int) =~= before.map_values(
                            |x: usize| x as int,
                        ) + Seq::new(i as nat, |j: int| j));
                    }
                }
            } else {
                match self.outputs.position(&names[t]) {
                    Some(i) => {
                        out.push(i);
                        proof {
                            assert(out@.map_values(|i: usize| i as int) =~= before.map_values(
                                |i: usize| i as int,
                            ) + seq![i as int]);
                        }
                    },
                    None => {
                        proof {
                            assert(out@.map_values(|i: usize| i as int) =~= before.map_values(
                                |i: usize| i as int,
                            ) + Seq::<int>::empty());
                        }
                    },
                }
            }
            t = t + 1;
        }
        proof {
            assert(name_seqs(names@).subrange(0, names@.len() as int) =~= name_seqs(names@));
        }
        out
    }

    /// Sends a copy of `msg` to each output that the classifier targets
    /// reach (see `targets`), in that order. A failed send does not stop the
    /// fan-out: every planned output is tried, and the result holds one
    /// outcome per planned send.
    pub fn deliver(&self, msg: &MidiMessage, names: &Vec<String>) -> (r: Vec<Result<(), ChannelError>>)
        requires
            self.wf(),
        ensures
            r@.len() == fan_out(self.output_table(), name_seqs(names@)).len(),
    {
        let plan = self.targets(names);
        let mut outcomes: Vec<Result<(), ChannelError>> = Vec::new();
        let mut k: usize = 0;
        while k < plan.len()
            invariant
                self.wf(),
                k <= plan@.len(),
                outcomes@.len() == k,
                forall|j: int| 0 <= j < plan@.len() ==> #[trigger] plan@[j] < self.output_table().len(),
            decreases plan@.len() - k,
        {
            outcomes.push(post(self.outputs.value(plan[k]), msg.clone()));
            k = k + 1;
        }
        proof {
            assert(plan@.map_values(|i: usize| i as int).len() == plan@.len());
        }
        outcomes
    }
}

/// With the mirror-all classifier a message reaches every output once, in
/// the order of the outputs.
pub proof fn lemma_mirror_all_reaches_each_output<E>(outs: Seq<(Seq<char>, E)>)
    ensures
        fan_out(outs, seq!["all"@]) == Seq::new(outs.len(), |i: int| i),
{
    assert(seq!["all"@].drop_last() =~= Seq::<Seq<char>>::empty());
    assert(fan_out(outs, Seq::<Seq<char>>::empty()) == Seq::<int>::empty());
    assert(seq!["all"@].last() == "all"@);
    assert(fan_out(outs, seq!["all"@]) =~= Seq::new(outs.len(), |i: int| i));
}

/// With the by-device classifier a message reaches the one output named
/// after its device, if there is one, and no other (a device named "all"
/// aside, which every output receives).
pub proof fn lemma_by_device_reaches_only_its_output<E>(outs: Seq<(Seq<char>, E)>, device: Seq<char>)
    requires
        names_distinct(outs),
        device != "all"@,
    ensures
        fan_out(outs, seq![device]).len() <= 1,
        forall|k: int|
            0 <= k < fan_out(outs, seq![device]).len() ==> outs[#[trigger] fan_out(
                outs,
                seq![device],
            )[k]].0 == device,
        has_name(outs, device) ==> fan_out(outs, seq![device]).len() == 1,
{
    assert(seq![device].drop_last() =~= Seq::<Seq<char>>::empty());
    assert(fan_out(outs, Seq::<Seq<char>>::empty()) == Seq::<int>::empty());
    assert(seq![device].last() == device);
    assert(fan_out(outs, seq![device]) =~= resolve(outs, device));
}

} // verus!
