use vstd::prelude::*;

verus! {

/// Which source handed an item to the multiplexer: the request/response
/// path, or the notification channel.
#[derive(Clone, Copy, PartialEq, Eq, Structural, Debug)]
pub enum MuxSide {
    Requests,
    Notifications,
}

/// The multiplexer's life cycle. Both sources append an explicit sentinel
/// (`None`) after their natural end; the merged output stream terminates as
/// soon as the first sentinel is observed, from whichever side.
#[derive(Clone, Copy, PartialEq, Eq, Structural, Debug)]
pub enum MuxState {
    Running,
    RequestsClosed,
    NotificationsClosed,
    Closed,
}

/// One step of the state machine: a sentinel while running closes the
/// stream after the side that ended; the remaining side's sentinel moves to
/// `Closed`; everything after termination is dropped.
pub open spec fn spec_step_state(s: MuxState, side: MuxSide, item: Option<String>) -> MuxState {
    match item {
        Some(_) => s,
        None => match (s, side) {
            (MuxState::Running, MuxSide::Requests) => MuxState::RequestsClosed,
            (MuxState::Running, MuxSide::Notifications) => MuxState::NotificationsClosed,
            (MuxState::RequestsClosed, MuxSide::Notifications) => MuxState::Closed,
            (MuxState::NotificationsClosed, MuxSide::Requests) => MuxState::Closed,
            _ => s,
        },
    }
}

/// What one step emits: every non-sentinel item received while running, in
/// receipt order; nothing once terminated.
pub open spec fn spec_step_emit(s: MuxState, item: Option<String>) -> Option<String> {
    if s == MuxState::Running {
        item
    } else {
        None
    }
}

/// Index of the first sentinel in a schedule (its length if there is none):
/// where the merged stream terminates.
pub open spec fn spec_cutoff(sched: Seq<(MuxSide, Option<String>)>) -> int
    decreases sched.len(),
{
    if sched.len() == 0 {
        0
    } else if sched[0].1 is None {
        0
    } else {
        1 + spec_cutoff(sched.drop_first())
    }
}

/// The merged output with provenance: every item received before the first
/// sentinel, tagged with the side it came from, in receipt order.
pub open spec fn spec_trace(sched: Seq<(MuxSide, Option<String>)>) -> Seq<(MuxSide, String)>
    decreases sched.len(),
{
    if sched.len() == 0 {
        Seq::empty()
    } else if sched[0].1 is None {
        Seq::empty()
    } else {
        seq![(sched[0].0, sched[0].1->0)] + spec_trace(sched.drop_first())
    }
}

/// The merged output stream itself: the traced lines without provenance.
pub open spec fn spec_merged(sched: Seq<(MuxSide, Option<String>)>) -> Seq<String> {
    spec_trace(sched).map_values(|p: (MuxSide, String)| p.1)
}

/// The lines one side offers in a schedule, in production order.
pub open spec fn spec_side_lines(sched: Seq<(MuxSide, Option<String>)>, side: MuxSide) -> Seq<
    String,
>
    decreases sched.len(),
{
    if sched.len() == 0 {
        Seq::empty()
    } else if sched[0].0 == side && sched[0].1 is Some {
        seq![sched[0].1->0] + spec_side_lines(sched.drop_first(), side)
    } else {
        spec_side_lines(sched.drop_first(), side)
    }
}

/// The lines of one side inside a merged trace, in output order.
pub open spec fn spec_trace_side(t: Seq<(MuxSide, String)>, side: MuxSide) -> Seq<String>
    decreases t.len(),
{
    if t.len() == 0 {
        Seq::empty()
    } else if t[0].0 == side {
        seq![t[0].1] + spec_trace_side(t.drop_first(), side)
    } else {
        spec_trace_side(t.drop_first(), side)
    }
}

pub proof fn lemma_cutoff_bounds(sched: Seq<(MuxSide, Option<String>)>)
    ensures
        0 <= spec_cutoff(sched) <= sched.len(),
        spec_trace(sched).len() == spec_cutoff(sched),
    decreases sched.len(),
{
    if sched.len() != 0 && sched[0].1 is Some {
        lemma_cutoff_bounds(sched.drop_first());
    }
}

/// Law: the merged stream terminates with the first sentinel, from
/// whichever side it comes. Whatever a still-open source produces after
/// that point never reaches the output: the merge of a schedule with any
/// continuation equals the merge of the schedule alone.
pub proof fn lemma_mux_terminates(
    prefix: Seq<(MuxSide, Option<String>)>,
    rest: Seq<(MuxSide, Option<String>)>,
    i: int,
)
    requires
        0 <= i < prefix.len(),
        prefix[i].1 is None,
    ensures
        spec_cutoff(prefix + rest) == spec_cutoff(prefix),
        spec_trace(prefix + rest) == spec_trace(prefix),
        spec_merged(prefix + rest) == spec_merged(prefix),
    decreases prefix.len(),
{
    if prefix[0].1 is None {
        assert((prefix + rest)[0].1 is None);
        assert(spec_trace(prefix + rest) =~= spec_trace(prefix));
    } else {
        assert((prefix + rest).drop_first() =~= prefix.drop_first() + rest);
        lemma_mux_terminates(prefix.drop_first(), rest, i - 1);
        assert(spec_trace(prefix + rest) =~= spec_trace(prefix));
    }
    assert(spec_merged(prefix + rest) =~= spec_merged(prefix));
}

/// Law: per-source order is preserved. The lines of one side that appear in
/// the merged output are exactly the lines that side produced before the
/// cutoff, in the order it produced them; in particular the notifications
/// registered for one resource reach the client in emission order, however
/// they interleave with responses.
pub proof fn lemma_side_order(sched: Seq<(MuxSide, Option<String>)>, side: MuxSide)
    ensures
        spec_trace_side(spec_trace(sched), side) == spec_side_lines(
            sched.take(spec_cutoff(sched)),
            side,
        ),
    decreases sched.len(),
{
    lemma_cutoff_bounds(sched);
    if sched.len() == 0 || sched[0].1 is None {
        assert(sched.take(spec_cutoff(sched)) =~= Seq::empty());
        assert(spec_trace_side(spec_trace(sched), side) =~= spec_side_lines(
            sched.take(spec_cutoff(sched)),
            side,
        ));
    } else {
        lemma_side_order(sched.drop_first(), side);
        lemma_cutoff_bounds(sched.drop_first());
        let t = spec_trace(sched);
        assert(t.drop_first() =~= spec_trace(sched.drop_first()));
        let taken = sched.take(spec_cutoff(sched));
        assert(taken[0] == sched[0]);
        assert(taken.drop_first() =~= sched.drop_first().take(spec_cutoff(sched.drop_first())));
        if sched[0].0 == side {
            assert(spec_trace_side(t, side) =~= spec_side_lines(taken, side));
        } else {
            assert(spec_trace_side(t, side) =~= spec_side_lines(taken, side));
        }
    }
}

proof fn lemma_trace_snoc(s: Seq<(MuxSide, Option<String>)>, x: (MuxSide, Option<String>))
    ensures
        spec_cutoff(s) < s.len() ==> spec_cutoff(s.push(x)) == spec_cutoff(s) && spec_trace(
            s.push(x),
        ) == spec_trace(s),
        spec_cutoff(s) == s.len() && x.1 is None ==> spec_cutoff(s.push(x)) == s.len()
            && spec_trace(s.push(x)) == spec_trace(s),
        spec_cutoff(s) == s.len() && x.1 is Some ==> spec_cutoff(s.push(x)) == s.len() + 1
            && spec_trace(s.push(x)) == spec_trace(s).push((x.0, x.1->0)),
    decreases s.len(),
{
    lemma_cutoff_bounds(s);
    if s.len() == 0 {
        if x.1 is Some {
            assert(s.push(x)[0] == x);
            assert(s.push(x).drop_first() =~= Seq::<(MuxSide, Option<String>)>::empty());
            assert(spec_trace(s.push(x)) == seq![(x.0, x.1->0)] + spec_trace(
                Seq::<(MuxSide, Option<String>)>::empty(),
            ));
            assert(spec_trace(s.push(x)) =~= spec_trace(s).push((x.0, x.1->0)));
            assert(spec_cutoff(s.push(x)) == 1 + spec_cutoff(
                Seq::<(MuxSide, Option<String>)>::empty(),
            ));
        }
    } else {
        assert(s.push(x)[0] == s[0]);
        assert(s.push(x).drop_first() =~= s.drop_first().push(x));
        lemma_trace_snoc(s.drop_first(), x);
        lemma_cutoff_bounds(s.drop_first());
        if s[0].1 is Some {
            assert(spec_cutoff(s) == 1 + spec_cutoff(s.drop_first()));
            assert(spec_cutoff(s.push(x)) == 1 + spec_cutoff(s.drop_first().push(x)));
            if spec_cutoff(s) < s.len() {
                assert(spec_cutoff(s.drop_first()) < s.drop_first().len());
                assert(spec_trace(s.push(x)) =~= spec_trace(s));
            } else if x.1 is None {
                assert(spec_cutoff(s.drop_first()) == s.drop_first().len());
                assert(spec_trace(s.push(x)) =~= spec_trace(s));
            } else {
                assert(spec_cutoff(s.drop_first()) == s.drop_first().len());
                assert(spec_trace(s.drop_first().push(x)) == spec_trace(s.drop_first()).push(
                    (x.0, x.1->0),
                ));
                assert(spec_trace(s.push(x)) =~= spec_trace(s).push((x.0, x.1->0)));
            }
        }
    }
}

/// The per-connection two-source multiplexer, stepped once for every item
/// an input source hands over.
pub struct SessionMultiplexer {
    state: MuxState,
}

impl View for SessionMultiplexer {
    type V = MuxState;

    closed spec fn view(&self) -> MuxState {
        self.state
    }
}

impl SessionMultiplexer {
    /// A multiplexer for a fresh connection, both sources open.
    pub fn new() -> (r: SessionMultiplexer)
        ensures
            r@ == MuxState::Running,
    {
        SessionMultiplexer { state: MuxState::Running }
    }

    /// Whether the merged output stream has terminated.
    pub fn is_terminated(&self) -> (r: bool)
        ensures
            r == (self@ != MuxState::Running),
    {
        match self.state {
            MuxState::Running => false,
            _ => true,
        }
    }

    /// Feeds one item from one source; returns the line to forward to the
    /// client, if any. The driver should stop pumping once
    /// [`Self::is_terminated`] holds: nothing will be emitted any more.
    pub fn step(&mut self, side: MuxSide, item: Option<String>) -> (emit: Option<String>)
        ensures
            final(self)@ == spec_step_state(old(self)@, side, item),
            emit == spec_step_emit(old(self)@, item),
    {
        match item {
            Some(line) => {
                match self.state {
                    MuxState::Running => Some(line),
                    _ => None,
                }
            },
            None => {
                let next = match (self.state, side) {
                    (MuxState::Running, MuxSide::Requests) => MuxState::RequestsClosed,
                    (MuxState::Running, MuxSide::Notifications) => MuxState::NotificationsClosed,
                    (MuxState::RequestsClosed, MuxSide::Notifications) => MuxState::Closed,
                    (MuxState::NotificationsClosed, MuxSide::Requests) => MuxState::Closed,
                    (s, _) => s,
                };
                self.state = next;
                None
            },
        }
    }
}

/// Merges one whole interleaving: the reference driver for the state
/// machine, stepping through a recorded schedule. The output is exactly
/// every line received before the first sentinel, in receipt order.
pub fn merge(inputs: &Vec<(MuxSide, Option<String>)>) -> (out: Vec<String>)
    ensures
        out@ == spec_merged(inputs@),
{
    let mut mux = SessionMultiplexer::new();
    let mut out: Vec<String> = Vec::new();
    let mut i: usize = 0;
    proof {
        lemma_cutoff_bounds(inputs@);
    }
    while i < inputs.len()
        invariant
            i <= inputs@.len(),
            out@ == spec_merged(inputs@.take(i as int)),
            mux@ == MuxState::Running <==> spec_cutoff(inputs@.take(i as int)) == i,
        decreases inputs@.len() - i,
    {
        let (side, item) = &inputs[i];
        let line_in: Option<String> = match item {
            Some(l) => Some(l.clone()),
            None => None,
        };
        proof {
            lemma_cutoff_bounds(inputs@.take(i as int));
            lemma_trace_snoc(inputs@.take(i as int), inputs@[i as int]);
            assert(inputs@.take(i + 1 as int) =~= inputs@.take(i as int).push(inputs@[i as int]));
        }
        let emitted = mux.step(*side, line_in);
        match emitted {
            Some(line) => {
                out.push(line);
                proof {
                    assert(out@ =~= spec_merged(inputs@.take(i + 1 as int)));
                }
            },
            None => {
                proof {
                    assert(out@ =~= spec_merged(inputs@.take(i + 1 as int)));
                }
            },
        }
        i = i + 1;
    }
    proof {
        assert(inputs@.take(inputs@.len() as int) =~= inputs@);
    }
    out
}

} // verus!
