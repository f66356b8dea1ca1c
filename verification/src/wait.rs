//! The wait for the login result: a cell that is written at most once, by the
//! first signal that has something to write, and looked at on every tick.

use vstd::prelude::*;

verus! {

/// Milliseconds between two looks at the cell.
pub const TICK_MILLIS: u64 = 100;

/// What the host reports about the login window while the wait is on.
#[derive(Debug, PartialEq, Eq)]
pub enum Signal {
    /// The page raised the login event, with the payload it carried, if any.
    Login(Option<String>),
    /// The window is gone.
    Destroyed,
}

impl Signal {
    /// The value this signal writes into a cell that is still unset: the
    /// payload of a login event, the empty text for a destroyed window, and
    /// nothing for a login event without payload.
    pub open spec fn offer(self) -> Option<Seq<char>> {
        match self {
            Signal::Login(Some(payload)) => Some(payload@),
            Signal::Login(None) => None,
            Signal::Destroyed => Some(Seq::empty()),
        }
    }
}

/// The cell after `signal`: a set cell keeps its value, an unset one takes
/// what the signal offers.
pub open spec fn absorb(cell: Option<Seq<char>>, signal: Signal) -> Option<Seq<char>> {
    if cell is Some {
        cell
    } else {
        signal.offer()
    }
}

/// The cell after every signal of `trace`, taken in order.
pub open spec fn absorb_all(cell: Option<Seq<char>>, trace: Seq<Signal>) -> Option<Seq<char>>
    decreases trace.len(),
{
    if trace.len() == 0 {
        cell
    } else {
        absorb_all(absorb(cell, trace[0]), trace.drop_first())
    }
}

/// Whether `at` is the place of the first signal of `trace` that offers a
/// value.
pub open spec fn is_first_offer(trace: Seq<Signal>, at: int) -> bool {
    &&& 0 <= at < trace.len()
    &&& trace[at].offer() is Some
    &&& forall|before: int| 0 <= before < at ==> (#[trigger] trace[before]).offer() is None
}

/// Whether no signal of `trace` offers a value.
pub open spec fn offers_nothing(trace: Seq<Signal>) -> bool {
    forall|at: int| 0 <= at < trace.len() ==> (#[trigger] trace[at]).offer() is None
}

/// What the wait does after a look at the cell.
#[derive(Debug, PartialEq, Eq)]
pub enum WaitStep {
    /// Nothing was written: look again after this many milliseconds.
    Sleep(u64),
    /// The cell is set: close the window and hand this value to the caller.
    CloseAndReturn(String),
}

impl WaitStep {
    /// The value handed to the caller, if the wait is over.
    pub open spec fn returned(self) -> Option<Seq<char>> {
        match self {
            WaitStep::Sleep(_) => None,
            WaitStep::CloseAndReturn(value) => Some(value@),
        }
    }

    /// The pause before the next look, if the wait goes on.
    pub open spec fn pause(self) -> Option<u64> {
        match self {
            WaitStep::Sleep(millis) => Some(millis),
            WaitStep::CloseAndReturn(_) => None,
        }
    }
}

/// The result of the login window, unset until the first signal writes it.
pub struct ResultCell {
    value: Option<String>,
}

impl View for ResultCell {
    type V = Option<Seq<char>>;

    closed spec fn view(&self) -> Option<Seq<char>> {
        match self.value {
            Some(text) => Some(text@),
            None => None,
        }
    }
}

impl ResultCell {
    /// An unset cell, as it is when the window opens.
    pub fn new() -> (cell: Self)
        ensures
            cell@ is None,
    {
        ResultCell { value: None }
    }

    /// Whether a signal has written the cell.
    pub fn is_set(&self) -> (set: bool)
        ensures
            set == (self@ is Some),
    {
        self.value.is_some()
    }

    /// Takes in a login event: its payload is written if the cell is unset.
    pub fn on_login(&mut self, payload: Option<String>)
        ensures
            final(self)@ == absorb(old(self)@, Signal::Login(payload)),
    {
        if self.value.is_none() {
            self.value = payload;
        }
    }

    /// Takes in the destruction of the window: the empty text is written if
    /// the cell is unset.
    pub fn on_destroyed(&mut self)
        ensures
            final(self)@ == absorb(old(self)@, Signal::Destroyed),
    {
        if self.value.is_none() {
            self.value = Some(String::new());
        }
    }

    /// Takes in one signal of either kind.
    pub fn record(&mut self, signal: Signal)
        ensures
            final(self)@ == absorb(old(self)@, signal),
    {
        match signal {
            Signal::Login(payload) => self.on_login(payload),
            Signal::Destroyed => self.on_destroyed(),
        }
    }

    /// One look at the cell. While it is unset the wait sleeps for one tick;
    /// once it is set the wait ends with the value that was written.
    pub fn poll(&self) -> (step: WaitStep)
        ensures
            step.returned() == self@,
            step.pause() == (if self@ is None { Some(TICK_MILLIS) } else { None }),
    {
        match &self.value {
            Some(text) => WaitStep::CloseAndReturn(text.clone()),
            None => WaitStep::Sleep(TICK_MILLIS),
        }
    }
}

/// A cell that is set stays as it is, whatever signals follow.
pub proof fn lemma_set_cell_is_final(cell: Option<Seq<char>>, trace: Seq<Signal>)
    requires
        cell is Some,
    ensures
        absorb_all(cell, trace) == cell,
    decreases trace.len(),
{
    if trace.len() > 0 {
        lemma_set_cell_is_final(cell, trace.drop_first());
    }
}

/// Taking in two traces one after the other is taking in their concatenation.
pub proof fn lemma_absorb_all_concat(
    cell: Option<Seq<char>>,
    earlier: Seq<Signal>,
    later: Seq<Signal>,
)
    ensures
        absorb_all(cell, earlier + later) == absorb_all(absorb_all(cell, earlier), later),
    decreases earlier.len(),
{
    if earlier.len() == 0 {
        assert(earlier + later == later);
    } else {
        assert((earlier + later)[0] == earlier[0]);
        assert((earlier + later).drop_first() == earlier.drop_first() + later);
        lemma_absorb_all_concat(absorb(cell, earlier[0]), earlier.drop_first(), later);
    }
}

/// A look that finds the cell set sees what every later look will see: the
/// signals that come after the first write change nothing.
pub proof fn lemma_observation_is_stable(earlier: Seq<Signal>, later: Seq<Signal>)
    requires
        absorb_all(None, earlier) is Some,
    ensures
        absorb_all(None, earlier + later) == absorb_all(None, earlier),
{
    lemma_absorb_all_concat(None, earlier, later);
    lemma_set_cell_is_final(absorb_all(None, earlier), later);
}

/// The first writer wins: an unset cell that takes in `trace` ends with the
/// value of the first signal that offers one, and stays unset exactly if none
/// does.
pub proof fn lemma_first_offer_wins(trace: Seq<Signal>)
    ensures
        absorb_all(None, trace) is None <==> offers_nothing(trace),
        absorb_all(None, trace) is Some ==> exists|at: int| is_first_offer(trace, at),
        forall|at: int| is_first_offer(trace, at) ==> absorb_all(None, trace) == trace[at].offer(),
    decreases trace.len(),
{
    if trace.len() > 0 {
        let rest = trace.drop_first();
        lemma_first_offer_wins(rest);
        if trace[0].offer() is Some {
            lemma_set_cell_is_final(trace[0].offer(), rest);
            assert(is_first_offer(trace, 0));
        } else {
            assert(offers_nothing(trace) <==> offers_nothing(rest)) by {
                if offers_nothing(trace) {
                    assert forall|at: int| 0 <= at < rest.len() implies (#[trigger] rest[at]).offer()
                        is None by {
                        assert(rest[at] == trace[at + 1]);
                    }
                }
                if offers_nothing(rest) {
                    assert forall|at: int| 0 <= at < trace.len() implies (
                        #[trigger] trace[at]
                    ).offer() is None by {
                        if at > 0 {
                            assert(trace[at] == rest[at - 1]);
                        }
                    }
                }
            }
            if absorb_all(None, trace) is Some {
                let found = choose|at: int| is_first_offer(rest, at);
                assert forall|before: int| 0 <= before < found + 1 implies (
                    #[trigger] trace[before]
                ).offer() is None by {
                    if before > 0 {
                        assert(trace[before] == rest[before - 1]);
                    }
                }
                assert(trace[found + 1] == rest[found]);
                assert(is_first_offer(trace, found + 1));
            }
            assert forall|at: int| is_first_offer(trace, at) implies absorb_all(None, trace)
                == trace[at].offer() by {
                assert(rest[at - 1] == trace[at]);
                assert forall|before: int| 0 <= before < at - 1 implies (
                    #[trigger] rest[before]
                ).offer() is None by {
                    assert(rest[before] == trace[before + 1]);
                }
                assert(is_first_offer(rest, at - 1));
            }
        }
    }
}

/// A window that is destroyed before any login event carried a payload
/// yields the empty text.
pub proof fn lemma_destroyed_unset_yields_empty(trace: Seq<Signal>, at: int)
    requires
        is_first_offer(trace, at),
        trace[at] == Signal::Destroyed,
    ensures
        absorb_all(None, trace) == Some(Seq::<char>::empty()),
{
    lemma_first_offer_wins(trace);
}

} // verus!
