//! The hand-over between a caller and the worker of one search engine: one slot
//! for the parameters of the search in flight, one for the latest result, and the
//! two signals. At most one search is outstanding.

use vstd::prelude::*;

verus! {

/// What the worker does next.
#[derive(Clone, Copy, Debug, PartialEq, Eq, Structural)]
pub enum WorkerAction {
    /// Nothing is asked: wait until woken.
    Park,
    /// Run one search with the parameters in the slot.
    Search,
    /// Release everything and end.
    Shutdown,
}

/// The contents of a slot.
pub struct SlotState<P, R> {
    pub parameters: P,
    pub result: R,
    pub perform_search: bool,
    pub end_thread: bool,
}

impl<P, R> SlotState<P, R> {
    /// The slot after a request with `parameters`, and whether it was taken: a slot
    /// with a search in flight refuses and stays as it is.
    pub open spec fn request(self, parameters: P) -> (Self, bool) {
        if self.perform_search {
            (self, false)
        } else {
            (
                SlotState {
                    parameters,
                    result: self.result,
                    perform_search: true,
                    end_thread: self.end_thread,
                },
                true,
            )
        }
    }

    /// What a poll sees: the latest result, once no search is in flight.
    pub open spec fn poll(self) -> Option<R> {
        if self.perform_search {
            None
        } else {
            Some(self.result)
        }
    }

    /// The slot after the worker looked at the signals, and what it does: the end
    /// signal is taken and wins over a search.
    pub open spec fn next(self) -> (Self, WorkerAction) {
        if self.end_thread {
            (
                SlotState {
                    parameters: self.parameters,
                    result: self.result,
                    perform_search: self.perform_search,
                    end_thread: false,
                },
                WorkerAction::Shutdown,
            )
        } else if self.perform_search {
            (self, WorkerAction::Search)
        } else {
            (self, WorkerAction::Park)
        }
    }

    /// The slot after the worker published `result`: the search signal is cleared.
    pub open spec fn complete(self, result: R) -> Self {
        SlotState {
            parameters: self.parameters,
            result,
            perform_search: false,
            end_thread: self.end_thread,
        }
    }

    /// The slot after the caller asked the worker to end.
    pub open spec fn end(self) -> Self {
        SlotState {
            parameters: self.parameters,
            result: self.result,
            perform_search: self.perform_search,
            end_thread: true,
        }
    }
}

/// The state that a caller and a worker share.
pub struct SearchSlot<P, R> {
    parameters: P,
    result: R,
    perform_search: bool,
    end_thread: bool,
}

impl<P, R> View for SearchSlot<P, R> {
    type V = SlotState<P, R>;

    closed spec fn view(&self) -> SlotState<P, R> {
        SlotState {
            parameters: self.parameters,
            result: self.result,
            perform_search: self.perform_search,
            end_thread: self.end_thread,
        }
    }
}

impl<P, R> SearchSlot<P, R> {
    /// A slot with no search in flight.
    pub fn new(parameters: P, result: R) -> (slot: Self)
        ensures
            slot@ == (SlotState { parameters, result, perform_search: false, end_thread: false }),
    {
        SearchSlot { parameters, result, perform_search: false, end_thread: false }
    }

    /// Asks for a search with `parameters`. While a search is in flight the request
    /// is refused: the parameters come back and the slot stays as it is.
    pub fn request_search(&mut self, parameters: P) -> (refused: Option<P>)
        ensures
            final(self)@ == old(self)@.request(parameters).0,
            refused is None == old(self)@.request(parameters).1,
            refused is Some ==> refused == Some(parameters),
    {
        if self.perform_search {
            Some(parameters)
        } else {
            self.parameters = parameters;
            self.perform_search = true;
            None
        }
    }

    /// Whether a search is in flight.
    pub fn is_searching(&self) -> (searching: bool)
        ensures
            searching == self@.perform_search,
    {
        self.perform_search
    }

    /// The latest result, once no search is in flight.
    pub fn poll_result(&self) -> (result: Option<&R>)
        ensures
            result is Some == self@.poll() is Some,
            result is Some ==> *result->Some_0 == self@.poll()->Some_0,
    {
        if self.perform_search {
            None
        } else {
            Some(&self.result)
        }
    }

    /// Asks the worker to end.
    pub fn shutdown(&mut self)
        ensures
            final(self)@ == old(self)@.end(),
    {
        self.end_thread = true;
    }

    /// The worker's look at the signals.
    pub fn next_action(&mut self) -> (action: WorkerAction)
        ensures
            final(self)@ == old(self)@.next().0,
            action == old(self)@.next().1,
    {
        if self.end_thread {
            self.end_thread = false;
            WorkerAction::Shutdown
        } else if self.perform_search {
            WorkerAction::Search
        } else {
            WorkerAction::Park
        }
    }

    /// The parameters in the slot.
    pub fn parameters(&self) -> (parameters: &P)
        ensures
            *parameters == self@.parameters,
    {
        &self.parameters
    }

    /// Publishes the result of the search that was in flight and clears its signal.
    pub fn complete_search(&mut self, result: R)
        ensures
            final(self)@ == old(self)@.complete(result),
    {
        self.result = result;
        self.perform_search = false;
    }
}

/// A second request that comes before the first search was completed is refused,
/// and the parameters of the search in flight stay what the first request set,
/// whatever the worker looked at in between and whether or not the caller asked it
/// to end.
pub proof fn lemma_single_outstanding_search<P, R>(
    slot: SlotState<P, R>,
    first: P,
    second: P,
    worker_looked: bool,
    end_asked: bool,
)
    requires
        !slot.perform_search,
    ensures
        ({
            let accepted = slot.request(first);
            let ended = if end_asked {
                accepted.0.end()
            } else {
                accepted.0
            };
            let looked = if worker_looked {
                ended.next().0
            } else {
                ended
            };
            let again = looked.request(second);
            &&& accepted.1
            &&& accepted.0.parameters == first
            &&& !again.1
            &&& again.0 == looked
            &&& again.0.parameters == first
            &&& again.0.poll() is None
        }),
{
}

/// After a search was completed the next request is taken, and a poll in between
/// sees the result that the worker published.
pub proof fn lemma_request_after_completion<P, R>(slot: SlotState<P, R>, result: R, next: P)
    ensures
        slot.complete(result).poll() == Some(result),
        slot.complete(result).request(next).1,
        slot.complete(result).request(next).0.parameters == next,
{
}

/// The worker runs a search only where one was asked for, and ends only where it
/// was asked to.
pub proof fn lemma_worker_obeys_signals<P, R>(slot: SlotState<P, R>)
    ensures
        slot.next().1 == WorkerAction::Search ==> slot.perform_search && !slot.end_thread,
        slot.next().1 == WorkerAction::Shutdown <==> slot.end_thread,
        slot.next().1 == WorkerAction::Park <==> !slot.perform_search && !slot.end_thread,
        slot.next().0.parameters == slot.parameters,
        slot.next().0.result == slot.result,
        slot.next().0.perform_search == slot.perform_search,
{
}

} // verus!
