//! The admission buffer: a bound on the calls in flight. Callers beyond the
//! bound are held back, never turned away.

use vstd::prelude::*;
use crate::config::PipelineConfig;

verus! {

/// The answer to a caller that asks for a slot.
#[derive(Clone, Copy, Debug, PartialEq, Eq, Structural)]
pub enum Entry {
    /// The caller holds a slot and may go on.
    Admitted,
    /// Every slot is taken: the caller waits until one is handed to it.
    Pending,
}

/// The mathematical content of an [`Admission`].
pub ghost struct AdmissionView {
    /// The number of slots.
    pub capacity: nat,
    /// The callers that hold a slot.
    pub in_flight: nat,
    /// The callers that wait for one.
    pub waiting: nat,
}

impl AdmissionView {
    /// No more callers hold a slot than there are slots, and nobody waits
    /// while a slot is free.
    pub open spec fn wf(self) -> bool {
        &&& self.capacity > 0
        &&& self.in_flight <= self.capacity
        &&& self.waiting > 0 ==> self.in_flight == self.capacity
    }

    /// The buffer with no caller in it.
    pub open spec fn empty(capacity: nat) -> AdmissionView {
        AdmissionView { capacity, in_flight: 0, waiting: 0 }
    }

    /// What the next caller is told.
    pub open spec fn answer(self) -> Entry {
        if self.in_flight < self.capacity {
            Entry::Admitted
        } else {
            Entry::Pending
        }
    }

    /// The buffer after one more caller has come.
    pub open spec fn entered(self) -> AdmissionView {
        if self.in_flight < self.capacity {
            AdmissionView { in_flight: self.in_flight + 1, ..self }
        } else {
            AdmissionView { waiting: self.waiting + 1, ..self }
        }
    }

    /// The buffer after a caller that held a slot has gone: the slot passes
    /// to a waiting caller if there is one, and is free otherwise.
    pub open spec fn left(self) -> AdmissionView {
        if self.waiting > 0 {
            AdmissionView { waiting: (self.waiting - 1) as nat, ..self }
        } else {
            AdmissionView { in_flight: (self.in_flight - 1) as nat, ..self }
        }
    }

    /// The buffer after `callers` more callers have come and none has gone.
    pub open spec fn entered_all(self, callers: nat) -> AdmissionView
        decreases callers,
    {
        if callers == 0 {
            self
        } else {
            self.entered().entered_all((callers - 1) as nat)
        }
    }

    /// What `callers` callers that come one after another are told.
    pub open spec fn answers(self, callers: nat) -> Seq<Entry>
        decreases callers,
    {
        if callers == 0 {
            Seq::empty()
        } else {
            seq![self.answer()] + self.entered().answers((callers - 1) as nat)
        }
    }
}

/// The shared count of the calls in flight and of those that wait.
#[derive(Debug)]
pub struct Admission {
    capacity: usize,
    in_flight: usize,
    waiting: usize,
}

impl View for Admission {
    type V = AdmissionView;

    closed spec fn view(&self) -> AdmissionView {
        AdmissionView {
            capacity: self.capacity as nat,
            in_flight: self.in_flight as nat,
            waiting: self.waiting as nat,
        }
    }
}

impl Admission {
    #[verifier::type_invariant]
    spec fn valid(self) -> bool {
        self@.wf()
    }

    /// An empty buffer with the capacity of `config`.
    pub fn new(config: &PipelineConfig) -> (admission: Admission)
        ensures
            admission@ == AdmissionView::empty(config@.admission_capacity),
            admission@.wf(),
    {
        Admission { capacity: config.admission_capacity(), in_flight: 0, waiting: 0 }
    }

    /// Takes a caller in: it is admitted while a slot is free and pending
    /// otherwise. There is no third answer.
    pub fn enter(&mut self) -> (entry: Entry)
        requires
            old(self)@.waiting < usize::MAX,
        ensures
            old(self)@.wf(),
            final(self)@ == old(self)@.entered(),
            entry == old(self)@.answer(),
            final(self)@.wf(),
        no_unwind
    {
        proof {
            use_type_invariant(&*self);
        }
        if self.in_flight < self.capacity {
            self.in_flight = self.in_flight + 1;
            Entry::Admitted
        } else {
            self.waiting = self.waiting + 1;
            Entry::Pending
        }
    }

    /// Lets a caller that holds a slot go. Returns whether the slot was
    /// handed to a pending caller, which is thereby admitted.
    pub fn leave(&mut self) -> (handed_on: bool)
        requires
            old(self)@.in_flight > 0,
        ensures
            old(self)@.wf(),
            final(self)@ == old(self)@.left(),
            handed_on == (old(self)@.waiting > 0),
            final(self)@.wf(),
        no_unwind
    {
        proof {
            use_type_invariant(&*self);
        }
        if self.waiting > 0 {
            self.waiting = self.waiting - 1;
            true
        } else {
            self.in_flight = self.in_flight - 1;
            false
        }
    }

    /// Takes a pending caller off the wait: it gave the call up before a slot
    /// came to it.
    pub fn withdraw(&mut self)
        requires
            old(self)@.waiting > 0,
        ensures
            final(self)@ == (AdmissionView {
                waiting: (old(self)@.waiting - 1) as nat,
                ..old(self)@
            }),
            final(self)@.wf(),
        no_unwind
    {
        proof {
            use_type_invariant(&*self);
        }
        self.waiting = self.waiting - 1;
    }

    /// The callers that hold a slot.
    pub fn in_flight(&self) -> (count: usize)
        ensures
            count == self@.in_flight,
    {
        self.in_flight
    }

    /// The callers that wait for a slot.
    pub fn waiting(&self) -> (count: usize)
        ensures
            count == self@.waiting,
    {
        self.waiting
    }
}

/// Coming and going keep the buffer well formed.
pub proof fn the_bound_holds(admission: AdmissionView)
    requires
        admission.wf(),
    ensures
        admission.entered().wf(),
        admission.in_flight > 0 ==> admission.left().wf(),
{
}

/// Of the callers that come to a buffer, the first to find a free slot are
/// admitted, as many as slots are free, and every further one is pending:
/// none is turned away.
pub proof fn callers_beyond_the_capacity_wait(admission: AdmissionView, callers: nat)
    requires
        admission.wf(),
    ensures
        admission.answers(callers).len() == callers,
        forall|i: int|
            0 <= i < callers ==> (#[trigger] admission.answers(callers)[i]) == if i
                < admission.capacity - admission.in_flight {
                Entry::Admitted
            } else {
                Entry::Pending
            },
        admission.entered_all(callers).wf(),
        admission.entered_all(callers).capacity == admission.capacity,
        admission.entered_all(callers).in_flight + admission.entered_all(callers).waiting
            == admission.in_flight + admission.waiting + callers,
        admission.entered_all(callers).in_flight == if callers <= admission.capacity
            - admission.in_flight {
            admission.in_flight + callers
        } else {
            admission.capacity
        },
    decreases callers,
{
    if callers > 0 {
        let next = admission.entered();
        let rest = (callers - 1) as nat;
        callers_beyond_the_capacity_wait(next, rest);
        assert forall|i: int| 0 <= i < callers implies (#[trigger] admission.answers(callers)[i])
            == if i < admission.capacity - admission.in_flight {
            Entry::Admitted
        } else {
            Entry::Pending
        } by {
            if i > 0 {
                assert(admission.answers(callers)[i] == next.answers(rest)[i - 1]);
            }
        }
    }
}

/// With a capacity of `capacity` and `capacity + extra` callers at once,
/// `capacity` callers are admitted and the `extra` ones are pending; when a
/// slot then frees, it goes to one of them.
pub proof fn the_extra_callers_stay_pending(capacity: nat, extra: nat)
    requires
        capacity > 0,
        extra > 0,
    ensures
        forall|i: int|
            0 <= i < capacity + extra ==> (#[trigger] AdmissionView::empty(capacity).answers(
                capacity + extra,
            )[i]) == if i < capacity {
                Entry::Admitted
            } else {
                Entry::Pending
            },
        AdmissionView::empty(capacity).entered_all(capacity + extra) == (AdmissionView {
            capacity,
            in_flight: capacity,
            waiting: extra,
        }),
        AdmissionView::empty(capacity).entered_all(capacity + extra).left() == (AdmissionView {
            capacity,
            in_flight: capacity,
            waiting: (extra - 1) as nat,
        }),
{
    callers_beyond_the_capacity_wait(AdmissionView::empty(capacity), capacity + extra);
}

} // verus!
