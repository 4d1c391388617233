//! The admission-controlled waiting room (the "sleeping barber"): one service
//! provider drains a waiting room with a fixed number of chairs, while
//! customers arrive concurrently and are admitted or turned away.
//!
//! Each public method is one atomic step of the protocol; the runtime calls
//! the steps under the shop's exclusion, sleeps between them (poll interval,
//! service duration), and prints the events they return.

use crate::counter::ExclusionCounter;
use crate::pool::TokenPool;
use vstd::prelude::*;

verus! {

/// What happened when a customer arrived.
#[derive(Clone, Copy, PartialEq, Eq, Structural, Debug)]
pub enum ArrivalOutcome {
    /// A chair was free: the customer holds a chair token and waits.
    /// `waiting_now` is the waiting count right after the arrival;
    /// `wakes_provider` is true exactly when this customer is the only one
    /// waiting, so the idle provider has someone to serve again.
    Admitted { id: u32, waiting_now: u32, wakes_provider: bool },
    /// Every chair was taken: the customer leaves without a token.
    Rejected { id: u32 },
}

/// What the provider's next step is.
#[derive(Clone, Copy, PartialEq, Eq, Structural, Debug)]
pub enum ServiceAction {
    /// Every expected customer has been serviced: the provider stops.
    Finished,
    /// Nobody is waiting: the provider sleeps for a poll interval and retries.
    Idle,
    /// The provider took a customer out of the waiting room and is servicing;
    /// `waiting_now` is the waiting count right after the take.
    BeginService { waiting_now: u32 },
}

/// The waiting-room engine. The chair pool bounds how many customers may sit
/// at once; the two counters are read and written only inside the engine's
/// critical section. The ghost counters record the admission events over the
/// whole run.
pub struct BarberShop {
    max_chairs: u32,
    customers_waiting: ExclusionCounter,
    remaining_customers: ExclusionCounter,
    in_service: bool,
    chairs: TokenPool,
    arrivals: Ghost<nat>,
    admitted: Ghost<nat>,
    rejected: Ghost<nat>,
}

impl BarberShop {
    /// The number of chairs in the waiting room.
    pub closed spec fn max_chairs(&self) -> u32 {
        self.max_chairs
    }

    /// How many customers sit waiting right now.
    pub closed spec fn waiting(&self) -> u32 {
        self.customers_waiting.value()
    }

    /// How many of the expected customers have not been serviced yet.
    pub closed spec fn remaining(&self) -> u32 {
        self.remaining_customers.value()
    }

    /// Whether the provider is in the middle of servicing a customer.
    pub closed spec fn in_service(&self) -> bool {
        self.in_service
    }

    /// The chair token pool.
    pub closed spec fn chairs(&self) -> TokenPool {
        self.chairs
    }

    /// How many customers have arrived over the run.
    pub closed spec fn arrivals(&self) -> nat {
        self.arrivals@
    }

    /// How many arrivals were admitted over the run.
    pub closed spec fn admitted(&self) -> nat {
        self.admitted@
    }

    /// How many arrivals were rejected over the run.
    pub closed spec fn rejected(&self) -> nat {
        self.rejected@
    }

    /// The engine's invariant. Chair tokens are conserved: every chair is
    /// free, under a waiting customer, or under the one customer being
    /// serviced (the provider gives the token back only when the service is
    /// complete). A service in progress belongs to a customer not yet counted
    /// as done, and every arrival was either admitted or rejected.
    pub closed spec fn wf(&self) -> bool {
        &&& self.chairs.wf()
        &&& self.chairs.capacity() == self.max_chairs
        &&& self.customers_waiting.value() + (if self.in_service { 1int } else { 0int })
            + self.chairs.available() == self.max_chairs
        &&& self.in_service ==> self.remaining_customers.value() >= 1
        &&& self.arrivals@ == self.admitted@ + self.rejected@
        &&& self.admitted@ == self.chairs.acquired()
    }

    /// An arrival step is enabled. When the room is full the arrival is
    /// rejected at once; otherwise the customer needs a free chair token. The
    /// only state with room but no free token is one chair shy of capacity
    /// with a service in progress — there an arriving customer blocks until
    /// the provider returns the token, and the runtime retries the step.
    pub open spec fn can_arrive(&self) -> bool {
        self.waiting() >= self.max_chairs() || self.chairs().available() > 0
    }

    /// Creates a shop with `max_chairs` chairs, expecting `total_customers`
    /// customers in all.
    pub fn new(max_chairs: u32, total_customers: u32) -> (shop: BarberShop)
        ensures
            shop.wf(),
            shop.max_chairs() == max_chairs,
            shop.waiting() == 0,
            shop.remaining() == total_customers,
            !shop.in_service(),
            shop.arrivals() == 0,
            shop.admitted() == 0,
            shop.rejected() == 0,
            shop.chairs().available() == max_chairs,
            shop.chairs().capacity() == max_chairs,
            shop.chairs().acquired() == 0,
            shop.chairs().released() == 0,
    {
        BarberShop {
            max_chairs,
            customers_waiting: ExclusionCounter::new(0),
            remaining_customers: ExclusionCounter::new(total_customers),
            in_service: false,
            chairs: TokenPool::new(max_chairs),
            arrivals: Ghost(0),
            admitted: Ghost(0),
            rejected: Ghost(0),
        }
    }

    /// One customer arrives. Under the waiting counter's exclusion the step
    /// compares the waiting count to the capacity: below capacity it acquires
    /// a chair token and increments the count (waking the provider exactly
    /// when the new count is 1); at capacity it rejects the customer without
    /// touching the pool.
    pub fn arrive_customer(&mut self, id: u32) -> (outcome: ArrivalOutcome)
        requires
            old(self).wf(),
            old(self).can_arrive(),
        ensures
            final(self).wf(),
            outcome == (if old(self).waiting() < old(self).max_chairs() {
                ArrivalOutcome::Admitted {
                    id,
                    waiting_now: (old(self).waiting() + 1) as u32,
                    wakes_provider: old(self).waiting() == 0,
                }
            } else {
                ArrivalOutcome::Rejected { id }
            }),
            final(self).max_chairs() == old(self).max_chairs(),
            final(self).remaining() == old(self).remaining(),
            final(self).in_service() == old(self).in_service(),
            final(self).arrivals() == old(self).arrivals() + 1,
            old(self).waiting() < old(self).max_chairs() ==> {
                &&& final(self).waiting() == old(self).waiting() + 1
                &&& final(self).admitted() == old(self).admitted() + 1
                &&& final(self).rejected() == old(self).rejected()
                &&& final(self).chairs().available() == old(self).chairs().available() - 1
                &&& final(self).chairs().acquired() == old(self).chairs().acquired() + 1
                &&& final(self).chairs().released() == old(self).chairs().released()
                &&& final(self).chairs().capacity() == old(self).chairs().capacity()
            },
            old(self).waiting() >= old(self).max_chairs() ==> {
                &&& final(self).waiting() == old(self).waiting()
                &&& final(self).admitted() == old(self).admitted()
                &&& final(self).rejected() == old(self).rejected() + 1
                &&& final(self).chairs() == old(self).chairs()
            },
    {
        self.arrivals = Ghost(self.arrivals@ + 1);
        let waiting = self.customers_waiting.get();
        if waiting < self.max_chairs {
            self.chairs.acquire();
            self.customers_waiting.increment();
            self.admitted = Ghost(self.admitted@ + 1);
            let waiting_now = self.customers_waiting.get();
            ArrivalOutcome::Admitted {
                id,
                waiting_now,
                wakes_provider: waiting_now == 1,
            }
        } else {
            self.rejected = Ghost(self.rejected@ + 1);
            ArrivalOutcome::Rejected { id }
        }
    }

    /// One poll of the provider's loop, taken between services. The provider
    /// stops once every expected customer has been serviced; with nobody
    /// waiting it goes idle for a poll interval; otherwise it takes a
    /// customer out of the waiting room and begins the service, keeping the
    /// customer's chair token until the service completes.
    pub fn service_step(&mut self) -> (action: ServiceAction)
        requires
            old(self).wf(),
            !old(self).in_service(),
        ensures
            final(self).wf(),
            action == (if old(self).remaining() == 0 {
                ServiceAction::Finished
            } else if old(self).waiting() == 0 {
                ServiceAction::Idle
            } else {
                ServiceAction::BeginService { waiting_now: (old(self).waiting() - 1) as u32 }
            }),
            (action matches ServiceAction::BeginService { .. }) ==> old(self).waiting() > 0,
            (action matches ServiceAction::Idle) <==> (old(self).remaining() > 0
                && old(self).waiting() == 0),
            (action matches ServiceAction::BeginService { .. }) ==> {
                &&& final(self).waiting() == old(self).waiting() - 1
                &&& final(self).in_service()
                &&& final(self).remaining() == old(self).remaining()
                &&& final(self).chairs() == old(self).chairs()
                &&& final(self).max_chairs() == old(self).max_chairs()
                &&& final(self).arrivals() == old(self).arrivals()
                &&& final(self).admitted() == old(self).admitted()
                &&& final(self).rejected() == old(self).rejected()
            },
            !(action matches ServiceAction::BeginService { .. }) ==> *final(self) == *old(self),
    {
        if self.remaining_customers.get() == 0 {
            ServiceAction::Finished
        } else if self.customers_waiting.get() == 0 {
            ServiceAction::Idle
        } else {
            self.customers_waiting.decrement();
            self.in_service = true;
            ServiceAction::BeginService { waiting_now: self.customers_waiting.get() }
        }
    }

    /// The service in progress completes. One fewer customer remains to be
    /// serviced, and the customer's chair token goes back into the pool so a
    /// new arrival can take the chair. Returns how many expected customers
    /// are still unserviced; at zero the provider's next poll stops the loop.
    pub fn complete_service(&mut self) -> (remaining_now: u32)
        requires
            old(self).wf(),
            old(self).in_service(),
        ensures
            final(self).wf(),
            remaining_now == old(self).remaining() - 1,
            final(self).remaining() == old(self).remaining() - 1,
            !final(self).in_service(),
            final(self).waiting() == old(self).waiting(),
            final(self).max_chairs() == old(self).max_chairs(),
            final(self).chairs().available() == old(self).chairs().available() + 1,
            final(self).chairs().released() == old(self).chairs().released() + 1,
            final(self).chairs().acquired() == old(self).chairs().acquired(),
            final(self).chairs().capacity() == old(self).chairs().capacity(),
            final(self).arrivals() == old(self).arrivals(),
            final(self).admitted() == old(self).admitted(),
            final(self).rejected() == old(self).rejected(),
    {
        self.remaining_customers.decrement();
        self.in_service = false;
        self.chairs.release(1);
        self.remaining_customers.get()
    }

    /// Whether an arrival step may run now; the runtime checks this before
    /// calling `arrive_customer`, and retries after the provider's next
    /// token release when it is false.
    pub fn arrival_enabled(&self) -> (enabled: bool)
        ensures
            enabled == self.can_arrive(),
    {
        self.customers_waiting.get() >= self.max_chairs || self.chairs.available_now() > 0
    }

    /// Whether the provider is in the middle of servicing a customer; the
    /// runtime checks this around the provider's steps.
    pub fn service_in_progress(&self) -> (busy: bool)
        ensures
            busy == self.in_service(),
    {
        self.in_service
    }

    /// How many customers sit waiting right now.
    pub fn waiting_count(&self) -> (n: u32)
        ensures
            n == self.waiting(),
    {
        self.customers_waiting.get()
    }

    /// How many of the expected customers have not been serviced yet.
    pub fn remaining_count(&self) -> (n: u32)
        ensures
            n == self.remaining(),
    {
        self.remaining_customers.get()
    }
}

/// Law: at no observed instant do the waiting customers exceed the chairs.
pub proof fn lemma_waiting_within_capacity(shop: &BarberShop)
    requires
        shop.wf(),
    ensures
        shop.waiting() <= shop.max_chairs(),
{
}

/// Law: the shop's chair pool keeps its fixed stock — it is a conserving
/// token pool whose capacity is the chair count, so its free tokens never
/// exceed the chairs, however the provider's releases interleave with the
/// arrivals' acquires.
pub proof fn lemma_chair_pool_bounded(shop: &BarberShop)
    requires
        shop.wf(),
    ensures
        shop.chairs().wf(),
        shop.chairs().capacity() == shop.max_chairs(),
        shop.chairs().available() <= shop.max_chairs(),
{
}

/// Law: over any run, the admitted arrivals plus the rejected arrivals are
/// exactly all the arrivals.
pub proof fn lemma_arrival_accounting(shop: &BarberShop)
    requires
        shop.wf(),
    ensures
        shop.admitted() + shop.rejected() == shop.arrivals(),
{
}

} // verus!
