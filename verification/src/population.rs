//! The population of active vehicles: admission of new vehicles under a
//! rate policy, one step for every vehicle per tick, and removal of the
//! vehicles that have left the visible area.
//!
//! A tick is admission, then the advance of all vehicles, then the cull. The
//! three phases are functions of their own, so that a renderer can be shown
//! the vehicles after the advance and before the cull.

use vstd::prelude::*;
use crate::constants::{
    CULL_MARGIN, SPAWN_CAP, SPAWN_CHANCE_DENOMINATOR, SPAWN_CHANCE_NUMERATOR, SPAWN_INTERVAL,
    VEHICLE_SPEED, WINDOW_HEIGHT, WINDOW_WIDTH,
};
use crate::random::random_ratio;
use crate::vehicles::{Vehicle, VehicleState};
use rand::rngs::StdRng;

verus! {

/// The states of a list of vehicles.
pub open spec fn states(vehicles: Seq<Vehicle>) -> Seq<VehicleState> {
    vehicles.map_values(|vehicle: Vehicle| vehicle@)
}

/// The state of a vehicle that may or may not be there.
pub open spec fn arrival_state(arrival: Option<Vehicle>) -> Option<VehicleState> {
    match arrival {
        Some(vehicle) => Some(vehicle@),
        None => None,
    }
}

/// The test a vehicle must pass to survive the cull.
pub open spec fn survives() -> spec_fn(VehicleState) -> bool {
    |vehicle: VehicleState| vehicle.in_bounds()
}

/// One tick of a vehicle.
pub open spec fn one_tick() -> spec_fn(VehicleState) -> VehicleState {
    |vehicle: VehicleState| vehicle.advance()
}

/// Whether a vehicle is no more than one step beyond the bounds of the cull:
/// where a vehicle that was in bounds can be after one tick.
pub open spec fn within_reach(vehicle: VehicleState) -> bool {
    &&& -CULL_MARGIN - VEHICLE_SPEED <= vehicle.pos_x <= WINDOW_WIDTH + CULL_MARGIN
        + VEHICLE_SPEED
    &&& -CULL_MARGIN - VEHICLE_SPEED <= vehicle.pos_y <= WINDOW_HEIGHT + CULL_MARGIN
        + VEHICLE_SPEED
}

/// The mathematical state of a population.
pub struct PopulationState {
    /// The active vehicles, oldest first.
    pub vehicles: Seq<VehicleState>,
    /// The ticks since the last spawn attempt.
    pub phase: int,
}

impl PopulationState {
    /// No vehicles, and a full interval to go until the first spawn attempt.
    pub open spec fn empty() -> Self {
        PopulationState { vehicles: Seq::empty(), phase: 0 }
    }

    /// Every vehicle keeps the lane invariant and is within reach of the
    /// bounds, and the phase counts within one spawn interval.
    pub open spec fn wf(self) -> bool {
        &&& 0 <= self.phase < SPAWN_INTERVAL
        &&& forall|i: int|
            0 <= i < self.vehicles.len() ==> (#[trigger] self.vehicles[i]).inv() && within_reach(
                self.vehicles[i],
            )
    }

    /// Every vehicle is in bounds, as after a cull.
    pub open spec fn settled(self) -> bool {
        forall|i: int| 0 <= i < self.vehicles.len() ==> (#[trigger] self.vehicles[i]).in_bounds()
    }

    /// Whether the coming tick attempts a spawn: it completes a spawn
    /// interval, and fewer vehicles than the cap are active.
    pub open spec fn spawn_due(self) -> bool {
        self.phase + 1 == SPAWN_INTERVAL && self.vehicles.len() < SPAWN_CAP
    }

    /// Admission: the phase moves on by one tick, and `arrival` joins the
    /// population if there is one and a spawn is due.
    pub open spec fn take_in(self, arrival: Option<VehicleState>) -> Self {
        PopulationState {
            vehicles: if self.spawn_due() && arrival is Some {
                self.vehicles.push(arrival->Some_0)
            } else {
                self.vehicles
            },
            phase: (self.phase + 1) % (SPAWN_INTERVAL as int),
        }
    }

    /// Every vehicle advances by one tick.
    pub open spec fn advance_all(self) -> Self {
        PopulationState { vehicles: self.vehicles.map_values(one_tick()), ..self }
    }

    /// The vehicles that are out of bounds leave; the others stay in order.
    pub open spec fn cull(self) -> Self {
        PopulationState { vehicles: self.vehicles.filter(survives()), ..self }
    }

    /// One tick: admission, then the advance of all, then the cull.
    pub open spec fn tick(self, arrival: Option<VehicleState>) -> Self {
        self.take_in(arrival).advance_all().cull()
    }

    /// One tick for each element of `arrivals`, in order.
    pub open spec fn run(self, arrivals: Seq<Option<VehicleState>>) -> Self
        decreases arrivals.len(),
    {
        if arrivals.len() == 0 {
            self
        } else {
            self.run(arrivals.drop_last()).tick(arrivals.last())
        }
    }
}

/// The active vehicles and the phase of the admission policy.
pub struct Population {
    vehicles: Vec<Vehicle>,
    phase: u32,
}

impl View for Population {
    type V = PopulationState;

    closed spec fn view(&self) -> PopulationState {
        PopulationState { vehicles: states(self.vehicles@), phase: self.phase as int }
    }
}

impl Population {
    /// An empty population.
    pub fn new() -> (population: Self)
        ensures
            population@ == PopulationState::empty(),
            population@.wf(),
            population@.settled(),
    {
        let population = Population { vehicles: Vec::new(), phase: 0 };
        assert(population@.vehicles =~= Seq::empty());
        population
    }

    /// The number of active vehicles.
    pub fn len(&self) -> (count: usize)
        ensures
            count == self@.vehicles.len(),
    {
        self.vehicles.len()
    }

    /// The active vehicles, oldest first.
    pub fn vehicles(&self) -> (vehicles: &Vec<Vehicle>)
        ensures
            states(vehicles@) == self@.vehicles,
    {
        &self.vehicles
    }

    /// Adds `vehicle` as the youngest of the population, whatever the
    /// admission policy says.
    pub fn push(&mut self, vehicle: Vehicle)
        requires
            old(self)@.wf(),
            vehicle@.inv(),
            vehicle@.in_bounds(),
        ensures
            final(self)@ == (PopulationState {
                vehicles: old(self)@.vehicles.push(vehicle@),
                ..old(self)@
            }),
            final(self)@.wf(),
            old(self)@.settled() ==> final(self)@.settled(),
    {
        self.vehicles.push(vehicle);
        assert(self@.vehicles =~= old(self)@.vehicles.push(vehicle@));
    }

    /// Whether the coming tick attempts a spawn.
    pub fn spawn_due(&self) -> (due: bool)
        requires
            self@.wf(),
        ensures
            due == self@.spawn_due(),
    {
        self.phase + 1 == SPAWN_INTERVAL && self.vehicles.len() < SPAWN_CAP
    }

    /// The vehicle, if any, that asks to be admitted on the coming tick. No
    /// draw is made unless a spawn is due; a due attempt succeeds with
    /// probability `SPAWN_CHANCE_NUMERATOR / SPAWN_CHANCE_DENOMINATOR`.
    pub fn draw_arrival(&self, rng: &mut StdRng) -> (arrival: Option<Vehicle>)
        requires
            self@.wf(),
        ensures
            arrival is Some ==> self@.spawn_due(),
            arrival matches Some(vehicle) ==> vehicle@.is_arrival() && vehicle@.inv()
                && vehicle@.in_bounds(),
    {
        if self.spawn_due() && random_ratio(rng, SPAWN_CHANCE_NUMERATOR, SPAWN_CHANCE_DENOMINATOR) {
            Some(Vehicle::random(rng))
        } else {
            None
        }
    }

    /// Admission: counts the tick, and lets `arrival` join the population if
    /// there is one and a spawn is due.
    pub fn take_in(&mut self, arrival: Option<Vehicle>)
        requires
            old(self)@.wf(),
            arrival matches Some(vehicle) ==> vehicle@.inv() && vehicle@.in_bounds(),
        ensures
            final(self)@ == old(self)@.take_in(arrival_state(arrival)),
            final(self)@.wf(),
            old(self)@.settled() ==> final(self)@.settled(),
    {
        let due = self.spawn_due();
        self.phase = (self.phase + 1) % SPAWN_INTERVAL;
        if due {
            if let Some(vehicle) = arrival {
                self.vehicles.push(vehicle);
                assert(self@.vehicles =~= old(self)@.vehicles.push(vehicle@));
            }
        }
    }

    /// Advances every vehicle by one tick. The vehicles that this takes out
    /// of bounds stay until the cull.
    pub fn advance_all(&mut self)
        requires
            old(self)@.wf(),
            old(self)@.settled(),
        ensures
            final(self)@ == old(self)@.advance_all(),
            final(self)@.wf(),
    {
        let mut next: Vec<Vehicle> = Vec::new();
        let mut i: usize = 0;
        while i < self.vehicles.len()
            invariant
                i <= self.vehicles.len(),
                self@.wf(),
                self@.settled(),
                next.len() == i,
                forall|j: int| 0 <= j < i ==> (#[trigger] next[j])@ == self@.vehicles[j].advance(),
                forall|j: int|
                    0 <= j < i ==> (#[trigger] next[j])@.inv() && within_reach(next[j]@),
            decreases self.vehicles.len() - i,
        {
            let mut vehicle = self.vehicles[i];
            assert(self@.vehicles[i as int] == vehicle@);
            vehicle.move_vehicle();
            next.push(vehicle);
            i += 1;
        }
        self.vehicles = next;
        assert(self@.vehicles =~= old(self)@.vehicles.map_values(one_tick()));
    }

    /// Removes the vehicles that are out of bounds; the others stay in
    /// order.
    pub fn cull(&mut self)
        requires
            old(self)@.wf(),
        ensures
            final(self)@ == old(self)@.cull(),
            final(self)@.wf(),
            final(self)@.settled(),
    {
        let mut kept: Vec<Vehicle> = Vec::new();
        let mut i: usize = 0;
        assert(self@.vehicles.take(0).filter(survives()) =~= Seq::empty()) by {
            reveal(Seq::filter);
        }
        while i < self.vehicles.len()
            invariant
                i <= self.vehicles.len(),
                self@.wf(),
                states(kept@) == self@.vehicles.take(i as int).filter(survives()),
                forall|j: int|
                    0 <= j < kept.len() ==> (#[trigger] kept[j])@.inv() && kept[j]@.in_bounds(),
            decreases self.vehicles.len() - i,
        {
            let vehicle = self.vehicles[i];
            proof {
                let seen = self@.vehicles.take(i as int);
                assert(self@.vehicles[i as int] == vehicle@);
                assert(self@.vehicles.take(i + 1) =~= seen.push(vehicle@));
                seen.lemma_filter_push(vehicle@, survives());
            }
            if vehicle.in_bounds() {
                kept.push(vehicle);
                assert(states(kept@) =~= self@.vehicles.take(i as int).filter(survives()).push(
                    vehicle@,
                ));
            }
            i += 1;
        }
        assert(self@.vehicles.take(i as int) =~= self@.vehicles);
        self.vehicles = kept;
    }

    /// One tick with the arrival given: admission, then the advance of all
    /// vehicles, then the cull.
    pub fn step(&mut self, arrival: Option<Vehicle>)
        requires
            old(self)@.wf(),
            old(self)@.settled(),
            arrival matches Some(vehicle) ==> vehicle@.inv() && vehicle@.in_bounds(),
        ensures
            final(self)@ == old(self)@.tick(arrival_state(arrival)),
            final(self)@.wf(),
            final(self)@.settled(),
    {
        self.take_in(arrival);
        self.advance_all();
        self.cull();
    }

    /// One tick: a spawn attempt if one is due, then the advance of all
    /// vehicles, then the cull. The outcome is that of [`Population::step`]
    /// with some arrival, which is there only if a spawn is due and is then
    /// a vehicle as it is spawned.
    pub fn tick(&mut self, rng: &mut StdRng)
        requires
            old(self)@.wf(),
            old(self)@.settled(),
        ensures
            exists|arrival: Option<VehicleState>|
                {
                    &&& #[trigger] old(self)@.tick(arrival) == final(self)@
                    &&& arrival is Some ==> old(self)@.spawn_due()
                    &&& arrival matches Some(vehicle) ==> vehicle.is_arrival()
                },
            final(self)@.wf(),
            final(self)@.settled(),
            final(self)@.vehicles.len() <= old(self)@.vehicles.len() + 1,
            old(self)@.vehicles.len() >= SPAWN_CAP ==> final(self)@.vehicles.len() <= old(
                self,
            )@.vehicles.len(),
            old(self)@.vehicles.len() <= SPAWN_CAP ==> final(self)@.vehicles.len() <= SPAWN_CAP,
    {
        let arrival = self.draw_arrival(rng);
        proof {
            lemma_tick_respects_cap(self@, arrival_state(arrival));
        }
        self.step(arrival);
    }
}

/// A tick never lets the population grow beyond the cap: at or above the cap
/// the count cannot rise, below it the count cannot pass it, whatever
/// arrives. In no case does a tick add more than one vehicle.
pub proof fn lemma_tick_respects_cap(population: PopulationState, arrival: Option<VehicleState>)
    ensures
        population.vehicles.len() >= SPAWN_CAP ==> population.tick(arrival).vehicles.len()
            <= population.vehicles.len(),
        population.vehicles.len() <= SPAWN_CAP ==> population.tick(arrival).vehicles.len()
            <= SPAWN_CAP,
        population.tick(arrival).vehicles.len() <= population.vehicles.len() + 1,
{
    population.take_in(arrival).advance_all().vehicles.lemma_filter_len(survives());
}

/// The cull step of a tick: the vehicles after a tick are exactly those
/// that, admitted and advanced, are in bounds. A vehicle that the advance
/// has taken out of bounds is gone.
pub proof fn lemma_tick_culls(
    population: PopulationState,
    arrival: Option<VehicleState>,
    vehicle: VehicleState,
)
    ensures
        population.tick(arrival).vehicles.contains(vehicle) <==> population.take_in(
            arrival,
        ).advance_all().vehicles.contains(vehicle) && vehicle.in_bounds(),
        population.tick(arrival).settled(),
{
    let advanced = population.take_in(arrival).advance_all().vehicles;
    let kept = population.tick(arrival).vehicles;
    assert forall|i: int| 0 <= i < kept.len() implies (#[trigger] kept[i]).in_bounds() by {
        advanced.lemma_filter_pred(survives(), i);
    }
    if kept.contains(vehicle) {
        advanced.lemma_filter_contains_rev(survives(), vehicle);
    }
    if advanced.contains(vehicle) && vehicle.in_bounds() {
        let i = choose|i: int| 0 <= i < advanced.len() && advanced[i] == vehicle;
        advanced.lemma_filter_contains(survives(), i);
    }
}

/// Whether `vehicle` has come, by ticks of its own alone, from a vehicle of
/// `start` or from one of `arrivals`: a vehicle of `start` advanced once for
/// every tick of the run, or an arrival advanced once for every tick from
/// the one it arrived on.
pub open spec fn descends(
    start: PopulationState,
    arrivals: Seq<Option<VehicleState>>,
    vehicle: VehicleState,
) -> bool {
    ||| exists|i: int|
        0 <= i < start.vehicles.len() && vehicle == (#[trigger] start.vehicles[i]).advance_n(
            arrivals.len(),
        )
    ||| exists|tick: int|
        0 <= tick < arrivals.len() && (#[trigger] arrivals[tick]) is Some && vehicle
            == arrivals[tick]->Some_0.advance_n((arrivals.len() - tick) as nat)
}

/// Every vehicle follows its own course: whatever else is on the road, a
/// vehicle that is there after a run is where its own ticks have taken it
/// from the state it started or arrived in.
pub proof fn lemma_vehicles_follow_their_own_course(
    start: PopulationState,
    arrivals: Seq<Option<VehicleState>>,
    vehicle: VehicleState,
)
    requires
        start.run(arrivals).vehicles.contains(vehicle),
    ensures
        descends(start, arrivals, vehicle),
    decreases arrivals.len(),
{
    if arrivals.len() > 0 {
        // The vehicle is the advance of one that was there before this tick
        // or arrived on it.
        let earlier = arrivals.drop_last();
        let before = start.run(earlier);
        let arrival = arrivals.last();
        lemma_tick_culls(before, arrival, vehicle);
        let advanced = before.take_in(arrival).advance_all().vehicles;
        let at = choose|at: int| 0 <= at < advanced.len() && advanced[at] == vehicle;
        let previous = before.take_in(arrival).vehicles[at];
        assert(vehicle == previous.advance());
        if at < before.vehicles.len() {
            assert(before.vehicles.contains(previous));
            lemma_vehicles_follow_their_own_course(start, earlier, previous);
        } else {
            assert(arrival == Some(previous));
            assert(previous.advance_n(1) == previous.advance_n(0).advance());
        }
    }
}

/// A run is determined by where it starts and by what arrives: two runs
/// from the same population with the same arrivals are, after every tick,
/// the same population, with every vehicle at the same position.
pub proof fn lemma_run_is_determined(
    first: PopulationState,
    second: PopulationState,
    first_arrivals: Seq<Option<VehicleState>>,
    second_arrivals: Seq<Option<VehicleState>>,
)
    requires
        first == second,
        first_arrivals =~= second_arrivals,
    ensures
        forall|ticks: int|
            0 <= ticks <= first_arrivals.len() ==> first.run(#[trigger] first_arrivals.take(ticks))
                == second.run(second_arrivals.take(ticks)),
        first.run(first_arrivals) == second.run(second_arrivals),
{
}

} // verus!
