use crate::error::SimError;
use crate::random::RandomSource;
use crate::world::Board;
use crate::world::BoardView;
use vstd::prelude::*;

verus! {

/// Number of organisms a simulation starts with unless told otherwise.
pub const DEFAULT_ORGANISM_COUNT: usize = 10;

/// Number of genes per organism unless told otherwise.
pub const DEFAULT_GENOME_SIZE: usize = 2;

/// A board together with the parameters of its initial population.
pub struct Simulation {
    pub board: Board,
    /// How many organisms `start` puts on the board.
    pub organism_count: usize,
    /// How many genes each of those organisms has.
    pub genome_size: usize,
}

impl Simulation {
    /// A simulation on an empty board of `width` by `height` tiles, with the
    /// default population parameters.
    pub fn new(width: usize, height: usize) -> (simulation: Simulation)
        ensures
            simulation.board@ == (BoardView {
                width: width as nat,
                height: height as nat,
                cells: Map::empty(),
            }),
            simulation.organism_count == DEFAULT_ORGANISM_COUNT,
            simulation.genome_size == DEFAULT_GENOME_SIZE,
    {
        Simulation::with_population(width, height, DEFAULT_ORGANISM_COUNT, DEFAULT_GENOME_SIZE)
    }

    /// A simulation on an empty board of `width` by `height` tiles that will
    /// start with `organism_count` organisms of `genome_size` genes each.
    pub fn with_population(
        width: usize,
        height: usize,
        organism_count: usize,
        genome_size: usize,
    ) -> (simulation: Simulation)
        ensures
            simulation.board@ == (BoardView {
                width: width as nat,
                height: height as nat,
                cells: Map::empty(),
            }),
            simulation.organism_count == organism_count,
            simulation.genome_size == genome_size,
    {
        Simulation { board: Board::new(width, height), organism_count, genome_size }
    }

    /// Whether the board has a tile for each of the `organism_count`
    /// organisms.
    pub open spec fn fits(&self) -> bool {
        self.organism_count <= self.board@.capacity()
    }

    /// Replaces whatever is on the board by a fresh random population of
    /// `organism_count` organisms, drawn from `rng`. A board with fewer tiles
    /// than that is left as it was and the call is rejected.
    pub fn start_with(&mut self, rng: &mut RandomSource) -> (result: Result<(), SimError>)
        ensures
            final(self).organism_count == old(self).organism_count,
            final(self).genome_size == old(self).genome_size,
            final(self).board@.wf(),
            final(self).board@.width == old(self).board@.width,
            final(self).board@.height == old(self).board@.height,
            !old(self).fits() ==> (result matches Err(SimError::Capacity)),
            !old(self).fits() ==> *final(self) == *old(self),
            old(self).fits() ==> result is Ok,
            old(self).fits() ==> final(self).board@.is_population_of(
                old(self).organism_count as nat,
                old(self).genome_size as nat,
            ),
    {
        self.board.populate_with(self.organism_count, self.genome_size, rng)
    }

    /// Like [`Simulation::start_with`], with a source seeded by the operating
    /// system.
    pub fn start(&mut self) -> (result: Result<(), SimError>)
        ensures
            final(self).organism_count == old(self).organism_count,
            final(self).genome_size == old(self).genome_size,
            final(self).board@.wf(),
            final(self).board@.width == old(self).board@.width,
            final(self).board@.height == old(self).board@.height,
            !old(self).fits() ==> (result matches Err(SimError::Capacity)),
            !old(self).fits() ==> *final(self) == *old(self),
            old(self).fits() ==> result is Ok,
            old(self).fits() ==> final(self).board@.is_population_of(
                old(self).organism_count as nat,
                old(self).genome_size as nat,
            ),
    {
        let mut rng = RandomSource::from_entropy();
        self.start_with(&mut rng)
    }

    /// Advances the simulation by one tick. No rule for what a tick does to
    /// the organisms has been laid down, so a tick changes nothing.
    pub fn step(&mut self)
        ensures
            *final(self) == *old(self),
    {
    }
}

} // verus!
