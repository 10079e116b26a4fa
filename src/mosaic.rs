//! The progressive mosaic compositor.
//!
//! Once per update interval the compositor takes the newest frame from a
//! [`SharedFrame`] slot and copies a number of randomly placed, grid-aligned
//! squares of it into a persistent canvas. Between updates the canvas stays
//! as it is.
use crate::channel::{after_take, SharedFrame};
use crate::region::{copy_regions, fits, frame_len, patched, Region};
use crate::rng::{draw_between, seeded_rng};
use rand::rngs::StdRng;
use vstd::arithmetic::div_mod::{
    lemma_fundamental_div_mod, lemma_mod_decreases, lemma_mod_multiples_basic,
};
use vstd::prelude::*;

verus! {

/// The fixed parameters of a compositor.
#[derive(Clone, Copy, Debug, PartialEq, Eq, Structural)]
pub struct MosaicConfig {
    /// Canvas and frame width, in pixels.
    pub width: usize,
    /// Canvas and frame height, in pixels.
    pub height: usize,
    /// The least time between two updates, in milliseconds.
    pub update_interval_ms: u64,
    /// How many squares one update copies.
    pub squares_per_update: usize,
    /// The smallest square edge length, in pixels.
    pub min_size: usize,
    /// The largest square edge length, in pixels.
    pub max_size: usize,
    /// Square origins are snapped down to multiples of this many pixels.
    pub alignment: usize,
    /// The seed of the generator that places the squares.
    pub seed: u64,
}

/// What a compositor reports after a tick.
#[derive(Debug, PartialEq, Eq)]
pub enum TickOutcome {
    /// The update interval has not elapsed: nothing was done.
    Idle,
    /// The interval elapsed but no frame was waiting: the canvas is unchanged.
    NoFrame,
    /// Squares of edge `size` were copied from a new frame at `regions`.
    Updated { size: usize, regions: Vec<Region> },
}

/// Why a compositor could not be built or a frame could not be used.
#[derive(Clone, Copy, Debug, PartialEq, Eq, Structural)]
pub enum MosaicError {
    /// The size range is empty, the alignment is zero, or a frame of the
    /// given dimensions does not fit in memory.
    InvalidConfig,
    /// A frame's byte length differs from the canvas's.
    MalformedFrame { expected: usize, actual: usize },
}

/// A configuration a compositor can be built from.
pub open spec fn valid_config(c: MosaicConfig) -> bool {
    &&& c.min_size <= c.max_size
    &&& c.alignment > 0
    &&& frame_len(c.width as nat, c.height as nat) <= usize::MAX
}

/// Whether a tick at `now` is past the update interval since the last
/// accepted tick (always so when no tick was accepted yet).
pub open spec fn due(last_update: Option<u64>, now: u64, interval: u64) -> bool {
    match last_update {
        None => true,
        Some(last) => now - last >= interval,
    }
}

/// `v` snapped down to the nearest multiple of `unit`.
pub open spec fn snap(v: nat, unit: nat) -> nat {
    (v - v % unit) as nat
}

/// The square of edge `size` placed at the drawn origin `(raw_x, raw_y)`
/// snapped to the grid, if it then lies inside the canvas.
pub open spec fn placed(c: MosaicConfig, size: usize, raw_x: usize, raw_y: usize) -> Option<Region> {
    let r = Region {
        x: snap(raw_x as nat, c.alignment as nat) as usize,
        y: snap(raw_y as nat, c.alignment as nat) as usize,
        size,
    };
    if fits(c.width as nat, c.height as nat, r) {
        Some(r)
    } else {
        None
    }
}

/// The number of squares one update places with edge `size`: all of them
/// when a square of that edge has room to move, none otherwise.
pub open spec fn square_count(c: MosaicConfig, size: usize) -> nat {
    if size < c.width && size < c.height {
        c.squares_per_update as nat
    } else {
        0
    }
}

/// What an update of the canvas may select: squares of one edge `size` from
/// the configured range, their number as `square_count` says, each inside
/// the canvas with its origin on the grid.
pub open spec fn valid_selection(c: MosaicConfig, size: usize, regions: Seq<Region>) -> bool {
    &&& c.min_size <= size <= c.max_size
    &&& regions.len() == square_count(c, size)
    &&& forall|k: int|
        0 <= k < regions.len() ==> {
            &&& (#[trigger] regions[k]).size == size
            &&& fits(c.width as nat, c.height as nat, regions[k])
            &&& regions[k].x % c.alignment == 0
            &&& regions[k].y % c.alignment == 0
        }
}

/// What a tick that found the interval elapsed reports, and the canvas it
/// leaves, given the canvas `before` and the frame it took from the slot.
pub open spec fn tick_effect(
    c: MosaicConfig,
    before: Seq<u8>,
    frame: Option<Seq<u8>>,
    r: Result<TickOutcome, MosaicError>,
    after: Seq<u8>,
) -> bool {
    match frame {
        None => r matches Ok(TickOutcome::NoFrame) && after == before,
        Some(f) => if f.len() != before.len() {
            &&& r == Err::<TickOutcome, MosaicError>(
                MosaicError::MalformedFrame { expected: before.len() as usize, actual: f.len() as usize },
            )
            &&& after == before
        } else {
            &&& r matches Ok(TickOutcome::Updated { size, regions })
            &&& valid_selection(c, size, regions@)
            &&& after == patched(c.width as nat, c.height as nat, before, f, regions@)
        },
    }
}

/// Snapping moves a value down, onto a multiple of the unit.
pub proof fn lemma_snap(v: nat, unit: nat)
    requires
        unit > 0,
    ensures
        snap(v, unit) <= v,
        snap(v, unit) % unit == 0,
{
    lemma_mod_decreases(v, unit);
    lemma_fundamental_div_mod(v as int, unit as int);
    assert(unit * (v / unit) == (v / unit) * unit) by (nonlinear_arith);
    lemma_mod_multiples_basic((v / unit) as int, unit as int);
}

/// A persistent canvas, patched square by square from the newest frame.
pub struct MosaicCompositor {
    config: MosaicConfig,
    canvas: Vec<u8>,
    last_update: Option<u64>,
    rng: StdRng,
}

impl MosaicCompositor {
    /// The configuration the compositor was built with.
    pub closed spec fn spec_config(&self) -> MosaicConfig {
        self.config
    }

    /// The canvas bytes.
    pub closed spec fn spec_canvas(&self) -> Seq<u8> {
        self.canvas@
    }

    /// The time of the last accepted tick, if any.
    pub closed spec fn spec_last_update(&self) -> Option<u64> {
        self.last_update
    }

    /// A valid configuration and a canvas of one frame's size.
    pub open spec fn wf(&self) -> bool {
        &&& valid_config(self.spec_config())
        &&& self.spec_canvas().len() == frame_len(
            self.spec_config().width as nat,
            self.spec_config().height as nat,
        )
    }

    /// A compositor with an all-zero canvas that has accepted no tick yet.
    pub fn new(config: MosaicConfig) -> (r: Result<Self, MosaicError>)
        ensures
            match r {
                Ok(m) => {
                    &&& valid_config(config)
                    &&& m.wf()
                    &&& m.spec_config() == config
                    &&& m.spec_canvas() == Seq::new(
                        frame_len(config.width as nat, config.height as nat),
                        |i: int| 0u8,
                    )
                    &&& m.spec_last_update() is None
                },
                Err(e) => !valid_config(config) && e == MosaicError::InvalidConfig,
            },
    {
        if config.min_size > config.max_size || config.alignment == 0 {
            return Err(MosaicError::InvalidConfig);
        }
        let pixels = match config.width.checked_mul(config.height) {
            Some(p) => p,
            None => {
                proof {
                    assert(config.width * config.height * 4 > usize::MAX) by (nonlinear_arith)
                        requires
                            config.width * config.height > usize::MAX,
                    ;
                }
                return Err(MosaicError::InvalidConfig);
            },
        };
        let len = match pixels.checked_mul(4) {
            Some(n) => n,
            None => return Err(MosaicError::InvalidConfig),
        };
        let canvas = vec![0u8; len];
        assert(canvas@ =~= Seq::new(len as nat, |i: int| 0u8));
        Ok(MosaicCompositor { config, canvas, last_update: None, rng: seeded_rng(config.seed) })
    }

    /// The canvas bytes, row by row, four per pixel.
    pub fn canvas(&self) -> (r: &[u8])
        ensures
            r@ == self.spec_canvas(),
    {
        self.canvas.as_slice()
    }

    /// The configuration the compositor was built with.
    pub fn config(&self) -> (r: MosaicConfig)
        ensures
            r == self.spec_config(),
    {
        self.config
    }

    /// Whether a tick at `now` (milliseconds) would update the canvas.
    pub fn is_due(&self, now: u64) -> (r: bool)
        ensures
            r == due(self.spec_last_update(), now, self.spec_config().update_interval_ms),
    {
        match self.last_update {
            None => true,
            Some(last) => now >= last && now - last >= self.config.update_interval_ms,
        }
    }

    /// The square of edge `size` at the drawn origin `(raw_x, raw_y)`, both
    /// coordinates snapped down to the grid; `None` when it does not fit.
    pub fn place_square(&self, size: usize, raw_x: usize, raw_y: usize) -> (r: Option<Region>)
        requires
            self.wf(),
        ensures
            r == placed(self.spec_config(), size, raw_x, raw_y),
    {
        let a = self.config.alignment;
        assert(raw_x % a <= raw_x && raw_y % a <= raw_y) by (nonlinear_arith)
            requires
                a > 0,
        ;
        let x = raw_x - raw_x % a;
        let y = raw_y - raw_y % a;
        if x <= self.config.width && size <= self.config.width - x && y <= self.config.height
            && size <= self.config.height - y {
            Some(Region { x, y, size })
        } else {
            None
        }
    }

    /// Copies the squares of `regions` that fit the canvas from `source`.
    /// A source whose length is not one frame's is rejected and the canvas
    /// left as it was.
    pub fn apply_squares(&mut self, source: &[u8], regions: &[Region]) -> (r: Result<
        (),
        MosaicError,
    >)
        requires
            old(self).wf(),
        ensures
            final(self).wf(),
            final(self).spec_config() == old(self).spec_config(),
            final(self).spec_last_update() == old(self).spec_last_update(),
            source@.len() == old(self).spec_canvas().len() ==> r is Ok && final(self).spec_canvas()
                == patched(
                old(self).spec_config().width as nat,
                old(self).spec_config().height as nat,
                old(self).spec_canvas(),
                source@,
                regions@,
            ),
            source@.len() != old(self).spec_canvas().len() ==> r == Err::<(), MosaicError>(
                MosaicError::MalformedFrame {
                    expected: old(self).spec_canvas().len() as usize,
                    actual: source@.len() as usize,
                },
            ) && final(self).spec_canvas() == old(self).spec_canvas(),
    {
        if source.len() != self.canvas.len() {
            return Err(MosaicError::MalformedFrame { expected: self.canvas.len(), actual: source.len() });
        }
        copy_regions(&mut self.canvas, source, self.config.width, self.config.height, regions);
        Ok(())
    }
    /// Draws the edge length of this update's squares and their origins, and
    /// places them on the grid.
    fn select_squares(&mut self) -> (r: (usize, Vec<Region>))
        requires
            old(self).wf(),
        ensures
            final(self).spec_config() == old(self).spec_config(),
            final(self).spec_canvas() == old(self).spec_canvas(),
            final(self).spec_last_update() == old(self).spec_last_update(),
            valid_selection(old(self).spec_config(), r.0, r.1@),
    {
        let c = self.config;
        let size = draw_between(&mut self.rng, c.min_size, c.max_size);
        let mut regions: Vec<Region> = Vec::new();
        if size < c.width && size < c.height {
            let mut n: usize = 0;
            while n < c.squares_per_update
                invariant
                    n <= c.squares_per_update,
                    regions@.len() == n,
                    self.config == c,
                    self.wf(),
                    c.min_size <= size <= c.max_size,
                    size < c.width,
                    size < c.height,
                    self.canvas@ == old(self).canvas@,
                    self.last_update == old(self).last_update,
                    forall|k: int|
                        0 <= k < regions@.len() ==> {
                            &&& (#[trigger] regions@[k]).size == size
                            &&& fits(c.width as nat, c.height as nat, regions@[k])
                            &&& regions@[k].x % c.alignment == 0
                            &&& regions@[k].y % c.alignment == 0
                        },
                decreases c.squares_per_update - n,
            {
                let raw_x = draw_between(&mut self.rng, 0, c.width - size - 1);
                let raw_y = draw_between(&mut self.rng, 0, c.height - size - 1);
                proof {
                    lemma_snap(raw_x as nat, c.alignment as nat);
                    lemma_snap(raw_y as nat, c.alignment as nat);
                }
                match self.place_square(size, raw_x, raw_y) {
                    Some(r) => regions.push(r),
                    None => {},
                }
                n = n + 1;
            }
        }
        (size, regions)
    }

    /// One render tick at time `now`, in milliseconds.
    ///
    /// Before the update interval has elapsed since the last accepted tick
    /// nothing happens. Otherwise the tick is accepted: it takes the frame
    /// waiting in `slot`, if any, and copies a fresh selection of squares of
    /// it into the canvas. A frame of the wrong length is discarded.
    pub fn tick(&mut self, now: u64, slot: &mut SharedFrame) -> (r: Result<
        TickOutcome,
        MosaicError,
    >)
        requires
            old(self).wf(),
        ensures
            final(self).wf(),
            final(self).spec_config() == old(self).spec_config(),
            !due(old(self).spec_last_update(), now, old(self).spec_config().update_interval_ms)
                ==> {
                &&& r matches Ok(TickOutcome::Idle)
                &&& final(self).spec_canvas() == old(self).spec_canvas()
                &&& final(self).spec_last_update() == old(self).spec_last_update()
                &&& final(slot)@ == old(slot)@
            },
            due(old(self).spec_last_update(), now, old(self).spec_config().update_interval_ms)
                ==> {
                &&& final(self).spec_last_update() == Some(now)
                &&& final(slot)@ == after_take(old(slot)@).1
                &&& tick_effect(
                    old(self).spec_config(),
                    old(self).spec_canvas(),
                    after_take(old(slot)@).0,
                    r,
                    final(self).spec_canvas(),
                )
            },
    {
        if !self.is_due(now) {
            return Ok(TickOutcome::Idle);
        }
        self.last_update = Some(now);
        let frame = match slot.take_current() {
            Some(f) => f,
            None => return Ok(TickOutcome::NoFrame),
        };
        if frame.len() != self.canvas.len() {
            return Err(MosaicError::MalformedFrame { expected: self.canvas.len(), actual: frame.len() });
        }
        let (size, regions) = self.select_squares();
        copy_regions(
            &mut self.canvas,
            frame.as_slice(),
            self.config.width,
            self.config.height,
            regions.as_slice(),
        );
        Ok(TickOutcome::Updated { size, regions })
    }
}

} // verus!
