//! Animations: an animator paired with the tile sheet its frame indices
//! select from.

pub mod animator;
pub mod tile_sheet;

pub use self::animator::Animator;
pub use self::tile_sheet::{Tile, TileSheet};

use crate::duration::{max_duration_nanos, Duration};
use vstd::prelude::*;

verus! {

/// An animation that never stops: each call to `animate` advances the
/// animator and selects the tile of the new frame.
#[derive(Debug)]
pub struct Animation<T> {
    pub animator: Animator,
    pub sheet: TileSheet<T>,
}

impl<T> Animation<T> {
    pub fn new(animator: animator::Data, sheet: TileSheet<T>) -> (r: Animation<T>)
        ensures
            r.animator.max == animator.max,
            r.animator.duration == animator.duration,
            r.animator.frame.index == 0,
            r.animator.frame.elapsed@ == 0,
            r.sheet == sheet,
    {
        Animation { animator: animator.start(), sheet }
    }

    /// Advances by `delta` and returns the tile of the new frame.
    pub fn animate(&mut self, delta: Duration) -> (r: Tile<'_, T>)
        requires
            old(self).animator.max > 0,
            old(self).animator.duration@ > 0,
            old(self).animator.frame.elapsed@ + delta@ <= max_duration_nanos(),
            old(self).animator.frame.advanced_index(delta, old(self).animator.duration)
                <= u32::MAX,
            old(self).animator.max <= old(self).sheet.spec_tiles().x * old(
                self,
            ).sheet.spec_tiles().y,
        ensures
            final(self).sheet == old(self).sheet,
            final(self).animator.frame.index == old(self).animator.frame.advanced_index(
                delta,
                old(self).animator.duration,
            ) % (old(self).animator.max as int),
            r.spec_src() == final(self).sheet.spec_src_of(final(self).animator.frame.index),
    {
        let frame = self.animator.animate(delta);
        proof {
            vstd::arithmetic::div_mod::lemma_mod_bound(
                old(self).animator.frame.advanced_index(delta, old(self).animator.duration),
                old(self).animator.max as int,
            );
        }
        self.sheet.tile(frame)
    }

    /// The tile of the current frame.
    pub fn tile(&self) -> (r: Tile<'_, T>)
        requires
            self.animator.frame.index < self.sheet.spec_tiles().x * self.sheet.spec_tiles().y,
        ensures
            r.spec_src() == self.sheet.spec_src_of(self.animator.frame.index),
    {
        let frame = self.animator.frame();
        self.sheet.tile(frame)
    }
}

/// An animation with a bounded number of loops: once they run out, no tile
/// is reported.
#[derive(Debug)]
pub struct LimitRun<T> {
    pub animator: animator::LimitRun,
    pub sheet: TileSheet<T>,
}

impl<T> LimitRun<T> {
    pub fn new(animator: animator::Data, sheet: TileSheet<T>, loops: u32) -> (r: LimitRun<T>)
        ensures
            r.animator.max == animator.max,
            r.animator.duration == animator.duration,
            r.animator.remaining_loops == loops,
            r.animator.frame.index == 0,
            r.animator.frame.elapsed@ == 0,
            r.sheet == sheet,
    {
        LimitRun { animator: animator.limit_run_start(loops), sheet }
    }

    /// Advances by `delta` and returns the tile of the new frame, or `None`
    /// once the loops have run out.
    pub fn animate(&mut self, delta: Duration) -> (r: Option<Tile<'_, T>>)
        requires
            old(self).animator.remaining_loops > 0 ==> old(self).animator.max > 0 && old(
                self,
            ).animator.duration@ > 0 && old(self).animator.frame.elapsed@ + delta@
                <= max_duration_nanos() && old(self).animator.frame.advanced_index(
                delta,
                old(self).animator.duration,
            ) <= u32::MAX,
            old(self).animator.max <= old(self).sheet.spec_tiles().x * old(
                self,
            ).sheet.spec_tiles().y,
        ensures
            final(self).sheet == old(self).sheet,
            r matches Some(tile) ==> tile.spec_src() == final(self).sheet.spec_src_of(
                final(self).animator.frame.index,
            ),
            r is None <==> final(self).animator.remaining_loops == 0,
    {
        let frame = self.animator.animate(delta);
        let sheet = &self.sheet;
        match frame {
            Some(i) => {
                proof {
                    vstd::arithmetic::div_mod::lemma_mod_bound(
                        old(self).animator.frame.advanced_index(
                            delta,
                            old(self).animator.duration,
                        ),
                        old(self).animator.max as int,
                    );
                }
                Some(sheet.tile(i))
            },
            None => None,
        }
    }

    /// The tile of the current frame, or `None` once the loops have run
    /// out.
    pub fn tile(&self) -> (r: Option<Tile<'_, T>>)
        requires
            self.animator.frame.index < self.sheet.spec_tiles().x * self.sheet.spec_tiles().y,
        ensures
            self.animator.remaining_loops > 0 ==> (r matches Some(tile) && tile.spec_src()
                == self.sheet.spec_src_of(self.animator.frame.index)),
            self.animator.remaining_loops == 0 ==> r is None,
    {
        match self.animator.frame() {
            Some(i) => Some(self.sheet.tile(i)),
            None => None,
        }
    }
}

/// An animation together with its sheet, not yet started.
#[derive(Debug)]
pub struct Data<T> {
    pub animator: animator::Data,
    pub sheet: TileSheet<T>,
}

impl<T> Data<T> {
    /// Starts a repeating animation.
    pub fn start(self) -> (r: Animation<T>)
        ensures
            r.animator.max == self.animator.max,
            r.animator.duration == self.animator.duration,
            r.animator.frame.index == 0,
            r.sheet == self.sheet,
    {
        Animation::new(self.animator, self.sheet)
    }

    /// Starts an animation limited to `loops` loops.
    pub fn limit_run_start(self, loops: u32) -> (r: LimitRun<T>)
        ensures
            r.animator.max == self.animator.max,
            r.animator.duration == self.animator.duration,
            r.animator.remaining_loops == loops,
            r.animator.frame.index == 0,
            r.sheet == self.sheet,
    {
        LimitRun::new(self.animator, self.sheet, loops)
    }
}

} // verus!
