//! The simulation state: the input tracker, the map, and the flags that key
//! presses toggle. It advances one logical tick per call of `update`.

use vstd::prelude::*;
use crate::input::{pressed_in, committed, Input, KeyEvent, recorded, KEY_I, KEY_Q, NAMED_ESCAPE};
use crate::tiles::TileMap;

verus! {

/// A placeholder handle for a game entity.
pub type Entity = usize;

/// The flags after one tick, and the map and entities kept: a fresh Escape
/// press sets the exit flag and short-circuits; otherwise a fresh `I` press
/// flips the inversion flag and a fresh `Q` press flips the quad flag.
pub open spec fn tick_flags(before: GameState, after: GameState) -> bool {
    let escape = pressed_in(before.input_spec().logical(), NAMED_ESCAPE);
    let key_i = pressed_in(before.input_spec().physical(), KEY_I);
    let key_q = pressed_in(before.input_spec().physical(), KEY_Q);
    &&& after.map_spec() == before.map_spec()
    &&& after.entities_spec() == before.entities_spec()
    &&& escape ==> {
        &&& after.exit_spec()
        &&& after.inverted_spec() == before.inverted_spec()
        &&& after.render_quad_spec() == before.render_quad_spec()
    }
    &&& !escape ==> {
        &&& after.exit_spec() == before.exit_spec()
        &&& after.inverted_spec() == (before.inverted_spec() != key_i)
        &&& after.render_quad_spec() == (before.render_quad_spec() != key_q)
    }
}

/// One tick, with the input left as it was.
pub open spec fn ticked(before: GameState, after: GameState) -> bool {
    &&& tick_flags(before, after)
    &&& after.input_spec().physical() == before.input_spec().physical()
    &&& after.input_spec().logical() == before.input_spec().logical()
}

/// One tick followed by the end-of-tick input step.
pub open spec fn ticked_and_committed(before: GameState, after: GameState) -> bool {
    &&& tick_flags(before, after)
    &&& after.input_spec().physical() == committed(before.input_spec().physical())
    &&& after.input_spec().logical() == committed(before.input_spec().logical())
}

/// Everything one simulation tick reads and writes.
pub struct GameState {
    entities: Vec<Entity>,
    map: TileMap,
    input: Input,
    invert_triangle: bool,
    render_quad: bool,
    exit: bool,
}

impl GameState {
    pub closed spec fn input_spec(&self) -> Input {
        self.input
    }

    pub closed spec fn map_spec(&self) -> TileMap {
        self.map
    }

    pub closed spec fn inverted_spec(&self) -> bool {
        self.invert_triangle
    }

    pub closed spec fn render_quad_spec(&self) -> bool {
        self.render_quad
    }

    pub closed spec fn exit_spec(&self) -> bool {
        self.exit
    }

    pub closed spec fn entities_spec(&self) -> Seq<Entity> {
        self.entities@
    }

    pub open spec fn wf(&self) -> bool {
        self.input_spec().wf() && self.map_spec().wf()
    }

    /// A fresh session on a ten by ten map: no key seen, every flag off.
    pub fn new() -> (r: Self)
        ensures
            r.wf(),
            r.input_spec().physical() == Map::<u32, crate::input::InputState>::empty(),
            r.input_spec().logical() == Map::<u32, crate::input::InputState>::empty(),
            r.map_spec().width_spec() == 10,
            r.map_spec().height_spec() == 10,
            !r.inverted_spec(),
            !r.render_quad_spec(),
            !r.exit_spec(),
            r.entities_spec() == Seq::<Entity>::empty(),
    {
        let input = Input::new();
        let map = TileMap::default();
        GameState { input, entities: Vec::new(), map, exit: false, invert_triangle: false, render_quad: false }
    }

    /// One logical tick. A fresh Escape press sets the exit flag and nothing
    /// else; otherwise a fresh `I` press flips the inversion flag and a fresh
    /// `Q` press flips the quad flag.
    pub fn update(&mut self)
        requires
            old(self).wf(),
        ensures
            final(self).wf(),
            ticked(*old(self), *final(self)),
    {
        if self.input.is_logical_key_pressed(NAMED_ESCAPE) {
            self.exit = true;
            return;
        }
        if self.input.is_physical_key_pressed(KEY_I) {
            self.invert_triangle = !self.invert_triangle;
        }
        if self.input.is_physical_key_pressed(KEY_Q) {
            self.render_quad = !self.render_quad;
        }
    }

    /// The end-of-tick input step: just-pressed keys become held.
    pub fn update_keys(&mut self)
        requires
            old(self).wf(),
        ensures
            final(self).wf(),
            final(self).input_spec().physical() == committed(old(self).input_spec().physical()),
            final(self).input_spec().logical() == committed(old(self).input_spec().logical()),
            final(self).map_spec() == old(self).map_spec(),
            final(self).entities_spec() == old(self).entities_spec(),
            final(self).inverted_spec() == old(self).inverted_spec(),
            final(self).render_quad_spec() == old(self).render_quad_spec(),
            final(self).exit_spec() == old(self).exit_spec(),
    {
        self.input.update_keys()
    }

    pub fn inverted(&self) -> (r: bool)
        ensures
            r == self.inverted_spec(),
    {
        self.invert_triangle
    }

    pub fn render_quad(&self) -> (r: bool)
        ensures
            r == self.render_quad_spec(),
    {
        self.render_quad
    }

    /// Feeds one raw key transition to the input tracker.
    pub fn input(&mut self, event: &KeyEvent)
        requires
            old(self).wf(),
        ensures
            final(self).wf(),
            final(self).input_spec().physical() == recorded(
                old(self).input_spec().physical(),
                event.physical_key,
                *event,
            ),
            final(self).input_spec().logical() == recorded(
                old(self).input_spec().logical(),
                event.logical_key,
                *event,
            ),
            final(self).map_spec() == old(self).map_spec(),
            final(self).entities_spec() == old(self).entities_spec(),
            final(self).inverted_spec() == old(self).inverted_spec(),
            final(self).render_quad_spec() == old(self).render_quad_spec(),
            final(self).exit_spec() == old(self).exit_spec(),
    {
        self.input.process_event(event);
    }

    pub fn exit(&self) -> (r: bool)
        ensures
            r == self.exit_spec(),
    {
        self.exit
    }
}

} // verus!
