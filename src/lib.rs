//! Bullet-pattern simulation for a vertical bullet-hell encounter: a store of
//! projectiles with composable motion kinds, pattern emitters, time-boxed
//! spellcards, and circle-circle collision resolution, all in integer
//! fixed-point geometry.
use vstd::prelude::*;

pub mod geometry;
pub mod bullet;
pub mod store;
pub mod spellcard;
pub mod emitter;
pub mod combat;
pub mod encounter;
pub mod recipes;
pub mod config;

verus! {

} // verus!
