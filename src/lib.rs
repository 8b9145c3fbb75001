//! Creature and spell records of a tabletop reference service: decoding them
//! from JSON documents, rendering them as markdown, building the request
//! addresses, and walking the service's paged listings.
use vstd::prelude::*;

pub mod action;
pub mod json;
pub mod lookup;
pub mod md;
pub mod monster;
pub mod page;
pub mod slug;
pub mod spell;
pub mod text;

pub use md::{Markdown, ToMarkdown};
pub use monster::Monster;
pub use spell::Spell;

verus! {

} // verus!
