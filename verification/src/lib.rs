//! Papier: the decision logic of a paper-grain screen overlay and the integer
//! core of its tileable grain engine, with contracts checked by Verus.

pub mod catalog;
pub mod coordinator;
pub mod exclusion;
pub mod grain;
pub mod loginitem;
pub mod menu;
pub mod power;
pub mod settings;
pub mod text;
