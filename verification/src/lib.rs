//! Turn-based combat and entity-state core of a role-playing game engine.
//!
//! The crate tracks each combatant's derived statistics, resolves attacks
//! (accuracy against defense tiers, multi-component damage against per-kind
//! armor), manages the per-turn action-point economy, and hands out stable
//! integer handles so a scripting layer can query and mutate entities without
//! holding long-lived references.

pub mod actor;
pub mod armor;
pub mod damage;
pub mod item;
pub mod num;
pub mod registry;
pub mod script;
pub mod rng;
pub mod rules;
pub mod stats;
pub mod text_area;

pub use actor::{Actor, ActorState, ChangeListenerList, Class, Race};
pub use armor::Armor;
pub use damage::{Damage, DamageKind, DamageList};
pub use item::{Equippable, Inventory, Item, Slot};
pub use registry::{AccuracyKind, AttackOutcome, EntityState, Faction, Location, Registry};
pub use rules::{HitKind, Rules};
pub use script::{DataError, ScriptEntity, ScriptEntitySet, ScriptError};
pub use stats::{Attribute, AttributeList, StatBonuses, StatList};
pub use text_area::TextArea;
