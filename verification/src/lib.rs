//! Translation of decoded level-description assets (lights, props, sky
//! markers, unknown entities and pass-through kinds) into normalized value
//! objects, plus the channel-based dispatch protocol that delivers them from
//! concurrent producers to a single consumer.
//!
//! All scalar quantities are carried as integer micro-units (millionths of a
//! whole unit), so that the conversion arithmetic can be stated and proved
//! exactly.

pub mod dispatch;
pub mod entities;
pub mod srgb;
pub mod units;
