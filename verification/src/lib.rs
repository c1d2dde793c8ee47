//! Presentational UI components of a design system: accordion, chip and
//! navigation. Each component maps declarative properties to a description of
//! markup (container tags, class-name tokens, attribute values), and the
//! expandable navigation keeps a small amount of interactive state. The
//! functions here compute those descriptions; a rendering layer turns them
//! into actual markup nodes.

pub mod accordion;
pub mod chip;
pub mod classes;
pub mod nav;
