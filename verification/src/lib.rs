//! The collaboration part of an editor window's title bar.
//!
//! Everything the title bar decides is computed here, from plain values to
//! plain values: a [`snapshot`] of the application goes in, and a description of
//! the bar (see [`elements`]) or a list of effects to perform (see [`item`])
//! comes out. Drawing the description with a user interface toolkit and
//! performing the effects is left to the caller.
//!
//! - [`color`]: colours and the paints that refer to the theme;
//! - [`snapshot`]: what the title bar reads of the application;
//! - [`elements`]: the description of a title bar;
//! - [`layers`]: the order in which the parts of an element are put down;
//! - [`item`]: the state of the title bar and how it reacts to events;
//! - [`title`], [`buttons`], [`face_pile`], [`ribbon`]: the parts of the bar;
//! - [`order`]: the order in which collaborators are shown;
//! - [`render`]: the whole bar;
//! - [`laws`]: properties that hold across these functions.
pub mod buttons;
pub mod color;
pub mod elements;
pub mod face_pile;
pub mod item;
pub mod laws;
pub mod layers;
pub mod order;
pub mod render;
pub mod ribbon;
pub mod snapshot;
pub mod title;
