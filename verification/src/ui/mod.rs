//! The configuration screens: what they show, not how it is drawn.

pub mod components;
