//! Runtime core of a retained-mode UI toolkit: a per-window entity tree,
//! an ordered event queue, a fixed pipeline of systems (event dispatch,
//! layout, post-layout state resolution, rendering) and the window adapter
//! that translates host-shell callbacks into tree events.

pub mod channel;
pub mod components;
pub mod context;
pub mod events;
pub mod geometry;
pub mod requests;
pub mod services;
pub mod theming;
pub mod tree;
pub mod widgets;
pub mod window_adapter;
pub mod world;
