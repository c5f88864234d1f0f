//! Solara: the decision logic of an interactive solar-system viewer.
//!
//! Everything here is exact integer arithmetic, so that the rules the viewer
//! follows (clock advance, speed steps, camera bounds, selection and camera
//! lock, key bindings, mesh topology, draw order) are proved rather than
//! tested. Quantities carry fixed-point units:
//!
//! | quantity            | unit                                   |
//! |---------------------|----------------------------------------|
//! | simulated time      | nanodays (1e-9 Earth day)              |
//! | real time           | microseconds                           |
//! | simulation speed    | millidays per real second              |
//! | angles              | microradians                           |
//! | camera distance     | thousandths of a display unit          |
//!
//! The floating-point geometry (orbits, matrices, ray casting) that consumes
//! these values lives in the browser front end.

pub mod clock;
pub mod camera;
pub mod bodies;
pub mod catalog;
pub mod selection;
pub mod keys;
pub mod mesh;
pub mod frame;
pub mod trail;
pub mod passes;
pub mod picking;
pub mod controls;
