//! Input decisions of a small 2D platformer: from the keys held during one
//! fixed simulation step to the movement a character controller is given.

pub mod controls;
