//! Time-of-day wallpaper scenes.
//!
//! A day is a circle of 360 angles. The angle of an instant follows from the
//! sunrise and sunset that surround it; every colour, visibility rule and
//! rotation of the scene is then a function of that one integer.
//!
//! All quantities are integers. Lengths, matrix entries, opacities and
//! gradient offsets are fixed-point numbers counted in millionths.
//!
//! - [`sunrise`] and [`angle`]: from the sunrise equation's two results for
//!   a day to sunrise, sunset and the angle of an instant.
//! - [`colors`] and [`gradient`]: from CSS colour codes to the 360-entry
//!   table of a gradient.
//! - [`interpolation`]: the sampled curves that place the gradient stops.
//! - [`transform`]: the rotation of the sun about its pivot.
//! - [`shape`] and [`scene`]: outlines, and the description of a scene.
//! - [`render`]: the composer.

pub mod angle;
pub mod colors;
pub mod gradient;
pub mod interpolation;
pub mod render;
pub mod scene;
pub mod shape;
pub mod sunrise;
pub mod transform;
