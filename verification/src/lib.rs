//! A rendering harness core: the window's event policies and frame loop, and
//! the shader program's build checks and uniform resolution, as verified
//! decisions over plain values. The host performs the platform and device
//! calls that these decisions ask for.

pub mod event;
pub mod window;
pub mod shader;
