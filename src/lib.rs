//! Verified building blocks of a small real-time renderer: index buffers of procedural
//! meshes, mip chain arithmetic, DDS headers, readers of the two mesh file layouts, a slot
//! vector, and the indexed triangle mesh that collision queries run over, with its reader.

pub mod collision;
pub mod formats;
pub mod io;
pub mod mesh;
pub mod prims;
pub mod routines;
pub mod structs;
