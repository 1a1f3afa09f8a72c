//! Building blocks of a camera viewer: an allocator of menu identifiers,
//! a batched frame-rate counter and the conversion of decoded frames into
//! a packed display buffer.

pub mod id_manager;
pub mod label_order;
pub mod menu;
pub mod fps_counter;
pub mod frame;
