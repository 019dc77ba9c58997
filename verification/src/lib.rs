//! Backend of a hardware-design compiler: it lowers a technology-independent
//! dataflow IR into a structural netlist of FPGA macro primitives.
//!
//! The two central pieces are cost-based instruction selection over an
//! operation DAG (`sel`) and bit-exact lowering of placed instructions into
//! macro instances (`prim`, `lower`, `xpand`).

pub mod placed;
pub mod bram;
pub mod errors;
pub mod il;
pub mod interp;
pub mod isa;
pub mod ir;
pub mod lower;
pub mod numfmt;
pub mod prim;
pub mod prims;
pub mod sel;
pub mod target;
pub mod tile;
pub mod verilog;
pub mod xpand;
