//! Pattern slots for instruction selection: the preorder-linearised form
//! of an instruction's semantics, with type and location class per slot.

use crate::ir;
use vstd::prelude::*;

verus! {

/// Op of one pattern slot: an input leaf or a compute operation.
#[derive(Debug)]
pub enum SlotOp {
    In,
    Comp(ir::CompOp),
}

/// One pattern slot.
#[derive(Debug)]
pub struct Instr {
    pub op: SlotOp,
    pub ty: ir::Ty,
    pub loc: ir::Prim,
}

impl Instr {
    pub fn new(op: SlotOp, ty: ir::Ty, loc: ir::Prim) -> (r: Instr)
        ensures
            r.op == op,
            r.ty == ty,
            r.loc == loc,
    {
        Instr { op, ty, loc }
    }
}

/// Spec-level image of a slot, over type shapes.
pub enum SlotV {
    In(ir::TyShape, ir::Prim),
    Op(ir::CompOp, ir::TyShape, ir::Prim),
}

/// The image of a slot.
pub open spec fn slot_v(s: Instr) -> SlotV {
    match s.op {
        SlotOp::In => SlotV::In(ir::ty_shape(s.ty), s.loc),
        SlotOp::Comp(c) => SlotV::Op(c, ir::ty_shape(s.ty), s.loc),
    }
}

/// A cost-annotated pattern over typed slots.
#[derive(Debug)]
pub struct Pattern {
    pub name: String,
    pub cost: u32,
    pub instr: Vec<Instr>,
}

} // verus!
