//! Assembly-level instructions: placed instruction templates whose fabric
//! coordinates are left as unresolved holes for a separate placer.

use crate::il;
use crate::ir;
use vstd::prelude::*;

verus! {

/// A fabric coordinate: a concrete value or an unresolved hole.
#[derive(Clone, Copy, Debug, PartialEq, Eq, Structural)]
pub enum ExprCoord {
    Hole,
    Val(u64),
}

/// A location descriptor: a primitive class and two coordinates.
#[derive(Clone, Debug)]
pub struct Loc {
    pub prim: ir::Prim,
    pub x: ExprCoord,
    pub y: ExprCoord,
}

impl Loc {
    /// A location of the given class with both coordinates unresolved.
    pub fn new_with_hole(prim: ir::Prim) -> (r: Loc)
        ensures
            r.prim == prim,
            r.x is Hole,
            r.y is Hole,
    {
        Loc { prim, x: ExprCoord::Hole, y: ExprCoord::Hole }
    }

    pub fn prim(&self) -> (r: &ir::Prim)
        ensures
            r == self.prim,
    {
        &self.prim
    }

    pub fn x(&self) -> (r: &ExprCoord)
        ensures
            r == self.x,
    {
        &self.x
    }

    pub fn y(&self) -> (r: &ExprCoord)
        ensures
            r == self.y,
    {
        &self.y
    }
}

/// An instruction template: opcode, result type, a location with holes, and
/// operand bindings still to be filled.
#[derive(Debug)]
pub struct Instr {
    pub ty: ir::Ty,
    pub op: String,
    pub loc: Loc,
    pub dst: Option<String>,
    pub params: Vec<String>,
}

/// An assembly opcode.
#[derive(Clone, Debug)]
pub enum AsmOp {
    Op(String),
}

/// A placed assembly instruction with destination, attribute, and argument
/// expressions.
#[derive(Debug)]
pub struct InstrAsm {
    pub dst: ir::Expr,
    pub op: AsmOp,
    pub attr: ir::Expr,
    pub arg: ir::Expr,
    pub loc: Loc,
}

impl InstrAsm {
    pub fn dst(&self) -> (r: &ir::Expr)
        ensures
            r == self.dst,
    {
        &self.dst
    }

    pub fn op(&self) -> (r: &AsmOp)
        ensures
            r == self.op,
    {
        &self.op
    }

    pub fn attr(&self) -> (r: &ir::Expr)
        ensures
            r == self.attr,
    {
        &self.attr
    }

    pub fn arg(&self) -> (r: &ir::Expr)
        ensures
            r == self.arg,
    {
        &self.arg
    }

    pub fn loc(&self) -> (r: &Loc)
        ensures
            r == self.loc,
    {
        &self.loc
    }
}

/// An assembly program: its signature and its instruction stream.
#[derive(Debug)]
pub struct Prog {
    pub sig: il::Sig,
    pub body: Vec<InstrAsm>,
}

impl Prog {
    pub fn sig(&self) -> (r: &il::Sig)
        ensures
            r == self.sig,
    {
        &self.sig
    }

    pub fn body(&self) -> (r: &Vec<InstrAsm>)
        ensures
            r == self.body,
    {
        &self.body
    }
}

} // verus!
