//! The target descriptor compiler: it turns a declarative ISA spec into
//! instruction templates plus cost-annotated match patterns.
//!
//! Each spec entry yields one template, with its coordinates left as holes,
//! and one pattern produced by the fixed preorder walk of the entry's
//! semantics expression. Unrecognised type, location, or opcode tokens are
//! parse errors and abort descriptor construction.

use crate::placed;
use crate::errors::Error;
use crate::ir;
use crate::tile;
use vstd::prelude::*;

verus! {

/// A semantics expression of an ISA-spec entry: a typed, placed input
/// leaf, or a named binary operator over two subtrees.
#[derive(Debug)]
pub enum Expr {
    Input(String, String),
    BinOp(String, Box<Expr>, Box<Expr>),
}

/// One ISA-spec entry: opcode, cost, result location and type tokens, the
/// result name, and the semantics expression.
#[derive(Debug)]
pub struct Instr {
    pub name: String,
    pub cost: u32,
    pub loc: String,
    pub ty: String,
    pub output: String,
    pub expr: Expr,
}

/// A whole ISA spec.
#[derive(Debug)]
pub struct Def {
    pub instr: Vec<Instr>,
}

/// One way to realise a subtree: an instruction template and its pattern.
#[derive(Debug)]
pub struct Tile {
    pub instr: placed::Instr,
    pub pattern: tile::Pattern,
}

/// An ordered list of tiles; the order decides which rewrite wins.
#[derive(Debug)]
pub struct Target {
    pub tiles: Vec<Tile>,
}

/// Preorder linearisation of a semantics expression: the root slot first,
/// then the operands left to right, recursively. Operator slots carry the
/// entry's result type and location; leaves carry their own. `None` when
/// any token fails to parse.
pub open spec fn lin(e: Expr, ty: ir::TyShape, loc: ir::Prim) -> Option<Seq<tile::SlotV>>
    decreases e,
{
    match e {
        Expr::Input(t, l) => match (ir::ty_of_token(t@), ir::prim_of(l@)) {
            (Some(ts), Some(p)) => Some(seq![tile::SlotV::In(ts, p)]),
            _ => None,
        },
        Expr::BinOp(o, lhs, rhs) => match (ir::comp_op_of(o@), lin(*lhs, ty, loc), lin(
            *rhs,
            ty,
            loc,
        )) {
            (Some(c), Some(a), Some(b)) => Some(seq![tile::SlotV::Op(c, ty, loc)] + a + b),
            _ => None,
        },
    }
}

impl Expr {
    /// Appends the preorder linearisation of the expression to `instr`:
    /// the root slot, then the left operand's slots, then the right's.
    pub fn to_instr_mut(
        &self,
        instr: &mut Vec<tile::Instr>,
        op_ty: &ir::Ty,
        op_loc: ir::Prim,
    ) -> (r: Result<(), Error>)
        ensures
            lin(*self, ir::ty_shape(*op_ty), op_loc) matches Some(s) ==> (r is Ok
                && final(instr)@.len() == old(instr)@.len() + s.len() && (forall|i: int|
                0 <= i < old(instr)@.len() ==> #[trigger] final(instr)@[i] == old(instr)@[i])
                && (forall|i: int|
                0 <= i < s.len() ==> tile::slot_v(
                    #[trigger] final(instr)@[old(instr)@.len() + i],
                ) == s[i])),
            lin(*self, ir::ty_shape(*op_ty), op_loc) is None ==> r is Err,
        decreases self,
    {
        match self {
            Expr::Input(t, l) => {
                let ts = match ir::Ty::from_str(t.as_str()) {
                    Ok(ts) => ts,
                    Err(e) => {
                        return Err(e);
                    },
                };
                let p = match ir::Prim::from_str(l.as_str()) {
                    Ok(p) => p,
                    Err(e) => {
                        return Err(e);
                    },
                };
                instr.push(tile::Instr::new(tile::SlotOp::In, ts, p));
                Ok(())
            },
            Expr::BinOp(o, lhs, rhs) => {
                let c = match ir::CompOp::from_str(o.as_str()) {
                    Ok(c) => c,
                    Err(e) => {
                        return Err(e);
                    },
                };
                instr.push(tile::Instr::new(tile::SlotOp::Comp(c), op_ty.dup(), op_loc));
                let ghost mid1 = instr@;
                match (**lhs).to_instr_mut(instr, op_ty, op_loc) {
                    Ok(()) => (),
                    Err(e) => {
                        return Err(e);
                    },
                }
                let ghost mid2 = instr@;
                match (**rhs).to_instr_mut(instr, op_ty, op_loc) {
                    Ok(()) => (),
                    Err(e) => {
                        return Err(e);
                    },
                }
                proof {
                    let tyv = ir::ty_shape(*op_ty);
                    if lin(*self, tyv, op_loc) is Some {
                        let a = lin(**lhs, tyv, op_loc)->Some_0;
                        let b = lin(**rhs, tyv, op_loc)->Some_0;
                        let cop = ir::comp_op_of(o@)->Some_0;
                        let s = seq![tile::SlotV::Op(cop, tyv, op_loc)] + a + b;
                        assert(lin(*self, tyv, op_loc) == Some(s));
                        let base = old(instr)@.len() as int;
                        assert forall|i: int|
                            0 <= i < s.len() implies tile::slot_v(
                            #[trigger] instr@[base + i],
                        ) == s[i] by {
                            if i == 0 {
                                assert(instr@[base] == mid2[base]);
                                assert(mid2[base] == mid1[base]);
                                assert(s[0] == tile::SlotV::Op(cop, tyv, op_loc));
                            } else if i <= a.len() {
                                assert(instr@[base + i] == mid2[mid1.len() + (i - 1)]);
                                assert(tile::slot_v(mid2[mid1.len() + (i - 1)]) == a[i - 1]);
                                assert(s[i] == a[i - 1]);
                            } else {
                                assert(tile::slot_v(instr@[mid2.len() + (i - 1 - a.len())])
                                    == b[i - 1 - a.len()]);
                                assert(s[i] == b[i - 1 - a.len()]);
                            }
                        }
                    }
                }
                Ok(())
            },
        }
    }
}

/// Whether a spec entry's tokens and semantics all parse.
pub open spec fn instr_ok(i: Instr) -> bool {
    &&& ir::ty_of_token(i.ty@) is Some
    &&& ir::prim_of(i.loc@) is Some
    &&& lin(i.expr, ir::ty_of_token(i.ty@)->Some_0, ir::prim_of(i.loc@)->Some_0) is Some
}

/// Whether `a` is the instruction template of spec entry `i`: the opcode
/// carried over, the parsed type and location class, both coordinates left
/// as holes, and no operand bindings yet.
pub open spec fn asm_ok(i: Instr, a: placed::Instr) -> bool {
    &&& ir::ty_of_token(i.ty@) == Some(ir::ty_shape(a.ty))
    &&& ir::prim_of(i.loc@) == Some(a.loc.prim)
    &&& a.loc.x is Hole
    &&& a.loc.y is Hole
    &&& a.op@ == i.name@
    &&& a.dst is None
    &&& a.params@.len() == 0
}

/// Whether `p` is the pattern of spec entry `i`: its declared cost and the
/// preorder linearisation of its semantics.
pub open spec fn pattern_ok(i: Instr, p: tile::Pattern) -> bool {
    &&& p.name@ == i.name@
    &&& p.cost == i.cost
    &&& match lin(i.expr, ir::ty_of_token(i.ty@)->Some_0, ir::prim_of(i.loc@)->Some_0) {
        Some(s) => p.instr@.len() == s.len() && (forall|k: int|
            0 <= k < s.len() ==> tile::slot_v(#[trigger] p.instr@[k]) == s[k]),
        None => false,
    }
}

impl Instr {
    /// The instruction template of this spec entry.
    pub fn to_asm_instr(&self) -> (r: Result<placed::Instr, Error>)
        ensures
            (ir::ty_of_token(self.ty@) is Some && ir::prim_of(self.loc@) is Some) ==> (r matches
                Ok(a) && asm_ok(*self, a)),
            !(ir::ty_of_token(self.ty@) is Some && ir::prim_of(self.loc@) is Some) ==> r is Err,
    {
        let ts = match ir::Ty::from_str(self.ty.as_str()) {
            Ok(ts) => ts,
            Err(e) => {
                return Err(e);
            },
        };
        let p = match ir::Prim::from_str(self.loc.as_str()) {
            Ok(p) => p,
            Err(e) => {
                return Err(e);
            },
        };
        Ok(
            placed::Instr {
                ty: ts,
                op: self.name.clone(),
                loc: placed::Loc::new_with_hole(p),
                dst: None,
                params: Vec::new(),
            },
        )
    }

    /// The match pattern of this spec entry: its declared cost over the
    /// preorder walk of its semantics.
    pub fn to_pattern(&self) -> (r: Result<tile::Pattern, Error>)
        ensures
            instr_ok(*self) ==> (r matches Ok(p) && pattern_ok(*self, p)),
            !instr_ok(*self) ==> r is Err,
    {
        let ts = match ir::Ty::from_str(self.ty.as_str()) {
            Ok(ts) => ts,
            Err(e) => {
                return Err(e);
            },
        };
        let p = match ir::Prim::from_str(self.loc.as_str()) {
            Ok(p) => p,
            Err(e) => {
                return Err(e);
            },
        };
        let mut slots: Vec<tile::Instr> = Vec::new();
        match self.expr.to_instr_mut(&mut slots, &ts, p) {
            Ok(()) => (),
            Err(e) => {
                return Err(e);
            },
        }
        proof {
            if instr_ok(*self) {
                let s = lin(self.expr, ir::ty_shape(ts), p)->Some_0;
                assert forall|k: int| 0 <= k < s.len() implies tile::slot_v(
                    #[trigger] slots@[k],
                ) == s[k] by {
                    assert(slots@[0 + k] == slots@[k]);
                }
            }
        }
        Ok(tile::Pattern { name: self.name.clone(), cost: self.cost, instr: slots })
    }
}

impl Tile {
    /// The tile a spec entry contributes: its template and its pattern.
    pub fn from_instr(instr: &Instr) -> (r: Result<Tile, Error>)
        ensures
            instr_ok(*instr) ==> (r matches Ok(t) && asm_ok(*instr, t.instr) && pattern_ok(
                *instr,
                t.pattern,
            )),
            !instr_ok(*instr) ==> r is Err,
    {
        let a = match instr.to_asm_instr() {
            Ok(a) => a,
            Err(e) => {
                return Err(e);
            },
        };
        let p = match instr.to_pattern() {
            Ok(p) => p,
            Err(e) => {
                return Err(e);
            },
        };
        Ok(Tile { instr: a, pattern: p })
    }
}

impl Target {
    /// Compiles a whole ISA spec: one tile per entry, in spec order. Any
    /// entry with an unrecognised token aborts the build.
    pub fn from_def(def: &Def) -> (r: Result<Target, Error>)
        ensures
            (forall|k: int| 0 <= k < def.instr@.len() ==> instr_ok(#[trigger] def.instr@[k]))
                ==> (r matches Ok(tg) && tg.tiles@.len() == def.instr@.len() && (forall|k: int|
                0 <= k < def.instr@.len() ==> asm_ok(
                    #[trigger] def.instr@[k],
                    tg.tiles@[k].instr,
                ) && pattern_ok(def.instr@[k], tg.tiles@[k].pattern))),
            (exists|k: int|
                0 <= k < def.instr@.len() && !instr_ok(#[trigger] def.instr@[k])) ==> r is Err,
    {
        let mut tiles: Vec<Tile> = Vec::new();
        let mut k: usize = 0;
        while k < def.instr.len()
            invariant
                k <= def.instr@.len(),
                tiles@.len() == k,
                forall|j: int| 0 <= j < k ==> instr_ok(#[trigger] def.instr@[j]),
                forall|j: int|
                    0 <= j < k ==> asm_ok(#[trigger] def.instr@[j], tiles@[j].instr) && pattern_ok(
                        def.instr@[j],
                        tiles@[j].pattern,
                    ),
            decreases def.instr@.len() - k,
        {
            match Tile::from_instr(&def.instr[k]) {
                Ok(t) => {
                    tiles.push(t);
                },
                Err(e) => {
                    return Err(e);
                },
            }
            k = k + 1;
        }
        Ok(Target { tiles })
    }
}

} // verus!
