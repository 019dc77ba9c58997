//! Emission entries of the instruction set: how a placed instruction turns
//! into primitive bindings.

use crate::placed;
use crate::errors::Error;
use crate::ir;
use crate::prim;
use vstd::prelude::*;

verus! {

/// Emitter of scalar DSP arithmetic instructions.
#[derive(Clone, Debug)]
pub struct DspScalarArith;

/// The scalar DSP operation an opcode selects; unknown opcodes are
/// compiler errors.
pub fn emit_scalar_op(instr: &placed::Instr) -> (r: Result<prim::DspScalarOp, Error>)
    ensures
        instr.op@ == "dsp_add_reg_mul_i8_i8_i8_b_i8"@ ==> r == Ok::<prim::DspScalarOp, Error>(
            prim::DspScalarOp::MulAdd,
        ),
        instr.op@ != "dsp_add_reg_mul_i8_i8_i8_b_i8"@ ==> (r matches Err(e) && e is Compiler),
{
    if ir::str_eq(instr.op.as_str(), "dsp_add_reg_mul_i8_i8_i8_b_i8") {
        Ok(prim::DspScalarOp::MulAdd)
    } else {
        Err(Error::new_compiler_error("unknown scalar arithmetic opcode"))
    }
}

impl DspScalarArith {
    /// Emits the scalar DSP binding of a placed instruction: its operation
    /// from the opcode, with clock, reset, and the multiplier enable wired.
    pub fn emit(instr: &placed::Instr, id: &str, clock: &str, reset: &str, en_mul: &str) -> (r:
        Result<prim::DspScalar, Error>)
        ensures
            instr.op@ == "dsp_add_reg_mul_i8_i8_i8_b_i8"@ ==> (r matches Ok(d) && {
                &&& d.op == prim::DspScalarOp::MulAdd
                &&& d.id@ == id@
                &&& prim::lookup(d.inputs.pairs@, "clock"@) matches Some(e) && e matches
                    prim::Expr::Ref(n) && n@ == clock@
                &&& prim::lookup(d.inputs.pairs@, "reset"@) matches Some(e) && e matches
                    prim::Expr::Ref(n) && n@ == reset@
                &&& prim::lookup(d.inputs.pairs@, "en_mul"@) matches Some(e) && e matches
                    prim::Expr::Ref(n) && n@ == en_mul@
            }),
            instr.op@ != "dsp_add_reg_mul_i8_i8_i8_b_i8"@ ==> r is Err,
    {
        let op = match emit_scalar_op(instr) {
            Ok(op) => op,
            Err(e) => {
                return Err(e);
            },
        };
        let mut dsp = prim::DspScalar::new(op);
        dsp.set_id(id);
        dsp.set_input("clock", clock);
        dsp.set_input("reset", reset);
        dsp.set_input("en_mul", en_mul);
        proof {
            reveal_strlit("clock");
            reveal_strlit("reset");
            reveal_strlit("en_mul");
            assert("clock"@[0] == 'c' && "reset"@[0] == 'r' && "en_mul"@[0] == 'e');
            assert("clock"@ != "reset"@);
            assert("clock"@ != "en_mul"@);
            assert("reset"@ != "en_mul"@);
        }
        Ok(dsp)
    }
}

/// Emitter of multi-bit register instructions over single-bit flip-flops.
#[derive(Clone, Debug)]
pub struct LutRegI8I8B;

impl LutRegI8I8B {
    /// Emits one flip-flop per bit of the register: bit `i` is set-on-reset
    /// exactly when bit `i` of the init value is one, reads bit `i` of the
    /// value wire, drives bit `i` of the result wire, and shares the clock,
    /// reset, and enable nets.
    pub fn emit_prim(
        width: u64,
        init: i64,
        clock: &str,
        reset: &str,
        en: &str,
        val: &str,
        res: &str,
    ) -> (regs: Vec<prim::Reg>)
        requires
            width <= 64,
        ensures
            regs@.len() == width,
            forall|i: int|
                0 <= i < width ==> {
                    let rg = #[trigger] regs@[i];
                    &&& rg.ty == (if (init >> (i as u64)) & 1 == 1 {
                        prim::RegTy::Fdse
                    } else {
                        prim::RegTy::Fdre
                    })
                    &&& rg.clock matches prim::Expr::Ref(n) && n@ == clock@
                    &&& rg.reset matches prim::Expr::Ref(n) && n@ == reset@
                    &&& rg.en matches prim::Expr::Ref(n) && n@ == en@
                    &&& rg.input matches prim::Expr::Index(n, ix) && n@ == val@ && ix == i
                    &&& rg.output matches prim::Expr::Index(n, ix) && n@ == res@ && ix == i
                },
    {
        let mut regs: Vec<prim::Reg> = Vec::new();
        let mut i: u64 = 0;
        while i < width
            invariant
                i <= width <= 64,
                regs@.len() == i,
                forall|t: int|
                    0 <= t < i ==> {
                        let rg = #[trigger] regs@[t];
                        &&& rg.ty == (if (init >> (t as u64)) & 1 == 1 {
                            prim::RegTy::Fdse
                        } else {
                            prim::RegTy::Fdre
                        })
                        &&& rg.clock matches prim::Expr::Ref(n) && n@ == clock@
                        &&& rg.reset matches prim::Expr::Ref(n) && n@ == reset@
                        &&& rg.en matches prim::Expr::Ref(n) && n@ == en@
                        &&& rg.input matches prim::Expr::Index(n, ix) && n@ == val@ && ix == t
                        &&& rg.output matches prim::Expr::Index(n, ix) && n@ == res@ && ix == t
                    },
            decreases width - i,
        {
            let shift = init >> i;
            let mask = shift & 1;
            let mut rg = if mask == 1 {
                prim::Reg::new_fdse()
            } else {
                prim::Reg::new_fdre()
            };
            rg.set_clock(clock);
            rg.set_reset(reset);
            rg.set_en(en);
            rg.set_input_with_index(val, i as u32);
            rg.set_output_with_index(res, i as u32);
            regs.push(rg);
            i = i + 1;
        }
        regs
    }
}

} // verus!
