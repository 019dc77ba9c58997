//! Lowering of primitives into netlist statements with every port resolved.
//!
//! Constant literals expand bit by bit into references to the design's
//! shared tied-high and tied-low nets; lookup tables connect exactly as many
//! input ports as their declared size; flip-flops and DSP macros get their
//! full parameter sets and control-bit encodings.

use crate::prim;
use crate::verilog as vl;
use vstd::prelude::*;

verus! {

/// The netlist expression of a wiring expression.
pub open spec fn wire_expr(p: prim::Expr) -> vl::Expr {
    match p {
        prim::Expr::Ref(n) => vl::Expr::Ref(n),
        prim::Expr::Index(n, i) => vl::Expr::IndexBit(n, i as i32),
    }
}

/// The wire name a wiring expression refers to.
pub open spec fn wire_name(p: prim::Expr) -> Seq<char> {
    match p {
        prim::Expr::Ref(n) => n@,
        prim::Expr::Index(n, _) => n@,
    }
}

/// Converts a wiring expression into its netlist expression.
pub fn expr_from_wire(p: &prim::Expr) -> (r: vl::Expr)
    requires
        p matches prim::Expr::Index(_, i) ==> i <= 0x7fffffff,
    ensures
        r == wire_expr(*p),
{
    match p {
        prim::Expr::Ref(n) => vl::Expr::Ref(n.clone()),
        prim::Expr::Index(n, i) => vl::Expr::IndexBit(n.clone(), *i as i32),
    }
}

/// Truth-table width of a lookup table: two to the power of its input count.
pub open spec fn lut_width_spec(ty: prim::LutTy) -> int {
    match ty {
        prim::LutTy::Lut1 => 2,
        prim::LutTy::Lut2 => 4,
        prim::LutTy::Lut3 => 8,
        prim::LutTy::Lut4 => 16,
        prim::LutTy::Lut5 => 32,
        prim::LutTy::Lut6 => 64,
    }
}

/// The truth table of an `n`-input lookup table has `2^n` entries.
pub proof fn lemma_lut_width_is_pow2(ty: prim::LutTy)
    ensures
        lut_width_spec(ty) == vstd::arithmetic::power2::pow2(prim::lut_arity(ty) as nat),
{
    vstd::arithmetic::power2::lemma2_to64();
}

/// Truth-table width of a lookup table.
pub fn lut_width(ty: prim::LutTy) -> (w: u32)
    ensures
        w == lut_width_spec(ty),
{
    match ty {
        prim::LutTy::Lut1 => 2,
        prim::LutTy::Lut2 => 4,
        prim::LutTy::Lut3 => 8,
        prim::LutTy::Lut4 => 16,
        prim::LutTy::Lut5 => 32,
        prim::LutTy::Lut6 => 64,
    }
}

/// The driver of bit `i` of an expanded literal: the tied-high net where
/// bit `i` of the value is one, the tied-low net where it is zero.
pub open spec fn lit_bit(vcc: prim::Expr, gnd: prim::Expr, value: i64, i: int) -> vl::Expr {
    wire_expr(
        if (value >> (i as u64)) & 1 == 1 {
            vcc
        } else {
            gnd
        },
    )
}

/// A bit extracted from a value is zero or one.
proof fn lemma_bit01(v: i64, s: u64)
    requires
        s < 64,
    ensures
        (v >> s) & 1 == 1 || (v >> s) & 1 == 0,
{
    assert(s < 64 ==> ((v >> s) & 1 == 1 || (v >> s) & 1 == 0)) by (bit_vector);
}

/// Whether `e` is the bit-by-bit expansion of the `width`-bit constant
/// `value` over the shared tied-high/tied-low nets: a bare reference for a
/// single bit, else a concatenation whose element `i` drives bit `i`.
pub open spec fn is_literal(
    vcc: prim::Expr,
    gnd: prim::Expr,
    width: int,
    value: i64,
    e: vl::Expr,
) -> bool {
    if width == 1 {
        e == lit_bit(vcc, gnd, value, 0)
    } else {
        &&& e matches vl::Expr::Concat(es)
        &&& es@.len() == width
        &&& forall|i: int| 0 <= i < width ==> #[trigger] es@[i] == lit_bit(vcc, gnd, value, i)
    }
}

/// Expands an N-bit compile-time constant into references to the shared
/// tied-high/tied-low nets; a 1-bit constant collapses to a bare reference,
/// never a 1-wide concatenation.
pub fn convert_literal(vcc: &prim::Expr, gnd: &prim::Expr, width: i64, value: i64) -> (r:
    vl::Expr)
    requires
        1 <= width <= 64,
        vcc matches prim::Expr::Index(_, i) ==> i <= 0x7fffffff,
        gnd matches prim::Expr::Index(_, i) ==> i <= 0x7fffffff,
    ensures
        is_literal(*vcc, *gnd, width as int, value, r),
{
    if width == 1 {
        let mask = value & 1;
        let is_one = mask == 1;
        proof {
            assert((value >> 0u64) & 1 == value & 1) by (bit_vector);
        }
        if is_one {
            expr_from_wire(vcc)
        } else {
            expr_from_wire(gnd)
        }
    } else {
        let w = width as u64;
        let mut concat = vl::ExprConcat::new();
        let mut i: u64 = 0;
        while i < w
            invariant
                i <= w == width <= 64,
                vcc matches prim::Expr::Index(_, ix) ==> ix <= 0x7fffffff,
                gnd matches prim::Expr::Index(_, ix) ==> ix <= 0x7fffffff,
                concat.exprs@.len() == i,
                forall|t: int|
                    0 <= t < i ==> #[trigger] concat.exprs@[t] == lit_bit(*vcc, *gnd, value, t),
            decreases w - i,
        {
            let shift = value >> i;
            let mask = shift & 1;
            let is_one = mask == 1;
            if is_one {
                concat.add_expr(expr_from_wire(vcc));
            } else {
                concat.add_expr(expr_from_wire(gnd));
            }
            i = i + 1;
        }
        concat.to_expr()
    }
}

/// Re-evaluation of one driver of an expanded literal: one for the
/// tied-high net, zero for the tied-low net.
pub open spec fn eval_driver(vcc: prim::Expr, gnd: prim::Expr, e: vl::Expr) -> i64 {
    if e == wire_expr(vcc) {
        1
    } else {
        0
    }
}

/// Literal expansion followed by bit-wise re-evaluation reproduces
/// `(value >> i) & 1` for every bit `i`, provided the tied-high and
/// tied-low nets are distinct wires.
pub proof fn lemma_literal_roundtrip(
    vcc: prim::Expr,
    gnd: prim::Expr,
    width: int,
    value: i64,
    e: vl::Expr,
)
    requires
        1 <= width <= 64,
        wire_expr(vcc) != wire_expr(gnd),
        is_literal(vcc, gnd, width, value, e),
    ensures
        width == 1 ==> eval_driver(vcc, gnd, e) == (value >> 0u64) & 1,
        width > 1 ==> (e matches vl::Expr::Concat(es) && (forall|i: int|
            0 <= i < width ==> eval_driver(vcc, gnd, #[trigger] es@[i]) == (value >> (i as u64))
                & 1)),
{
    if width == 1 {
        lemma_bit01(value, 0);
        assert(eval_driver(vcc, gnd, e) == (value >> 0u64) & 1);
    } else {
        let es = e->Concat_0;
        assert forall|i: int| 0 <= i < width implies eval_driver(vcc, gnd, es@[i]) == (value >> (
        i as u64)) & 1 by {
            assert(es@[i] == lit_bit(vcc, gnd, value, i));
            lemma_bit01(value, i as u64);
        }
    }
}

/// Name of the `i`-th input port of a lookup table.
pub open spec fn lut_port_name(i: int) -> Seq<char> {
    if i == 0 {
        "I0"@
    } else if i == 1 {
        "I1"@
    } else if i == 2 {
        "I2"@
    } else if i == 3 {
        "I3"@
    } else if i == 4 {
        "I4"@
    } else {
        "I5"@
    }
}

/// Name of the `i`-th input port of a lookup table.
fn lut_port(i: usize) -> (r: &'static str)
    requires
        i < 6,
    ensures
        r@ == lut_port_name(i as int),
{
    match i {
        0 => "I0",
        1 => "I1",
        2 => "I2",
        3 => "I3",
        4 => "I4",
        _ => "I5",
    }
}

/// Name of a lookup table's macro, as a string.
fn lut_name(ty: prim::LutTy) -> (r: &'static str)
    ensures
        r@ == prim::lut_ty_name(ty),
{
    match ty {
        prim::LutTy::Lut1 => "LUT1",
        prim::LutTy::Lut2 => "LUT2",
        prim::LutTy::Lut3 => "LUT3",
        prim::LutTy::Lut4 => "LUT4",
        prim::LutTy::Lut5 => "LUT5",
        prim::LutTy::Lut6 => "LUT6",
    }
}

/// Whether a parameter binding is a width-prefixed hexadecimal literal.
pub open spec fn p_hex(p: (Seq<char>, vl::Expr), name: Seq<char>, w: int, val: Seq<char>) -> bool {
    &&& p.0 == name
    &&& p.1 matches vl::Expr::UlitHex(ww, s) && ww == w && s@ == val
}

/// Whether a parameter binding is a width-prefixed binary literal.
pub open spec fn p_bin(p: (Seq<char>, vl::Expr), name: Seq<char>, w: int, val: Seq<char>) -> bool {
    &&& p.0 == name
    &&& p.1 matches vl::Expr::UlitBin(ww, s) && ww == w && s@ == val
}

/// Whether a parameter binding is a string value.
pub open spec fn p_str(p: (Seq<char>, vl::Expr), name: Seq<char>, val: Seq<char>) -> bool {
    &&& p.0 == name
    &&& p.1 matches vl::Expr::Str(s) && s@ == val
}

/// Whether a parameter binding is a plain integer value.
pub open spec fn p_int(p: (Seq<char>, vl::Expr), name: Seq<char>, v: i32) -> bool {
    &&& p.0 == name
    &&& p.1 == vl::Expr::Int(v)
}

/// Whether a port binding connects `name` to the expression `e`.
pub open spec fn c_to(p: (Seq<char>, vl::Expr), name: Seq<char>, e: vl::Expr) -> bool {
    &&& p.0 == name
    &&& p.1 == e
}

/// Whether a port binding connects `name` to the expansion of a constant.
pub open spec fn c_lit(
    p: (Seq<char>, vl::Expr),
    name: Seq<char>,
    vcc: prim::Expr,
    gnd: prim::Expr,
    width: int,
    value: i64,
) -> bool {
    &&& p.0 == name
    &&& is_literal(vcc, gnd, width, value, p.1)
}

impl prim::Lut {
    /// Lowers the lookup table: an instance of its macro whose `INIT`
    /// parameter holds the truth table at the declared width, with exactly
    /// one input port per declared input, and the output on `O`.
    pub fn to_stmt(&self) -> (r: vl::Stmt)
        requires
            self.inputs@.len() == prim::lut_arity(self.ty),
            forall|i: int|
                0 <= i < self.inputs@.len() ==> ((#[trigger] self.inputs@[i]) matches
                    prim::Expr::Index(_, ix) ==> ix <= 0x7fffffff),
            self.output matches prim::Expr::Index(_, ix) ==> ix <= 0x7fffffff,
        ensures
            ({
                let a = prim::lut_arity(self.ty);
                &&& r matches vl::Stmt::Inst(inst)
                &&& inst@.id == self.id@
                &&& inst@.prim == prim::lut_ty_name(self.ty)
                &&& inst@.params.len() == 1
                &&& p_hex(inst@.params[0], "INIT"@, lut_width_spec(self.ty), self.init@)
                &&& inst@.ports.len() == a + 1
                &&& forall|i: int|
                    0 <= i < a ==> c_to(
                        #[trigger] inst@.ports[i],
                        lut_port_name(i),
                        wire_expr(self.inputs@[i]),
                    )
                &&& c_to(inst@.ports[a], "O"@, wire_expr(self.output))
            }),
    {
        let mut inst = vl::Instance::new(self.id.as_str(), lut_name(self.ty));
        let width = lut_width(self.ty);
        inst.add_param("INIT", vl::Expr::new_ulit_hex(width, self.init.as_str()));
        let mut i: usize = 0;
        while i < self.inputs.len()
            invariant
                self.inputs@.len() == prim::lut_arity(self.ty),
                forall|t: int|
                    0 <= t < self.inputs@.len() ==> ((#[trigger] self.inputs@[t]) matches
                        prim::Expr::Index(_, ix) ==> ix <= 0x7fffffff),
                i <= self.inputs@.len(),
                inst@.id == self.id@,
                inst@.prim == prim::lut_ty_name(self.ty),
                inst@.params.len() == 1,
                p_hex(inst@.params[0], "INIT"@, lut_width_spec(self.ty), self.init@),
                inst@.ports.len() == i,
                forall|t: int|
                    0 <= t < i ==> c_to(
                        #[trigger] inst@.ports[t],
                        lut_port_name(t),
                        wire_expr(self.inputs@[t]),
                    ),
            decreases self.inputs@.len() - i,
        {
            inst.connect(lut_port(i), expr_from_wire(&self.inputs[i]));
            i = i + 1;
        }
        inst.connect("O", expr_from_wire(&self.output));
        vl::Stmt::new_inst(inst)
    }
}

impl prim::Reg {
    /// Lowers the flip-flop: a clear-on-reset register becomes its macro
    /// with an `INIT` of zero and a reset port `R`; a set-on-reset register
    /// gets an `INIT` of one and a set port `S`.
    pub fn to_stmt(&self) -> (r: vl::Stmt)
        requires
            self.clock matches prim::Expr::Index(_, ix) ==> ix <= 0x7fffffff,
            self.reset matches prim::Expr::Index(_, ix) ==> ix <= 0x7fffffff,
            self.en matches prim::Expr::Index(_, ix) ==> ix <= 0x7fffffff,
            self.input matches prim::Expr::Index(_, ix) ==> ix <= 0x7fffffff,
            self.output matches prim::Expr::Index(_, ix) ==> ix <= 0x7fffffff,
        ensures
            ({
                &&& r matches vl::Stmt::Inst(inst)
                &&& inst@.id == self.id@
                &&& inst@.prim == prim::reg_ty_name(self.ty)
                &&& inst@.params.len() == 4
                &&& p_bin(inst@.params[0], "IS_C_INVERTED"@, 1, "0"@)
                &&& p_bin(inst@.params[1], "IS_D_INVERTED"@, 1, "0"@)
                &&& (self.ty is Fdre ==> p_bin(inst@.params[2], "INIT"@, 1, "0"@) && p_bin(
                    inst@.params[3],
                    "IS_R_INVERTED"@,
                    1,
                    "0"@,
                ))
                &&& (self.ty is Fdse ==> p_bin(inst@.params[2], "INIT"@, 1, "1"@) && p_bin(
                    inst@.params[3],
                    "IS_S_INVERTED"@,
                    1,
                    "0"@,
                ))
                &&& inst@.ports.len() == 5
                &&& c_to(inst@.ports[0], "C"@, wire_expr(self.clock))
                &&& c_to(inst@.ports[1], "CE"@, wire_expr(self.en))
                &&& c_to(inst@.ports[2], "D"@, wire_expr(self.input))
                &&& c_to(inst@.ports[3], "Q"@, wire_expr(self.output))
                &&& (self.ty is Fdre ==> c_to(inst@.ports[4], "R"@, wire_expr(self.reset)))
                &&& (self.ty is Fdse ==> c_to(inst@.ports[4], "S"@, wire_expr(self.reset)))
            }),
    {
        let ty_name = match self.ty {
            prim::RegTy::Fdre => "FDRE",
            prim::RegTy::Fdse => "FDSE",
        };
        let mut inst = vl::Instance::new(self.id.as_str(), ty_name);
        inst.add_param("IS_C_INVERTED", vl::Expr::new_ulit_bin(1, "0"));
        inst.add_param("IS_D_INVERTED", vl::Expr::new_ulit_bin(1, "0"));
        if self.is_fdre() {
            inst.add_param("INIT", vl::Expr::new_ulit_bin(1, "0"));
            inst.add_param("IS_R_INVERTED", vl::Expr::new_ulit_bin(1, "0"));
        } else {
            inst.add_param("INIT", vl::Expr::new_ulit_bin(1, "1"));
            inst.add_param("IS_S_INVERTED", vl::Expr::new_ulit_bin(1, "0"));
        }
        inst.connect("C", expr_from_wire(&self.clock));
        inst.connect("CE", expr_from_wire(&self.en));
        inst.connect("D", expr_from_wire(&self.input));
        inst.connect("Q", expr_from_wire(&self.output));
        if self.is_fdre() {
            inst.connect("R", expr_from_wire(&self.reset));
        } else {
            inst.connect("S", expr_from_wire(&self.reset));
        }
        vl::Stmt::new_inst(inst)
    }
}

impl prim::Vcc {
    /// Lowers the tied-high driver: a `VCC` instance driving its net on `P`.
    pub fn to_stmt(&self) -> (r: vl::Stmt)
        requires
            self.output matches prim::Expr::Index(_, ix) ==> ix <= 0x7fffffff,
        ensures
            ({
                &&& r matches vl::Stmt::Inst(inst)
                &&& inst@.id == self.id@
                &&& inst@.prim == "VCC"@
                &&& inst@.params.len() == 0
                &&& inst@.ports.len() == 1
                &&& c_to(inst@.ports[0], "P"@, wire_expr(self.output))
            }),
    {
        let mut inst = vl::Instance::new(self.id.as_str(), "VCC");
        inst.connect("P", expr_from_wire(&self.output));
        vl::Stmt::new_inst(inst)
    }
}

impl prim::Gnd {
    /// Lowers the tied-low driver: a `GND` instance driving its net on `G`.
    pub fn to_stmt(&self) -> (r: vl::Stmt)
        requires
            self.output matches prim::Expr::Index(_, ix) ==> ix <= 0x7fffffff,
        ensures
            ({
                &&& r matches vl::Stmt::Inst(inst)
                &&& inst@.id == self.id@
                &&& inst@.prim == "GND"@
                &&& inst@.params.len() == 0
                &&& inst@.ports.len() == 1
                &&& c_to(inst@.ports[0], "G"@, wire_expr(self.output))
            }),
    {
        let mut inst = vl::Instance::new(self.id.as_str(), "GND");
        inst.connect("G", expr_from_wire(&self.output));
        vl::Stmt::new_inst(inst)
    }
}

impl prim::Const {
    /// Lowers a constant: a continuous assignment of the expanded literal
    /// to the constant's net.
    pub fn to_stmt(&self) -> (r: vl::Stmt)
        requires
            1 <= self.width <= 64,
            prim::lookup(self.inputs.pairs@, "vcc"@) matches Some(e) && (e matches
                prim::Expr::Index(_, ix) ==> ix <= 0x7fffffff),
            prim::lookup(self.inputs.pairs@, "gnd"@) matches Some(e) && (e matches
                prim::Expr::Index(_, ix) ==> ix <= 0x7fffffff),
        ensures
            ({
                let vcc = prim::lookup(self.inputs.pairs@, "vcc"@)->Some_0;
                let gnd = prim::lookup(self.inputs.pairs@, "gnd"@)->Some_0;
                &&& r matches vl::Stmt::Assign(lhs, rhs)
                &&& lhs matches vl::Expr::Ref(n) && n@ == self.id@
                &&& is_literal(vcc, gnd, self.width as int, self.value, rhs)
            }),
    {
        let vcc = match self.input("vcc") {
            Some(e) => e,
            None => prim::Expr::default(),
        };
        let gnd = match self.input("gnd") {
            Some(e) => e,
            None => prim::Expr::default(),
        };
        let expr = convert_literal(&vcc, &gnd, self.width as i64, self.value);
        let out = vl::Expr::new_ref(self.id.as_str());
        vl::Stmt::new_assign(out, expr)
    }
}

impl prim::Carry {
    /// Lowers the carry chain: a `CARRY8` in single-chain mode with the two
    /// operand buses on `DI` and `S`, carry-in on `CI`, the upper carry-in
    /// tied low, and the unused carry-out left as an explicit placeholder.
    pub fn to_stmt(&self) -> (r: vl::Stmt)
        requires
            prim::lookup(self.inputs.pairs@, "gnd"@) matches Some(e) && (e matches
                prim::Expr::Index(_, ix) ==> ix <= 0x7fffffff),
            prim::lookup(self.inputs.pairs@, "a"@) matches Some(e) && (e matches
                prim::Expr::Index(_, ix) ==> ix <= 0x7fffffff),
            prim::lookup(self.inputs.pairs@, "b"@) matches Some(e) && (e matches
                prim::Expr::Index(_, ix) ==> ix <= 0x7fffffff),
            prim::lookup(self.inputs.pairs@, "ci"@) matches Some(e) && (e matches
                prim::Expr::Index(_, ix) ==> ix <= 0x7fffffff),
            prim::lookup(self.outputs.pairs@, "y"@) matches Some(e) && (e matches
                prim::Expr::Index(_, ix) ==> ix <= 0x7fffffff),
        ensures
            ({
                let gnd = prim::lookup(self.inputs.pairs@, "gnd"@)->Some_0;
                let a = prim::lookup(self.inputs.pairs@, "a"@)->Some_0;
                let b = prim::lookup(self.inputs.pairs@, "b"@)->Some_0;
                let ci = prim::lookup(self.inputs.pairs@, "ci"@)->Some_0;
                let y = prim::lookup(self.outputs.pairs@, "y"@)->Some_0;
                &&& r matches vl::Stmt::Inst(inst)
                &&& inst@.id == self.id@
                &&& inst@.prim == "CARRY8"@
                &&& inst@.params.len() == 1
                &&& p_str(inst@.params[0], "CARRY_TYPE"@, "SINGLE_CY8"@)
                &&& inst@.ports.len() == 6
                &&& c_to(inst@.ports[0], "DI"@, wire_expr(a))
                &&& c_to(inst@.ports[1], "S"@, wire_expr(b))
                &&& c_to(inst@.ports[2], "O"@, wire_expr(y))
                &&& c_to(inst@.ports[3], "CI"@, wire_expr(ci))
                &&& c_to(inst@.ports[4], "CI_TOP"@, wire_expr(gnd))
                &&& inst@.ports[5].0 == "CO"@
                &&& inst@.ports[5].1 matches vl::Expr::Ref(n) && n@ == Seq::<char>::empty()
            }),
    {
        let gnd = match self.input("gnd") {
            Some(e) => e,
            None => prim::Expr::default(),
        };
        let a = match self.input("a") {
            Some(e) => e,
            None => prim::Expr::default(),
        };
        let b = match self.input("b") {
            Some(e) => e,
            None => prim::Expr::default(),
        };
        let ci = match self.input("ci") {
            Some(e) => e,
            None => prim::Expr::default(),
        };
        let y = match self.output("y") {
            Some(e) => e,
            None => prim::Expr::default(),
        };
        let mut inst = vl::Instance::new(self.id.as_str(), "CARRY8");
        inst.add_param("CARRY_TYPE", vl::Expr::new_str("SINGLE_CY8"));
        inst.connect("DI", expr_from_wire(&a));
        inst.connect("S", expr_from_wire(&b));
        inst.connect("O", expr_from_wire(&y));
        inst.connect("CI", expr_from_wire(&ci));
        inst.connect("CI_TOP", expr_from_wire(&gnd));
        proof {
            reveal_strlit("");
        }
        inst.connect("CO", vl::Expr::new_ref(""));
        vl::Stmt::new_inst(inst)
    }
}


/// Whether a wiring expression's bit index fits the netlist model's range.
pub open spec fn small_idx(e: prim::Expr) -> bool {
    e matches prim::Expr::Index(_, i) ==> i <= 0x7fffffff
}

/// ALUMODE encoding of a lane-wise DSP operation.
pub open spec fn alumode_of(op: prim::DspVectorOp) -> i64 {
    match op {
        prim::DspVectorOp::Add => 0,
        prim::DspVectorOp::Sub => 3,
        prim::DspVectorOp::And => 12,
        prim::DspVectorOp::Or => 12,
        prim::DspVectorOp::Xor => 4,
        prim::DspVectorOp::Nand => 14,
        prim::DspVectorOp::Nor => 14,
        prim::DspVectorOp::Xnor => 5,
    }
}

/// OPMODE encoding of a lane-wise DSP operation.
pub open spec fn opmode_of(op: prim::DspVectorOp) -> i64 {
    match op {
        prim::DspVectorOp::Or => 59,
        prim::DspVectorOp::Nor => 59,
        _ => 51,
    }
}

/// INMODE encoding of any lane-wise DSP operation.
pub open spec fn inmode_of(op: prim::DspVectorOp) -> i64 {
    0
}

/// SIMD mode name for a lane count.
pub open spec fn simd_name(length: int) -> Seq<char> {
    if length == 1 {
        "ONE48"@
    } else if length == 2 {
        "TWO24"@
    } else {
        "FOUR12"@
    }
}

/// OPMODE encoding of a fused DSP operation.
pub open spec fn fused_opmode_of(op: prim::DspFusedOp) -> i64 {
    match op {
        prim::DspFusedOp::Mul => 5,
        prim::DspFusedOp::MulAdd => 53,
    }
}

/// The ten synchronous-reset pins of the DSP macro, all fanned out from the
/// one reset net, starting at `base`.
pub open spec fn reset_ports_at(
    ports: Seq<(Seq<char>, vl::Expr)>,
    base: int,
    reset: prim::Expr,
) -> bool {
    &&& c_to(ports[base + 0], "RSTA"@, wire_expr(reset))
    &&& c_to(ports[base + 1], "RSTALLCARRYIN"@, wire_expr(reset))
    &&& c_to(ports[base + 2], "RSTALUMODE"@, wire_expr(reset))
    &&& c_to(ports[base + 3], "RSTB"@, wire_expr(reset))
    &&& c_to(ports[base + 4], "RSTC"@, wire_expr(reset))
    &&& c_to(ports[base + 5], "RSTCTRL"@, wire_expr(reset))
    &&& c_to(ports[base + 6], "RSTD"@, wire_expr(reset))
    &&& c_to(ports[base + 7], "RSTINMODE"@, wire_expr(reset))
    &&& c_to(ports[base + 8], "RSTM"@, wire_expr(reset))
    &&& c_to(ports[base + 9], "RSTP"@, wire_expr(reset))
}

/// The parameter defaults every DSP configuration shares, starting at
/// `base`: input routing, rounding, pattern detection, and the inversion
/// controls, all at their quiet values.
pub open spec fn common_params_at(params: Seq<(Seq<char>, vl::Expr)>, base: int) -> bool {
    &&& p_str(params[base + 0], "A_INPUT"@, "DIRECT"@)
    &&& p_str(params[base + 1], "AMULTSEL"@, "A"@)
    &&& p_str(params[base + 2], "B_INPUT"@, "DIRECT"@)
    &&& p_str(params[base + 3], "BMULTSEL"@, "B"@)
    &&& p_str(params[base + 4], "PREADDINSEL"@, "A"@)
    &&& p_hex(params[base + 5], "RND"@, 48, "0"@)
    &&& p_str(params[base + 6], "USE_WIDEXOR"@, "FALSE"@)
    &&& p_str(params[base + 7], "XORSIMD"@, "XOR24_48_96"@)
    &&& p_str(params[base + 8], "AUTORESET_PATDET"@, "NO_RESET"@)
    &&& p_str(params[base + 9], "AUTORESET_PRIORITY"@, "RESET"@)
    &&& p_hex(params[base + 10], "MASK"@, 48, "3fffffffffff"@)
    &&& p_hex(params[base + 11], "PATTERN"@, 48, "0"@)
    &&& p_str(params[base + 12], "SEL_MASK"@, "MASK"@)
    &&& p_str(params[base + 13], "SEL_PATTERN"@, "PATTERN"@)
    &&& p_str(params[base + 14], "USE_PATTERN_DETECT"@, "NO_PATDET"@)
    &&& p_bin(params[base + 15], "IS_ALUMODE_INVERTED"@, 4, "0000"@)
    &&& p_bin(params[base + 16], "IS_CARRYIN_INVERTED"@, 1, "0"@)
    &&& p_bin(params[base + 17], "IS_CLK_INVERTED"@, 1, "0"@)
    &&& p_bin(params[base + 18], "IS_INMODE_INVERTED"@, 5, "00000"@)
    &&& p_bin(params[base + 19], "IS_OPMODE_INVERTED"@, 9, "000000000"@)
    &&& p_bin(params[base + 20], "IS_RSTALLCARRYIN_INVERTED"@, 1, "0"@)
    &&& p_bin(params[base + 21], "IS_RSTALUMODE_INVERTED"@, 1, "0"@)
    &&& p_bin(params[base + 22], "IS_RSTA_INVERTED"@, 1, "0"@)
    &&& p_bin(params[base + 23], "IS_RSTB_INVERTED"@, 1, "0"@)
    &&& p_bin(params[base + 24], "IS_RSTCTRL_INVERTED"@, 1, "0"@)
    &&& p_bin(params[base + 25], "IS_RSTC_INVERTED"@, 1, "0"@)
    &&& p_bin(params[base + 26], "IS_RSTD_INVERTED"@, 1, "0"@)
    &&& p_bin(params[base + 27], "IS_RSTINMODE_INVERTED"@, 1, "0"@)
    &&& p_bin(params[base + 28], "IS_RSTM_INVERTED"@, 1, "0"@)
    &&& p_bin(params[base + 29], "IS_RSTP_INVERTED"@, 1, "0"@)
}

/// The clock-enable pins no configuration drives, tied to ground, starting
/// at `base`.
pub open spec fn ce_default_ports_at(
    ports: Seq<(Seq<char>, vl::Expr)>,
    base: int,
    vcc: prim::Expr,
    gnd: prim::Expr,
) -> bool {
    &&& c_lit(ports[base + 0], "CEAD"@, vcc, gnd, 1, 0)
    &&& c_lit(ports[base + 1], "CEALUMODE"@, vcc, gnd, 1, 0)
    &&& c_lit(ports[base + 2], "CECARRYIN"@, vcc, gnd, 1, 0)
    &&& c_lit(ports[base + 3], "CECTRL"@, vcc, gnd, 1, 0)
    &&& c_lit(ports[base + 4], "CED"@, vcc, gnd, 1, 0)
    &&& c_lit(ports[base + 5], "CEINMODE"@, vcc, gnd, 1, 0)
}

/// The cascade and carry inputs no configuration drives, tied to ground at
/// their widths, starting at `base`.
pub open spec fn default_input_ports_at(
    ports: Seq<(Seq<char>, vl::Expr)>,
    base: int,
    vcc: prim::Expr,
    gnd: prim::Expr,
) -> bool {
    &&& c_lit(ports[base + 0], "ACIN"@, vcc, gnd, 30, 0)
    &&& c_lit(ports[base + 1], "BCIN"@, vcc, gnd, 18, 0)
    &&& c_lit(ports[base + 2], "CARRYCASCIN"@, vcc, gnd, 1, 0)
    &&& c_lit(ports[base + 3], "MULTSIGNIN"@, vcc, gnd, 1, 0)
    &&& c_lit(ports[base + 4], "PCIN"@, vcc, gnd, 48, 0)
    &&& c_lit(ports[base + 5], "CARRYIN"@, vcc, gnd, 1, 0)
    &&& c_lit(ports[base + 6], "CARRYINSEL"@, vcc, gnd, 3, 0)
    &&& c_lit(ports[base + 7], "D"@, vcc, gnd, 27, 0)
}

/// Whether a port binding leaves `name` on the explicit empty placeholder.
pub open spec fn c_unused(p: (Seq<char>, vl::Expr), name: Seq<char>) -> bool {
    &&& p.0 == name
    &&& p.1 matches vl::Expr::Ref(n) && n@ == Seq::<char>::empty()
}

/// The output pins no configuration reads, each on the explicit empty
/// placeholder, starting at `base`; none is ever omitted.
pub open spec fn unused_output_ports_at(ports: Seq<(Seq<char>, vl::Expr)>, base: int) -> bool {
    &&& c_unused(ports[base + 0], "ACOUT"@)
    &&& c_unused(ports[base + 1], "BCOUT"@)
    &&& c_unused(ports[base + 2], "CARRYCASCOUT"@)
    &&& c_unused(ports[base + 3], "MULTSIGNOUT"@)
    &&& c_unused(ports[base + 4], "PCOUT"@)
    &&& c_unused(ports[base + 5], "OVERFLOW"@)
    &&& c_unused(ports[base + 6], "PATTERNBDETECT"@)
    &&& c_unused(ports[base + 7], "PATTERNDETECT"@)
    &&& c_unused(ports[base + 8], "UNDERFLOW"@)
    &&& c_unused(ports[base + 9], "CARRYOUT"@)
    &&& c_unused(ports[base + 10], "XOROUT"@)
}

/// The pipeline-register parameter defaults, all zero, starting at `base`.
pub open spec fn default_reg_params_at(params: Seq<(Seq<char>, vl::Expr)>, base: int) -> bool {
    &&& p_int(params[base + 0], "ADREG"@, 0)
    &&& p_int(params[base + 1], "ALUMODEREG"@, 0)
    &&& p_int(params[base + 2], "CARRYINREG"@, 0)
    &&& p_int(params[base + 3], "CARRYINSELREG"@, 0)
    &&& p_int(params[base + 4], "DREG"@, 0)
    &&& p_int(params[base + 5], "INMODEREG"@, 0)
    &&& p_int(params[base + 6], "OPMODEREG"@, 0)
}

/// Fans the one reset net out to the DSP macro's ten reset pins.
fn add_reset_ports(inst: &mut vl::Instance, reset: &prim::Expr)
    requires
        small_idx(*reset),
    ensures
        final(inst)@.id == old(inst)@.id,
        final(inst)@.prim == old(inst)@.prim,
        final(inst)@.attr == old(inst)@.attr,
        final(inst)@.params == old(inst)@.params,
        final(inst)@.ports.len() == old(inst)@.ports.len() + 10,
        forall|i: int|
            0 <= i < old(inst)@.ports.len() ==> (#[trigger] final(inst)@.ports[i]) == old(
                inst,
            )@.ports[i],
        reset_ports_at(final(inst)@.ports, old(inst)@.ports.len() as int, *reset),
{
    inst.connect("RSTA", expr_from_wire(reset));
    inst.connect("RSTALLCARRYIN", expr_from_wire(reset));
    inst.connect("RSTALUMODE", expr_from_wire(reset));
    inst.connect("RSTB", expr_from_wire(reset));
    inst.connect("RSTC", expr_from_wire(reset));
    inst.connect("RSTCTRL", expr_from_wire(reset));
    inst.connect("RSTD", expr_from_wire(reset));
    inst.connect("RSTINMODE", expr_from_wire(reset));
    inst.connect("RSTM", expr_from_wire(reset));
    inst.connect("RSTP", expr_from_wire(reset));
    proof {
        assert(final(inst)@.ports.take(old(inst)@.ports.len() as int) =~= old(inst)@.ports);
    }
}

/// Sets the parameter defaults every DSP configuration shares.
fn add_common_params(inst: &mut vl::Instance)
    ensures
        final(inst)@.id == old(inst)@.id,
        final(inst)@.prim == old(inst)@.prim,
        final(inst)@.attr == old(inst)@.attr,
        final(inst)@.ports == old(inst)@.ports,
        final(inst)@.params.len() == old(inst)@.params.len() + 30,
        forall|i: int|
            0 <= i < old(inst)@.params.len() ==> (#[trigger] final(inst)@.params[i]) == old(
                inst,
            )@.params[i],
        common_params_at(final(inst)@.params, old(inst)@.params.len() as int),
{
    inst.add_param("A_INPUT", vl::Expr::new_str("DIRECT"));
    inst.add_param("AMULTSEL", vl::Expr::new_str("A"));
    inst.add_param("B_INPUT", vl::Expr::new_str("DIRECT"));
    inst.add_param("BMULTSEL", vl::Expr::new_str("B"));
    inst.add_param("PREADDINSEL", vl::Expr::new_str("A"));
    inst.add_param("RND", vl::Expr::new_ulit_hex(48, "0"));
    inst.add_param("USE_WIDEXOR", vl::Expr::new_str("FALSE"));
    inst.add_param("XORSIMD", vl::Expr::new_str("XOR24_48_96"));
    inst.add_param("AUTORESET_PATDET", vl::Expr::new_str("NO_RESET"));
    inst.add_param("AUTORESET_PRIORITY", vl::Expr::new_str("RESET"));
    inst.add_param("MASK", vl::Expr::new_ulit_hex(48, "3fffffffffff"));
    inst.add_param("PATTERN", vl::Expr::new_ulit_hex(48, "0"));
    inst.add_param("SEL_MASK", vl::Expr::new_str("MASK"));
    inst.add_param("SEL_PATTERN", vl::Expr::new_str("PATTERN"));
    inst.add_param("USE_PATTERN_DETECT", vl::Expr::new_str("NO_PATDET"));
    inst.add_param("IS_ALUMODE_INVERTED", vl::Expr::new_ulit_bin(4, "0000"));
    inst.add_param("IS_CARRYIN_INVERTED", vl::Expr::new_ulit_bin(1, "0"));
    inst.add_param("IS_CLK_INVERTED", vl::Expr::new_ulit_bin(1, "0"));
    inst.add_param("IS_INMODE_INVERTED", vl::Expr::new_ulit_bin(5, "00000"));
    inst.add_param("IS_OPMODE_INVERTED", vl::Expr::new_ulit_bin(9, "000000000"));
    inst.add_param("IS_RSTALLCARRYIN_INVERTED", vl::Expr::new_ulit_bin(1, "0"));
    inst.add_param("IS_RSTALUMODE_INVERTED", vl::Expr::new_ulit_bin(1, "0"));
    inst.add_param("IS_RSTA_INVERTED", vl::Expr::new_ulit_bin(1, "0"));
    inst.add_param("IS_RSTB_INVERTED", vl::Expr::new_ulit_bin(1, "0"));
    inst.add_param("IS_RSTCTRL_INVERTED", vl::Expr::new_ulit_bin(1, "0"));
    inst.add_param("IS_RSTC_INVERTED", vl::Expr::new_ulit_bin(1, "0"));
    inst.add_param("IS_RSTD_INVERTED", vl::Expr::new_ulit_bin(1, "0"));
    inst.add_param("IS_RSTINMODE_INVERTED", vl::Expr::new_ulit_bin(1, "0"));
    inst.add_param("IS_RSTM_INVERTED", vl::Expr::new_ulit_bin(1, "0"));
    inst.add_param("IS_RSTP_INVERTED", vl::Expr::new_ulit_bin(1, "0"));
    proof {
        assert(final(inst)@.params.take(old(inst)@.params.len() as int) =~= old(inst)@.params);
        assert(final(inst)@.ports =~= old(inst)@.ports);
    }
}

/// Ties the quiet clock-enable pins to ground.
fn add_ce_default_ports(inst: &mut vl::Instance, vcc: &prim::Expr, gnd: &prim::Expr)
    requires
        small_idx(*vcc),
        small_idx(*gnd),
    ensures
        final(inst)@.id == old(inst)@.id,
        final(inst)@.prim == old(inst)@.prim,
        final(inst)@.attr == old(inst)@.attr,
        final(inst)@.params == old(inst)@.params,
        final(inst)@.ports.len() == old(inst)@.ports.len() + 6,
        forall|i: int|
            0 <= i < old(inst)@.ports.len() ==> (#[trigger] final(inst)@.ports[i]) == old(
                inst,
            )@.ports[i],
        ce_default_ports_at(final(inst)@.ports, old(inst)@.ports.len() as int, *vcc, *gnd),
{
    inst.connect("CEAD", convert_literal(vcc, gnd, 1, 0));
    inst.connect("CEALUMODE", convert_literal(vcc, gnd, 1, 0));
    inst.connect("CECARRYIN", convert_literal(vcc, gnd, 1, 0));
    inst.connect("CECTRL", convert_literal(vcc, gnd, 1, 0));
    inst.connect("CED", convert_literal(vcc, gnd, 1, 0));
    inst.connect("CEINMODE", convert_literal(vcc, gnd, 1, 0));
    proof {
        assert(final(inst)@.ports.take(old(inst)@.ports.len() as int) =~= old(inst)@.ports);
    }
}

/// Ties the undriven cascade and carry inputs to ground at their widths.
fn add_default_input_ports(inst: &mut vl::Instance, vcc: &prim::Expr, gnd: &prim::Expr)
    requires
        small_idx(*vcc),
        small_idx(*gnd),
    ensures
        final(inst)@.id == old(inst)@.id,
        final(inst)@.prim == old(inst)@.prim,
        final(inst)@.attr == old(inst)@.attr,
        final(inst)@.params == old(inst)@.params,
        final(inst)@.ports.len() == old(inst)@.ports.len() + 8,
        forall|i: int|
            0 <= i < old(inst)@.ports.len() ==> (#[trigger] final(inst)@.ports[i]) == old(
                inst,
            )@.ports[i],
        default_input_ports_at(final(inst)@.ports, old(inst)@.ports.len() as int, *vcc, *gnd),
{
    inst.connect("ACIN", convert_literal(vcc, gnd, 30, 0));
    inst.connect("BCIN", convert_literal(vcc, gnd, 18, 0));
    inst.connect("CARRYCASCIN", convert_literal(vcc, gnd, 1, 0));
    inst.connect("MULTSIGNIN", convert_literal(vcc, gnd, 1, 0));
    inst.connect("PCIN", convert_literal(vcc, gnd, 48, 0));
    inst.connect("CARRYIN", convert_literal(vcc, gnd, 1, 0));
    inst.connect("CARRYINSEL", convert_literal(vcc, gnd, 3, 0));
    inst.connect("D", convert_literal(vcc, gnd, 27, 0));
    proof {
        assert(final(inst)@.ports.take(old(inst)@.ports.len() as int) =~= old(inst)@.ports);
    }
}

/// Leaves every unread output pin on the explicit empty placeholder.
fn add_unused_output_ports(inst: &mut vl::Instance)
    ensures
        final(inst)@.id == old(inst)@.id,
        final(inst)@.prim == old(inst)@.prim,
        final(inst)@.attr == old(inst)@.attr,
        final(inst)@.params == old(inst)@.params,
        final(inst)@.ports.len() == old(inst)@.ports.len() + 11,
        forall|i: int|
            0 <= i < old(inst)@.ports.len() ==> (#[trigger] final(inst)@.ports[i]) == old(
                inst,
            )@.ports[i],
        unused_output_ports_at(final(inst)@.ports, old(inst)@.ports.len() as int),
{
    proof {
        reveal_strlit("");
        assert(""@ =~= Seq::<char>::empty());
    }
    inst.connect("ACOUT", vl::Expr::new_ref(""));
    inst.connect("BCOUT", vl::Expr::new_ref(""));
    inst.connect("CARRYCASCOUT", vl::Expr::new_ref(""));
    inst.connect("MULTSIGNOUT", vl::Expr::new_ref(""));
    inst.connect("PCOUT", vl::Expr::new_ref(""));
    inst.connect("OVERFLOW", vl::Expr::new_ref(""));
    inst.connect("PATTERNBDETECT", vl::Expr::new_ref(""));
    inst.connect("PATTERNDETECT", vl::Expr::new_ref(""));
    inst.connect("UNDERFLOW", vl::Expr::new_ref(""));
    inst.connect("CARRYOUT", vl::Expr::new_ref(""));
    inst.connect("XOROUT", vl::Expr::new_ref(""));
    proof {
        assert(final(inst)@.ports.take(old(inst)@.ports.len() as int) =~= old(inst)@.ports);
    }
}

/// Zeroes the pipeline-register parameters no configuration uses.
fn add_default_reg_params(inst: &mut vl::Instance)
    ensures
        final(inst)@.id == old(inst)@.id,
        final(inst)@.prim == old(inst)@.prim,
        final(inst)@.attr == old(inst)@.attr,
        final(inst)@.ports == old(inst)@.ports,
        final(inst)@.params.len() == old(inst)@.params.len() + 7,
        forall|i: int|
            0 <= i < old(inst)@.params.len() ==> (#[trigger] final(inst)@.params[i]) == old(
                inst,
            )@.params[i],
        default_reg_params_at(final(inst)@.params, old(inst)@.params.len() as int),
{
    inst.add_param("ADREG", vl::Expr::new_int(0));
    inst.add_param("ALUMODEREG", vl::Expr::new_int(0));
    inst.add_param("CARRYINREG", vl::Expr::new_int(0));
    inst.add_param("CARRYINSELREG", vl::Expr::new_int(0));
    inst.add_param("DREG", vl::Expr::new_int(0));
    inst.add_param("INMODEREG", vl::Expr::new_int(0));
    inst.add_param("OPMODEREG", vl::Expr::new_int(0));
    proof {
        assert(final(inst)@.params.take(old(inst)@.params.len() as int) =~= old(inst)@.params);
        assert(final(inst)@.ports =~= old(inst)@.ports);
    }
}


/// Full shape of a lowered vector DSP macro: one `DSP48E2` instance whose
/// control bits encode the lane-wise operation per the fixed table, whose
/// SIMD mode matches the lane count, whose per-operand pipeline registers
/// are wired through their clock enables, and whose every remaining pin is
/// tied to the shared nets or left on the explicit placeholder.
pub open spec fn dsp_vector_stmt_ok(d: prim::DspVector, r: vl::Stmt) -> bool {
    let vcc = prim::lookup(d.inputs.pairs@, "vcc"@)->Some_0;
    let gnd = prim::lookup(d.inputs.pairs@, "gnd"@)->Some_0;
    let clock = prim::lookup(d.inputs.pairs@, "clock"@)->Some_0;
    let reset = prim::lookup(d.inputs.pairs@, "reset"@)->Some_0;
    let a = prim::lookup(d.inputs.pairs@, "a"@)->Some_0;
    let b = prim::lookup(d.inputs.pairs@, "b"@)->Some_0;
    let y = prim::lookup(d.outputs.pairs@, "y"@)->Some_0;
    let en_a = prim::lookup(d.inputs.pairs@, "en_a"@)->Some_0;
    let en_b = prim::lookup(d.inputs.pairs@, "en_b"@)->Some_0;
    let en_y = prim::lookup(d.inputs.pairs@, "en_y"@)->Some_0;
    let has_a = prim::lookup_reg(d.regs.pairs@, "a"@) is Some;
    let has_b = prim::lookup_reg(d.regs.pairs@, "b"@) is Some;
    let has_y = prim::lookup_reg(d.regs.pairs@, "y"@) is Some;
    let nb = prim::lookup_reg(d.regs.pairs@, "b"@)->Some_0;
    &&& r matches vl::Stmt::Inst(inst)
    &&& inst@.id == d.id@
    &&& inst@.prim == "DSP48E2"@
    &&& inst@.params.len() == 46
    &&& p_str(inst@.params[0], "USE_MULT"@, "NONE"@)
    &&& p_str(inst@.params[1], "USE_SIMD"@, simd_name(d.length as int))
    &&& p_int(inst@.params[2], "CREG"@, if has_a { 1 } else { 0 })
    &&& p_int(inst@.params[3], "AREG"@, if has_b { nb as i32 } else { 0 })
    &&& p_int(inst@.params[4], "BREG"@, if has_b { nb as i32 } else { 0 })
    &&& p_int(inst@.params[5], "ACASCREG"@, if has_b { nb as i32 } else { 0 })
    &&& p_int(inst@.params[6], "BCASCREG"@, if has_b { nb as i32 } else { 0 })
    &&& p_int(inst@.params[7], "PREG"@, if has_y { 1 } else { 0 })
    &&& common_params_at(inst@.params, 8)
    &&& default_reg_params_at(inst@.params, 38)
    &&& p_int(inst@.params[45], "MREG"@, 0)
    &&& inst@.ports.len() == 50
    &&& c_to(inst@.ports[0], "CLK"@, wire_expr(clock))
    &&& reset_ports_at(inst@.ports, 1, reset)
    &&& inst@.ports[11].0 == "A"@
    &&& inst@.ports[11].1 matches vl::Expr::Slice(n, h, l) && n@ == wire_name(b) && h == 47 && l
        == 18
    &&& inst@.ports[12].0 == "B"@
    &&& inst@.ports[12].1 matches vl::Expr::Slice(n, h, l) && n@ == wire_name(b) && h == 17 && l
        == 0
    &&& c_to(inst@.ports[13], "C"@, wire_expr(a))
    &&& c_to(inst@.ports[14], "P"@, wire_expr(y))
    &&& c_lit(inst@.ports[15], "ALUMODE"@, vcc, gnd, 4, alumode_of(d.op))
    &&& c_lit(inst@.ports[16], "INMODE"@, vcc, gnd, 5, inmode_of(d.op))
    &&& c_lit(inst@.ports[17], "OPMODE"@, vcc, gnd, 9, opmode_of(d.op))
    &&& if has_a {
        c_to(inst@.ports[18], "CEC"@, wire_expr(en_a))
    } else {
        c_lit(inst@.ports[18], "CEC"@, vcc, gnd, 1, 0)
    }
    &&& if has_b {
        &&& c_to(inst@.ports[19], "CEA1"@, wire_expr(en_b))
        &&& c_to(inst@.ports[20], "CEB1"@, wire_expr(en_b))
        &&& c_to(inst@.ports[21], "CEA2"@, wire_expr(en_b))
        &&& c_to(inst@.ports[22], "CEB2"@, wire_expr(en_b))
    } else {
        &&& c_lit(inst@.ports[19], "CEA1"@, vcc, gnd, 1, 0)
        &&& c_lit(inst@.ports[20], "CEB1"@, vcc, gnd, 1, 0)
        &&& c_lit(inst@.ports[21], "CEA2"@, vcc, gnd, 1, 0)
        &&& c_lit(inst@.ports[22], "CEB2"@, vcc, gnd, 1, 0)
    }
    &&& if has_y {
        c_to(inst@.ports[23], "CEP"@, wire_expr(en_y))
    } else {
        c_lit(inst@.ports[23], "CEP"@, vcc, gnd, 1, 0)
    }
    &&& ce_default_ports_at(inst@.ports, 24, vcc, gnd)
    &&& c_lit(inst@.ports[30], "CEM"@, vcc, gnd, 1, 0)
    &&& default_input_ports_at(inst@.ports, 31, vcc, gnd)
    &&& unused_output_ports_at(inst@.ports, 39)
}

/// The wire name a wiring expression refers to, as a string.
fn wire_name_of(e: &prim::Expr) -> (r: String)
    ensures
        r@ == wire_name(*e),
{
    match e {
        prim::Expr::Ref(n) => n.clone(),
        prim::Expr::Index(n, _) => n.clone(),
    }
}

impl prim::DspVector {
    /// Lowers a vector DSP macro. The lane-wise operation selects the fixed
    /// `(ALUMODE, INMODE, OPMODE)` triple; the lane count selects the SIMD
    /// mode; per-operand pipeline registers are legal only in fixed counts;
    /// every unused pin is still tied.
    #[verifier::rlimit(80)]
    pub fn to_stmt(&self) -> (r: vl::Stmt)
        requires
            1 <= self.length <= 4,
            prim::lookup(self.inputs.pairs@, "vcc"@) matches Some(e) && small_idx(e),
            prim::lookup(self.inputs.pairs@, "gnd"@) matches Some(e) && small_idx(e),
            prim::lookup(self.inputs.pairs@, "clock"@) matches Some(e) && small_idx(e),
            prim::lookup(self.inputs.pairs@, "reset"@) matches Some(e) && small_idx(e),
            prim::lookup(self.inputs.pairs@, "a"@) matches Some(e) && small_idx(e),
            prim::lookup(self.inputs.pairs@, "b"@) is Some,
            prim::lookup(self.outputs.pairs@, "y"@) matches Some(e) && small_idx(e),
            prim::lookup_reg(self.regs.pairs@, "a"@) matches Some(n) ==> n == 1,
            prim::lookup_reg(self.regs.pairs@, "b"@) matches Some(n) ==> n < 3,
            prim::lookup_reg(self.regs.pairs@, "y"@) matches Some(n) ==> n == 1,
            prim::lookup_reg(self.regs.pairs@, "a"@) is Some ==> (prim::lookup(
                self.inputs.pairs@,
                "en_a"@,
            ) matches Some(e) && small_idx(e)),
            prim::lookup_reg(self.regs.pairs@, "b"@) is Some ==> (prim::lookup(
                self.inputs.pairs@,
                "en_b"@,
            ) matches Some(e) && small_idx(e)),
            prim::lookup_reg(self.regs.pairs@, "y"@) is Some ==> (prim::lookup(
                self.inputs.pairs@,
                "en_y"@,
            ) matches Some(e) && small_idx(e)),
        ensures
            dsp_vector_stmt_ok(*self, r),
    {
        let vcc = match self.input("vcc") {
            Some(e) => e,
            None => prim::Expr::default(),
        };
        let gnd = match self.input("gnd") {
            Some(e) => e,
            None => prim::Expr::default(),
        };
        let clock = match self.input("clock") {
            Some(e) => e,
            None => prim::Expr::default(),
        };
        let reset = match self.input("reset") {
            Some(e) => e,
            None => prim::Expr::default(),
        };
        let a = match self.input("a") {
            Some(e) => e,
            None => prim::Expr::default(),
        };
        let b = match self.input("b") {
            Some(e) => e,
            None => prim::Expr::default(),
        };
        let y = match self.output("y") {
            Some(e) => e,
            None => prim::Expr::default(),
        };
        let mut inst = vl::Instance::new(self.id.as_str(), "DSP48E2");
        // clock
        inst.connect("CLK", expr_from_wire(&clock));
        // resets
        add_reset_ports(&mut inst, &reset);
        // operands: the wide bus splits into the two native operand slices
        let b_name = wire_name_of(&b);
        inst.connect("A", vl::Expr::new_slice(b_name.as_str(), 47, 18));
        inst.connect("B", vl::Expr::new_slice(b_name.as_str(), 17, 0));
        inst.connect("C", expr_from_wire(&a));
        inst.connect("P", expr_from_wire(&y));
        // control bits from the fixed per-operation table
        inst.add_param("USE_MULT", vl::Expr::new_str("NONE"));
        let alumode: i64 = match self.op {
            prim::DspVectorOp::Add => 0,
            prim::DspVectorOp::Sub => 3,
            prim::DspVectorOp::And => 12,
            prim::DspVectorOp::Or => 12,
            prim::DspVectorOp::Xor => 4,
            prim::DspVectorOp::Nand => 14,
            prim::DspVectorOp::Nor => 14,
            prim::DspVectorOp::Xnor => 5,
        };
        let opmode: i64 = match self.op {
            prim::DspVectorOp::Or => 59,
            prim::DspVectorOp::Nor => 59,
            _ => 51,
        };
        inst.connect("ALUMODE", convert_literal(&vcc, &gnd, 4, alumode));
        inst.connect("INMODE", convert_literal(&vcc, &gnd, 5, 0));
        inst.connect("OPMODE", convert_literal(&vcc, &gnd, 9, opmode));
        // SIMD mode from the lane count
        let simd = match self.length {
            1 => "ONE48",
            2 => "TWO24",
            3 => "FOUR12",
            _ => "FOUR12",
        };
        inst.add_param("USE_SIMD", vl::Expr::new_str(simd));
        // accumulator register: present only at depth one
        if self.has_reg("a") {
            let en_a = match self.input("en_a") {
                Some(e) => e,
                None => prim::Expr::default(),
            };
            inst.add_param("CREG", vl::Expr::new_int(1));
            inst.connect("CEC", expr_from_wire(&en_a));
        } else {
            inst.add_param("CREG", vl::Expr::new_int(0));
            inst.connect("CEC", convert_literal(&vcc, &gnd, 1, 0));
        }
        // cascaded operand registers: depth zero to two
        if self.has_reg("b") {
            let nb = self.reg("b");
            let en_b = match self.input("en_b") {
                Some(e) => e,
                None => prim::Expr::default(),
            };
            let nbi = nb as i32;
            inst.add_param("AREG", vl::Expr::new_int(nbi));
            inst.add_param("BREG", vl::Expr::new_int(nbi));
            inst.add_param("ACASCREG", vl::Expr::new_int(nbi));
            inst.add_param("BCASCREG", vl::Expr::new_int(nbi));
            inst.connect("CEA1", expr_from_wire(&en_b));
            inst.connect("CEB1", expr_from_wire(&en_b));
            inst.connect("CEA2", expr_from_wire(&en_b));
            inst.connect("CEB2", expr_from_wire(&en_b));
        } else {
            inst.add_param("AREG", vl::Expr::new_int(0));
            inst.add_param("BREG", vl::Expr::new_int(0));
            inst.add_param("ACASCREG", vl::Expr::new_int(0));
            inst.add_param("BCASCREG", vl::Expr::new_int(0));
            inst.connect("CEA1", convert_literal(&vcc, &gnd, 1, 0));
            inst.connect("CEB1", convert_literal(&vcc, &gnd, 1, 0));
            inst.connect("CEA2", convert_literal(&vcc, &gnd, 1, 0));
            inst.connect("CEB2", convert_literal(&vcc, &gnd, 1, 0));
        }
        // result register: present only at depth one
        if self.has_reg("y") {
            let en_y = match self.input("en_y") {
                Some(e) => e,
                None => prim::Expr::default(),
            };
            inst.add_param("PREG", vl::Expr::new_int(1));
            inst.connect("CEP", expr_from_wire(&en_y));
        } else {
            inst.add_param("PREG", vl::Expr::new_int(0));
            inst.connect("CEP", convert_literal(&vcc, &gnd, 1, 0));
        }
        // shared defaults
        add_common_params(&mut inst);
        add_ce_default_ports(&mut inst, &vcc, &gnd);
        inst.connect("CEM", convert_literal(&vcc, &gnd, 1, 0));
        add_default_reg_params(&mut inst);
        inst.add_param("MREG", vl::Expr::new_int(0));
        add_default_input_ports(&mut inst, &vcc, &gnd);
        add_unused_output_ports(&mut inst);
        vl::Stmt::new_inst(inst)
    }
}

/// Full shape of a lowered fused DSP macro: one `DSP48E2` instance with the
/// multiplier in use, the opmode selecting plain multiply or
/// multiply-accumulate, the `C` operand driven by the addend or tied low,
/// and the declared pipeline registers wired through their clock enables.
pub open spec fn dsp_fused_stmt_ok(d: prim::DspFused, r: vl::Stmt) -> bool {
    let vcc = prim::lookup(d.inputs.pairs@, "vcc"@)->Some_0;
    let gnd = prim::lookup(d.inputs.pairs@, "gnd"@)->Some_0;
    let clock = prim::lookup(d.inputs.pairs@, "clock"@)->Some_0;
    let reset = prim::lookup(d.inputs.pairs@, "reset"@)->Some_0;
    let a = prim::lookup(d.inputs.pairs@, "a"@)->Some_0;
    let b = prim::lookup(d.inputs.pairs@, "b"@)->Some_0;
    let c = prim::lookup(d.inputs.pairs@, "c"@)->Some_0;
    let y = prim::lookup(d.outputs.pairs@, "y"@)->Some_0;
    let en_a = prim::lookup(d.inputs.pairs@, "en_a"@)->Some_0;
    let en_b = prim::lookup(d.inputs.pairs@, "en_b"@)->Some_0;
    let en_c = prim::lookup(d.inputs.pairs@, "en_c"@)->Some_0;
    let en_mul = prim::lookup(d.inputs.pairs@, "en_mul"@)->Some_0;
    let en_y = prim::lookup(d.inputs.pairs@, "en_y"@)->Some_0;
    let has_a = prim::lookup_reg(d.regs.pairs@, "a"@) is Some;
    let has_b = prim::lookup_reg(d.regs.pairs@, "b"@) is Some;
    let has_c = prim::lookup_reg(d.regs.pairs@, "c"@) is Some;
    let has_mul = prim::lookup_reg(d.regs.pairs@, "mul"@) is Some;
    let has_y = prim::lookup_reg(d.regs.pairs@, "y"@) is Some;
    let na = prim::lookup_reg(d.regs.pairs@, "a"@)->Some_0;
    let nb = prim::lookup_reg(d.regs.pairs@, "b"@)->Some_0;
    let nc = prim::lookup_reg(d.regs.pairs@, "c"@)->Some_0;
    &&& r matches vl::Stmt::Inst(inst)
    &&& inst@.id == d.id@
    &&& inst@.prim == "DSP48E2"@
    &&& inst@.params.len() == 46
    &&& p_str(inst@.params[0], "USE_MULT"@, "MULTIPLY"@)
    &&& p_int(inst@.params[1], "AREG"@, if has_a { na as i32 } else { 0 })
    &&& p_int(inst@.params[2], "ACASCREG"@, if has_a { na as i32 } else { 0 })
    &&& p_int(inst@.params[3], "BREG"@, if has_b { nb as i32 } else { 0 })
    &&& p_int(inst@.params[4], "BCASCREG"@, if has_b { nb as i32 } else { 0 })
    &&& p_int(inst@.params[5], "CREG"@, if has_c { nc as i32 } else { 0 })
    &&& p_int(inst@.params[6], "MREG"@, if has_mul { 1 } else { 0 })
    &&& p_int(inst@.params[7], "PREG"@, if has_y { 1 } else { 0 })
    &&& p_str(inst@.params[8], "USE_SIMD"@, "ONE48"@)
    &&& common_params_at(inst@.params, 9)
    &&& default_reg_params_at(inst@.params, 39)
    &&& inst@.ports.len() == 50
    &&& c_to(inst@.ports[0], "CLK"@, wire_expr(clock))
    &&& reset_ports_at(inst@.ports, 1, reset)
    &&& c_to(inst@.ports[11], "A"@, wire_expr(a))
    &&& c_to(inst@.ports[12], "B"@, wire_expr(b))
    &&& c_to(inst@.ports[13], "P"@, wire_expr(y))
    &&& c_lit(inst@.ports[14], "ALUMODE"@, vcc, gnd, 4, 0)
    &&& c_lit(inst@.ports[15], "INMODE"@, vcc, gnd, 5, 0)
    &&& c_lit(inst@.ports[16], "OPMODE"@, vcc, gnd, 9, fused_opmode_of(d.op))
    &&& inst@.ports[17].0 == "C"@
    &&& (d.op is Mul ==> is_literal(vcc, gnd, 48, 0, inst@.ports[17].1))
    &&& (d.op is MulAdd ==> inst@.ports[17].1 == wire_expr(c))
    &&& if has_a {
        &&& c_to(inst@.ports[18], "CEA1"@, wire_expr(en_a))
        &&& c_to(inst@.ports[19], "CEA2"@, wire_expr(en_a))
    } else {
        &&& c_lit(inst@.ports[18], "CEA1"@, vcc, gnd, 1, 0)
        &&& c_lit(inst@.ports[19], "CEA2"@, vcc, gnd, 1, 0)
    }
    &&& if has_b {
        &&& c_to(inst@.ports[20], "CEB1"@, wire_expr(en_b))
        &&& c_to(inst@.ports[21], "CEB2"@, wire_expr(en_b))
    } else {
        &&& c_lit(inst@.ports[20], "CEB1"@, vcc, gnd, 1, 0)
        &&& c_lit(inst@.ports[21], "CEB2"@, vcc, gnd, 1, 0)
    }
    &&& if has_c {
        c_to(inst@.ports[22], "CEC"@, wire_expr(en_c))
    } else {
        c_lit(inst@.ports[22], "CEC"@, vcc, gnd, 1, 0)
    }
    &&& if has_mul {
        c_to(inst@.ports[23], "CEM"@, wire_expr(en_mul))
    } else {
        c_lit(inst@.ports[23], "CEM"@, vcc, gnd, 1, 0)
    }
    &&& if has_y {
        c_to(inst@.ports[24], "CEP"@, wire_expr(en_y))
    } else {
        c_lit(inst@.ports[24], "CEP"@, vcc, gnd, 1, 0)
    }
    &&& ce_default_ports_at(inst@.ports, 25, vcc, gnd)
    &&& default_input_ports_at(inst@.ports, 31, vcc, gnd)
    &&& unused_output_ports_at(inst@.ports, 39)
}

impl prim::DspFused {
    /// Lowers a fused DSP macro: a multiply, alone or folded with an add on
    /// the `C` operand, with at most one multiplier pipeline register.
    #[verifier::rlimit(100)]
    #[verifier::spinoff_prover]
    pub fn to_stmt(&self) -> (r: vl::Stmt)
        requires
            prim::lookup(self.inputs.pairs@, "vcc"@) matches Some(e) && small_idx(e),
            prim::lookup(self.inputs.pairs@, "gnd"@) matches Some(e) && small_idx(e),
            prim::lookup(self.inputs.pairs@, "clock"@) matches Some(e) && small_idx(e),
            prim::lookup(self.inputs.pairs@, "reset"@) matches Some(e) && small_idx(e),
            prim::lookup(self.inputs.pairs@, "a"@) matches Some(e) && small_idx(e),
            prim::lookup(self.inputs.pairs@, "b"@) matches Some(e) && small_idx(e),
            prim::lookup(self.outputs.pairs@, "y"@) matches Some(e) && small_idx(e),
            self.op is MulAdd ==> (prim::lookup(self.inputs.pairs@, "c"@) matches Some(e)
                && small_idx(e)),
            prim::lookup_reg(self.regs.pairs@, "a"@) matches Some(n) ==> n <= 2,
            prim::lookup_reg(self.regs.pairs@, "b"@) matches Some(n) ==> n <= 2,
            prim::lookup_reg(self.regs.pairs@, "c"@) matches Some(n) ==> n <= 1,
            prim::lookup_reg(self.regs.pairs@, "mul"@) matches Some(n) ==> n == 1,
            prim::lookup_reg(self.regs.pairs@, "a"@) is Some ==> (prim::lookup(
                self.inputs.pairs@,
                "en_a"@,
            ) matches Some(e) && small_idx(e)),
            prim::lookup_reg(self.regs.pairs@, "b"@) is Some ==> (prim::lookup(
                self.inputs.pairs@,
                "en_b"@,
            ) matches Some(e) && small_idx(e)),
            prim::lookup_reg(self.regs.pairs@, "c"@) is Some ==> (prim::lookup(
                self.inputs.pairs@,
                "en_c"@,
            ) matches Some(e) && small_idx(e)),
            prim::lookup_reg(self.regs.pairs@, "mul"@) is Some ==> (prim::lookup(
                self.inputs.pairs@,
                "en_mul"@,
            ) matches Some(e) && small_idx(e)),
            prim::lookup_reg(self.regs.pairs@, "y"@) is Some ==> (prim::lookup(
                self.inputs.pairs@,
                "en_y"@,
            ) matches Some(e) && small_idx(e)),
        ensures
            dsp_fused_stmt_ok(*self, r),
    {
        let vcc = match self.input("vcc") {
            Some(e) => e,
            None => prim::Expr::default(),
        };
        let gnd = match self.input("gnd") {
            Some(e) => e,
            None => prim::Expr::default(),
        };
        let clock = match self.input("clock") {
            Some(e) => e,
            None => prim::Expr::default(),
        };
        let reset = match self.input("reset") {
            Some(e) => e,
            None => prim::Expr::default(),
        };
        let a = match self.input("a") {
            Some(e) => e,
            None => prim::Expr::default(),
        };
        let b = match self.input("b") {
            Some(e) => e,
            None => prim::Expr::default(),
        };
        let y = match self.output("y") {
            Some(e) => e,
            None => prim::Expr::default(),
        };
        let mut inst = vl::Instance::new(self.id.as_str(), "DSP48E2");
        // clock
        inst.connect("CLK", expr_from_wire(&clock));
        // resets
        add_reset_ports(&mut inst, &reset);
        // operands
        inst.connect("A", expr_from_wire(&a));
        inst.connect("B", expr_from_wire(&b));
        inst.connect("P", expr_from_wire(&y));
        // control bits: plain multiply or multiply-accumulate
        inst.add_param("USE_MULT", vl::Expr::new_str("MULTIPLY"));
        inst.connect("ALUMODE", convert_literal(&vcc, &gnd, 4, 0));
        inst.connect("INMODE", convert_literal(&vcc, &gnd, 5, 0));
        match self.op {
            prim::DspFusedOp::Mul => {
                inst.connect("OPMODE", convert_literal(&vcc, &gnd, 9, 5));
                inst.connect("C", convert_literal(&vcc, &gnd, 48, 0));
            },
            prim::DspFusedOp::MulAdd => {
                let c = match self.input("c") {
                    Some(e) => e,
                    None => prim::Expr::default(),
                };
                inst.connect("OPMODE", convert_literal(&vcc, &gnd, 9, 53));
                inst.connect("C", expr_from_wire(&c));
            },
        }
        // cascaded operand registers on `a`
        if self.has_reg("a") {
            let na = self.reg("a");
            let en_a = match self.input("en_a") {
                Some(e) => e,
                None => prim::Expr::default(),
            };
            let nai = na as i32;
            inst.add_param("AREG", vl::Expr::new_int(nai));
            inst.add_param("ACASCREG", vl::Expr::new_int(nai));
            inst.connect("CEA1", expr_from_wire(&en_a));
            inst.connect("CEA2", expr_from_wire(&en_a));
        } else {
            inst.add_param("AREG", vl::Expr::new_int(0));
            inst.add_param("ACASCREG", vl::Expr::new_int(0));
            inst.connect("CEA1", convert_literal(&vcc, &gnd, 1, 0));
            inst.connect("CEA2", convert_literal(&vcc, &gnd, 1, 0));
        }
        // cascaded operand registers on `b`
        if self.has_reg("b") {
            let nb = self.reg("b");
            let en_b = match self.input("en_b") {
                Some(e) => e,
                None => prim::Expr::default(),
            };
            let nbi = nb as i32;
            inst.add_param("BREG", vl::Expr::new_int(nbi));
            inst.add_param("BCASCREG", vl::Expr::new_int(nbi));
            inst.connect("CEB1", expr_from_wire(&en_b));
            inst.connect("CEB2", expr_from_wire(&en_b));
        } else {
            inst.add_param("BREG", vl::Expr::new_int(0));
            inst.add_param("BCASCREG", vl::Expr::new_int(0));
            inst.connect("CEB1", convert_literal(&vcc, &gnd, 1, 0));
            inst.connect("CEB2", convert_literal(&vcc, &gnd, 1, 0));
        }
        // addend register
        if self.has_reg("c") {
            let nc = self.reg("c");
            let en_c = match self.input("en_c") {
                Some(e) => e,
                None => prim::Expr::default(),
            };
            inst.add_param("CREG", vl::Expr::new_int(nc as i32));
            inst.connect("CEC", expr_from_wire(&en_c));
        } else {
            inst.add_param("CREG", vl::Expr::new_int(0));
            inst.connect("CEC", convert_literal(&vcc, &gnd, 1, 0));
        }
        // multiplier register: present only at depth one
        if self.has_reg("mul") {
            let en_mul = match self.input("en_mul") {
                Some(e) => e,
                None => prim::Expr::default(),
            };
            inst.add_param("MREG", vl::Expr::new_int(1));
            inst.connect("CEM", expr_from_wire(&en_mul));
        } else {
            inst.add_param("MREG", vl::Expr::new_int(0));
            inst.connect("CEM", convert_literal(&vcc, &gnd, 1, 0));
        }
        // result register
        if self.has_reg("y") {
            let en_y = match self.input("en_y") {
                Some(e) => e,
                None => prim::Expr::default(),
            };
            inst.add_param("PREG", vl::Expr::new_int(1));
            inst.connect("CEP", expr_from_wire(&en_y));
        } else {
            inst.add_param("PREG", vl::Expr::new_int(0));
            inst.connect("CEP", convert_literal(&vcc, &gnd, 1, 0));
        }
        // shared defaults
        inst.add_param("USE_SIMD", vl::Expr::new_str("ONE48"));
        add_common_params(&mut inst);
        add_default_reg_params(&mut inst);
        add_ce_default_ports(&mut inst, &vcc, &gnd);
        add_default_input_ports(&mut inst, &vcc, &gnd);
        add_unused_output_ports(&mut inst);
        vl::Stmt::new_inst(inst)
    }
}

/// The control-bit triple of every lane-wise operation comes from the fixed
/// table: any lowered vector DSP macro drives `ALUMODE`, `INMODE`, and
/// `OPMODE` with the expansions of exactly the table's values for its
/// operation.
pub proof fn lemma_dsp_ctrl_triple(d: prim::DspVector, r: vl::Stmt)
    requires
        dsp_vector_stmt_ok(d, r),
    ensures
        ({
            let vcc = prim::lookup(d.inputs.pairs@, "vcc"@)->Some_0;
            let gnd = prim::lookup(d.inputs.pairs@, "gnd"@)->Some_0;
            let inst = r->Inst_0;
            &&& c_lit(inst@.ports[15], "ALUMODE"@, vcc, gnd, 4, alumode_of(d.op))
            &&& c_lit(inst@.ports[16], "INMODE"@, vcc, gnd, 5, inmode_of(d.op))
            &&& c_lit(inst@.ports[17], "OPMODE"@, vcc, gnd, 9, opmode_of(d.op))
        }),
{
}

} // verus!


