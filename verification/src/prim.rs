//! Physical primitives of the target fabric: lookup tables, flip-flops,
//! DSP slices, constant drivers, and the wiring expressions that connect
//! them. These are the inputs of the lowering step.

use vstd::prelude::*;

verus! {

/// A wiring expression: a whole wire by name, or one bit of it.
#[derive(Clone, Debug)]
pub enum Expr {
    Ref(String),
    Index(String, u32),
}

impl Expr {
    pub fn new_ref(name: &str) -> (r: Expr)
        ensures
            r matches Expr::Ref(n) && n@ == name@,
    {
        Expr::Ref(name.to_owned())
    }

    pub fn new_index(name: &str, index: u32) -> (r: Expr)
        ensures
            r matches Expr::Index(n, i) && n@ == name@ && i == index,
    {
        Expr::Index(name.to_owned(), index)
    }

    /// A copy of the expression, equal to the original.
    pub fn dup(&self) -> (r: Expr)
        ensures
            r == *self,
    {
        match self {
            Expr::Ref(n) => Expr::Ref(n.clone()),
            Expr::Index(n, i) => Expr::Index(n.clone(), *i),
        }
    }
}

impl Default for Expr {
    /// The empty reference: the explicit placeholder for an unused port.
    fn default() -> (r: Expr)
        ensures
            r matches Expr::Ref(n) && n@ == Seq::<char>::empty(),
    {
        Expr::Ref(String::new())
    }
}

/// First lookup, from the end, of a name in an association list; a later
/// `set` of the same name therefore wins.
pub open spec fn lookup(pairs: Seq<(String, Expr)>, name: Seq<char>) -> Option<Expr>
    decreases pairs.len(),
{
    if pairs.len() == 0 {
        None
    } else if pairs.last().0@ == name {
        Some(pairs.last().1)
    } else {
        lookup(pairs.drop_last(), name)
    }
}

/// Named port connections of a primitive, as an association list.
#[derive(Clone, Debug, Default)]
pub struct PortMap {
    pub pairs: Vec<(String, Expr)>,
}

impl PortMap {
    pub fn new() -> (r: PortMap)
        ensures
            r.pairs@.len() == 0,
    {
        PortMap { pairs: Vec::new() }
    }

    /// Binds `name` to `e`; an earlier binding of the same name is shadowed.
    pub fn set(&mut self, name: &str, e: Expr)
        ensures
            final(self).pairs@.len() == old(self).pairs@.len() + 1,
            forall|s: Seq<char>| #[trigger]
                lookup(final(self).pairs@, s) == if s == name@ {
                    Some(e)
                } else {
                    lookup(old(self).pairs@, s)
                },
    {
        let key = name.to_owned();
        self.pairs.push((key, e));
        proof {
            assert forall|s: Seq<char>| #[trigger]
                lookup(final(self).pairs@, s) == if s == name@ {
                    Some(e)
                } else {
                    lookup(old(self).pairs@, s)
                } by {
                assert(final(self).pairs@.drop_last() =~= old(self).pairs@);
            }
        }
    }

    /// The binding of `name`, if any.
    pub fn get(&self, name: &str) -> (r: Option<Expr>)
        ensures
            r == lookup(self.pairs@, name@),
    {
        let key = name.to_owned();
        let mut k: usize = self.pairs.len();
        proof {
            assert(self.pairs@.take(self.pairs@.len() as int) =~= self.pairs@);
        }
        while k > 0
            invariant
                k <= self.pairs@.len(),
                key@ == name@,
                lookup(self.pairs@, name@) == lookup(self.pairs@.take(k as int), name@),
            decreases k,
        {
            let hit = self.pairs[k - 1].0.eq(&key);
            proof {
                assert(self.pairs@.take(k as int).last() == self.pairs@[k - 1]);
                assert(self.pairs@.take(k as int).drop_last() =~= self.pairs@.take(
                    k as int - 1,
                ));
            }
            if hit {
                return Some(self.pairs[k - 1].1.dup());
            }
            k = k - 1;
        }
        proof {
            assert(self.pairs@.take(0) =~= Seq::<(String, Expr)>::empty());
        }
        None
    }
}

/// Fabric column and row of a slice.
#[derive(Clone, Debug)]
pub struct Slice {
    pub x: u32,
    pub y: u32,
}

/// Letter of a basic element inside a slice.
#[derive(Clone, Copy, Debug, PartialEq, Eq, Structural)]
pub enum Letter {
    A,
    B,
    C,
    D,
    E,
    F,
    G,
    H,
}

/// Kind of a basic element.
#[derive(Clone, Copy, Debug, PartialEq, Eq, Structural)]
pub enum BelTy {
    A6LUT,
    FF,
}

/// A basic element: its letter and kind.
#[derive(Clone, Debug)]
pub struct Bel {
    pub letter: Letter,
    pub ty: BelTy,
}

/// A fixed location: a slice and a basic element in it.
#[derive(Clone, Debug)]
pub struct Loc {
    pub slice: Slice,
    pub bel: Bel,
}

/// Declared size of a lookup table.
#[derive(Clone, Copy, Debug, PartialEq, Eq, Structural)]
pub enum LutTy {
    Lut1,
    Lut2,
    Lut3,
    Lut4,
    Lut5,
    Lut6,
}

/// Number of inputs of a lookup table of the given size.
pub open spec fn lut_arity(ty: LutTy) -> int {
    match ty {
        LutTy::Lut1 => 1,
        LutTy::Lut2 => 2,
        LutTy::Lut3 => 3,
        LutTy::Lut4 => 4,
        LutTy::Lut5 => 5,
        LutTy::Lut6 => 6,
    }
}

/// Macro name of a lookup table of the given size.
pub open spec fn lut_ty_name(ty: LutTy) -> Seq<char> {
    match ty {
        LutTy::Lut1 => "LUT1"@,
        LutTy::Lut2 => "LUT2"@,
        LutTy::Lut3 => "LUT3"@,
        LutTy::Lut4 => "LUT4"@,
        LutTy::Lut5 => "LUT5"@,
        LutTy::Lut6 => "LUT6"@,
    }
}

/// A lookup-table instance: its size, truth table, and wiring.
#[derive(Clone, Debug)]
pub struct Lut {
    pub ty: LutTy,
    pub id: String,
    pub init: String,
    pub inputs: Vec<Expr>,
    pub output: Expr,
    pub loc: Option<Loc>,
}

impl Lut {
    fn new_with_ty(ty: LutTy) -> (r: Lut)
        ensures
            r.ty == ty,
            r.id@ == Seq::<char>::empty(),
            r.init@ == "0"@,
            r.inputs@.len() == 0,
            r.output matches Expr::Ref(n) && n@ == Seq::<char>::empty(),
            r.loc is None,
    {
        Lut {
            ty,
            id: String::new(),
            init: "0".to_owned(),
            inputs: Vec::new(),
            output: Expr::default(),
            loc: None,
        }
    }

    pub fn new_lut2() -> (r: Lut)
        ensures
            r.ty == LutTy::Lut2,
            r.id@ == Seq::<char>::empty(),
            r.init@ == "0"@,
            r.inputs@.len() == 0,
            r.loc is None,
    {
        Lut::new_with_ty(LutTy::Lut2)
    }

    pub fn new_lut3() -> (r: Lut)
        ensures
            r.ty == LutTy::Lut3,
            r.id@ == Seq::<char>::empty(),
            r.init@ == "0"@,
            r.inputs@.len() == 0,
            r.loc is None,
    {
        Lut::new_with_ty(LutTy::Lut3)
    }

    pub fn new_lut4() -> (r: Lut)
        ensures
            r.ty == LutTy::Lut4,
            r.id@ == Seq::<char>::empty(),
            r.init@ == "0"@,
            r.inputs@.len() == 0,
            r.loc is None,
    {
        Lut::new_with_ty(LutTy::Lut4)
    }

    pub fn new_lut5() -> (r: Lut)
        ensures
            r.ty == LutTy::Lut5,
            r.id@ == Seq::<char>::empty(),
            r.init@ == "0"@,
            r.inputs@.len() == 0,
            r.loc is None,
    {
        Lut::new_with_ty(LutTy::Lut5)
    }

    pub fn new_lut6() -> (r: Lut)
        ensures
            r.ty == LutTy::Lut6,
            r.id@ == Seq::<char>::empty(),
            r.init@ == "0"@,
            r.inputs@.len() == 0,
            r.loc is None,
    {
        Lut::new_with_ty(LutTy::Lut6)
    }

    pub fn id(&self) -> (r: String)
        ensures
            r@ == self.id@,
    {
        self.id.clone()
    }

    pub fn ty(&self) -> (r: &LutTy)
        ensures
            r == self.ty,
    {
        &self.ty
    }

    pub fn init(&self) -> (r: String)
        ensures
            r@ == self.init@,
    {
        self.init.clone()
    }

    pub fn inputs(&self) -> (r: &Vec<Expr>)
        ensures
            r == self.inputs,
    {
        &self.inputs
    }

    pub fn output(&self) -> (r: &Expr)
        ensures
            r == self.output,
    {
        &self.output
    }

    pub fn set_id(&mut self, id: &str)
        ensures
            *final(self) == (Lut { id: final(self).id, ..*old(self) }),
            final(self).id@ == id@,
    {
        self.id = id.to_owned();
    }

    pub fn set_init(&mut self, value: &str)
        ensures
            *final(self) == (Lut { init: final(self).init, ..*old(self) }),
            final(self).init@ == value@,
    {
        self.init = value.to_owned();
    }

    pub fn add_input(&mut self, name: &str)
        ensures
            *final(self) == (Lut { inputs: final(self).inputs, ..*old(self) }),
            final(self).inputs@.len() == old(self).inputs@.len() + 1,
            final(self).inputs@.take(old(self).inputs@.len() as int) == old(self).inputs@,
            final(self).inputs@.last() matches Expr::Ref(n) && n@ == name@,
    {
        self.inputs.push(Expr::new_ref(name));
        proof {
            assert(final(self).inputs@.take(old(self).inputs@.len() as int) =~= old(
                self,
            ).inputs@);
        }
    }

    pub fn add_input_with_index(&mut self, name: &str, index: u32)
        ensures
            *final(self) == (Lut { inputs: final(self).inputs, ..*old(self) }),
            final(self).inputs@.len() == old(self).inputs@.len() + 1,
            final(self).inputs@.take(old(self).inputs@.len() as int) == old(self).inputs@,
            final(self).inputs@.last() matches Expr::Index(n, i) && n@ == name@ && i == index,
    {
        self.inputs.push(Expr::new_index(name, index));
        proof {
            assert(final(self).inputs@.take(old(self).inputs@.len() as int) =~= old(
                self,
            ).inputs@);
        }
    }

    pub fn set_output(&mut self, name: &str)
        ensures
            *final(self) == (Lut { output: final(self).output, ..*old(self) }),
            final(self).output matches Expr::Ref(n) && n@ == name@,
    {
        self.output = Expr::new_ref(name);
    }

    pub fn set_output_with_index(&mut self, name: &str, index: u32)
        ensures
            *final(self) == (Lut { output: final(self).output, ..*old(self) }),
            final(self).output matches Expr::Index(n, i) && n@ == name@ && i == index,
    {
        self.output = Expr::new_index(name, index);
    }

    pub fn set_loc(&mut self, loc: Loc)
        ensures
            *final(self) == (Lut { loc: Some(loc), ..*old(self) }),
    {
        self.loc = Some(loc);
    }
}

/// Kind of a single-bit flip-flop: clear-on-reset or set-on-reset.
#[derive(Clone, Copy, Debug, PartialEq, Eq, Structural)]
pub enum RegTy {
    Fdre,
    Fdse,
}

/// Macro name of a flip-flop of the given kind.
pub open spec fn reg_ty_name(ty: RegTy) -> Seq<char> {
    match ty {
        RegTy::Fdre => "FDRE"@,
        RegTy::Fdse => "FDSE"@,
    }
}

/// A single-bit flip-flop instance and its wiring.
#[derive(Clone, Debug)]
pub struct Reg {
    pub ty: RegTy,
    pub id: String,
    pub clock: Expr,
    pub reset: Expr,
    pub en: Expr,
    pub input: Expr,
    pub output: Expr,
    pub loc: Option<Loc>,
}

impl Reg {
    fn new_with_ty(ty: RegTy) -> (r: Reg)
        ensures
            r.ty == ty,
            r.id@ == Seq::<char>::empty(),
            r.loc is None,
    {
        Reg {
            ty,
            id: String::new(),
            clock: Expr::default(),
            reset: Expr::default(),
            en: Expr::default(),
            input: Expr::default(),
            output: Expr::default(),
            loc: None,
        }
    }

    /// A clear-on-reset flip-flop.
    pub fn new_fdre() -> (r: Reg)
        ensures
            r.ty == RegTy::Fdre,
            r.id@ == Seq::<char>::empty(),
            r.loc is None,
    {
        Reg::new_with_ty(RegTy::Fdre)
    }

    /// A set-on-reset flip-flop.
    pub fn new_fdse() -> (r: Reg)
        ensures
            r.ty == RegTy::Fdse,
            r.id@ == Seq::<char>::empty(),
            r.loc is None,
    {
        Reg::new_with_ty(RegTy::Fdse)
    }

    pub fn is_fdre(&self) -> (r: bool)
        ensures
            r == (self.ty is Fdre),
    {
        match self.ty {
            RegTy::Fdre => true,
            _ => false,
        }
    }

    pub fn is_fdse(&self) -> (r: bool)
        ensures
            r == (self.ty is Fdse),
    {
        match self.ty {
            RegTy::Fdse => true,
            _ => false,
        }
    }

    pub fn id(&self) -> (r: String)
        ensures
            r@ == self.id@,
    {
        self.id.clone()
    }

    pub fn ty(&self) -> (r: &RegTy)
        ensures
            r == self.ty,
    {
        &self.ty
    }

    pub fn clock(&self) -> (r: &Expr)
        ensures
            r == self.clock,
    {
        &self.clock
    }

    pub fn reset(&self) -> (r: &Expr)
        ensures
            r == self.reset,
    {
        &self.reset
    }

    pub fn en(&self) -> (r: &Expr)
        ensures
            r == self.en,
    {
        &self.en
    }

    pub fn input(&self) -> (r: &Expr)
        ensures
            r == self.input,
    {
        &self.input
    }

    pub fn output(&self) -> (r: &Expr)
        ensures
            r == self.output,
    {
        &self.output
    }

    pub fn set_id(&mut self, id: &str)
        ensures
            *final(self) == (Reg { id: final(self).id, ..*old(self) }),
            final(self).id@ == id@,
    {
        self.id = id.to_owned();
    }

    pub fn set_clock(&mut self, clock: &str)
        ensures
            *final(self) == (Reg { clock: final(self).clock, ..*old(self) }),
            final(self).clock matches Expr::Ref(n) && n@ == clock@,
    {
        self.clock = Expr::new_ref(clock);
    }

    pub fn set_reset(&mut self, reset: &str)
        ensures
            *final(self) == (Reg { reset: final(self).reset, ..*old(self) }),
            final(self).reset matches Expr::Ref(n) && n@ == reset@,
    {
        self.reset = Expr::new_ref(reset);
    }

    pub fn set_en(&mut self, en: &str)
        ensures
            *final(self) == (Reg { en: final(self).en, ..*old(self) }),
            final(self).en matches Expr::Ref(n) && n@ == en@,
    {
        self.en = Expr::new_ref(en);
    }

    pub fn set_input(&mut self, input: &str)
        ensures
            *final(self) == (Reg { input: final(self).input, ..*old(self) }),
            final(self).input matches Expr::Ref(n) && n@ == input@,
    {
        self.input = Expr::new_ref(input);
    }

    pub fn set_input_with_index(&mut self, input: &str, index: u32)
        ensures
            *final(self) == (Reg { input: final(self).input, ..*old(self) }),
            final(self).input matches Expr::Index(n, i) && n@ == input@ && i == index,
    {
        self.input = Expr::new_index(input, index);
    }

    pub fn set_output(&mut self, output: &str)
        ensures
            *final(self) == (Reg { output: final(self).output, ..*old(self) }),
            final(self).output matches Expr::Ref(n) && n@ == output@,
    {
        self.output = Expr::new_ref(output);
    }

    pub fn set_output_with_index(&mut self, output: &str, index: u32)
        ensures
            *final(self) == (Reg { output: final(self).output, ..*old(self) }),
            final(self).output matches Expr::Index(n, i) && n@ == output@ && i == index,
    {
        self.output = Expr::new_index(output, index);
    }

    pub fn set_loc(&mut self, loc: Loc)
        ensures
            *final(self) == (Reg { loc: Some(loc), ..*old(self) }),
    {
        self.loc = Some(loc);
    }
}

/// One fresh single-bit flip-flop per bit of a register's width; bit `i` is
/// set-on-reset exactly when bit `i` of the declared init value is one.
pub fn regs_from_init(width: u64, init: i64) -> (regs: Vec<Reg>)
    requires
        width <= 64,
    ensures
        regs@.len() == width,
        forall|i: int|
            0 <= i < width ==> (#[trigger] regs@[i]).ty == (if (init >> (i as i64)) & 1 == 1 {
                RegTy::Fdse
            } else {
                RegTy::Fdre
            }),
{
    let mut regs: Vec<Reg> = Vec::new();
    let mut i: u64 = 0;
    while i < width
        invariant
            i <= width,
            width <= 64,
            regs@.len() == i,
            forall|t: int|
                0 <= t < i ==> (#[trigger] regs@[t]).ty == (if (init >> (t as i64)) & 1 == 1 {
                    RegTy::Fdse
                } else {
                    RegTy::Fdre
                }),
        decreases width - i,
    {
        let shift = init >> i;
        let mask = shift & 1;
        let is_one = mask == 1;
        if is_one {
            regs.push(Reg::new_fdse());
        } else {
            regs.push(Reg::new_fdre());
        }
        i = i + 1;
    }
    regs
}


/// Per-operand pipeline-register counts of a DSP macro, as an association
/// list from operand name to register depth.
#[derive(Clone, Debug, Default)]
pub struct RegMap {
    pub pairs: Vec<(String, u64)>,
}

/// First lookup, from the end, of an operand name in a register map.
pub open spec fn lookup_reg(pairs: Seq<(String, u64)>, name: Seq<char>) -> Option<u64>
    decreases pairs.len(),
{
    if pairs.len() == 0 {
        None
    } else if pairs.last().0@ == name {
        Some(pairs.last().1)
    } else {
        lookup_reg(pairs.drop_last(), name)
    }
}

impl RegMap {
    pub fn new() -> (r: RegMap)
        ensures
            r.pairs@.len() == 0,
    {
        RegMap { pairs: Vec::new() }
    }

    /// Declares `depth` pipeline registers on operand `name`.
    pub fn set(&mut self, name: &str, depth: u64)
        ensures
            forall|s: Seq<char>| #[trigger]
                lookup_reg(final(self).pairs@, s) == if s == name@ {
                    Some(depth)
                } else {
                    lookup_reg(old(self).pairs@, s)
                },
    {
        let key = name.to_owned();
        self.pairs.push((key, depth));
        proof {
            assert forall|s: Seq<char>| #[trigger]
                lookup_reg(final(self).pairs@, s) == if s == name@ {
                    Some(depth)
                } else {
                    lookup_reg(old(self).pairs@, s)
                } by {
                assert(final(self).pairs@.drop_last() =~= old(self).pairs@);
            }
        }
    }

    /// The register depth of operand `name`, if declared.
    pub fn get(&self, name: &str) -> (r: Option<u64>)
        ensures
            r == lookup_reg(self.pairs@, name@),
    {
        let key = name.to_owned();
        let mut k: usize = self.pairs.len();
        proof {
            assert(self.pairs@.take(self.pairs@.len() as int) =~= self.pairs@);
        }
        while k > 0
            invariant
                k <= self.pairs@.len(),
                key@ == name@,
                lookup_reg(self.pairs@, name@) == lookup_reg(self.pairs@.take(k as int), name@),
            decreases k,
        {
            let hit = self.pairs[k - 1].0.eq(&key);
            proof {
                assert(self.pairs@.take(k as int).last() == self.pairs@[k - 1]);
                assert(self.pairs@.take(k as int).drop_last() =~= self.pairs@.take(
                    k as int - 1,
                ));
            }
            if hit {
                return Some(self.pairs[k - 1].1);
            }
            k = k - 1;
        }
        proof {
            assert(self.pairs@.take(0) =~= Seq::<(String, u64)>::empty());
        }
        None
    }
}

/// Arithmetic operation of a plain DSP binding.
#[derive(Clone, Copy, Debug, PartialEq, Eq, Structural)]
pub enum DspOp {
    Add,
    Sub,
    Mul,
}

impl DspOp {
    pub fn is_add(&self) -> (r: bool)
        ensures
            r == (*self is Add),
    {
        match self {
            DspOp::Add => true,
            _ => false,
        }
    }

    pub fn is_sub(&self) -> (r: bool)
        ensures
            r == (*self is Sub),
    {
        match self {
            DspOp::Sub => true,
            _ => false,
        }
    }

    pub fn is_mul(&self) -> (r: bool)
        ensures
            r == (*self is Mul),
    {
        match self {
            DspOp::Mul => true,
            _ => false,
        }
    }
}

/// Shape of a DSP binding: one full-width operation or a vector of lanes.
#[derive(Clone, Copy, Debug, PartialEq, Eq, Structural)]
pub enum DspTy {
    Scalar,
    Vector(u8),
}

impl DspTy {
    pub fn is_scalar(&self) -> (r: bool)
        ensures
            r == (*self is Scalar),
    {
        match self {
            DspTy::Scalar => true,
            _ => false,
        }
    }

    pub fn is_vector(&self) -> (r: bool)
        ensures
            r == (*self is Vector),
    {
        match self {
            DspTy::Vector(_) => true,
            _ => false,
        }
    }
}

/// A plain DSP binding: an operation, its shape, and an instance id.
#[derive(Clone, Debug)]
pub struct Dsp {
    pub op: DspOp,
    pub ty: DspTy,
    pub id: String,
}

impl Dsp {
    pub fn new_scalar(op: DspOp) -> (r: Dsp)
        ensures
            r.op == op,
            r.ty is Scalar,
            r.id@ == Seq::<char>::empty(),
    {
        Dsp { op, ty: DspTy::Scalar, id: String::new() }
    }

    pub fn new_vector(op: DspOp, length: u8) -> (r: Dsp)
        ensures
            r.op == op,
            r.ty == DspTy::Vector(length),
            r.id@ == Seq::<char>::empty(),
    {
        Dsp { op, ty: DspTy::Vector(length), id: String::new() }
    }

    pub fn id(&self) -> (r: String)
        ensures
            r@ == self.id@,
    {
        self.id.clone()
    }

    pub fn op(&self) -> (r: &DspOp)
        ensures
            r == self.op,
    {
        &self.op
    }

    pub fn ty(&self) -> (r: &DspTy)
        ensures
            r == self.ty,
    {
        &self.ty
    }

    pub fn set_id(&mut self, id: &str)
        ensures
            final(self).op == old(self).op,
            final(self).ty == old(self).ty,
            final(self).id@ == id@,
    {
        self.id = id.to_owned();
    }
}

/// Fused operation of a scalar DSP macro.
#[derive(Clone, Copy, Debug, PartialEq, Eq, Structural)]
pub enum DspScalarOp {
    MulAdd,
}

/// A scalar DSP macro binding with named widths, attributes, and wiring.
#[derive(Clone, Debug)]
pub struct DspScalar {
    pub op: DspScalarOp,
    pub id: String,
    pub widths: Vec<(String, u64)>,
    pub attrs: Vec<String>,
    pub inputs: PortMap,
    pub outputs: PortMap,
}

impl DspScalar {
    pub fn new(op: DspScalarOp) -> (r: DspScalar)
        ensures
            r.op == op,
            r.id@ == Seq::<char>::empty(),
            r.inputs.pairs@.len() == 0,
            r.outputs.pairs@.len() == 0,
    {
        DspScalar {
            op,
            id: String::new(),
            widths: Vec::new(),
            attrs: Vec::new(),
            inputs: PortMap::new(),
            outputs: PortMap::new(),
        }
    }

    pub fn set_id(&mut self, id: &str)
        ensures
            *final(self) == (DspScalar { id: final(self).id, ..*old(self) }),
            final(self).id@ == id@,
    {
        self.id = id.to_owned();
    }

    /// Connects input port `name` to the wire `wire`.
    pub fn set_input(&mut self, name: &str, wire: &str)
        ensures
            *final(self) == (DspScalar { inputs: final(self).inputs, ..*old(self) }),
            forall|s: Seq<char>| #[trigger]
                lookup(final(self).inputs.pairs@, s) == if s == name@ {
                    lookup(final(self).inputs.pairs@, name@)
                } else {
                    lookup(old(self).inputs.pairs@, s)
                },
            lookup(final(self).inputs.pairs@, name@) matches Some(e) && e matches Expr::Ref(w)
                && w@ == wire@,
    {
        self.inputs.set(name, Expr::new_ref(wire));
    }

    /// Connects output port `name` to the wire `wire`.
    pub fn set_output(&mut self, name: &str, wire: &str)
        ensures
            *final(self) == (DspScalar { outputs: final(self).outputs, ..*old(self) }),
            lookup(final(self).outputs.pairs@, name@) matches Some(e) && e matches Expr::Ref(w)
                && w@ == wire@,
    {
        self.outputs.set(name, Expr::new_ref(wire));
    }
}

/// Lane-wise operation of a vector DSP macro.
#[derive(Clone, Copy, Debug, PartialEq, Eq, Structural)]
pub enum DspVectorOp {
    Add,
    Sub,
    And,
    Or,
    Xor,
    Nand,
    Nor,
    Xnor,
}

/// Fixed fabric location of a DSP macro.
#[derive(Clone, Debug)]
pub struct DspLoc {
    pub x: u64,
    pub y: u64,
}

impl DspLoc {
    pub fn x(&self) -> (r: u64)
        ensures
            r == self.x,
    {
        self.x
    }

    pub fn y(&self) -> (r: u64)
        ensures
            r == self.y,
    {
        self.y
    }
}

/// A vector DSP macro binding: a lane-wise ALU operation over one wide bus
/// split into `length` lanes of `word` bits.
#[derive(Clone, Debug)]
pub struct DspVector {
    pub op: DspVectorOp,
    pub id: String,
    pub width: u64,
    pub length: u64,
    pub word: u64,
    pub regs: RegMap,
    pub inputs: PortMap,
    pub outputs: PortMap,
    pub loc: Option<DspLoc>,
}

impl DspVector {
    pub fn new(op: DspVectorOp, width: u64, length: u64, word: u64) -> (r: DspVector)
        ensures
            r.op == op,
            r.width == width,
            r.length == length,
            r.word == word,
            r.id@ == Seq::<char>::empty(),
            r.regs.pairs@.len() == 0,
            r.inputs.pairs@.len() == 0,
            r.outputs.pairs@.len() == 0,
            r.loc is None,
    {
        DspVector {
            op,
            id: String::new(),
            width,
            length,
            word,
            regs: RegMap::new(),
            inputs: PortMap::new(),
            outputs: PortMap::new(),
            loc: None,
        }
    }

    pub fn id(&self) -> (r: String)
        ensures
            r@ == self.id@,
    {
        self.id.clone()
    }

    pub fn op(&self) -> (r: &DspVectorOp)
        ensures
            r == self.op,
    {
        &self.op
    }

    pub fn loc(&self) -> (r: &Option<DspLoc>)
        ensures
            r == self.loc,
    {
        &self.loc
    }

    pub fn set_id(&mut self, id: &str)
        ensures
            *final(self) == (DspVector { id: final(self).id, ..*old(self) }),
            final(self).id@ == id@,
    {
        self.id = id.to_owned();
    }

    pub fn set_loc(&mut self, loc: DspLoc)
        ensures
            *final(self) == (DspVector { loc: Some(loc), ..*old(self) }),
    {
        self.loc = Some(loc);
    }

    /// Connects input port `name`.
    pub fn set_input(&mut self, name: &str, e: Expr)
        ensures
            *final(self) == (DspVector { inputs: final(self).inputs, ..*old(self) }),
            lookup(final(self).inputs.pairs@, name@) == Some(e),
            forall|s: Seq<char>|
                s != name@ ==> #[trigger] lookup(final(self).inputs.pairs@, s) == lookup(
                    old(self).inputs.pairs@,
                    s,
                ),
    {
        self.inputs.set(name, e);
    }

    /// Connects output port `name`.
    pub fn set_output(&mut self, name: &str, e: Expr)
        ensures
            *final(self) == (DspVector { outputs: final(self).outputs, ..*old(self) }),
            lookup(final(self).outputs.pairs@, name@) == Some(e),
            forall|s: Seq<char>|
                s != name@ ==> #[trigger] lookup(final(self).outputs.pairs@, s) == lookup(
                    old(self).outputs.pairs@,
                    s,
                ),
    {
        self.outputs.set(name, e);
    }

    /// Declares `depth` pipeline registers on operand `name`.
    pub fn set_reg(&mut self, name: &str, depth: u64)
        ensures
            *final(self) == (DspVector { regs: final(self).regs, ..*old(self) }),
            lookup_reg(final(self).regs.pairs@, name@) == Some(depth),
            forall|s: Seq<char>|
                s != name@ ==> #[trigger] lookup_reg(final(self).regs.pairs@, s) == lookup_reg(
                    old(self).regs.pairs@,
                    s,
                ),
    {
        self.regs.set(name, depth);
    }

    /// The wiring of input port `name`, if connected.
    pub fn input(&self, name: &str) -> (r: Option<Expr>)
        ensures
            r == lookup(self.inputs.pairs@, name@),
    {
        self.inputs.get(name)
    }

    /// The wiring of output port `name`, if connected.
    pub fn output(&self, name: &str) -> (r: Option<Expr>)
        ensures
            r == lookup(self.outputs.pairs@, name@),
    {
        self.outputs.get(name)
    }

    /// Whether operand `name` has pipeline registers declared.
    pub fn has_reg(&self, name: &str) -> (r: bool)
        ensures
            r == (lookup_reg(self.regs.pairs@, name@) is Some),
    {
        match self.regs.get(name) {
            Some(_) => true,
            None => false,
        }
    }

    /// The declared register depth of operand `name`.
    pub fn reg(&self, name: &str) -> (r: u64)
        requires
            lookup_reg(self.regs.pairs@, name@) is Some,
        ensures
            Some(r) == lookup_reg(self.regs.pairs@, name@),
    {
        match self.regs.get(name) {
            Some(d) => d,
            None => 0,
        }
    }
}

/// Fused operation of a full-width DSP macro: a multiply, alone or followed
/// by an accumulating add.
#[derive(Clone, Copy, Debug, PartialEq, Eq, Structural)]
pub enum DspFusedOp {
    Mul,
    MulAdd,
}

/// A full-width fused DSP macro binding.
#[derive(Clone, Debug)]
pub struct DspFused {
    pub op: DspFusedOp,
    pub id: String,
    pub regs: RegMap,
    pub inputs: PortMap,
    pub outputs: PortMap,
}

impl DspFused {
    pub fn new(op: DspFusedOp) -> (r: DspFused)
        ensures
            r.op == op,
            r.id@ == Seq::<char>::empty(),
            r.regs.pairs@.len() == 0,
            r.inputs.pairs@.len() == 0,
            r.outputs.pairs@.len() == 0,
    {
        DspFused {
            op,
            id: String::new(),
            regs: RegMap::new(),
            inputs: PortMap::new(),
            outputs: PortMap::new(),
        }
    }

    pub fn id(&self) -> (r: String)
        ensures
            r@ == self.id@,
    {
        self.id.clone()
    }

    pub fn op(&self) -> (r: &DspFusedOp)
        ensures
            r == self.op,
    {
        &self.op
    }

    pub fn set_id(&mut self, id: &str)
        ensures
            *final(self) == (DspFused { id: final(self).id, ..*old(self) }),
            final(self).id@ == id@,
    {
        self.id = id.to_owned();
    }

    /// Connects input port `name`.
    pub fn set_input(&mut self, name: &str, e: Expr)
        ensures
            *final(self) == (DspFused { inputs: final(self).inputs, ..*old(self) }),
            lookup(final(self).inputs.pairs@, name@) == Some(e),
            forall|s: Seq<char>|
                s != name@ ==> #[trigger] lookup(final(self).inputs.pairs@, s) == lookup(
                    old(self).inputs.pairs@,
                    s,
                ),
    {
        self.inputs.set(name, e);
    }

    /// Connects output port `name`.
    pub fn set_output(&mut self, name: &str, e: Expr)
        ensures
            *final(self) == (DspFused { outputs: final(self).outputs, ..*old(self) }),
            lookup(final(self).outputs.pairs@, name@) == Some(e),
            forall|s: Seq<char>|
                s != name@ ==> #[trigger] lookup(final(self).outputs.pairs@, s) == lookup(
                    old(self).outputs.pairs@,
                    s,
                ),
    {
        self.outputs.set(name, e);
    }

    /// Declares `depth` pipeline registers on operand `name`.
    pub fn set_reg(&mut self, name: &str, depth: u64)
        ensures
            *final(self) == (DspFused { regs: final(self).regs, ..*old(self) }),
            lookup_reg(final(self).regs.pairs@, name@) == Some(depth),
            forall|s: Seq<char>|
                s != name@ ==> #[trigger] lookup_reg(final(self).regs.pairs@, s) == lookup_reg(
                    old(self).regs.pairs@,
                    s,
                ),
    {
        self.regs.set(name, depth);
    }

    /// The wiring of input port `name`, if connected.
    pub fn input(&self, name: &str) -> (r: Option<Expr>)
        ensures
            r == lookup(self.inputs.pairs@, name@),
    {
        self.inputs.get(name)
    }

    /// The wiring of output port `name`, if connected.
    pub fn output(&self, name: &str) -> (r: Option<Expr>)
        ensures
            r == lookup(self.outputs.pairs@, name@),
    {
        self.outputs.get(name)
    }

    /// Whether operand `name` has pipeline registers declared.
    pub fn has_reg(&self, name: &str) -> (r: bool)
        ensures
            r == (lookup_reg(self.regs.pairs@, name@) is Some),
    {
        match self.regs.get(name) {
            Some(_) => true,
            None => false,
        }
    }

    /// The declared register depth of operand `name`.
    pub fn reg(&self, name: &str) -> (r: u64)
        requires
            lookup_reg(self.regs.pairs@, name@) is Some,
        ensures
            Some(r) == lookup_reg(self.regs.pairs@, name@),
    {
        match self.regs.get(name) {
            Some(d) => d,
            None => 0,
        }
    }
}

/// The design's shared tied-high driver.
#[derive(Clone, Debug)]
pub struct Vcc {
    pub id: String,
    pub output: Expr,
}

impl Vcc {
    pub fn new(id: &str, output: Expr) -> (r: Vcc)
        ensures
            r.id@ == id@,
            r.output == output,
    {
        Vcc { id: id.to_owned(), output }
    }
}

/// The design's shared tied-low driver.
#[derive(Clone, Debug)]
pub struct Gnd {
    pub id: String,
    pub output: Expr,
}

impl Gnd {
    pub fn new(id: &str, output: Expr) -> (r: Gnd)
        ensures
            r.id@ == id@,
            r.output == output,
    {
        Gnd { id: id.to_owned(), output }
    }
}

/// An N-bit compile-time constant to be expanded into tied-high/tied-low
/// drivers.
#[derive(Clone, Debug)]
pub struct Const {
    pub id: String,
    pub width: u64,
    pub value: i64,
    pub inputs: PortMap,
}

impl Const {
    pub fn new(id: &str, width: u64, value: i64) -> (r: Const)
        ensures
            r.id@ == id@,
            r.width == width,
            r.value == value,
            r.inputs.pairs@.len() == 0,
    {
        Const { id: id.to_owned(), width, value, inputs: PortMap::new() }
    }

    /// Connects input port `name`.
    pub fn set_input(&mut self, name: &str, e: Expr)
        ensures
            *final(self) == (Const { inputs: final(self).inputs, ..*old(self) }),
            lookup(final(self).inputs.pairs@, name@) == Some(e),
    {
        self.inputs.set(name, e);
    }

    /// The wiring of input port `name`, if connected.
    pub fn input(&self, name: &str) -> (r: Option<Expr>)
        ensures
            r == lookup(self.inputs.pairs@, name@),
    {
        self.inputs.get(name)
    }
}


/// An 8-bit carry chain binding: two operand buses, a carry-in, and a sum.
#[derive(Clone, Debug)]
pub struct Carry {
    pub id: String,
    pub inputs: PortMap,
    pub outputs: PortMap,
}

impl Carry {
    pub fn new(id: &str) -> (r: Carry)
        ensures
            r.id@ == id@,
            r.inputs.pairs@.len() == 0,
            r.outputs.pairs@.len() == 0,
    {
        Carry { id: id.to_owned(), inputs: PortMap::new(), outputs: PortMap::new() }
    }

    /// Connects input port `name`.
    pub fn set_input(&mut self, name: &str, e: Expr)
        ensures
            *final(self) == (Carry { inputs: final(self).inputs, ..*old(self) }),
            lookup(final(self).inputs.pairs@, name@) == Some(e),
            forall|s: Seq<char>|
                s != name@ ==> #[trigger] lookup(final(self).inputs.pairs@, s) == lookup(
                    old(self).inputs.pairs@,
                    s,
                ),
    {
        self.inputs.set(name, e);
    }

    /// Connects output port `name`.
    pub fn set_output(&mut self, name: &str, e: Expr)
        ensures
            *final(self) == (Carry { outputs: final(self).outputs, ..*old(self) }),
            lookup(final(self).outputs.pairs@, name@) == Some(e),
    {
        self.outputs.set(name, e);
    }

    /// The wiring of input port `name`, if connected.
    pub fn input(&self, name: &str) -> (r: Option<Expr>)
        ensures
            r == lookup(self.inputs.pairs@, name@),
    {
        self.inputs.get(name)
    }

    /// The wiring of output port `name`, if connected.
    pub fn output(&self, name: &str) -> (r: Option<Expr>)
        ensures
            r == lookup(self.outputs.pairs@, name@),
    {
        self.outputs.get(name)
    }
}

} // verus!


