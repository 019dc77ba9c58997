//! The generic IR's vocabulary: value types, operation names, expression
//! terms, and the parsers of their textual tokens.

use crate::errors::Error;
use vstd::prelude::*;

verus! {

/// A value type: boolean, unsigned or signed words, or a vector of words.
#[derive(Debug)]
pub enum Ty {
    Bool,
    UInt(u64),
    SInt(u64),
    Vector(Box<Ty>, u64),
}

/// Spec-level shape of a value type, with unbounded widths.
pub enum TyShape {
    Bool,
    UInt(nat),
    SInt(nat),
    UVec(nat, nat),
    SVec(nat, nat),
}

/// The shape of a value type; nested vectors collapse onto their element.
pub open spec fn ty_shape(t: Ty) -> TyShape
    decreases t,
{
    match t {
        Ty::Bool => TyShape::Bool,
        Ty::UInt(w) => TyShape::UInt(w as nat),
        Ty::SInt(w) => TyShape::SInt(w as nat),
        Ty::Vector(e, l) => match *e {
            Ty::SInt(w) => TyShape::SVec(w as nat, l as nat),
            Ty::UInt(w) => TyShape::UVec(w as nat, l as nat),
            _ => TyShape::UVec(0, l as nat),
        },
    }
}

/// Whether a character is a decimal digit.
pub open spec fn is_digit(c: char) -> bool {
    48 <= (c as u32) <= 57
}

/// Whether every character of a sequence is a decimal digit.
pub open spec fn all_digits(s: Seq<char>) -> bool {
    forall|i: int| 0 <= i < s.len() ==> is_digit(#[trigger] s[i])
}

/// Value of a digit sequence read in base ten.
pub open spec fn digits_val(s: Seq<char>) -> nat
    decreases s.len(),
{
    if s.len() == 0 {
        0
    } else {
        digits_val(s.drop_last()) * 10 + ((s.last() as u32 - 48) as nat)
    }
}

/// A nonempty all-digit sequence whose value fits a machine word parses to
/// that value; anything else is refused.
pub open spec fn digits_opt(s: Seq<char>) -> Option<nat> {
    if s.len() > 0 && all_digits(s) && digits_val(s) < 0x10000000000000000 {
        Some(digits_val(s))
    } else {
        None
    }
}

/// Index of the first `<` of a sequence, if any.
pub open spec fn first_lt(s: Seq<char>) -> Option<int>
    decreases s.len(),
{
    if s.len() == 0 {
        None
    } else if s[0] == '<' {
        Some(0)
    } else {
        match first_lt(s.skip(1)) {
            Some(k) => Some(k + 1),
            None => None,
        }
    }
}

/// A prefix of a digit sequence never exceeds the whole sequence's value.
proof fn lemma_digits_val_monotone(s: Seq<char>, k: int)
    requires
        0 <= k <= s.len(),
    ensures
        digits_val(s.take(k)) <= digits_val(s),
    decreases s.len() - k,
{
    if k < s.len() {
        lemma_digits_val_monotone(s, k + 1);
        assert(s.take(k + 1).drop_last() =~= s.take(k));
        assert(digits_val(s.take(k + 1)) == digits_val(s.take(k)) * 10 + ((s.take(k + 1).last()
            as u32 - 48) as nat));
    } else {
        assert(s.take(k) =~= s);
    }
}

/// Characterisation of the first `<`: an occurrence with no earlier one.
proof fn lemma_first_lt_some(s: Seq<char>, k: int)
    requires
        0 <= k < s.len(),
        s[k] == '<',
        forall|j: int| 0 <= j < k ==> s[j] != '<',
    ensures
        first_lt(s) == Some(k),
    decreases k,
{
    if k == 0 {
    } else {
        assert(s.skip(1)[k - 1] == '<');
        lemma_first_lt_some(s.skip(1), k - 1);
    }
}

/// A sequence without `<` has no first `<`.
proof fn lemma_first_lt_none(s: Seq<char>)
    requires
        forall|j: int| 0 <= j < s.len() ==> s[j] != '<',
    ensures
        first_lt(s) is None,
    decreases s.len(),
{
    if s.len() > 0 {
        lemma_first_lt_none(s.skip(1));
    }
}

/// The parse of a type token per the vocabulary: `bool`, `u<N>`, `i<N>`,
/// or a vector `u<N><L>` / `i<N><L>`; unsigned widths must be positive,
/// signed widths above one, lengths positive.
pub open spec fn ty_of_token(s: Seq<char>) -> Option<TyShape> {
    if s == "bool"@ {
        Some(TyShape::Bool)
    } else if s.len() < 2 || (s[0] != 'u' && s[0] != 'i') {
        None
    } else {
        let signed = s[0] == 'i';
        match first_lt(s) {
            None => match digits_opt(s.subrange(1, s.len() as int)) {
                None => None,
                Some(w) => if signed {
                    if w > 1 {
                        Some(TyShape::SInt(w))
                    } else {
                        None
                    }
                } else {
                    if w > 0 {
                        Some(TyShape::UInt(w))
                    } else {
                        None
                    }
                },
            },
            Some(k) => if s.last() != '>' || k + 1 >= s.len() - 1 {
                None
            } else {
                match (digits_opt(s.subrange(1, k)), digits_opt(
                    s.subrange(k + 1, s.len() - 1),
                )) {
                    (Some(w), Some(l)) => if l == 0 {
                        None
                    } else if signed {
                        if w > 1 {
                            Some(TyShape::SVec(w, l))
                        } else {
                            None
                        }
                    } else {
                        if w > 0 {
                            Some(TyShape::UVec(w, l))
                        } else {
                            None
                        }
                    },
                    _ => None,
                }
            },
        }
    }
}

/// Whether two strings hold the same characters.
pub fn str_eq(a: &str, b: &str) -> (r: bool)
    ensures
        r == (a@ == b@),
{
    let sa = a.to_owned();
    let sb = b.to_owned();
    sa.eq(&sb)
}

/// Parses the digit run `s[from..to]` in base ten.
fn parse_digits(s: &str, from: usize, to: usize) -> (r: Option<u64>)
    requires
        from <= to <= s@.len(),
    ensures
        r matches Some(v) ==> digits_opt(s@.subrange(from as int, to as int)) == Some(
            v as nat,
        ),
        r is None ==> digits_opt(s@.subrange(from as int, to as int)) is None,
{
    let ghost body = s@.subrange(from as int, to as int);
    if from == to {
        return None;
    }
    let mut val: u64 = 0;
    let mut j: usize = from;
    while j < to
        invariant
            from <= j <= to <= s@.len(),
            to > from,
            body == s@.subrange(from as int, to as int),
            all_digits(body.take(j - from)),
            val as nat == digits_val(body.take(j - from)),
        decreases to - j,
    {
        let c = s.get_char(j);
        let cu = c as u32;
        if !(48 <= cu && cu <= 57) {
            proof {
                assert(body[j - from] == c);
                assert(!all_digits(body));
            }
            return None;
        }
        let d = (cu - 48) as u64;
        if val > (0xffffffffffffffffu64 - d) / 10 {
            proof {
                assert(body.take(j - from + 1).drop_last() =~= body.take(j - from));
                assert(body.take(j - from + 1).last() == c);
                assert(digits_val(body.take(j - from + 1)) == (val as nat) * 10 + d as nat);
                lemma_digits_val_monotone(body, j - from + 1);
                assert((val as nat) * 10 + d as nat >= 0x10000000000000000) by (nonlinear_arith)
                    requires
                        val as nat > (0xffffffffffffffff - d as nat) / 10,
                        d < 10,
                ;
            }
            return None;
        }
        proof {
            assert(val * 10 + d <= 0xffffffffffffffff) by (nonlinear_arith)
                requires
                    val as nat <= (0xffffffffffffffff - d as nat) / 10,
                    d < 10,
            ;
            assert(body.take(j - from + 1).drop_last() =~= body.take(j - from));
            assert(body.take(j - from + 1).last() == c);
        }
        val = val * 10 + d;
        j = j + 1;
    }
    proof {
        assert(body.take(to - from) =~= body);
    }
    Some(val)
}

impl Ty {
    /// Parses a type token. Unrecognised tokens, zero widths, signed widths
    /// below two, and zero vector lengths are parse errors.
    pub fn from_str(input: &str) -> (r: Result<Ty, Error>)
        ensures
            ty_of_token(input@) matches Some(sh) ==> (r matches Ok(t) && ty_shape(t) == sh),
            ty_of_token(input@) is None ==> (r matches Err(e) && e is Parse),
    {
        let n = input.unicode_len();
        if str_eq(input, "bool") {
            return Ok(Ty::Bool);
        }
        if n < 2 {
            return Err(Error::new_parse_error("not a valid type"));
        }
        let c0 = input.get_char(0);
        if c0 != 'u' && c0 != 'i' {
            return Err(Error::new_parse_error("not a valid type"));
        }
        let signed = c0 == 'i';
        // find the first vector bracket, if any
        let mut k: usize = 0;
        let mut angle: Option<usize> = None;
        while k < n && angle.is_none()
            invariant
                k <= n == input@.len(),
                angle is None ==> forall|j: int| 0 <= j < k ==> input@[j] != '<',
                angle matches Some(kk) ==> kk < n && input@[kk as int] == '<' && (forall|j: int|
                    0 <= j < kk ==> input@[j] != '<'),
            decreases n - k,
        {
            if input.get_char(k) == '<' {
                angle = Some(k);
            }
            k = k + 1;
        }
        proof {
            match angle {
                None => {
                    lemma_first_lt_none(input@);
                },
                Some(kk) => {
                    lemma_first_lt_some(input@, kk as int);
                },
            }
        }
        match angle {
            None => {
                match parse_digits(input, 1, n) {
                    None => Err(Error::new_parse_error("not a valid type")),
                    Some(w) => {
                        if signed {
                            if w > 1 {
                                Ok(Ty::SInt(w))
                            } else {
                                Err(Error::new_parse_error("signed width must exceed one"))
                            }
                        } else {
                            if w > 0 {
                                Ok(Ty::UInt(w))
                            } else {
                                Err(Error::new_parse_error("width must be positive"))
                            }
                        }
                    },
                }
            },
            Some(kk) => {
                if input.get_char(n - 1) != '>' || kk + 1 >= n - 1 {
                    return Err(Error::new_parse_error("not a valid type"));
                }
                let w_opt = parse_digits(input, 1, kk);
                let l_opt = parse_digits(input, kk + 1, n - 1);
                match (w_opt, l_opt) {
                    (Some(w), Some(l)) => {
                        if l == 0 {
                            Err(Error::new_parse_error("length must be positive"))
                        } else if signed {
                            if w > 1 {
                                Ok(Ty::Vector(Box::new(Ty::SInt(w)), l))
                            } else {
                                Err(Error::new_parse_error("signed width must exceed one"))
                            }
                        } else {
                            if w > 0 {
                                Ok(Ty::Vector(Box::new(Ty::UInt(w)), l))
                            } else {
                                Err(Error::new_parse_error("width must be positive"))
                            }
                        }
                    },
                    _ => Err(Error::new_parse_error("not a valid type")),
                }
            },
        }
    }
}


/// A compute operation of the IR.
#[derive(Clone, Copy, Debug, PartialEq, Eq, Structural)]
pub enum CompOp {
    Reg,
    Add,
    Sub,
    Mul,
    Not,
    And,
    Or,
    Xor,
    Mux,
    Eql,
    Neql,
    Gt,
    Lt,
    Ge,
    Le,
}

/// The parse of a compute-operation token.
pub open spec fn comp_op_of(s: Seq<char>) -> Option<CompOp> {
    if s == "reg"@ {
        Some(CompOp::Reg)
    } else if s == "add"@ {
        Some(CompOp::Add)
    } else if s == "sub"@ {
        Some(CompOp::Sub)
    } else if s == "mul"@ {
        Some(CompOp::Mul)
    } else if s == "not"@ {
        Some(CompOp::Not)
    } else if s == "and"@ {
        Some(CompOp::And)
    } else if s == "or"@ {
        Some(CompOp::Or)
    } else if s == "xor"@ {
        Some(CompOp::Xor)
    } else if s == "mux"@ {
        Some(CompOp::Mux)
    } else if s == "eq"@ {
        Some(CompOp::Eql)
    } else if s == "neq"@ {
        Some(CompOp::Neql)
    } else if s == "gt"@ {
        Some(CompOp::Gt)
    } else if s == "lt"@ {
        Some(CompOp::Lt)
    } else if s == "ge"@ {
        Some(CompOp::Ge)
    } else if s == "le"@ {
        Some(CompOp::Le)
    } else {
        None
    }
}

impl CompOp {
    /// Parses a compute-operation token; unknown tokens are parse errors.
    pub fn from_str(input: &str) -> (r: Result<CompOp, Error>)
        ensures
            comp_op_of(input@) matches Some(op) ==> r == Ok::<CompOp, Error>(op),
            comp_op_of(input@) is None ==> (r matches Err(e) && e is Parse),
    {
        if str_eq(input, "reg") {
            Ok(CompOp::Reg)
        } else if str_eq(input, "add") {
            Ok(CompOp::Add)
        } else if str_eq(input, "sub") {
            Ok(CompOp::Sub)
        } else if str_eq(input, "mul") {
            Ok(CompOp::Mul)
        } else if str_eq(input, "not") {
            Ok(CompOp::Not)
        } else if str_eq(input, "and") {
            Ok(CompOp::And)
        } else if str_eq(input, "or") {
            Ok(CompOp::Or)
        } else if str_eq(input, "xor") {
            Ok(CompOp::Xor)
        } else if str_eq(input, "mux") {
            Ok(CompOp::Mux)
        } else if str_eq(input, "eq") {
            Ok(CompOp::Eql)
        } else if str_eq(input, "neq") {
            Ok(CompOp::Neql)
        } else if str_eq(input, "gt") {
            Ok(CompOp::Gt)
        } else if str_eq(input, "lt") {
            Ok(CompOp::Lt)
        } else if str_eq(input, "ge") {
            Ok(CompOp::Ge)
        } else if str_eq(input, "le") {
            Ok(CompOp::Le)
        } else {
            Err(Error::new_parse_error("not a valid compute operation"))
        }
    }
}

/// A wire operation of the IR.
#[derive(Clone, Copy, Debug, PartialEq, Eq, Structural)]
pub enum WireOp {
    Id,
    Con,
    Sll,
    Srl,
    Sra,
}

/// The parse of a wire-operation token.
pub open spec fn wire_op_of(s: Seq<char>) -> Option<WireOp> {
    if s == "id"@ {
        Some(WireOp::Id)
    } else if s == "const"@ {
        Some(WireOp::Con)
    } else if s == "sll"@ {
        Some(WireOp::Sll)
    } else if s == "srl"@ {
        Some(WireOp::Srl)
    } else if s == "sra"@ {
        Some(WireOp::Sra)
    } else {
        None
    }
}

impl WireOp {
    /// Parses a wire-operation token; unknown tokens are parse errors.
    pub fn from_str(input: &str) -> (r: Result<WireOp, Error>)
        ensures
            wire_op_of(input@) matches Some(op) ==> r == Ok::<WireOp, Error>(op),
            wire_op_of(input@) is None ==> (r matches Err(e) && e is Parse),
    {
        if str_eq(input, "id") {
            Ok(WireOp::Id)
        } else if str_eq(input, "const") {
            Ok(WireOp::Con)
        } else if str_eq(input, "sll") {
            Ok(WireOp::Sll)
        } else if str_eq(input, "srl") {
            Ok(WireOp::Srl)
        } else if str_eq(input, "sra") {
            Ok(WireOp::Sra)
        } else {
            Err(Error::new_parse_error("not a valid wire operation"))
        }
    }
}

/// A call of a named instruction.
#[derive(Clone, Debug)]
pub enum CallOp {
    Op(String),
}

impl CallOp {
    /// Any token names a callable instruction.
    pub fn from_str(input: &str) -> (r: Result<CallOp, Error>)
        ensures
            r matches Ok(c) && c matches CallOp::Op(n) && n@ == input@,
    {
        Ok(CallOp::Op(input.to_owned()))
    }
}

/// A physical primitive class a computation may be placed on.
#[derive(Clone, Copy, Debug, PartialEq, Eq, Structural)]
pub enum Prim {
    Any,
    Lut,
    Dsp,
}

/// The parse of a result-location token: `??` is the unresolved class.
pub open spec fn prim_of(s: Seq<char>) -> Option<Prim> {
    if s == "??"@ {
        Some(Prim::Any)
    } else if s == "lut"@ {
        Some(Prim::Lut)
    } else if s == "dsp"@ {
        Some(Prim::Dsp)
    } else {
        None
    }
}

impl Prim {
    /// Parses a result-location token; unknown tokens are parse errors.
    pub fn from_str(input: &str) -> (r: Result<Prim, Error>)
        ensures
            prim_of(input@) matches Some(p) ==> r == Ok::<Prim, Error>(p),
            prim_of(input@) is None ==> (r matches Err(e) && e is Parse),
    {
        if str_eq(input, "??") {
            Ok(Prim::Any)
        } else if str_eq(input, "lut") {
            Ok(Prim::Lut)
        } else if str_eq(input, "dsp") {
            Ok(Prim::Dsp)
        } else {
            Err(Error::new_parse_error("not a valid primitive"))
        }
    }
}

impl Ty {
    /// A copy of the type, with the same shape.
    pub fn dup(&self) -> (r: Ty)
        ensures
            ty_shape(r) == ty_shape(*self),
        decreases self,
    {
        match self {
            Ty::Bool => Ty::Bool,
            Ty::UInt(w) => Ty::UInt(*w),
            Ty::SInt(w) => Ty::SInt(*w),
            Ty::Vector(e, l) => Ty::Vector(Box::new((**e).dup()), *l),
        }
    }
}

/// An expression term: a literal value or a typed variable.
#[derive(Debug)]
pub enum ExprTerm {
    Val(i64),
    Var(String, Ty),
}

/// A tuple of terms.
#[derive(Debug, Default)]
pub struct ExprTup {
    pub term: Vec<ExprTerm>,
}

/// An IR expression: one term or a tuple of terms.
#[derive(Debug)]
pub enum Expr {
    Term(ExprTerm),
    Tup(ExprTup),
}

impl ExprTerm {
    /// The literal value of the term; a variable is a conversion error.
    pub fn try_into_val(&self) -> (r: Result<i64, Error>)
        ensures
            self matches ExprTerm::Val(v) ==> r == Ok::<i64, Error>(*v),
            self matches ExprTerm::Var(_, _) ==> (r matches Err(e) && e is Conversion),
    {
        match self {
            ExprTerm::Val(n) => Ok(*n),
            _ => Err(Error::new_conv_error("not a term value")),
        }
    }

    /// The variable name of the term; a literal is a conversion error.
    pub fn try_into_id(&self) -> (r: Result<String, Error>)
        ensures
            self matches ExprTerm::Var(n, _) ==> (r matches Ok(id) && id@ == n@),
            self matches ExprTerm::Val(_) ==> (r matches Err(e) && e is Conversion),
    {
        match self {
            ExprTerm::Var(n, _) => Ok(n.clone()),
            _ => Err(Error::new_conv_error("not a term variable")),
        }
    }
}

/// Whether every term of a sequence is a literal value.
pub open spec fn all_vals(terms: Seq<ExprTerm>) -> bool {
    forall|i: int| 0 <= i < terms.len() ==> (#[trigger] terms[i]) is Val
}

/// Whether every term of a sequence is a variable.
pub open spec fn all_vars(terms: Seq<ExprTerm>) -> bool {
    forall|i: int| 0 <= i < terms.len() ==> (#[trigger] terms[i]) is Var
}

impl ExprTup {
    /// The literal values of all terms; any variable is a conversion error.
    pub fn try_into_vals(&self) -> (r: Result<Vec<i64>, Error>)
        ensures
            all_vals(self.term@) ==> (r matches Ok(vals) && vals@.len() == self.term@.len() && (
            forall|i: int|
                0 <= i < vals@.len() ==> #[trigger] vals@[i] == self.term@[i]->Val_0)),
            !all_vals(self.term@) ==> (r matches Err(e) && e is Conversion),
    {
        let mut vals: Vec<i64> = Vec::new();
        let mut k: usize = 0;
        while k < self.term.len()
            invariant
                k <= self.term@.len(),
                vals@.len() == k,
                all_vals(self.term@.take(k as int)),
                forall|i: int| 0 <= i < k ==> #[trigger] vals@[i] == self.term@[i]->Val_0,
            decreases self.term@.len() - k,
        {
            match &self.term[k] {
                ExprTerm::Val(n) => {
                    vals.push(*n);
                },
                _ => {
                    return Err(Error::new_conv_error("not a term value"));
                },
            }
            proof {
                assert(all_vals(self.term@.take(k + 1)));
            }
            k = k + 1;
        }
        proof {
            assert(self.term@.take(self.term@.len() as int) =~= self.term@);
        }
        Ok(vals)
    }

    /// The names of all terms; any literal is a conversion error.
    pub fn try_into_ids(&self) -> (r: Result<Vec<String>, Error>)
        ensures
            all_vars(self.term@) ==> (r matches Ok(ids) && ids@.len() == self.term@.len() && (
            forall|i: int|
                0 <= i < ids@.len() ==> (#[trigger] ids@[i])@ == self.term@[i]->Var_0@)),
            !all_vars(self.term@) ==> (r matches Err(e) && e is Conversion),
    {
        let mut ids: Vec<String> = Vec::new();
        let mut k: usize = 0;
        while k < self.term.len()
            invariant
                k <= self.term@.len(),
                ids@.len() == k,
                all_vars(self.term@.take(k as int)),
                forall|i: int| 0 <= i < k ==> (#[trigger] ids@[i])@ == self.term@[i]->Var_0@,
            decreases self.term@.len() - k,
        {
            match &self.term[k] {
                ExprTerm::Var(n, _) => {
                    ids.push(n.clone());
                },
                _ => {
                    return Err(Error::new_conv_error("not a term variable"));
                },
            }
            proof {
                assert(all_vars(self.term@.take(k + 1)));
            }
            k = k + 1;
        }
        proof {
            assert(self.term@.take(self.term@.len() as int) =~= self.term@);
        }
        Ok(ids)
    }
}

} // verus!

