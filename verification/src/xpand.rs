//! The DSP macro's configuration surface: one closed enum per parameter,
//! a record of all attributes with their quiet defaults, and the expansion
//! of a configured macro into a netlist instance.

use crate::lower::{p_bin, p_hex, p_str};
use crate::numfmt;
use crate::verilog as vl;
use vstd::prelude::*;

verus! {

/// Operand input routing: direct fabric input or cascade.
#[derive(Clone, Copy, Debug, PartialEq, Eq, Structural)]
pub enum InputTy {
    Direct,
    Cascade,
}

/// Parameter text of an input routing.
pub open spec fn input_ty_text(v: InputTy) -> Seq<char> {
    match v {
        InputTy::Direct => "DIRECT"@,
        InputTy::Cascade => "CASCADE"@,
    }
}

/// First multiplier operand selection.
#[derive(Clone, Copy, Debug, PartialEq, Eq, Structural)]
pub enum AMultSel {
    A,
    AD,
}

/// Parameter text of a first-operand selection.
pub open spec fn a_mult_sel_text(v: AMultSel) -> Seq<char> {
    match v {
        AMultSel::A => "A"@,
        AMultSel::AD => "AD"@,
    }
}

/// Second multiplier operand selection.
#[derive(Clone, Copy, Debug, PartialEq, Eq, Structural)]
pub enum BMultSel {
    B,
    AD,
}

/// Parameter text of a second-operand selection.
pub open spec fn b_mult_sel_text(v: BMultSel) -> Seq<char> {
    match v {
        BMultSel::B => "B"@,
        BMultSel::AD => "AD"@,
    }
}

/// Pre-adder input selection.
#[derive(Clone, Copy, Debug, PartialEq, Eq, Structural)]
pub enum PreAddInSel {
    A,
    B,
}

/// Parameter text of a pre-adder selection.
pub open spec fn pre_add_in_sel_text(v: PreAddInSel) -> Seq<char> {
    match v {
        PreAddInSel::A => "A"@,
        PreAddInSel::B => "B"@,
    }
}

/// Multiplier usage.
#[derive(Clone, Copy, Debug, PartialEq, Eq, Structural)]
pub enum UseMult {
    Multiply,
    Dynamic,
    Off,
}

/// Parameter text of a multiplier usage.
pub open spec fn use_mult_text(v: UseMult) -> Seq<char> {
    match v {
        UseMult::Multiply => "MULTIPLY"@,
        UseMult::Dynamic => "DYNAMIC"@,
        UseMult::Off => "NONE"@,
    }
}

/// SIMD lane configuration of the ALU.
#[derive(Clone, Copy, Debug, PartialEq, Eq, Structural)]
pub enum UseSimd {
    One,
    Two,
    Four,
}

/// Parameter text of a SIMD configuration.
pub open spec fn use_simd_text(v: UseSimd) -> Seq<char> {
    match v {
        UseSimd::One => "ONE48"@,
        UseSimd::Two => "TWO24"@,
        UseSimd::Four => "FOUR12"@,
    }
}

/// Wide-XOR lane configuration.
#[derive(Clone, Copy, Debug, PartialEq, Eq, Structural)]
pub enum XorSimd {
    One,
    Two,
}

/// Parameter text of a wide-XOR configuration.
pub open spec fn xor_simd_text(v: XorSimd) -> Seq<char> {
    match v {
        XorSimd::One => "XOR12"@,
        XorSimd::Two => "XOR24_48_96"@,
    }
}

/// Automatic reset on pattern detection.
#[derive(Clone, Copy, Debug, PartialEq, Eq, Structural)]
pub enum AutoResetPatDet {
    NoReset,
    ResetMatch,
    ResetNotMatch,
}

/// Parameter text of a pattern-detect reset mode.
pub open spec fn auto_reset_pat_det_text(v: AutoResetPatDet) -> Seq<char> {
    match v {
        AutoResetPatDet::NoReset => "NO_RESET"@,
        AutoResetPatDet::ResetMatch => "RESET_MATCH"@,
        AutoResetPatDet::ResetNotMatch => "RESET_NOT_MATCH"@,
    }
}

/// Priority between reset and clock enable.
#[derive(Clone, Copy, Debug, PartialEq, Eq, Structural)]
pub enum AutoResetPriority {
    Reset,
    Cep,
}

/// Parameter text of a reset priority.
pub open spec fn auto_reset_priority_text(v: AutoResetPriority) -> Seq<char> {
    match v {
        AutoResetPriority::Reset => "RESET"@,
        AutoResetPriority::Cep => "CEP"@,
    }
}

/// Mask source of the pattern detector.
#[derive(Clone, Copy, Debug, PartialEq, Eq, Structural)]
pub enum SelMask {
    C,
    Mask,
    RoundModeOne,
    RoundModeTwo,
}

/// Parameter text of a mask source.
pub open spec fn sel_mask_text(v: SelMask) -> Seq<char> {
    match v {
        SelMask::C => "C"@,
        SelMask::Mask => "MASK"@,
        SelMask::RoundModeOne => "ROUNDING_MODE1"@,
        SelMask::RoundModeTwo => "ROUNDING_MODE2"@,
    }
}

/// Pattern source of the pattern detector.
#[derive(Clone, Copy, Debug, PartialEq, Eq, Structural)]
pub enum SelPattern {
    C,
    Pattern,
}

/// Parameter text of a pattern source.
pub open spec fn sel_pattern_text(v: SelPattern) -> Seq<char> {
    match v {
        SelPattern::C => "C"@,
        SelPattern::Pattern => "PATTERN"@,
    }
}

/// Whether the pattern detector is in use.
#[derive(Clone, Copy, Debug, PartialEq, Eq, Structural)]
pub enum UsePatternDetect {
    NoPatDet,
    PatDet,
}

/// Parameter text of a pattern-detector usage.
pub open spec fn use_pattern_detect_text(v: UsePatternDetect) -> Seq<char> {
    match v {
        UsePatternDetect::NoPatDet => "NO_PATDET"@,
        UsePatternDetect::PatDet => "PATDET"@,
    }
}

impl InputTy {
    pub fn to_expr(&self) -> (r: vl::Expr)
        ensures
            r matches vl::Expr::Str(s) && s@ == input_ty_text(*self),
    {
        match self {
            InputTy::Direct => vl::Expr::new_str("DIRECT"),
            InputTy::Cascade => vl::Expr::new_str("CASCADE"),
        }
    }
}

impl AMultSel {
    pub fn to_expr(&self) -> (r: vl::Expr)
        ensures
            r matches vl::Expr::Str(s) && s@ == a_mult_sel_text(*self),
    {
        match self {
            AMultSel::A => vl::Expr::new_str("A"),
            AMultSel::AD => vl::Expr::new_str("AD"),
        }
    }
}

impl BMultSel {
    pub fn to_expr(&self) -> (r: vl::Expr)
        ensures
            r matches vl::Expr::Str(s) && s@ == b_mult_sel_text(*self),
    {
        match self {
            BMultSel::B => vl::Expr::new_str("B"),
            BMultSel::AD => vl::Expr::new_str("AD"),
        }
    }
}

impl PreAddInSel {
    pub fn to_expr(&self) -> (r: vl::Expr)
        ensures
            r matches vl::Expr::Str(s) && s@ == pre_add_in_sel_text(*self),
    {
        match self {
            PreAddInSel::A => vl::Expr::new_str("A"),
            PreAddInSel::B => vl::Expr::new_str("B"),
        }
    }
}

impl UseMult {
    pub fn to_expr(&self) -> (r: vl::Expr)
        ensures
            r matches vl::Expr::Str(s) && s@ == use_mult_text(*self),
    {
        match self {
            UseMult::Multiply => vl::Expr::new_str("MULTIPLY"),
            UseMult::Dynamic => vl::Expr::new_str("DYNAMIC"),
            UseMult::Off => vl::Expr::new_str("NONE"),
        }
    }
}

impl UseSimd {
    pub fn to_expr(&self) -> (r: vl::Expr)
        ensures
            r matches vl::Expr::Str(s) && s@ == use_simd_text(*self),
    {
        match self {
            UseSimd::One => vl::Expr::new_str("ONE48"),
            UseSimd::Two => vl::Expr::new_str("TWO24"),
            UseSimd::Four => vl::Expr::new_str("FOUR12"),
        }
    }
}

impl XorSimd {
    pub fn to_expr(&self) -> (r: vl::Expr)
        ensures
            r matches vl::Expr::Str(s) && s@ == xor_simd_text(*self),
    {
        match self {
            XorSimd::One => vl::Expr::new_str("XOR12"),
            XorSimd::Two => vl::Expr::new_str("XOR24_48_96"),
        }
    }
}

impl AutoResetPatDet {
    pub fn to_expr(&self) -> (r: vl::Expr)
        ensures
            r matches vl::Expr::Str(s) && s@ == auto_reset_pat_det_text(*self),
    {
        match self {
            AutoResetPatDet::NoReset => vl::Expr::new_str("NO_RESET"),
            AutoResetPatDet::ResetMatch => vl::Expr::new_str("RESET_MATCH"),
            AutoResetPatDet::ResetNotMatch => vl::Expr::new_str("RESET_NOT_MATCH"),
        }
    }
}

impl AutoResetPriority {
    pub fn to_expr(&self) -> (r: vl::Expr)
        ensures
            r matches vl::Expr::Str(s) && s@ == auto_reset_priority_text(*self),
    {
        match self {
            AutoResetPriority::Reset => vl::Expr::new_str("RESET"),
            AutoResetPriority::Cep => vl::Expr::new_str("CEP"),
        }
    }
}

impl SelMask {
    pub fn to_expr(&self) -> (r: vl::Expr)
        ensures
            r matches vl::Expr::Str(s) && s@ == sel_mask_text(*self),
    {
        match self {
            SelMask::C => vl::Expr::new_str("C"),
            SelMask::Mask => vl::Expr::new_str("MASK"),
            SelMask::RoundModeOne => vl::Expr::new_str("ROUNDING_MODE1"),
            SelMask::RoundModeTwo => vl::Expr::new_str("ROUNDING_MODE2"),
        }
    }
}

impl SelPattern {
    pub fn to_expr(&self) -> (r: vl::Expr)
        ensures
            r matches vl::Expr::Str(s) && s@ == sel_pattern_text(*self),
    {
        match self {
            SelPattern::C => vl::Expr::new_str("C"),
            SelPattern::Pattern => vl::Expr::new_str("PATTERN"),
        }
    }
}

impl UsePatternDetect {
    pub fn to_expr(&self) -> (r: vl::Expr)
        ensures
            r matches vl::Expr::Str(s) && s@ == use_pattern_detect_text(*self),
    {
        match self {
            UsePatternDetect::NoPatDet => vl::Expr::new_str("NO_PATDET"),
            UsePatternDetect::PatDet => vl::Expr::new_str("PATDET"),
        }
    }
}

/// Every attribute of the DSP macro.
#[derive(Clone, Debug)]
pub struct Attr {
    pub a_input: InputTy,
    pub b_input: InputTy,
    pub a_multsel: AMultSel,
    pub b_multsel: BMultSel,
    pub preaddinsel: PreAddInSel,
    pub rnd: u64,
    pub use_mult: UseMult,
    pub use_simd: UseSimd,
    pub use_widexor: bool,
    pub xorsimd: XorSimd,
    pub autoreset_patdet: AutoResetPatDet,
    pub autoreset_priority: AutoResetPriority,
    pub mask: u64,
    pub pattern: u64,
    pub sel_mask: SelMask,
    pub sel_pattern: SelPattern,
    pub use_pattern_detect: UsePatternDetect,
    pub is_alumode_inverted: u64,
    pub is_carryin_inverted: bool,
    pub is_clk_inverted: bool,
    pub is_inmode_inverted: u64,
    pub is_opmode_inverted: u64,
    pub is_rstallcarryin_inverted: bool,
    pub is_rstalumode_inverted: bool,
}

impl Default for Attr {
    /// The quiet configuration: direct inputs, multiplier on, one full-width
    /// lane, no pattern detection, nothing inverted, and the mask at its
    /// match-everything default.
    fn default() -> (r: Attr)
        ensures
            r.a_input is Direct,
            r.b_input is Direct,
            r.a_multsel is A,
            r.b_multsel is B,
            r.preaddinsel is A,
            r.rnd == 0,
            r.use_mult is Multiply,
            r.use_simd is One,
            !r.use_widexor,
            r.xorsimd is Two,
            r.autoreset_patdet is NoReset,
            r.autoreset_priority is Reset,
            r.mask == 0x3fffffffffff,
            r.pattern == 0,
            r.sel_mask is Mask,
            r.sel_pattern is Pattern,
            r.use_pattern_detect is NoPatDet,
            r.is_alumode_inverted == 0,
            !r.is_carryin_inverted,
            !r.is_clk_inverted,
            r.is_inmode_inverted == 0,
            r.is_opmode_inverted == 0,
            !r.is_rstallcarryin_inverted,
            !r.is_rstalumode_inverted,
    {
        Attr {
            a_input: InputTy::Direct,
            b_input: InputTy::Direct,
            a_multsel: AMultSel::A,
            b_multsel: BMultSel::B,
            preaddinsel: PreAddInSel::A,
            rnd: 0,
            use_mult: UseMult::Multiply,
            use_simd: UseSimd::One,
            use_widexor: false,
            xorsimd: XorSimd::Two,
            autoreset_patdet: AutoResetPatDet::NoReset,
            autoreset_priority: AutoResetPriority::Reset,
            mask: 0x3fffffffffff,
            pattern: 0,
            sel_mask: SelMask::Mask,
            sel_pattern: SelPattern::Pattern,
            use_pattern_detect: UsePatternDetect::NoPatDet,
            is_alumode_inverted: 0,
            is_carryin_inverted: false,
            is_clk_inverted: false,
            is_inmode_inverted: 0,
            is_opmode_inverted: 0,
            is_rstallcarryin_inverted: false,
            is_rstalumode_inverted: false,
        }
    }
}

/// A named DSP macro instance with its full attribute set.
#[derive(Clone, Debug)]
pub struct Dsp {
    pub name: String,
    pub prim: String,
    pub attr: Attr,
}

impl Default for Dsp {
    fn default() -> (r: Dsp)
        ensures
            r.name@ == Seq::<char>::empty(),
            r.prim@ == "DSP48E2"@,
    {
        Dsp { name: String::new(), prim: "DSP48E2".to_owned(), attr: Attr::default() }
    }
}

/// The binary text of a single control bit.
pub open spec fn bit_text(b: bool) -> Seq<char> {
    if b {
        "1"@
    } else {
        "0"@
    }
}

/// The one-bit binary literal of a control flag.
fn bool_bin(b: bool) -> (r: vl::Expr)
    ensures
        r matches vl::Expr::UlitBin(w, s) && w == 1 && s@ == bit_text(b),
{
    if b {
        vl::Expr::new_ulit_bin(1, "1")
    } else {
        vl::Expr::new_ulit_bin(1, "0")
    }
}

impl Dsp {
    /// Expands the configuration into an instance: every attribute becomes
    /// one parameter, enums by their text, flags as one-bit binary
    /// literals, and the wide values as 48-bit hexadecimal literals.
    #[verifier::rlimit(50)]
    pub fn to_instance(&self) -> (r: vl::Instance)
        ensures
            r@.id == self.name@,
            r@.prim == self.prim@,
            r@.ports.len() == 0,
            r@.params.len() == 24,
            p_str(r@.params[0], "A_INPUT"@, input_ty_text(self.attr.a_input)),
            p_str(r@.params[1], "B_INPUT"@, input_ty_text(self.attr.b_input)),
            p_str(r@.params[2], "AMULTSEL"@, a_mult_sel_text(self.attr.a_multsel)),
            p_str(r@.params[3], "BMULTSEL"@, b_mult_sel_text(self.attr.b_multsel)),
            p_str(r@.params[4], "PREADDINSEL"@, pre_add_in_sel_text(self.attr.preaddinsel)),
            p_hex(r@.params[5], "RND"@, 48, numfmt::hex_seq(self.attr.rnd as nat)),
            p_str(r@.params[6], "USE_MULT"@, use_mult_text(self.attr.use_mult)),
            p_str(r@.params[7], "USE_SIMD"@, use_simd_text(self.attr.use_simd)),
            p_str(
                r@.params[8],
                "USE_WIDEXOR"@,
                if self.attr.use_widexor {
                    "TRUE"@
                } else {
                    "FALSE"@
                },
            ),
            p_str(r@.params[9], "XORSIMD"@, xor_simd_text(self.attr.xorsimd)),
            p_str(
                r@.params[10],
                "AUTORESET_PATDET"@,
                auto_reset_pat_det_text(self.attr.autoreset_patdet),
            ),
            p_str(
                r@.params[11],
                "AUTORESET_PRIORITY"@,
                auto_reset_priority_text(self.attr.autoreset_priority),
            ),
            p_hex(r@.params[12], "MASK"@, 48, numfmt::hex_seq(self.attr.mask as nat)),
            p_hex(r@.params[13], "PATTERN"@, 48, numfmt::hex_seq(self.attr.pattern as nat)),
            p_str(r@.params[14], "SEL_MASK"@, sel_mask_text(self.attr.sel_mask)),
            p_str(r@.params[15], "SEL_PATTERN"@, sel_pattern_text(self.attr.sel_pattern)),
            p_str(
                r@.params[16],
                "USE_PATTERN_DETECT"@,
                use_pattern_detect_text(self.attr.use_pattern_detect),
            ),
            p_hex(
                r@.params[17],
                "IS_ALUMODE_INVERTED"@,
                4,
                numfmt::hex_seq(self.attr.is_alumode_inverted as nat),
            ),
            p_bin(r@.params[18], "IS_CARRYIN_INVERTED"@, 1, bit_text(self.attr.is_carryin_inverted)),
            p_bin(r@.params[19], "IS_CLK_INVERTED"@, 1, bit_text(self.attr.is_clk_inverted)),
            p_hex(
                r@.params[20],
                "IS_INMODE_INVERTED"@,
                5,
                numfmt::hex_seq(self.attr.is_inmode_inverted as nat),
            ),
            p_hex(
                r@.params[21],
                "IS_OPMODE_INVERTED"@,
                9,
                numfmt::hex_seq(self.attr.is_opmode_inverted as nat),
            ),
            p_bin(
                r@.params[22],
                "IS_RSTALLCARRYIN_INVERTED"@,
                1,
                bit_text(self.attr.is_rstallcarryin_inverted),
            ),
            p_bin(
                r@.params[23],
                "IS_RSTALUMODE_INVERTED"@,
                1,
                bit_text(self.attr.is_rstalumode_inverted),
            ),
    {
        let mut inst = vl::Instance::new(self.name.as_str(), self.prim.as_str());
        inst.add_param("A_INPUT", self.attr.a_input.to_expr());
        inst.add_param("B_INPUT", self.attr.b_input.to_expr());
        inst.add_param("AMULTSEL", self.attr.a_multsel.to_expr());
        inst.add_param("BMULTSEL", self.attr.b_multsel.to_expr());
        inst.add_param("PREADDINSEL", self.attr.preaddinsel.to_expr());
        let rnd_hex = numfmt::u64_to_hex(self.attr.rnd);
        inst.add_param("RND", vl::Expr::new_ulit_hex(48, rnd_hex.as_str()));
        inst.add_param("USE_MULT", self.attr.use_mult.to_expr());
        inst.add_param("USE_SIMD", self.attr.use_simd.to_expr());
        let widexor = if self.attr.use_widexor {
            vl::Expr::new_str("TRUE")
        } else {
            vl::Expr::new_str("FALSE")
        };
        inst.add_param("USE_WIDEXOR", widexor);
        inst.add_param("XORSIMD", self.attr.xorsimd.to_expr());
        inst.add_param("AUTORESET_PATDET", self.attr.autoreset_patdet.to_expr());
        inst.add_param("AUTORESET_PRIORITY", self.attr.autoreset_priority.to_expr());
        let mask_hex = numfmt::u64_to_hex(self.attr.mask);
        inst.add_param("MASK", vl::Expr::new_ulit_hex(48, mask_hex.as_str()));
        let pattern_hex = numfmt::u64_to_hex(self.attr.pattern);
        inst.add_param("PATTERN", vl::Expr::new_ulit_hex(48, pattern_hex.as_str()));
        inst.add_param("SEL_MASK", self.attr.sel_mask.to_expr());
        inst.add_param("SEL_PATTERN", self.attr.sel_pattern.to_expr());
        inst.add_param("USE_PATTERN_DETECT", self.attr.use_pattern_detect.to_expr());
        let alu_hex = numfmt::u64_to_hex(self.attr.is_alumode_inverted);
        inst.add_param("IS_ALUMODE_INVERTED", vl::Expr::new_ulit_hex(4, alu_hex.as_str()));
        inst.add_param("IS_CARRYIN_INVERTED", bool_bin(self.attr.is_carryin_inverted));
        inst.add_param("IS_CLK_INVERTED", bool_bin(self.attr.is_clk_inverted));
        let inmode_hex = numfmt::u64_to_hex(self.attr.is_inmode_inverted);
        inst.add_param("IS_INMODE_INVERTED", vl::Expr::new_ulit_hex(5, inmode_hex.as_str()));
        let opmode_hex = numfmt::u64_to_hex(self.attr.is_opmode_inverted);
        inst.add_param("IS_OPMODE_INVERTED", vl::Expr::new_ulit_hex(9, opmode_hex.as_str()));
        inst.add_param(
            "IS_RSTALLCARRYIN_INVERTED",
            bool_bin(self.attr.is_rstallcarryin_inverted),
        );
        inst.add_param("IS_RSTALUMODE_INVERTED", bool_bin(self.attr.is_rstalumode_inverted));
        inst
    }

    pub fn set_name(&mut self, name: &str)
        ensures
            final(self).name@ == name@,
            final(self).prim == old(self).prim,
            final(self).attr == old(self).attr,
    {
        self.name = name.to_owned();
    }
}

} // verus!
