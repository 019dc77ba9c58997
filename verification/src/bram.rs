//! The block-RAM macro's catalog entry: its large fixed parameter set,
//! defaulted to zero or their quiet modes, and its full port list.

use crate::numfmt;
use crate::prims::{Param, ParamSet, Port, PortSet, Prim, ToPrim};
use vstd::prelude::*;

verus! {

/// Cascade position of the RAM block.
#[derive(Clone, Copy, Debug, PartialEq, Eq, Structural)]
pub enum CascadeOrder {
    First,
    Middle,
    Last,
    Off,
}

/// Whether the two ports share one clock domain.
#[derive(Clone, Copy, Debug, PartialEq, Eq, Structural)]
pub enum ClockDomains {
    Common,
    Independent,
}

/// Simulation collision checking.
#[derive(Clone, Copy, Debug, PartialEq, Eq, Structural)]
pub enum CollisionCheck {
    All,
    GenX,
    Off,
    Warning,
}

/// An optional initialisation file.
#[derive(Clone, Debug, PartialEq, Eq)]
pub enum FilePath {
    Given(String),
    Absent,
}

/// Priority between the register reset and its clock enable.
#[derive(Clone, Copy, Debug, PartialEq, Eq, Structural)]
pub enum RstRegPriority {
    RstReg,
    RegCe,
}

/// Behaviour of a write port on a read collision.
#[derive(Clone, Copy, Debug, PartialEq, Eq, Structural)]
pub enum WriteMode {
    WriteFirst,
    NoChange,
    ReadFirst,
}

/// A parameter value of the RAM macro. Two values agree exactly when they
/// are of the same kind; plain-number flags never agree, so they can only
/// keep their defaults.
#[derive(Clone, Debug)]
pub enum ParamValue {
    CascadeOrder(CascadeOrder),
    ClockDomains(ClockDomains),
    CollisionCheck(CollisionCheck),
    Bool(bool),
    BoolNum(bool),
    BoolStr(bool),
    Bytes(u32, Vec<u8>),
    Num(i64),
    FilePath(FilePath),
    RstRegPriority(RstRegPriority),
    WriteMode(WriteMode),
}

/// Kind agreement of two RAM parameter values.
pub open spec fn pv_eq(a: ParamValue, b: ParamValue) -> bool {
    match (a, b) {
        (ParamValue::CascadeOrder(_), ParamValue::CascadeOrder(_)) => true,
        (ParamValue::ClockDomains(_), ParamValue::ClockDomains(_)) => true,
        (ParamValue::CollisionCheck(_), ParamValue::CollisionCheck(_)) => true,
        (ParamValue::Bool(_), ParamValue::Bool(_)) => true,
        (ParamValue::BoolStr(_), ParamValue::BoolStr(_)) => true,
        (ParamValue::Bytes(_, _), ParamValue::Bytes(_, _)) => true,
        (ParamValue::Num(_), ParamValue::Num(_)) => true,
        (ParamValue::FilePath(_), ParamValue::FilePath(_)) => true,
        (ParamValue::RstRegPriority(_), ParamValue::RstRegPriority(_)) => true,
        (ParamValue::WriteMode(_), ParamValue::WriteMode(_)) => true,
        (_, _) => false,
    }
}

impl PartialEq for ParamValue {
    fn eq(&self, other: &ParamValue) -> (r: bool) {
        match (self, other) {
            (ParamValue::CascadeOrder(_), ParamValue::CascadeOrder(_)) => true,
            (ParamValue::ClockDomains(_), ParamValue::ClockDomains(_)) => true,
            (ParamValue::CollisionCheck(_), ParamValue::CollisionCheck(_)) => true,
            (ParamValue::Bool(_), ParamValue::Bool(_)) => true,
            (ParamValue::BoolStr(_), ParamValue::BoolStr(_)) => true,
            (ParamValue::Bytes(_, _), ParamValue::Bytes(_, _)) => true,
            (ParamValue::Num(_), ParamValue::Num(_)) => true,
            (ParamValue::FilePath(_), ParamValue::FilePath(_)) => true,
            (ParamValue::RstRegPriority(_), ParamValue::RstRegPriority(_)) => true,
            (ParamValue::WriteMode(_), ParamValue::WriteMode(_)) => true,
            (_, _) => false,
        }
    }
}

impl vstd::std_specs::cmp::PartialEqSpecImpl for ParamValue {
    open spec fn obeys_eq_spec() -> bool {
        true
    }

    open spec fn eq_spec(&self, other: &ParamValue) -> bool {
        pv_eq(*self, *other)
    }
}

impl Eq for ParamValue {}

/// Name of the `i`-th parity init slice.
pub open spec fn initp_name(i: int) -> Seq<char> {
    "INITP_"@ + numfmt::hex2_upper(i as nat)
}

/// Name of the `i`-th data init slice.
pub open spec fn init_name(i: int) -> Seq<char> {
    "INIT_"@ + numfmt::hex2_upper(i as nat)
}

/// An all-zero 256-bit init slice.
pub open spec fn zero_slice(v: ParamValue) -> bool {
    &&& v matches ParamValue::Bytes(w, bytes)
    &&& w == 256
    &&& bytes@.len() == 32
    &&& forall|z: int| 0 <= z < 32 ==> #[trigger] bytes@[z] == 0u8
}

/// 32 zero bytes.
fn zero_bytes() -> (r: Vec<u8>)
    ensures
        r@.len() == 32,
        forall|z: int| 0 <= z < 32 ==> #[trigger] r@[z] == 0u8,
{
    let mut v: Vec<u8> = Vec::new();
    let mut k: usize = 0;
    while k < 32
        invariant
            k <= 32,
            v@.len() == k,
            forall|z: int| 0 <= z < k ==> #[trigger] v@[z] == 0u8,
        decreases 32 - k,
    {
        v.push(0);
        k = k + 1;
    }
    v
}

/// The RAM macro's declared parameters, in declaration order: the
/// cascade and clocking modes, the 72 init slices all zero, and every
/// width, priority, and polarity flag at its quiet default.
pub open spec fn bram_params_ok(items: Seq<Param<ParamValue>>) -> bool {
    &&& items.len() == 104
    &&& items[0].name@ == "CASCADE_ORDER_A"@ && items[0].width is None && items[0].value == ParamValue::CascadeOrder(CascadeOrder::Off)
    &&& items[1].name@ == "CASCADE_ORDER_B"@ && items[1].width is None && items[1].value == ParamValue::CascadeOrder(CascadeOrder::Off)
    &&& items[2].name@ == "CLOCK_DOMAINS"@ && items[2].width is None && items[2].value == ParamValue::ClockDomains(ClockDomains::Independent)
    &&& items[3].name@ == "SIM_COLLISION_CHECK"@ && items[3].width is None && items[3].value == ParamValue::CollisionCheck(CollisionCheck::All)
    &&& items[4].name@ == "DOA_REG"@ && items[4].width is None && items[4].value == ParamValue::BoolNum(false)
    &&& items[5].name@ == "DOB_REG"@ && items[5].width is None && items[5].value == ParamValue::BoolNum(false)
    &&& items[6].name@ == "ENADDRENA"@ && items[6].width is None && items[6].value == ParamValue::BoolStr(false)
    &&& items[7].name@ == "ENADDRENB"@ && items[7].width is None && items[7].value == ParamValue::BoolStr(false)
    &&& forall|i: int| 0 <= i < 8 ==> (#[trigger] items[8 + i]).name@ == initp_name(i) && items[8 + i].width == Some(256u32) && zero_slice(items[8 + i].value)
    &&& forall|i: int| 0 <= i < 64 ==> (#[trigger] items[16 + i]).name@ == init_name(i) && items[16 + i].width == Some(256u32) && zero_slice(items[16 + i].value)
    &&& items[80].name@ == "INIT_A"@ && items[80].width == Some(18u32) && items[80].value == ParamValue::Num(0)
    &&& items[81].name@ == "INIT_B"@ && items[81].width == Some(18u32) && items[81].value == ParamValue::Num(0)
    &&& items[82].name@ == "INIT_FILE"@ && items[82].width is None && items[82].value == ParamValue::FilePath(FilePath::Absent)
    &&& items[83].name@ == "IS_CLKARDCLK_INVERTED"@ && items[83].width == Some(1u32) && items[83].value == ParamValue::Bool(false)
    &&& items[84].name@ == "IS_CLKBWRCLK_INVERTED"@ && items[84].width == Some(1u32) && items[84].value == ParamValue::Bool(false)
    &&& items[85].name@ == "IS_ENARDEN_INVERTED"@ && items[85].width == Some(1u32) && items[85].value == ParamValue::Bool(false)
    &&& items[86].name@ == "IS_ENBWREN_INVERTED"@ && items[86].width == Some(1u32) && items[86].value == ParamValue::Bool(false)
    &&& items[87].name@ == "IS_RSTRAMARSTRAM_INVERTED"@ && items[87].width == Some(1u32) && items[87].value == ParamValue::Bool(false)
    &&& items[88].name@ == "IS_RSTRAMB_INVERTED"@ && items[88].width == Some(1u32) && items[88].value == ParamValue::Bool(false)
    &&& items[89].name@ == "IS_RSTREGARSTREG_INVERTED"@ && items[89].width == Some(1u32) && items[89].value == ParamValue::Bool(false)
    &&& items[90].name@ == "IS_RSTREGB_INVERTED"@ && items[90].width == Some(1u32) && items[90].value == ParamValue::Bool(false)
    &&& items[91].name@ == "RDADDRCHANGEA"@ && items[91].width is None && items[91].value == ParamValue::BoolStr(false)
    &&& items[92].name@ == "RDADDRCHANGEB"@ && items[92].width is None && items[92].value == ParamValue::BoolStr(false)
    &&& items[93].name@ == "READ_WIDTH_A"@ && items[93].width is None && items[93].value == ParamValue::Num(0)
    &&& items[94].name@ == "READ_WIDTH_B"@ && items[94].width is None && items[94].value == ParamValue::Num(0)
    &&& items[95].name@ == "WRITE_WIDTH_A"@ && items[95].width is None && items[95].value == ParamValue::Num(0)
    &&& items[96].name@ == "WRITE_WIDTH_B"@ && items[96].width is None && items[96].value == ParamValue::Num(0)
    &&& items[97].name@ == "RSTREG_PRIORITY_A"@ && items[97].width is None && items[97].value == ParamValue::RstRegPriority(RstRegPriority::RstReg)
    &&& items[98].name@ == "RSTREG_PRIORITY_B"@ && items[98].width is None && items[98].value == ParamValue::RstRegPriority(RstRegPriority::RstReg)
    &&& items[99].name@ == "SRVAL_A"@ && items[99].width == Some(18u32) && items[99].value == ParamValue::Num(0)
    &&& items[100].name@ == "SRVAL_B"@ && items[100].width == Some(18u32) && items[100].value == ParamValue::Num(0)
    &&& items[101].name@ == "SLEEP_ASYNC"@ && items[101].width is None && items[101].value == ParamValue::BoolStr(false)
    &&& items[102].name@ == "WRITE_MODE_A"@ && items[102].width is None && items[102].value == ParamValue::WriteMode(WriteMode::NoChange)
    &&& items[103].name@ == "WRITE_MODE_B"@ && items[103].width is None && items[103].value == ParamValue::WriteMode(WriteMode::NoChange)
}

/// The RAM macro's input ports, in declaration order, with their widths.
pub open spec fn bram_inputs_ok(items: Seq<Port>) -> bool {
    &&& items.len() == 35
    &&& items[0].name@ == "CASDIMUXA"@ && items[0].width == 1
    &&& items[1].name@ == "CASDIMUXB"@ && items[1].width == 1
    &&& items[2].name@ == "CASDINA"@ && items[2].width == 16
    &&& items[3].name@ == "CASDINB"@ && items[3].width == 16
    &&& items[4].name@ == "CASDINPA"@ && items[4].width == 2
    &&& items[5].name@ == "CASDINPB"@ && items[5].width == 2
    &&& items[6].name@ == "CASDOMUXA"@ && items[6].width == 1
    &&& items[7].name@ == "CASDOMUXB"@ && items[7].width == 1
    &&& items[8].name@ == "CASDOMUXEN_A"@ && items[8].width == 1
    &&& items[9].name@ == "CASDOMUXEN_B"@ && items[9].width == 1
    &&& items[10].name@ == "CASOREGIMUXA"@ && items[10].width == 1
    &&& items[11].name@ == "CASOREGIMUXB"@ && items[11].width == 1
    &&& items[12].name@ == "CASOREGIMUXEN_A"@ && items[12].width == 1
    &&& items[13].name@ == "CASOREGIMUXEN_B"@ && items[13].width == 1
    &&& items[14].name@ == "ADDRARDADDR"@ && items[14].width == 14
    &&& items[15].name@ == "ADDRENA"@ && items[15].width == 1
    &&& items[16].name@ == "CLKARDCLK"@ && items[16].width == 1
    &&& items[17].name@ == "ENARDEN"@ && items[17].width == 1
    &&& items[18].name@ == "REGCEAREGCE"@ && items[18].width == 1
    &&& items[19].name@ == "RSTRAMARSTRAM"@ && items[19].width == 1
    &&& items[20].name@ == "RSTREGARSTREG"@ && items[20].width == 1
    &&& items[21].name@ == "WEA"@ && items[21].width == 2
    &&& items[22].name@ == "DINADIN"@ && items[22].width == 16
    &&& items[23].name@ == "DINPADINP"@ && items[23].width == 2
    &&& items[24].name@ == "ADDRBWRADDR"@ && items[24].width == 14
    &&& items[25].name@ == "ADDRENB"@ && items[25].width == 1
    &&& items[26].name@ == "CLKBWRCLK"@ && items[26].width == 1
    &&& items[27].name@ == "ENBWREN"@ && items[27].width == 1
    &&& items[28].name@ == "REGCEB"@ && items[28].width == 1
    &&& items[29].name@ == "RSTRAMB"@ && items[29].width == 1
    &&& items[30].name@ == "RSTREGB"@ && items[30].width == 1
    &&& items[31].name@ == "SLEEP"@ && items[31].width == 1
    &&& items[32].name@ == "WEBWE"@ && items[32].width == 4
    &&& items[33].name@ == "DINBDIN"@ && items[33].width == 16
    &&& items[34].name@ == "DINPBDINP"@ && items[34].width == 2
}

/// The RAM macro's output ports, in declaration order, with their widths.
pub open spec fn bram_outputs_ok(items: Seq<Port>) -> bool {
    &&& items.len() == 8
    &&& items[0].name@ == "CASDOUTA"@ && items[0].width == 16
    &&& items[1].name@ == "CASDOUTB"@ && items[1].width == 16
    &&& items[2].name@ == "CASDOUTPA"@ && items[2].width == 2
    &&& items[3].name@ == "CASDOUTPB"@ && items[3].width == 2
    &&& items[4].name@ == "DOUTADOUT"@ && items[4].width == 16
    &&& items[5].name@ == "DOUTPADOUTP"@ && items[5].width == 2
    &&& items[6].name@ == "DOUTBDOUT"@ && items[6].width == 16
    &&& items[7].name@ == "DOUTPBDOUTP"@ && items[7].width == 2
}

/// Builder of the RAM macro's catalog entry.
#[derive(Clone, Debug, Default)]
struct BramPrim;

impl BramPrim {
    /// The fixed parameter set, defaulted to zero or their quiet modes.
    #[verifier::rlimit(100)]
    fn param_set() -> (r: ParamSet<ParamValue>)
        ensures
            bram_params_ok(r.items@),
    {
        let mut param: ParamSet<ParamValue> = ParamSet::new();
        param.insert(Param { name: "CASCADE_ORDER_A".to_owned(), width: None, value: ParamValue::CascadeOrder(CascadeOrder::Off) });
        param.insert(Param { name: "CASCADE_ORDER_B".to_owned(), width: None, value: ParamValue::CascadeOrder(CascadeOrder::Off) });
        param.insert(Param { name: "CLOCK_DOMAINS".to_owned(), width: None, value: ParamValue::ClockDomains(ClockDomains::Independent) });
        param.insert(Param { name: "SIM_COLLISION_CHECK".to_owned(), width: None, value: ParamValue::CollisionCheck(CollisionCheck::All) });
        param.insert(Param { name: "DOA_REG".to_owned(), width: None, value: ParamValue::BoolNum(false) });
        param.insert(Param { name: "DOB_REG".to_owned(), width: None, value: ParamValue::BoolNum(false) });
        param.insert(Param { name: "ENADDRENA".to_owned(), width: None, value: ParamValue::BoolStr(false) });
        param.insert(Param { name: "ENADDRENB".to_owned(), width: None, value: ParamValue::BoolStr(false) });
        let mut i: u64 = 0;
        while i < 8
            invariant
                i <= 8,
                param.items@.len() == 8 + i,
                forall|t: int|
                    0 <= t < 8 ==> (#[trigger] param.items@[t]).name@ == old_head_name(t)
                        && param.items@[t].width == old_head_width(t) && param.items@[t].value
                        == old_head_value(t),
                forall|t: int|
                    0 <= t < i ==> (#[trigger] param.items@[8 + t]).name@ == initp_name(t)
                        && param.items@[8 + t].width == Some(256u32) && zero_slice(
                        param.items@[8 + t].value,
                    ),
            decreases 8 - i,
        {
            let mut name = "INITP_".to_owned();
            name.append(numfmt::u64_to_hex2_upper(i).as_str());
            param.insert(Param { name, width: Some(256u32), value: ParamValue::Bytes(256, zero_bytes()) });
            i = i + 1;
        }
        let mut j: u64 = 0;
        while j < 64
            invariant
                j <= 64,
                param.items@.len() == 16 + j,
                forall|t: int|
                    0 <= t < 8 ==> (#[trigger] param.items@[t]).name@ == old_head_name(t)
                        && param.items@[t].width == old_head_width(t) && param.items@[t].value
                        == old_head_value(t),
                forall|t: int|
                    0 <= t < 8 ==> (#[trigger] param.items@[8 + t]).name@ == initp_name(t)
                        && param.items@[8 + t].width == Some(256u32) && zero_slice(
                        param.items@[8 + t].value,
                    ),
                forall|t: int|
                    0 <= t < j ==> (#[trigger] param.items@[16 + t]).name@ == init_name(t)
                        && param.items@[16 + t].width == Some(256u32) && zero_slice(
                        param.items@[16 + t].value,
                    ),
            decreases 64 - j,
        {
            let mut name = "INIT_".to_owned();
            name.append(numfmt::u64_to_hex2_upper(j).as_str());
            param.insert(Param { name, width: Some(256u32), value: ParamValue::Bytes(256, zero_bytes()) });
            j = j + 1;
        }
        param.insert(Param { name: "INIT_A".to_owned(), width: Some(18u32), value: ParamValue::Num(0) });
        param.insert(Param { name: "INIT_B".to_owned(), width: Some(18u32), value: ParamValue::Num(0) });
        param.insert(Param { name: "INIT_FILE".to_owned(), width: None, value: ParamValue::FilePath(FilePath::Absent) });
        param.insert(Param { name: "IS_CLKARDCLK_INVERTED".to_owned(), width: Some(1u32), value: ParamValue::Bool(false) });
        param.insert(Param { name: "IS_CLKBWRCLK_INVERTED".to_owned(), width: Some(1u32), value: ParamValue::Bool(false) });
        param.insert(Param { name: "IS_ENARDEN_INVERTED".to_owned(), width: Some(1u32), value: ParamValue::Bool(false) });
        param.insert(Param { name: "IS_ENBWREN_INVERTED".to_owned(), width: Some(1u32), value: ParamValue::Bool(false) });
        param.insert(Param { name: "IS_RSTRAMARSTRAM_INVERTED".to_owned(), width: Some(1u32), value: ParamValue::Bool(false) });
        param.insert(Param { name: "IS_RSTRAMB_INVERTED".to_owned(), width: Some(1u32), value: ParamValue::Bool(false) });
        param.insert(Param { name: "IS_RSTREGARSTREG_INVERTED".to_owned(), width: Some(1u32), value: ParamValue::Bool(false) });
        param.insert(Param { name: "IS_RSTREGB_INVERTED".to_owned(), width: Some(1u32), value: ParamValue::Bool(false) });
        param.insert(Param { name: "RDADDRCHANGEA".to_owned(), width: None, value: ParamValue::BoolStr(false) });
        param.insert(Param { name: "RDADDRCHANGEB".to_owned(), width: None, value: ParamValue::BoolStr(false) });
        param.insert(Param { name: "READ_WIDTH_A".to_owned(), width: None, value: ParamValue::Num(0) });
        param.insert(Param { name: "READ_WIDTH_B".to_owned(), width: None, value: ParamValue::Num(0) });
        param.insert(Param { name: "WRITE_WIDTH_A".to_owned(), width: None, value: ParamValue::Num(0) });
        param.insert(Param { name: "WRITE_WIDTH_B".to_owned(), width: None, value: ParamValue::Num(0) });
        param.insert(Param { name: "RSTREG_PRIORITY_A".to_owned(), width: None, value: ParamValue::RstRegPriority(RstRegPriority::RstReg) });
        param.insert(Param { name: "RSTREG_PRIORITY_B".to_owned(), width: None, value: ParamValue::RstRegPriority(RstRegPriority::RstReg) });
        param.insert(Param { name: "SRVAL_A".to_owned(), width: Some(18u32), value: ParamValue::Num(0) });
        param.insert(Param { name: "SRVAL_B".to_owned(), width: Some(18u32), value: ParamValue::Num(0) });
        param.insert(Param { name: "SLEEP_ASYNC".to_owned(), width: None, value: ParamValue::BoolStr(false) });
        param.insert(Param { name: "WRITE_MODE_A".to_owned(), width: None, value: ParamValue::WriteMode(WriteMode::NoChange) });
        param.insert(Param { name: "WRITE_MODE_B".to_owned(), width: None, value: ParamValue::WriteMode(WriteMode::NoChange) });
        param
    }

    /// The full input port list.
    #[verifier::rlimit(60)]
    fn input_set() -> (r: PortSet)
        ensures
            bram_inputs_ok(r.items@),
    {
        let mut port = PortSet::new();
        port.insert(Port::new("CASDIMUXA", 1));
        port.insert(Port::new("CASDIMUXB", 1));
        port.insert(Port::new("CASDINA", 16));
        port.insert(Port::new("CASDINB", 16));
        port.insert(Port::new("CASDINPA", 2));
        port.insert(Port::new("CASDINPB", 2));
        port.insert(Port::new("CASDOMUXA", 1));
        port.insert(Port::new("CASDOMUXB", 1));
        port.insert(Port::new("CASDOMUXEN_A", 1));
        port.insert(Port::new("CASDOMUXEN_B", 1));
        port.insert(Port::new("CASOREGIMUXA", 1));
        port.insert(Port::new("CASOREGIMUXB", 1));
        port.insert(Port::new("CASOREGIMUXEN_A", 1));
        port.insert(Port::new("CASOREGIMUXEN_B", 1));
        port.insert(Port::new("ADDRARDADDR", 14));
        port.insert(Port::new("ADDRENA", 1));
        port.insert(Port::new("CLKARDCLK", 1));
        port.insert(Port::new("ENARDEN", 1));
        port.insert(Port::new("REGCEAREGCE", 1));
        port.insert(Port::new("RSTRAMARSTRAM", 1));
        port.insert(Port::new("RSTREGARSTREG", 1));
        port.insert(Port::new("WEA", 2));
        port.insert(Port::new("DINADIN", 16));
        port.insert(Port::new("DINPADINP", 2));
        port.insert(Port::new("ADDRBWRADDR", 14));
        port.insert(Port::new("ADDRENB", 1));
        port.insert(Port::new("CLKBWRCLK", 1));
        port.insert(Port::new("ENBWREN", 1));
        port.insert(Port::new("REGCEB", 1));
        port.insert(Port::new("RSTRAMB", 1));
        port.insert(Port::new("RSTREGB", 1));
        port.insert(Port::new("SLEEP", 1));
        port.insert(Port::new("WEBWE", 4));
        port.insert(Port::new("DINBDIN", 16));
        port.insert(Port::new("DINPBDINP", 2));
        port
    }

    /// The full output port list.
    fn output_set() -> (r: PortSet)
        ensures
            bram_outputs_ok(r.items@),
    {
        let mut port = PortSet::new();
        port.insert(Port::new("CASDOUTA", 16));
        port.insert(Port::new("CASDOUTB", 16));
        port.insert(Port::new("CASDOUTPA", 2));
        port.insert(Port::new("CASDOUTPB", 2));
        port.insert(Port::new("DOUTADOUT", 16));
        port.insert(Port::new("DOUTPADOUTP", 2));
        port.insert(Port::new("DOUTBDOUT", 16));
        port.insert(Port::new("DOUTPBDOUTP", 2));
        port
    }
}

/// Name of the `t`-th head parameter.
pub open spec fn old_head_name(t: int) -> Seq<char> {
    if t == 0 {
        "CASCADE_ORDER_A"@
    } else if t == 1 {
        "CASCADE_ORDER_B"@
    } else if t == 2 {
        "CLOCK_DOMAINS"@
    } else if t == 3 {
        "SIM_COLLISION_CHECK"@
    } else if t == 4 {
        "DOA_REG"@
    } else if t == 5 {
        "DOB_REG"@
    } else if t == 6 {
        "ENADDRENA"@
    } else if t == 7 {
        "ENADDRENB"@
    } else {
        ""@
    }
}

/// Width of the `t`-th head parameter.
pub open spec fn old_head_width(t: int) -> Option<u32> {
    None
}

/// Value of the `t`-th head parameter.
pub open spec fn old_head_value(t: int) -> ParamValue {
    if t == 0 {
        ParamValue::CascadeOrder(CascadeOrder::Off)
    } else if t == 1 {
        ParamValue::CascadeOrder(CascadeOrder::Off)
    } else if t == 2 {
        ParamValue::ClockDomains(ClockDomains::Independent)
    } else if t == 3 {
        ParamValue::CollisionCheck(CollisionCheck::All)
    } else if t == 4 {
        ParamValue::BoolNum(false)
    } else if t == 5 {
        ParamValue::BoolNum(false)
    } else if t == 6 {
        ParamValue::BoolStr(false)
    } else if t == 7 {
        ParamValue::BoolStr(false)
    } else {
        ParamValue::Num(0)
    }
}

/// The block-RAM macro's catalog entry.
#[derive(Clone, Debug)]
pub struct Bram(pub Prim<ParamValue>);

impl ToPrim<ParamValue> for BramPrim {
    fn to_name(&self) -> String {
        "RAMB18E2".to_owned()
    }

    fn to_param(&self) -> ParamSet<ParamValue> {
        BramPrim::param_set()
    }

    fn to_input(&self) -> PortSet {
        BramPrim::input_set()
    }

    fn to_output(&self) -> PortSet {
        BramPrim::output_set()
    }
}

impl Default for Bram {
    /// The RAM macro with every parameter at its default and every port
    /// declared.
    fn default() -> (r: Bram)
        ensures
            r.0.name@ == "RAMB18E2"@,
            bram_params_ok(r.0.param.items@),
            bram_inputs_ok(r.0.input.items@),
            bram_outputs_ok(r.0.output.items@),
    {
        Bram(
            Prim {
                name: "RAMB18E2".to_owned(),
                param: BramPrim::param_set(),
                input: BramPrim::input_set(),
                output: BramPrim::output_set(),
            },
        )
    }
}

} // verus!
