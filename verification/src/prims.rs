//! The primitive catalog: each macro's name, declared parameters, and
//! ports. A parameter can only ever be set to a value of its declared
//! kind; a missing or mismatched parameter surfaces as a typed error.

use vstd::prelude::*;
use vstd::std_specs::cmp::PartialEqSpec;

verus! {

/// A declared parameter: its name, an optional bit width, and its value.
#[derive(Clone, Debug)]
pub struct Param<T> {
    pub name: String,
    pub width: Option<u32>,
    pub value: T,
}

impl<T> Param<T> {
    pub fn name(&self) -> (r: String)
        ensures
            r@ == self.name@,
    {
        self.name.clone()
    }

    pub fn width(&self) -> (r: Option<u32>)
        ensures
            r == self.width,
    {
        self.width
    }

    pub fn value(&self) -> (r: &T)
        ensures
            r == self.value,
    {
        &self.value
    }

    pub fn set_value(&mut self, value: T)
        ensures
            final(self).name == old(self).name,
            final(self).width == old(self).width,
            final(self).value == value,
    {
        self.value = value;
    }
}

/// A declared port: its name and bit width.
#[derive(Clone, Debug)]
pub struct Port {
    pub name: String,
    pub width: u32,
}

impl Port {
    pub fn new(name: &str, width: u32) -> (r: Port)
        ensures
            r.name@ == name@,
            r.width == width,
    {
        Port { name: name.to_owned(), width }
    }
}

/// The declared parameters of a macro, in declaration order.
#[derive(Clone, Debug)]
pub struct ParamSet<T> {
    pub items: Vec<Param<T>>,
}

impl<T> ParamSet<T> {
    pub fn new() -> (r: ParamSet<T>)
        ensures
            r.items@.len() == 0,
    {
        ParamSet { items: Vec::new() }
    }

    /// Declares one more parameter.
    pub fn insert(&mut self, p: Param<T>)
        ensures
            final(self).items@ == old(self).items@.push(p),
    {
        self.items.push(p);
    }
}

/// The declared ports of a macro, in declaration order.
#[derive(Clone, Debug)]
pub struct PortSet {
    pub items: Vec<Port>,
}

impl PortSet {
    pub fn new() -> (r: PortSet)
        ensures
            r.items@.len() == 0,
    {
        PortSet { items: Vec::new() }
    }

    /// Declares one more port.
    pub fn insert(&mut self, p: Port)
        ensures
            final(self).items@ == old(self).items@.push(p),
    {
        self.items.push(p);
    }
}

/// A typed failure of a parameter update.
#[derive(Clone, Debug)]
pub enum PrimError {
    /// The value offered does not fit the parameter's declared kind.
    InvalidValue(String),
    /// No parameter of that name is declared.
    MissingParam(String),
}

impl PrimError {
    /// The error's message.
    pub fn msg(&self) -> (r: String)
        ensures
            ({
                match self {
                    PrimError::InvalidValue(m) => r@ == "Invalid Value: "@ + m@,
                    PrimError::MissingParam(m) => r@ == "Missing parameter: "@ + m@,
                }
            }),
    {
        match self {
            PrimError::InvalidValue(m) => {
                let mut s = "Invalid Value: ".to_owned();
                s.append(m.as_str());
                s
            },
            PrimError::MissingParam(m) => {
                let mut s = "Missing parameter: ".to_owned();
                s.append(m.as_str());
                s
            },
        }
    }
}

/// Index of the last declared parameter named `name`, or `-1`.
pub open spec fn param_idx<T>(items: Seq<Param<T>>, name: Seq<char>) -> int
    decreases items.len(),
{
    if items.len() == 0 {
        -1
    } else if items.last().name@ == name {
        items.len() - 1
    } else {
        param_idx(items.drop_last(), name)
    }
}

/// A macro of the catalog: its name, parameters, and ports.
#[derive(Clone, Debug)]
pub struct Prim<T> {
    pub name: String,
    pub param: ParamSet<T>,
    pub input: PortSet,
    pub output: PortSet,
}

impl<T: PartialEq> Prim<T> {
    pub fn new() -> (r: Prim<T>)
        ensures
            r.name@ == Seq::<char>::empty(),
            r.param.items@.len() == 0,
            r.input.items@.len() == 0,
            r.output.items@.len() == 0,
    {
        Prim {
            name: String::new(),
            param: ParamSet::new(),
            input: PortSet::new(),
            output: PortSet::new(),
        }
    }

    pub fn name(&self) -> (r: String)
        ensures
            r@ == self.name@,
    {
        self.name.clone()
    }

    pub fn param(&self) -> (r: &ParamSet<T>)
        ensures
            r == self.param,
    {
        &self.param
    }

    pub fn input(&self) -> (r: &PortSet)
        ensures
            r == self.input,
    {
        &self.input
    }

    pub fn output(&self) -> (r: &PortSet)
        ensures
            r == self.output,
    {
        &self.output
    }

    /// Replaces the value of a declared parameter. A name that was never
    /// declared is a `MissingParam` error; a value the declared one does
    /// not accept as equal in kind is an `InvalidValue` error. Name and
    /// width are kept either way.
    pub fn set_param(&mut self, name: &str, value: T) -> (r: Result<(), PrimError>)
        requires
            <T as vstd::std_specs::cmp::PartialEqSpec>::obeys_eq_spec(),
        ensures
            param_idx(old(self).param.items@, name@) < 0 ==> (r matches Err(e) && e matches
                PrimError::MissingParam(m) && m@ == name@ && *final(self) == *old(self)),
            ({
                let i = param_idx(old(self).param.items@, name@);
                i >= 0 ==> {
                    if old(self).param.items@[i].value.eq_spec(&value) {
                        &&& r is Ok
                        &&& final(self).param.items@.len() == old(self).param.items@.len()
                        &&& final(self).param.items@[i].name@ == name@
                        &&& final(self).param.items@[i].width == old(self).param.items@[i].width
                        &&& final(self).param.items@[i].value == value
                        &&& forall|j: int|
                            0 <= j < old(self).param.items@.len() && j != i
                                ==> final(self).param.items@[j] == old(self).param.items@[j]
                    } else {
                        (r matches Err(e) && e is InvalidValue) && *final(self) == *old(self)
                    }
                }
            }),
    {
        let key = name.to_owned();
        let ghost items0 = old(self).param.items@;
        let mut k: usize = self.param.items.len();
        proof {
            assert(items0.take(items0.len() as int) =~= items0);
        }
        while k > 0
            invariant
                <T as vstd::std_specs::cmp::PartialEqSpec>::obeys_eq_spec(),
                k <= self.param.items@.len(),
                *self == *old(self),
                self.param.items@ == items0,
                key@ == name@,
                param_idx(items0, name@) == param_idx(items0.take(k as int), name@),
            decreases k,
        {
            let hit = self.param.items[k - 1].name.eq(&key);
            proof {
                assert(items0.take(k as int).last() == items0[k - 1]);
                assert(items0.take(k as int).drop_last() =~= items0.take(k as int - 1));
            }
            if hit {
                proof {
                    assert(param_idx(items0.take(k as int), name@) == k - 1);
                    assert(param_idx(items0, name@) == k - 1);
                }
                let same = self.param.items[k - 1].value.eq(&value);
                if same {
                    let old_name = self.param.items[k - 1].name.clone();
                    let old_width = self.param.items[k - 1].width;
                    self.param.items.set(
                        k - 1,
                        Param { name: old_name, width: old_width, value },
                    );
                    return Ok(());
                } else {
                    return Err(PrimError::InvalidValue("error".to_owned()));
                }
            }
            k = k - 1;
        }
        proof {
            assert(items0.take(0) =~= Seq::<Param<T>>::empty());
            assert(param_idx(items0, name@) == -1);
        }
        Err(PrimError::MissingParam(key))
    }
}

/// A description that can yield its catalog entry.
pub trait ToPrim<T: PartialEq> {
    fn to_name(&self) -> String;

    fn to_param(&self) -> ParamSet<T>;

    fn to_input(&self) -> PortSet;

    fn to_output(&self) -> PortSet;

    fn to_prim(&self) -> Prim<T> {
        Prim {
            name: self.to_name(),
            param: self.to_param(),
            input: self.to_input(),
            output: self.to_output(),
        }
    }
}

/// Chain mode of the carry macro.
#[derive(Clone, Copy, Debug, PartialEq, Eq, Structural)]
pub enum CarryType {
    Dual,
    Single,
}

/// Parameter text of a chain mode.
pub open spec fn carry_type_text(v: CarryType) -> Seq<char> {
    match v {
        CarryType::Dual => "SINGLE_CY8"@,
        CarryType::Single => "DUAL_CY4"@,
    }
}

impl CarryType {
    pub fn text(&self) -> (r: &'static str)
        ensures
            r@ == carry_type_text(*self),
    {
        match self {
            CarryType::Dual => "SINGLE_CY8",
            CarryType::Single => "DUAL_CY4",
        }
    }
}

/// A parameter value of the carry macro. Any two values agree in kind.
#[derive(Clone, Copy, Debug)]
pub enum CarryParam {
    CarryType(CarryType),
}

impl PartialEq for CarryParam {
    fn eq(&self, _other: &CarryParam) -> (r: bool) {
        true
    }
}

impl vstd::std_specs::cmp::PartialEqSpecImpl for CarryParam {
    open spec fn obeys_eq_spec() -> bool {
        true
    }

    open spec fn eq_spec(&self, other: &CarryParam) -> bool {
        true
    }
}

impl Eq for CarryParam {}

impl Default for CarryParam {
    fn default() -> (r: CarryParam)
        ensures
            r matches CarryParam::CarryType(CarryType::Dual),
    {
        CarryParam::CarryType(CarryType::Dual)
    }
}

/// The carry-chain macro's catalog entry.
#[derive(Clone, Debug, Default)]
pub struct Carry;

impl ToPrim<CarryParam> for Carry {
    fn to_name(&self) -> String {
        "CARRY8".to_owned()
    }

    fn to_param(&self) -> ParamSet<CarryParam> {
        let mut param = ParamSet::new();
        param.insert(
            Param {
                name: "CARRY_TYPE".to_owned(),
                width: None,
                value: CarryParam::CarryType(CarryType::Single),
            },
        );
        param
    }

    fn to_input(&self) -> PortSet {
        PortSet::new()
    }

    fn to_output(&self) -> PortSet {
        PortSet::new()
    }
}

} // verus!
