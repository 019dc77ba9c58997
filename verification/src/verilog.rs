//! The structural netlist model: expressions, macro instances with
//! parameter and port bindings, wire declarations, and modules. This is
//! what lowering produces; printing it as text is left to the surrounding
//! program.

use vstd::prelude::*;

verus! {

/// A netlist expression.
#[derive(Debug)]
pub enum Expr {
    /// A wire by name; the empty name is the explicit placeholder for an
    /// unused port.
    Ref(String),
    /// One bit of a named wire.
    IndexBit(String, i32),
    /// A bit slice `name[hi:lo]` of a named wire.
    Slice(String, i32, i32),
    /// A plain integer parameter value.
    Int(i32),
    /// A string parameter value.
    Str(String),
    /// A width-prefixed hexadecimal literal.
    UlitHex(u32, String),
    /// A width-prefixed binary literal.
    UlitBin(u32, String),
    /// A concatenation; element `i` drives bit `i`.
    Concat(Vec<Expr>),
}

impl Expr {
    pub fn new_ref(name: &str) -> (r: Expr)
        ensures
            r matches Expr::Ref(n) && n@ == name@,
    {
        Expr::Ref(name.to_owned())
    }

    pub fn new_index_bit(name: &str, bit: i32) -> (r: Expr)
        ensures
            r matches Expr::IndexBit(n, b) && n@ == name@ && b == bit,
    {
        Expr::IndexBit(name.to_owned(), bit)
    }

    pub fn new_slice(name: &str, hi: i32, lo: i32) -> (r: Expr)
        ensures
            r matches Expr::Slice(n, h, l) && n@ == name@ && h == hi && l == lo,
    {
        Expr::Slice(name.to_owned(), hi, lo)
    }

    pub fn new_int(value: i32) -> (r: Expr)
        ensures
            r == Expr::Int(value),
    {
        Expr::Int(value)
    }

    pub fn new_str(value: &str) -> (r: Expr)
        ensures
            r matches Expr::Str(s) && s@ == value@,
    {
        Expr::Str(value.to_owned())
    }

    pub fn new_ulit_hex(width: u32, value: &str) -> (r: Expr)
        ensures
            r matches Expr::UlitHex(w, s) && w == width && s@ == value@,
    {
        Expr::UlitHex(width, value.to_owned())
    }

    pub fn new_ulit_bin(width: u32, value: &str) -> (r: Expr)
        ensures
            r matches Expr::UlitBin(w, s) && w == width && s@ == value@,
    {
        Expr::UlitBin(width, value.to_owned())
    }
}

/// A concatenation under construction.
#[derive(Debug, Default)]
pub struct ExprConcat {
    pub exprs: Vec<Expr>,
}

impl ExprConcat {
    pub fn new() -> (r: ExprConcat)
        ensures
            r.exprs@.len() == 0,
    {
        ExprConcat { exprs: Vec::new() }
    }

    /// Appends one element; it drives the next bit.
    pub fn add_expr(&mut self, e: Expr)
        ensures
            final(self).exprs@ == old(self).exprs@.push(e),
    {
        self.exprs.push(e);
    }

    /// The finished concatenation expression.
    pub fn to_expr(self) -> (r: Expr)
        ensures
            r == Expr::Concat(self.exprs),
    {
        Expr::Concat(self.exprs)
    }
}

/// A comment-style attribute on an instance, as name/value pairs.
#[derive(Clone, Debug, Default)]
pub struct Attribute {
    pub stmts: Vec<(String, String)>,
}

impl View for Attribute {
    type V = Seq<(Seq<char>, Seq<char>)>;

    open spec fn view(&self) -> Seq<(Seq<char>, Seq<char>)> {
        Seq::new(self.stmts@.len(), |i: int| (self.stmts@[i].0@, self.stmts@[i].1@))
    }
}

impl Attribute {
    pub fn new() -> (r: Attribute)
        ensures
            r@.len() == 0,
    {
        Attribute { stmts: Vec::new() }
    }

    /// Appends one name/value pair.
    pub fn add_stmt(&mut self, id: &str, value: &str)
        ensures
            final(self)@ == old(self)@.push((id@, value@)),
    {
        self.stmts.push((id.to_owned(), value.to_owned()));
        proof {
            assert(final(self)@ =~= old(self)@.push((id@, value@)));
        }
    }
}

/// Spec-level image of an instance: its names as char sequences, its
/// parameter and port bindings in the order they were added.
pub struct InstanceV {
    pub id: Seq<char>,
    pub prim: Seq<char>,
    pub attr: Seq<(Seq<char>, Seq<char>)>,
    pub params: Seq<(Seq<char>, Expr)>,
    pub ports: Seq<(Seq<char>, Expr)>,
}

/// One macro instance: a fixed macro type with parameter values and named
/// port connections.
#[derive(Debug)]
pub struct Instance {
    pub id: String,
    pub prim: String,
    pub attr: Attribute,
    pub params: Vec<(String, Expr)>,
    pub ports: Vec<(String, Expr)>,
}

impl View for Instance {
    type V = InstanceV;

    open spec fn view(&self) -> InstanceV {
        InstanceV {
            id: self.id@,
            prim: self.prim@,
            attr: self.attr@,
            params: Seq::new(self.params@.len(), |i: int| (self.params@[i].0@, self.params@[i].1)),
            ports: Seq::new(self.ports@.len(), |i: int| (self.ports@[i].0@, self.ports@[i].1)),
        }
    }
}

impl Instance {
    pub fn new(id: &str, prim: &str) -> (r: Instance)
        ensures
            r@.id == id@,
            r@.prim == prim@,
            r@.attr.len() == 0,
            r@.params.len() == 0,
            r@.ports.len() == 0,
    {
        Instance {
            id: id.to_owned(),
            prim: prim.to_owned(),
            attr: Attribute::new(),
            params: Vec::new(),
            ports: Vec::new(),
        }
    }

    /// Sets one parameter of the macro.
    pub fn add_param(&mut self, name: &str, value: Expr)
        ensures
            final(self)@.id == old(self)@.id,
            final(self)@.prim == old(self)@.prim,
            final(self)@.attr == old(self)@.attr,
            final(self)@.ports == old(self)@.ports,
            final(self)@.params == old(self)@.params.push((name@, value)),
    {
        self.params.push((name.to_owned(), value));
        proof {
            assert(final(self)@.params =~= old(self)@.params.push((name@, value)));
            assert(final(self)@.ports =~= old(self)@.ports);
        }
    }

    /// Connects one port of the macro.
    pub fn connect(&mut self, name: &str, expr: Expr)
        ensures
            final(self)@.id == old(self)@.id,
            final(self)@.prim == old(self)@.prim,
            final(self)@.attr == old(self)@.attr,
            final(self)@.params == old(self)@.params,
            final(self)@.ports == old(self)@.ports.push((name@, expr)),
    {
        self.ports.push((name.to_owned(), expr));
        proof {
            assert(final(self)@.ports =~= old(self)@.ports.push((name@, expr)));
            assert(final(self)@.params =~= old(self)@.params);
        }
    }

    /// Replaces the instance's attribute.
    pub fn set_attr(&mut self, attr: Attribute)
        ensures
            final(self)@.id == old(self)@.id,
            final(self)@.prim == old(self)@.prim,
            final(self)@.attr == attr@,
            final(self)@.params == old(self)@.params,
            final(self)@.ports == old(self)@.ports,
    {
        self.attr = attr;
        proof {
            assert(final(self)@.params =~= old(self)@.params);
            assert(final(self)@.ports =~= old(self)@.ports);
        }
    }
}

/// A parallel statement of a module body.
#[derive(Debug)]
pub enum Stmt {
    /// A macro instantiation.
    Inst(Instance),
    /// A continuous assignment of `rhs` to `lhs`.
    Assign(Expr, Expr),
}

impl Stmt {
    pub fn new_inst(inst: Instance) -> (r: Stmt)
        ensures
            r == Stmt::Inst(inst),
    {
        Stmt::Inst(inst)
    }

    pub fn new_assign(lhs: Expr, rhs: Expr) -> (r: Stmt)
        ensures
            r == Stmt::Assign(lhs, rhs),
    {
        Stmt::Assign(lhs, rhs)
    }
}

/// An internal wire declaration.
#[derive(Clone, Debug)]
pub enum Decl {
    Wire(String, u64),
}

impl Decl {
    pub fn new_wire(name: &str, width: u64) -> (r: Decl)
        ensures
            r matches Decl::Wire(n, w) && n@ == name@ && w == width,
    {
        Decl::Wire(name.to_owned(), width)
    }
}

/// A port of a module, with its bit width.
#[derive(Clone, Debug)]
pub enum Port {
    Input(String, u64),
    Output(String, u64),
}

impl Port {
    pub fn new_input(name: &str, width: u64) -> (r: Port)
        ensures
            r matches Port::Input(n, w) && n@ == name@ && w == width,
    {
        Port::Input(name.to_owned(), width)
    }

    pub fn new_output(name: &str, width: u64) -> (r: Port)
        ensures
            r matches Port::Output(n, w) && n@ == name@ && w == width,
    {
        Port::Output(name.to_owned(), width)
    }
}

/// A named module: declared ports, internal wires, and instances.
#[derive(Debug)]
pub struct Module {
    pub id: String,
    pub ports: Vec<Port>,
    pub decls: Vec<Decl>,
    pub stmts: Vec<Stmt>,
}

impl Module {
    pub fn new(id: &str) -> (r: Module)
        ensures
            r.id@ == id@,
            r.ports@.len() == 0,
            r.decls@.len() == 0,
            r.stmts@.len() == 0,
    {
        Module { id: id.to_owned(), ports: Vec::new(), decls: Vec::new(), stmts: Vec::new() }
    }

    pub fn add_port(&mut self, port: Port)
        ensures
            *final(self) == (Module { ports: final(self).ports, ..*old(self) }),
            final(self).ports@ == old(self).ports@.push(port),
    {
        self.ports.push(port);
    }

    pub fn add_decl(&mut self, decl: Decl)
        ensures
            *final(self) == (Module { decls: final(self).decls, ..*old(self) }),
            final(self).decls@ == old(self).decls@.push(decl),
    {
        self.decls.push(decl);
    }

    pub fn add_stmt(&mut self, stmt: Stmt)
        ensures
            *final(self) == (Module { stmts: final(self).stmts, ..*old(self) }),
            final(self).stmts@ == old(self).stmts@.push(stmt),
    {
        self.stmts.push(stmt);
    }
}

} // verus!
