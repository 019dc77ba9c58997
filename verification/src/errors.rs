//! The library's error type: parse failures abort descriptor construction,
//! the other variants carry typed messages from the passes.

use vstd::prelude::*;

verus! {

/// An error of the compiler backend, with its message.
#[derive(Clone, Debug)]
pub enum Error {
    Parse(String),
    Conversion(String),
    Type(String),
    Compiler(String),
    Placer(String),
    Opt(String),
    Isel(String),
}

impl Error {
    pub fn new_parse_error(msg: &str) -> (r: Error)
        ensures
            r matches Error::Parse(m) && m@ == msg@,
    {
        Error::Parse(msg.to_owned())
    }

    pub fn new_conv_error(msg: &str) -> (r: Error)
        ensures
            r matches Error::Conversion(m) && m@ == msg@,
    {
        Error::Conversion(msg.to_owned())
    }

    pub fn new_type_error(msg: &str) -> (r: Error)
        ensures
            r matches Error::Type(m) && m@ == msg@,
    {
        Error::Type(msg.to_owned())
    }

    pub fn new_compiler_error(msg: &str) -> (r: Error)
        ensures
            r matches Error::Compiler(m) && m@ == msg@,
    {
        Error::Compiler(msg.to_owned())
    }

    pub fn new_placer_error(msg: &str) -> (r: Error)
        ensures
            r matches Error::Placer(m) && m@ == msg@,
    {
        Error::Placer(msg.to_owned())
    }

    pub fn new_opt_error(msg: &str) -> (r: Error)
        ensures
            r matches Error::Opt(m) && m@ == msg@,
    {
        Error::Opt(msg.to_owned())
    }

    pub fn new_isel_error(msg: &str) -> (r: Error)
        ensures
            r matches Error::Isel(m) && m@ == msg@,
    {
        Error::Isel(msg.to_owned())
    }

    /// The error's message.
    pub fn msg(&self) -> (r: String)
        ensures
            ({
                match self {
                    Error::Parse(m) => r@ == m@,
                    Error::Conversion(m) => r@ == m@,
                    Error::Type(m) => r@ == m@,
                    Error::Compiler(m) => r@ == m@,
                    Error::Placer(m) => r@ == m@,
                    Error::Opt(m) => r@ == m@,
                    Error::Isel(m) => r@ == m@,
                }
            }),
    {
        match self {
            Error::Parse(m) => m.clone(),
            Error::Conversion(m) => m.clone(),
            Error::Type(m) => m.clone(),
            Error::Compiler(m) => m.clone(),
            Error::Placer(m) => m.clone(),
            Error::Opt(m) => m.clone(),
            Error::Isel(m) => m.clone(),
        }
    }
}

} // verus!
