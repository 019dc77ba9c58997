//! Program signatures and definitions, keyed by name.

use vstd::prelude::*;

verus! {

/// A definition's signature.
#[derive(Clone, Debug)]
pub struct Sig {
    pub id: String,
}

impl Sig {
    pub fn id(&self) -> (r: String)
        ensures
            r@ == self.id@,
    {
        self.id.clone()
    }
}

/// A named definition.
#[derive(Clone, Debug)]
pub struct Def {
    pub sig: Sig,
}

impl Def {
    pub fn id(&self) -> (r: String)
        ensures
            r@ == self.sig.id@,
    {
        self.sig.id()
    }

    pub fn sig(&self) -> (r: &Sig)
        ensures
            r == self.sig,
    {
        &self.sig
    }
}

/// First lookup, from the end, of a definition by name; a later `insert`
/// of the same name therefore wins.
pub open spec fn lookup_def(pairs: Seq<(String, Def)>, name: Seq<char>) -> Option<Def>
    decreases pairs.len(),
{
    if pairs.len() == 0 {
        None
    } else if pairs.last().0@ == name {
        Some(pairs.last().1)
    } else {
        lookup_def(pairs.drop_last(), name)
    }
}

/// A program: its definitions, keyed by name.
#[derive(Clone, Debug, Default)]
pub struct Prog {
    pub defs: Vec<(String, Def)>,
}

impl Prog {
    pub fn new() -> (r: Prog)
        ensures
            r.defs@.len() == 0,
    {
        Prog { defs: Vec::new() }
    }

    pub fn defs(&self) -> (r: &Vec<(String, Def)>)
        ensures
            r == self.defs,
    {
        &self.defs
    }

    /// The definition under `name`; callers must know it is present.
    pub fn get(&self, name: &str) -> (r: Def)
        requires
            lookup_def(self.defs@, name@) is Some,
        ensures
            Some(r) == lookup_def(self.defs@, name@),
    {
        let key = name.to_owned();
        let mut k: usize = self.defs.len();
        proof {
            assert(self.defs@.take(self.defs@.len() as int) =~= self.defs@);
        }
        while k > 0
            invariant
                k <= self.defs@.len(),
                key@ == name@,
                lookup_def(self.defs@, name@) == lookup_def(self.defs@.take(k as int), name@),
            decreases k,
        {
            let hit = self.defs[k - 1].0.eq(&key);
            proof {
                assert(self.defs@.take(k as int).last() == self.defs@[k - 1]);
                assert(self.defs@.take(k as int).drop_last() =~= self.defs@.take(k as int - 1));
            }
            if hit {
                return Def { sig: Sig { id: self.defs[k - 1].1.sig.id.clone() } };
            }
            k = k - 1;
        }
        proof {
            assert(self.defs@.take(0) =~= Seq::<(String, Def)>::empty());
            assert(false);
        }
        Def { sig: Sig { id: String::new() } }
    }

    /// Binds `name` to `def`; an earlier binding of the same name is
    /// shadowed.
    pub fn insert(&mut self, name: &str, def: Def)
        ensures
            lookup_def(final(self).defs@, name@) == Some(def),
            forall|s: Seq<char>|
                s != name@ ==> #[trigger] lookup_def(final(self).defs@, s) == lookup_def(
                    old(self).defs@,
                    s,
                ),
    {
        let key = name.to_owned();
        self.defs.push((key, def));
        proof {
            assert(final(self).defs@.drop_last() =~= old(self).defs@);
        }
    }
}

} // verus!
