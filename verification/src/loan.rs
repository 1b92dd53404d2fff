//! What is lent to handlers. A handler gets the compilation, or a module,
//! for the one call; while the call is out, nobody else may have it. The
//! ledger says whether a loan may be made, and takes back what returns.

use crate::driver::Payload;
use crate::driver::PayloadModel;
use vstd::prelude::*;

verus! {

/// What a call lends to its handler.
#[derive(Debug, Clone, Copy, PartialEq, Eq, Hash, Structural)]
pub enum Lent {
    /// The whole compilation, its modules included.
    Compilation,
    /// The module with this number.
    Module(usize),
}

impl Lent {
    /// Whether the two loans reach one thing: the compilation reaches
    /// everything, a module itself.
    pub open spec fn overlaps(self, other: Lent) -> bool {
        self == Lent::Compilation || other == Lent::Compilation || self == other
    }
}

/// What a payload lends, if it lends anything.
pub open spec fn lent_by(payload: PayloadModel) -> Option<Lent> {
    match payload {
        PayloadModel::Compilation => Some(Lent::Compilation),
        PayloadModel::Module(m) => Some(Lent::Module(m)),
        PayloadModel::Resolved(m, _) => Some(Lent::Module(m)),
        _ => None,
    }
}

impl Payload {
    pub fn lends(&self) -> (l: Option<Lent>)
        ensures
            l == lent_by(self@),
    {
        match self {
            Payload::Compilation => Some(Lent::Compilation),
            Payload::Module(m) => Some(Lent::Module(*m)),
            Payload::Resolved(m, _) => Some(Lent::Module(*m)),
            _ => None,
        }
    }
}

/// The loans that are out.
#[derive(Debug)]
pub struct Loans {
    compilation: bool,
    modules: Vec<usize>,
}

impl View for Loans {
    type V = Set<Lent>;

    closed spec fn view(&self) -> Set<Lent> {
        Set::new(
            |l: Lent|
                match l {
                    Lent::Compilation => self.compilation,
                    Lent::Module(m) => self.modules@.contains(m),
                },
        )
    }
}

/// Whether no two loans of `out` reach one thing.
pub open spec fn exclusive(out: Set<Lent>) -> bool {
    forall|a: Lent, b: Lent| out.contains(a) && out.contains(b) && a != b ==> !a.overlaps(b)
}

/// Whether `what` may be lent while `out` is out: nothing that is out
/// reaches it.
pub open spec fn free(out: Set<Lent>, what: Lent) -> bool {
    forall|l: Lent| out.contains(l) ==> !l.overlaps(what)
}

impl Loans {
    /// No loan is held twice, and none beside the compilation.
    #[verifier::type_invariant]
    spec fn in_order(self) -> bool {
        &&& self.modules@.no_duplicates()
        &&& self.compilation ==> self.modules@.len() == 0
    }

    /// The ledger with nothing out.
    pub fn new() -> (loans: Loans)
        ensures
            loans@ == Set::<Lent>::empty(),
    {
        let loans = Loans { compilation: false, modules: Vec::new() };
        assert(loans@ =~= Set::<Lent>::empty());
        loans
    }

    /// The place of module `m` among the modules that are out.
    fn find(&self, m: usize) -> (at: Option<usize>)
        ensures
            match at {
                Some(i) => i < self.modules@.len() && self.modules@[i as int] == m,
                None => !self.modules@.contains(m),
            },
    {
        let n: usize = self.modules.len();
        let mut i: usize = 0;
        while i < n
            invariant
                i <= n,
                n == self.modules@.len(),
                forall|k: int| 0 <= k < i ==> self.modules@[k] != m,
            decreases n - i,
        {
            if self.modules[i] == m {
                return Some(i);
            }
            i = i + 1;
        }
        None
    }

    /// Whether `what` may be lent now.
    pub fn is_free(&self, what: Lent) -> (b: bool)
        ensures
            b == free(self@, what),
    {
        proof {
            use_type_invariant(self);
        }
        match what {
            Lent::Compilation => {
                let b = !self.compilation && self.modules.len() == 0;
                proof {
                    if self.modules@.len() > 0 {
                        assert(self.modules@.contains(self.modules@[0]));
                        assert(self@.contains(Lent::Module(self.modules@[0])));
                    }
                    if self.compilation {
                        assert(self@.contains(Lent::Compilation));
                    }
                }
                b
            },
            Lent::Module(m) => {
                let found = self.find(m);
                proof {
                    if self.compilation {
                        assert(self@.contains(Lent::Compilation));
                    }
                    if found is Some {
                        assert(self@.contains(Lent::Module(m)));
                    }
                }
                !self.compilation && found.is_none()
            },
        }
    }

    /// Lends `what` if it may be lent, and says whether it did. A loan that
    /// would reach what another call has is refused, and nothing changes.
    pub fn checkout(&mut self, what: Lent) -> (made: bool)
        ensures
            made == free(old(self)@, what),
            final(self)@ == if made {
                old(self)@.insert(what)
            } else {
                old(self)@
            },
            exclusive(final(self)@),
    {
        proof {
            use_type_invariant(&*self);
        }
        if !self.is_free(what) {
            return false;
        }
        match what {
            Lent::Compilation => {
                proof {
                    if self.modules@.len() > 0 {
                        assert(self.modules@.contains(self.modules@[0]));
                        assert(self@.contains(Lent::Module(self.modules@[0])));
                        assert(Lent::Module(self.modules@[0]).overlaps(what));
                    }
                }
                self.compilation = true;
            },
            Lent::Module(m) => {
                proof {
                    if self.compilation {
                        assert(self@.contains(Lent::Compilation));
                        assert(Lent::Compilation.overlaps(what));
                    }
                    if self.modules@.contains(m) {
                        assert(self@.contains(Lent::Module(m)));
                        assert(Lent::Module(m).overlaps(what));
                    }
                }
                let ghost before = self.modules@;
                let mut held = Loans::new();
                core::mem::swap(self, &mut held);
                let Loans { compilation, modules } = held;
                let mut modules = modules;
                modules.push(m);
                *self = Loans { compilation, modules };
                proof {
                    assert(self.modules@ =~= before.push(m));
                    assert forall|x: usize| self.modules@.contains(x) == (before.contains(x) || x
                        == m) by {
                        if before.contains(x) {
                            let k = choose|k: int| 0 <= k < before.len() && before[k] == x;
                            assert(self.modules@[k] == x);
                        }
                        if x == m {
                            assert(self.modules@[before.len() as int] == m);
                        }
                    }
                }
            },
        }
        proof {
            assert(self@ =~= old(self)@.insert(what));
        }
        true
    }

    /// Takes `what` back. Taking back what is not out changes nothing.
    pub fn give_back(&mut self, what: Lent)
        ensures
            final(self)@ == old(self)@.remove(what),
            exclusive(final(self)@),
    {
        proof {
            use_type_invariant(&*self);
        }
        match what {
            Lent::Compilation => {
                self.compilation = false;
            },
            Lent::Module(m) => {
                if let Some(i) = self.find(m) {
                    let ghost before = self.modules@;
                    let mut held = Loans::new();
                    core::mem::swap(self, &mut held);
                    let Loans { compilation, modules } = held;
                    let mut modules = modules;
                    modules.remove(i);
                    proof {
                        before.remove_ensures(i as int);
                        assert(modules@ =~= before.remove(i as int));
                    }
                    *self = Loans { compilation, modules };
                    proof {
                        assert(self.modules@ =~= before.remove(i as int));
                        before.remove_ensures(i as int);
                        assert forall|x: usize| self.modules@.contains(x) == (before.contains(x)
                            && x != m) by {
                            if before.contains(x) && x != m {
                                let k = choose|k: int| 0 <= k < before.len() && before[k] == x;
                                if k < i {
                                    assert(self.modules@[k] == x);
                                } else {
                                    assert(self.modules@[k - 1] == x);
                                }
                            }
                            if self.modules@.contains(x) {
                                let k = choose|k: int|
                                    0 <= k < self.modules@.len() && self.modules@[k] == x;
                                if k < i {
                                    assert(before[k] == x);
                                } else {
                                    assert(before[k + 1] == x);
                                }
                            }
                        }
                    }
                }
            },
        }
        proof {
            assert(self@ =~= old(self)@.remove(what));
        }
    }
}

} // verus!
