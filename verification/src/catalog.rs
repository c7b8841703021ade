//! The catalog: kernel descriptors found by name.
use vstd::prelude::*;
use crate::error::KernelError;
use crate::kernels::{Kernel, KernelModel};
use crate::text::same_text;

verus! {

/// What each descriptor of a list says, in the list's order.
pub open spec fn kernels_model<'a>(entries: Seq<Kernel<'a>>) -> Seq<KernelModel> {
    Seq::new(entries.len(), |i: int| entries[i]@)
}

/// No two descriptors of the list have the same name.
pub open spec fn distinct_names(entries: Seq<KernelModel>) -> bool {
    forall|i: int, j: int|
        0 <= i < j < entries.len() ==> (#[trigger] entries[i]).name != (#[trigger] entries[j]).name
}

/// Some descriptor of the list has this name.
pub open spec fn has_name(entries: Seq<KernelModel>, name: Seq<char>) -> bool {
    exists|i: int| 0 <= i < entries.len() && (#[trigger] entries[i]).name == name
}

/// The descriptor of this name, if the list has one.
pub open spec fn find(entries: Seq<KernelModel>, name: Seq<char>) -> Option<KernelModel> {
    if has_name(entries, name) {
        Some(entries[choose|i: int| 0 <= i < entries.len() && (#[trigger] entries[i]).name == name])
    } else {
        None
    }
}

/// A set of kernel descriptors, each found by its name. It is built once and
/// not changed afterwards; no two of its descriptors share a name.
#[derive(Debug)]
pub struct Catalog<'a> {
    entries: Vec<Kernel<'a>>,
}

impl<'a> View for Catalog<'a> {
    type V = Seq<KernelModel>;

    closed spec fn view(&self) -> Seq<KernelModel> {
        kernels_model(self.entries@)
    }
}

impl<'a> Catalog<'a> {
    #[verifier::type_invariant]
    spec fn names_are_distinct(&self) -> bool {
        distinct_names(kernels_model(self.entries@))
    }

    /// Builds the catalog of the given descriptors, in their order. Two
    /// descriptors of one name are refused.
    pub fn new(entries: Vec<Kernel<'a>>) -> (r: Result<Catalog<'a>, KernelError>)
        ensures
            match r {
                Ok(c) => c@ == kernels_model(entries@) && distinct_names(c@),
                Err(e) => e == KernelError::DuplicateKernelName && !distinct_names(
                    kernels_model(entries@),
                ),
            },
    {
        let ghost models = kernels_model(entries@);
        let mut j: usize = 0;
        while j < entries.len()
            invariant
                j <= entries.len(),
                models == kernels_model(entries@),
                forall|a: int, b: int|
                    0 <= a < b < j ==> (#[trigger] models[a]).name != (#[trigger] models[b]).name,
            decreases entries.len() - j,
        {
            let mut i: usize = 0;
            while i < j
                invariant
                    i <= j < entries.len(),
                    models == kernels_model(entries@),
                    forall|a: int|
                        0 <= a < i ==> (#[trigger] models[a]).name != models[j as int].name,
                decreases j - i,
            {
                if same_text(entries[i].name, entries[j].name) {
                    assert(models[i as int].name == models[j as int].name);
                    return Err(KernelError::DuplicateKernelName);
                }
                i += 1;
            }
            j += 1;
        }
        Ok(Catalog { entries })
    }

    /// Number of descriptors. In every catalog the names are distinct.
    pub fn len(&self) -> (n: usize)
        ensures
            n == self@.len(),
            distinct_names(self@),
    {
        proof {
            use_type_invariant(self);
        }
        self.entries.len()
    }

    /// The descriptor of the given name.
    pub fn lookup(&self, name: &str) -> (r: Result<&Kernel<'a>, KernelError>)
        ensures
            match r {
                Ok(k) => find(self@, name@) == Some(k@) && k@.name == name@,
                Err(e) => e == KernelError::UnknownKernelName && find(self@, name@).is_none(),
            },
    {
        proof {
            use_type_invariant(self);
        }
        let mut i: usize = 0;
        while i < self.entries.len()
            invariant
                i <= self.entries.len(),
                distinct_names(self@),
                forall|a: int| 0 <= a < i ==> (#[trigger] self@[a]).name != name@,
            decreases self.entries.len() - i,
        {
            if same_text(self.entries[i].name, name) {
                proof {
                    assert(self@[i as int] == self.entries[i as int]@);
                    lemma_find_own_name(self@, i as int);
                }
                return Ok(&self.entries[i]);
            }
            i += 1;
        }
        Err(KernelError::UnknownKernelName)
    }

    /// The names of all descriptors, in the catalog's order: no name twice.
    pub fn names(&self) -> (names: Vec<&'a str>)
        ensures
            names@.len() == self@.len(),
            forall|i: int| 0 <= i < names@.len() ==> (#[trigger] names@[i])@ == self@[i].name,
            forall|i: int, j: int|
                0 <= i < j < names@.len() ==> (#[trigger] names@[i])@ != (#[trigger] names@[j])@,
            distinct_names(self@),
    {
        proof {
            use_type_invariant(self);
        }
        let mut names: Vec<&'a str> = Vec::new();
        let mut i: usize = 0;
        while i < self.entries.len()
            invariant
                i <= self.entries.len(),
                names@.len() == i,
                forall|a: int| 0 <= a < i ==> (#[trigger] names@[a])@ == self@[a].name,
            decreases self.entries.len() - i,
        {
            names.push(self.entries[i].name);
            i += 1;
        }
        names
    }
}

/// Every name of a list without duplicates finds the descriptor that carries
/// it, and that descriptor only.
pub proof fn lemma_find_own_name(entries: Seq<KernelModel>, i: int)
    requires
        distinct_names(entries),
        0 <= i < entries.len(),
    ensures
        find(entries, entries[i].name) == Some(entries[i]),
{
    let name = entries[i].name;
    assert(has_name(entries, name));
    let j = choose|j: int| 0 <= j < entries.len() && (#[trigger] entries[j]).name == name;
    assert(j == i) by {
        if j < i {
            assert(entries[j].name != entries[i].name);
        } else if i < j {
            assert(entries[i].name != entries[j].name);
        }
    }
}

} // verus!
