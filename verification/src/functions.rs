use vstd::prelude::*;

verus! {

/// What one dependency declaration says.
pub ghost enum NeededModel {
    /// The body calls the shared device function of this name.
    FuncName(Seq<char>),
}

impl NeededModel {
    pub open spec fn name(self) -> Seq<char> {
        match self {
            NeededModel::FuncName(name) => name,
        }
    }
}

/// A declaration that a kernel body calls a device function defined
/// elsewhere. It carries the function's name, not its source.
#[derive(Clone, Copy, Debug)]
pub enum Needed<'a> {
    FuncName(&'a str),
}

impl<'a> View for Needed<'a> {
    type V = NeededModel;

    open spec fn view(&self) -> NeededModel {
        match *self {
            Needed::FuncName(name) => NeededModel::FuncName(name@),
        }
    }
}

/// A dependency declaration that owns the function's name.
#[derive(Clone, Debug)]
pub enum SNeeded {
    FuncName(String),
}

impl View for SNeeded {
    type V = NeededModel;

    open spec fn view(&self) -> NeededModel {
        match *self {
            SNeeded::FuncName(name) => NeededModel::FuncName(name@),
        }
    }
}

impl<'a> From<&Needed<'a>> for SNeeded {
    /// The owned declaration of the same function name.
    fn from(f: &Needed<'a>) -> (s: SNeeded)
        ensures
            s@ == f@,
    {
        match *f {
            Needed::FuncName(name) => SNeeded::FuncName(name.to_owned()),
        }
    }
}

/// What `from` returns is stated on `from` itself, over the views: two owned
/// values of one view need not be the same value.
impl<'a> vstd::std_specs::convert::FromSpecImpl<&Needed<'a>> for SNeeded {
    open spec fn obeys_from_spec() -> bool {
        false
    }

    open spec fn from_spec(f: &Needed<'a>) -> SNeeded {
        arbitrary()
    }
}

/// The declarations of a borrowed descriptor, in order.
pub open spec fn needed_model<'a>(needed: Seq<Needed<'a>>) -> Seq<NeededModel> {
    Seq::new(needed.len(), |i: int| needed[i]@)
}

/// The declarations of an owned descriptor, in order.
pub open spec fn owned_needed_model(needed: Seq<SNeeded>) -> Seq<NeededModel> {
    Seq::new(needed.len(), |i: int| needed[i]@)
}

} // verus!
