use vstd::prelude::*;

verus! {

/// Element type of a device buffer or of a scalar kernel parameter.
#[allow(non_camel_case_types)]
#[derive(Clone, Copy, Debug, PartialEq, Eq, Structural, Hash)]
pub enum ConstructorTypes {
    /// 32-bit unsigned integer.
    CU32,
    /// 64-bit unsigned integer.
    CU64,
    /// 64-bit floating-point number.
    CF64,
    /// Vector of four 32-bit unsigned integers.
    CU32_4,
    /// Vector of two 64-bit floating-point numbers.
    CF64_2,
}

/// What one kernel argument is: its kind, its name and its element type.
pub ghost enum ArgModel {
    Buffer { name: Seq<char>, ty: ConstructorTypes },
    Parameter { name: Seq<char>, ty: ConstructorTypes },
}

impl ArgModel {
    pub open spec fn name(self) -> Seq<char> {
        match self {
            ArgModel::Buffer { name, .. } => name,
            ArgModel::Parameter { name, .. } => name,
        }
    }

    pub open spec fn ty(self) -> ConstructorTypes {
        match self {
            ArgModel::Buffer { ty, .. } => ty,
            ArgModel::Parameter { ty, .. } => ty,
        }
    }
}

/// One kernel argument, with a borrowed name: a device buffer or a scalar
/// parameter.
#[derive(Clone, Copy, Debug)]
pub enum KernelConstructor<'a> {
    KCBuffer(&'a str, ConstructorTypes),
    KCParam(&'a str, ConstructorTypes),
}

impl<'a> View for KernelConstructor<'a> {
    type V = ArgModel;

    open spec fn view(&self) -> ArgModel {
        match *self {
            KernelConstructor::KCBuffer(name, ty) => ArgModel::Buffer { name: name@, ty },
            KernelConstructor::KCParam(name, ty) => ArgModel::Parameter { name: name@, ty },
        }
    }
}

impl<'a> KernelConstructor<'a> {
    /// The name under which the argument is bound.
    pub fn name(&self) -> (name: &'a str)
        ensures
            name@ == self@.name(),
    {
        match *self {
            KernelConstructor::KCBuffer(name, _) => name,
            KernelConstructor::KCParam(name, _) => name,
        }
    }

    /// The element type of the argument.
    pub fn ty(&self) -> (ty: ConstructorTypes)
        ensures
            ty == self@.ty(),
    {
        match *self {
            KernelConstructor::KCBuffer(_, ty) => ty,
            KernelConstructor::KCParam(_, ty) => ty,
        }
    }

    /// Whether the argument is a buffer, not a scalar parameter.
    pub fn is_buffer(&self) -> (r: bool)
        ensures
            r == (self@ is Buffer),
    {
        match *self {
            KernelConstructor::KCBuffer(_, _) => true,
            KernelConstructor::KCParam(_, _) => false,
        }
    }
}

/// One kernel argument that owns its name.
#[derive(Clone, Debug)]
pub enum SKernelConstructor {
    KCBuffer(String, ConstructorTypes),
    KCParam(String, ConstructorTypes),
}

impl View for SKernelConstructor {
    type V = ArgModel;

    open spec fn view(&self) -> ArgModel {
        match *self {
            SKernelConstructor::KCBuffer(name, ty) => ArgModel::Buffer { name: name@, ty },
            SKernelConstructor::KCParam(name, ty) => ArgModel::Parameter { name: name@, ty },
        }
    }
}

impl<'a> From<&KernelConstructor<'a>> for SKernelConstructor {
    /// The owned argument of the same kind, name and element type.
    fn from(f: &KernelConstructor<'a>) -> (s: SKernelConstructor)
        ensures
            s@ == f@,
    {
        match *f {
            KernelConstructor::KCBuffer(name, ty) => SKernelConstructor::KCBuffer(
                name.to_owned(),
                ty,
            ),
            KernelConstructor::KCParam(name, ty) => SKernelConstructor::KCParam(
                name.to_owned(),
                ty,
            ),
        }
    }
}

/// What `from` returns is stated on `from` itself, over the views: two owned
/// values of one view need not be the same value.
impl<'a> vstd::std_specs::convert::FromSpecImpl<&KernelConstructor<'a>> for SKernelConstructor {
    open spec fn obeys_from_spec() -> bool {
        false
    }

    open spec fn from_spec(f: &KernelConstructor<'a>) -> SKernelConstructor {
        arbitrary()
    }
}

/// The arguments of a borrowed descriptor, in binding order.
pub open spec fn args_model<'a>(args: Seq<KernelConstructor<'a>>) -> Seq<ArgModel> {
    Seq::new(args.len(), |i: int| args[i]@)
}

/// The arguments of an owned descriptor, in binding order.
pub open spec fn owned_args_model(args: Seq<SKernelConstructor>) -> Seq<ArgModel> {
    Seq::new(args.len(), |i: int| args[i]@)
}

/// No two arguments of the list have the same name.
pub open spec fn distinct_arg_names(args: Seq<ArgModel>) -> bool {
    forall|i: int, j: int|
        0 <= i < j < args.len() ==> (#[trigger] args[i]).name() != (#[trigger] args[j]).name()
}

} // verus!
