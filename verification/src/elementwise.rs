//! The arithmetic, slice-copy and complex-number kernels: one expression
//! each, over buffers of equal length or a buffer and a scalar.
use vstd::prelude::*;
use vstd::string::*;
use crate::catalog::kernels_model;
use crate::descriptors::{args_model, ArgModel, ConstructorTypes, KernelConstructor};
use crate::functions::{needed_model, Needed, NeededModel};
use crate::kernels::{Kernel, KernelModel};

verus! {

/// The dependencies of a kernel that calls at most one shared function.
pub open spec fn calls(function: Option<Seq<char>>) -> Seq<NeededModel> {
    match function {
        Some(name) => seq![NeededModel::FuncName(name)],
        None => Seq::empty(),
    }
}

/// A kernel from the buffers `a` and `b` to the buffer `dst`, all of one
/// element type.
pub open spec fn binary_model(
    name: Seq<char>,
    ty: ConstructorTypes,
    src: Seq<char>,
    function: Option<Seq<char>>,
) -> KernelModel {
    KernelModel {
        name,
        args: seq![
            ArgModel::Buffer { name: "a"@, ty },
            ArgModel::Buffer { name: "b"@, ty },
            ArgModel::Buffer { name: "dst"@, ty },
        ],
        src,
        needed: calls(function),
    }
}

/// A kernel from the buffer `src` and the scalar `c` to the buffer `dst`, all
/// floating-point.
pub open spec fn scalar_model(name: Seq<char>, src: Seq<char>) -> KernelModel {
    KernelModel {
        name,
        args: seq![
            ArgModel::Buffer { name: "src"@, ty: ConstructorTypes::CF64 },
            ArgModel::Parameter { name: "c"@, ty: ConstructorTypes::CF64 },
            ArgModel::Buffer { name: "dst"@, ty: ConstructorTypes::CF64 },
        ],
        src,
        needed: Seq::empty(),
    }
}

/// A kernel that copies a slice from the buffer `src` to the buffer `dst`,
/// given the extents `size` and one more parameter.
pub open spec fn move_model(
    name: Seq<char>,
    last: Seq<char>,
    last_ty: ConstructorTypes,
    src: Seq<char>,
) -> KernelModel {
    KernelModel {
        name,
        args: seq![
            ArgModel::Buffer { name: "src"@, ty: ConstructorTypes::CF64 },
            ArgModel::Buffer { name: "dst"@, ty: ConstructorTypes::CF64 },
            ArgModel::Parameter { name: "size"@, ty: ConstructorTypes::CU32_4 },
            ArgModel::Parameter { name: last, ty: last_ty },
        ],
        src,
        needed: Seq::empty(),
    }
}

/// A kernel from the buffer `src` to the buffer `dst`.
pub open spec fn unary_model(
    name: Seq<char>,
    from: ConstructorTypes,
    to: ConstructorTypes,
    src: Seq<char>,
    function: Option<Seq<char>>,
) -> KernelModel {
    KernelModel {
        name,
        args: seq![
            ArgModel::Buffer { name: "src"@, ty: from },
            ArgModel::Buffer { name: "dst"@, ty: to },
        ],
        src,
        needed: calls(function),
    }
}

/// The body that applies a shared function to each element of `src`.
pub open spec fn unary_call_body(function: Seq<char>) -> Seq<char> {
    "    dst[x] = "@ + function + "(src[x]);"@
}

/// The body that applies a shared function to each pair of elements of `a`
/// and `b`.
pub open spec fn binary_call_body(function: Seq<char>) -> Seq<char> {
    "    dst[x] = "@ + function + "(a[x],b[x]);"@
}

/// A kernel that takes each complex element of `src` to a real number
/// through a shared function, and declares that function.
pub open spec fn unary_call_model(name: Seq<char>, function: Seq<char>) -> KernelModel {
    unary_model(
        name,
        ConstructorTypes::CF64_2,
        ConstructorTypes::CF64,
        unary_call_body(function),
        Some(function),
    )
}

/// A kernel that combines the complex elements of `a` and `b` through a
/// shared function, and declares that function.
pub open spec fn binary_call_model(name: Seq<char>, function: Seq<char>) -> KernelModel {
    binary_model(name, ConstructorTypes::CF64_2, binary_call_body(function), Some(function))
}

/// The body is a call of the shared function `function`, on each element of
/// `src` or on each pair of elements of `a` and `b`.
pub open spec fn is_call_of(src: Seq<char>, function: Seq<char>) -> bool {
    src == unary_call_body(function) || src == binary_call_body(function)
}

/// The descriptor declares what its body calls, and nothing else: a body
/// that is a call of a shared function comes with the declaration of that
/// function alone, and a declaration comes with a body that is a call of the
/// declared function.
pub open spec fn declares_what_it_calls(k: KernelModel) -> bool {
    &&& forall|f: Seq<char>| #[trigger]
        is_call_of(k.src, f) ==> k.needed == seq![NeededModel::FuncName(f)]
    &&& k.needed.len() == 0 || exists|f: Seq<char>|
        k.needed == seq![NeededModel::FuncName(f)] && #[trigger] is_call_of(k.src, f)
}

/// Where a call body has its fixed characters: it starts as an assignment to
/// `dst[x]`, and the bracket that opens the operands stands 9 characters from
/// the end for one operand and 12 for two.
pub proof fn lemma_call_body_shape(f: Seq<char>)
    ensures
        unary_call_body(f).len() == f.len() + 22,
        unary_call_body(f)[4] == 'd',
        unary_call_body(f)[f.len() + 13 as int] == '(',
        binary_call_body(f).len() == f.len() + 25,
        binary_call_body(f)[4] == 'd',
        binary_call_body(f)[f.len() + 13 as int] == '(',
        binary_call_body(f)[f.len() + 16 as int] == 'x',
        forall|j: int| 0 <= j < f.len() ==> unary_call_body(f)[j + 13] == f[j],
        forall|j: int| 0 <= j < f.len() ==> binary_call_body(f)[j + 13] == f[j],
{
    reveal_strlit("    dst[x] = ");
    reveal_strlit("(src[x]);");
    reveal_strlit("(a[x],b[x]);");
    let head = "    dst[x] = "@;
    assert(head.len() == 13);
    assert((head + f).len() == f.len() + 13);
    assert(unary_call_body(f)[4] == head[4]);
    assert(binary_call_body(f)[4] == head[4]);
    assert(unary_call_body(f)[f.len() + 13 as int] == "(src[x]);"@[0]);
    assert(binary_call_body(f)[f.len() + 13 as int] == "(a[x],b[x]);"@[0]);
    assert(binary_call_body(f)[f.len() + 16 as int] == "(a[x],b[x]);"@[3]);
    assert forall|j: int| 0 <= j < f.len() implies unary_call_body(f)[j + 13] == f[j] by {
        assert((head + f)[j + 13] == f[j]);
    }
    assert forall|j: int| 0 <= j < f.len() implies binary_call_body(f)[j + 13] == f[j] by {
        assert((head + f)[j + 13] == f[j]);
    }
}

/// A call body is the call of one function only.
pub proof fn lemma_call_body_names_one_function(f: Seq<char>, g: Seq<char>)
    ensures
        unary_call_body(f) == unary_call_body(g) ==> f == g,
        binary_call_body(f) == binary_call_body(g) ==> f == g,
        unary_call_body(f) != binary_call_body(g),
{
    lemma_call_body_shape(f);
    lemma_call_body_shape(g);
    if unary_call_body(f) == unary_call_body(g) {
        assert(f.len() == g.len());
        assert forall|j: int| 0 <= j < f.len() implies f[j] == g[j] by {
            assert(unary_call_body(f)[j + 13] == f[j]);
            assert(unary_call_body(g)[j + 13] == g[j]);
        }
        assert(f =~= g);
    }
    if binary_call_body(f) == binary_call_body(g) {
        assert(f.len() == g.len());
        assert forall|j: int| 0 <= j < f.len() implies f[j] == g[j] by {
            assert(binary_call_body(f)[j + 13] == f[j]);
            assert(binary_call_body(g)[j + 13] == g[j]);
        }
        assert(f =~= g);
    }
    if unary_call_body(f) == binary_call_body(g) {
        assert(f.len() == g.len() + 3);
        assert(unary_call_body(f)[f.len() + 13 as int] == '(');
        assert(binary_call_body(g)[g.len() + 16 as int] == 'x');
    }
}

fn calls_of(function: Option<&'static str>) -> (needed: Vec<Needed<'static>>)
    ensures
        needed_model(needed@) == calls(
            match function {
                Some(f) => Some(f@),
                None => None,
            },
        ),
{
    let mut needed: Vec<Needed<'static>> = Vec::new();
    match function {
        Some(f) => {
            needed.push(Needed::FuncName(f));
        },
        None => {},
    }
    proof {
        assert(needed_model(needed@) =~= calls(
            match function {
                Some(f) => Some(f@),
                None => None,
            },
        ));
    }
    needed
}

fn binary_of(
    name: &'static str,
    ty: ConstructorTypes,
    src: String,
    function: Option<&'static str>,
) -> (k: Kernel<'static>)
    ensures
        k@ == binary_model(
            name@,
            ty,
            src@,
            match function {
                Some(f) => Some(f@),
                None => None,
            },
        ),
{
    let mut args: Vec<KernelConstructor<'static>> = Vec::new();
    args.push(KernelConstructor::KCBuffer("a", ty));
    args.push(KernelConstructor::KCBuffer("b", ty));
    args.push(KernelConstructor::KCBuffer("dst", ty));
    let ghost text = src@;
    let k = Kernel { name, args, src, needed: calls_of(function) };
    proof {
        assert(k@.args =~= binary_model(name@, ty, text, None).args);
    }
    k
}

fn binary(
    name: &'static str,
    ty: ConstructorTypes,
    src: &'static str,
    function: Option<&'static str>,
) -> (k: Kernel<'static>)
    ensures
        k@ == binary_model(
            name@,
            ty,
            src@,
            match function {
                Some(f) => Some(f@),
                None => None,
            },
        ),
{
    binary_of(name, ty, src.to_owned(), function)
}

fn binary_call(name: &'static str, function: &'static str) -> (k: Kernel<'static>)
    ensures
        k@ == binary_call_model(name@, function@),
{
    let src: String = "    dst[x] = ".to_owned().concat(function).concat("(a[x],b[x]);");
    binary_of(name, ConstructorTypes::CF64_2, src, Some(function))
}

fn scalar(name: &'static str, src: &'static str) -> (k: Kernel<'static>)
    ensures
        k@ == scalar_model(name@, src@),
{
    let mut args: Vec<KernelConstructor<'static>> = Vec::new();
    args.push(KernelConstructor::KCBuffer("src", ConstructorTypes::CF64));
    args.push(KernelConstructor::KCParam("c", ConstructorTypes::CF64));
    args.push(KernelConstructor::KCBuffer("dst", ConstructorTypes::CF64));
    let k = Kernel { name, args, src: src.to_owned(), needed: calls_of(None) };
    proof {
        assert(k@.args =~= scalar_model(name@, src@).args);
    }
    k
}

fn slice_move(
    name: &'static str,
    last: &'static str,
    last_ty: ConstructorTypes,
    src: &'static str,
) -> (k: Kernel<'static>)
    ensures
        k@ == move_model(name@, last@, last_ty, src@),
{
    let mut args: Vec<KernelConstructor<'static>> = Vec::new();
    args.push(KernelConstructor::KCBuffer("src", ConstructorTypes::CF64));
    args.push(KernelConstructor::KCBuffer("dst", ConstructorTypes::CF64));
    args.push(KernelConstructor::KCParam("size", ConstructorTypes::CU32_4));
    args.push(KernelConstructor::KCParam(last, last_ty));
    let k = Kernel { name, args, src: src.to_owned(), needed: calls_of(None) };
    proof {
        assert(k@.args =~= move_model(name@, last@, last_ty, src@).args);
    }
    k
}

fn unary_of(
    name: &'static str,
    from: ConstructorTypes,
    to: ConstructorTypes,
    src: String,
    function: Option<&'static str>,
) -> (k: Kernel<'static>)
    ensures
        k@ == unary_model(
            name@,
            from,
            to,
            src@,
            match function {
                Some(f) => Some(f@),
                None => None,
            },
        ),
{
    let mut args: Vec<KernelConstructor<'static>> = Vec::new();
    args.push(KernelConstructor::KCBuffer("src", from));
    args.push(KernelConstructor::KCBuffer("dst", to));
    let ghost text = src@;
    let k = Kernel { name, args, src, needed: calls_of(function) };
    proof {
        assert(k@.args =~= unary_model(name@, from, to, text, None).args);
    }
    k
}

fn unary(
    name: &'static str,
    from: ConstructorTypes,
    to: ConstructorTypes,
    src: &'static str,
    function: Option<&'static str>,
) -> (k: Kernel<'static>)
    ensures
        k@ == unary_model(
            name@,
            from,
            to,
            src@,
            match function {
                Some(f) => Some(f@),
                None => None,
            },
        ),
{
    unary_of(name, from, to, src.to_owned(), function)
}

fn unary_call(name: &'static str, function: &'static str) -> (k: Kernel<'static>)
    ensures
        k@ == unary_call_model(name@, function@),
{
    let src: String = "    dst[x] = ".to_owned().concat(function).concat("(src[x]);");
    unary_of(name, ConstructorTypes::CF64_2, ConstructorTypes::CF64, src, Some(function))
}

/// The arithmetic, slice-copy and complex-number kernels.
pub open spec fn elementwise_table() -> Seq<KernelModel> {
    seq![
        binary_model("plus"@, ConstructorTypes::CF64, "    dst[x] = a[x]+b[x];"@, None),
        binary_model("minus"@, ConstructorTypes::CF64, "    dst[x] = a[x]-b[x];"@, None),
        binary_model("times"@, ConstructorTypes::CF64, "    dst[x] = a[x]*b[x];"@, None),
        binary_model("divides"@, ConstructorTypes::CF64, "    dst[x] = a[x]/b[x];"@, None),
        scalar_model("cplus"@, "    dst[x] = src[x]+c;"@),
        scalar_model("cminus"@, "    dst[x] = src[x]-c;"@),
        scalar_model("ctimes"@, "    dst[x] = src[x]*c;"@),
        scalar_model("cdivides"@, "    dst[x] = src[x]/c;"@),
        move_model(
            "move"@,
            "offset"@,
            ConstructorTypes::CU32,
            "    dst[x+x_size*(y+y_size*z) + offset] = src[x+size.x*(y+size.y*z)];"@,
        ),
        move_model(
            "smove"@,
            "offset"@,
            ConstructorTypes::CU32,
            "    dst[x+size.x*(y+size.y*z) + offset] = src[x+x_size*(y+y_size*z)];"@,
        ),
        move_model(
            "dmove"@,
            "dst_size"@,
            ConstructorTypes::CU32_4,
            "    dst[dst_size.x*(x+dst_size.y*(y+dst_size.z*z)) + dst_size.w] = src[x+size.x*(y+size.y*z)];"@,
        ),
        move_model(
            "rdmove"@,
            "dst_size"@,
            ConstructorTypes::CU32_4,
            "    dst[x+dst_size.y*(y+dst_size.z*(z+dst_size.x*dst_size.w))] = src[x+size.x*(y+size.y*z)];"@,
        ),
        unary_model(
            "complex_from_real"@,
            ConstructorTypes::CF64,
            ConstructorTypes::CF64_2,
            "    dst[x] = (double2)(src[x],0);"@,
            None,
        ),
        unary_model(
            "complex_from_image"@,
            ConstructorTypes::CF64,
            ConstructorTypes::CF64_2,
            "    dst[x] = (double2)(0,src[x]);"@,
            None,
        ),
        unary_model(
            "real_from_complex"@,
            ConstructorTypes::CF64_2,
            ConstructorTypes::CF64,
            "    dst[x] = src[x].x;"@,
            None,
        ),
        unary_model(
            "image_from_complex"@,
            ConstructorTypes::CF64_2,
            ConstructorTypes::CF64,
            "    dst[x] = src[x].y;"@,
            None,
        ),
        unary_call_model("kc_sqrmod"@, "c_sqrmod"@),
        unary_call_model("kc_mod"@, "c_mod"@),
        binary_call_model("kc_times"@, "c_times"@),
        binary_call_model("kc_times_conj"@, "c_times_conj"@),
        binary_call_model("kc_divides"@, "c_divides"@),
    ]
}

/// Builds the arithmetic, slice-copy and complex-number kernels.
pub fn elementwise_kernels() -> (v: Vec<Kernel<'static>>)
    ensures
        kernels_model(v@) == elementwise_table(),
{
    let mut v: Vec<Kernel<'static>> = Vec::new();
    v.push(binary("plus", ConstructorTypes::CF64, "    dst[x] = a[x]+b[x];", None));
    v.push(binary("minus", ConstructorTypes::CF64, "    dst[x] = a[x]-b[x];", None));
    v.push(binary("times", ConstructorTypes::CF64, "    dst[x] = a[x]*b[x];", None));
    v.push(binary("divides", ConstructorTypes::CF64, "    dst[x] = a[x]/b[x];", None));
    v.push(scalar("cplus", "    dst[x] = src[x]+c;"));
    v.push(scalar("cminus", "    dst[x] = src[x]-c;"));
    v.push(scalar("ctimes", "    dst[x] = src[x]*c;"));
    v.push(scalar("cdivides", "    dst[x] = src[x]/c;"));
    v.push(
        slice_move(
            "move",
            "offset",
            ConstructorTypes::CU32,
            "    dst[x+x_size*(y+y_size*z) + offset] = src[x+size.x*(y+size.y*z)];",
        ),
    );
    v.push(
        slice_move(
            "smove",
            "offset",
            ConstructorTypes::CU32,
            "    dst[x+size.x*(y+size.y*z) + offset] = src[x+x_size*(y+y_size*z)];",
        ),
    );
    v.push(
        slice_move(
            "dmove",
            "dst_size",
            ConstructorTypes::CU32_4,
            "    dst[dst_size.x*(x+dst_size.y*(y+dst_size.z*z)) + dst_size.w] = src[x+size.x*(y+size.y*z)];",
        ),
    );
    v.push(
        slice_move(
            "rdmove",
            "dst_size",
            ConstructorTypes::CU32_4,
            "    dst[x+dst_size.y*(y+dst_size.z*(z+dst_size.x*dst_size.w))] = src[x+size.x*(y+size.y*z)];",
        ),
    );
    v.push(
        unary(
            "complex_from_real",
            ConstructorTypes::CF64,
            ConstructorTypes::CF64_2,
            "    dst[x] = (double2)(src[x],0);",
            None,
        ),
    );
    v.push(
        unary(
            "complex_from_image",
            ConstructorTypes::CF64,
            ConstructorTypes::CF64_2,
            "    dst[x] = (double2)(0,src[x]);",
            None,
        ),
    );
    v.push(
        unary(
            "real_from_complex",
            ConstructorTypes::CF64_2,
            ConstructorTypes::CF64,
            "    dst[x] = src[x].x;",
            None,
        ),
    );
    v.push(
        unary(
            "image_from_complex",
            ConstructorTypes::CF64_2,
            ConstructorTypes::CF64,
            "    dst[x] = src[x].y;",
            None,
        ),
    );
    v.push(unary_call("kc_sqrmod", "c_sqrmod"));
    v.push(unary_call("kc_mod", "c_mod"));
    v.push(binary_call("kc_times", "c_times"));
    v.push(binary_call("kc_times_conj", "c_times_conj"));
    v.push(binary_call("kc_divides", "c_divides"));
    proof {
        assert(kernels_model(v@) =~= elementwise_table());
    }
    v
}

} // verus!
