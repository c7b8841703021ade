//! Kernel descriptors and the catalog of the kernels that this library
//! defines.
use vstd::prelude::*;
use crate::catalog::{distinct_names, kernels_model, Catalog};
use crate::descriptors::{
    args_model, distinct_arg_names, owned_args_model, ArgModel, KernelConstructor,
    SKernelConstructor,
};
use crate::elementwise::{
    binary_call_model, declares_what_it_calls, elementwise_kernels, elementwise_table,
    is_call_of, lemma_call_body_names_one_function, lemma_call_body_shape, unary_call_model,
};
use crate::error::KernelError;
use crate::functions::{needed_model, owned_needed_model, Needed, NeededModel, SNeeded};
use crate::philox::{generator_kernels, generator_table};
use crate::text::same_text;

verus! {

/// What a descriptor says: the kernel's name, its arguments in binding order,
/// its device-code body and the shared functions that the body calls.
pub ghost struct KernelModel {
    pub name: Seq<char>,
    pub args: Seq<ArgModel>,
    pub src: Seq<char>,
    pub needed: Seq<NeededModel>,
}

/// A kernel descriptor that borrows its names; the body is owned, since it
/// may be composed from fragments.
#[derive(Clone, Debug)]
pub struct Kernel<'a> {
    pub name: &'a str,
    pub args: Vec<KernelConstructor<'a>>,
    pub src: String,
    pub needed: Vec<Needed<'a>>,
}

impl<'a> View for Kernel<'a> {
    type V = KernelModel;

    open spec fn view(&self) -> KernelModel {
        KernelModel {
            name: self.name@,
            args: args_model(self.args@),
            src: self.src@,
            needed: needed_model(self.needed@),
        }
    }
}

/// A kernel descriptor that owns all of its data, for storage and transport.
#[derive(Clone, Debug)]
pub struct SKernel {
    pub name: String,
    pub args: Vec<SKernelConstructor>,
    pub src: String,
    pub needed: Vec<SNeeded>,
}

impl View for SKernel {
    type V = KernelModel;

    open spec fn view(&self) -> KernelModel {
        KernelModel {
            name: self.name@,
            args: owned_args_model(self.args@),
            src: self.src@,
            needed: owned_needed_model(self.needed@),
        }
    }
}

impl<'a> From<&Kernel<'a>> for SKernel {
    /// The owned descriptor with the same name, arguments, body and
    /// dependencies, each sequence in the same order.
    fn from(f: &Kernel<'a>) -> (s: SKernel)
        ensures
            s@ == f@,
    {
        let mut args: Vec<SKernelConstructor> = Vec::new();
        let mut i: usize = 0;
        while i < f.args.len()
            invariant
                i <= f.args.len(),
                args.len() == i,
                forall|j: int| 0 <= j < i ==> args[j]@ == f.args[j]@,
            decreases f.args.len() - i,
        {
            args.push(SKernelConstructor::from(&f.args[i]));
            i += 1;
        }
        let mut needed: Vec<SNeeded> = Vec::new();
        let mut i: usize = 0;
        while i < f.needed.len()
            invariant
                i <= f.needed.len(),
                needed.len() == i,
                forall|j: int| 0 <= j < i ==> needed[j]@ == f.needed[j]@,
            decreases f.needed.len() - i,
        {
            needed.push(SNeeded::from(&f.needed[i]));
            i += 1;
        }
        let s = SKernel { name: f.name.to_owned(), args, src: f.src.clone(), needed };
        proof {
            assert(s@.args =~= f@.args);
            assert(s@.needed =~= f@.needed);
        }
        s
    }
}

/// What `from` returns is stated on `from` itself, over the views: two owned
/// values of one view need not be the same value.
impl<'a> vstd::std_specs::convert::FromSpecImpl<&Kernel<'a>> for SKernel {
    open spec fn obeys_from_spec() -> bool {
        false
    }

    open spec fn from_spec(f: &Kernel<'a>) -> SKernel {
        arbitrary()
    }
}

/// The views of the names in `defined`.
pub open spec fn names_model(defined: Seq<&str>) -> Seq<Seq<char>> {
    Seq::new(defined.len(), |i: int| defined[i]@)
}

/// Every declared dependency is among the names in `defined`.
pub open spec fn resolved(needed: Seq<NeededModel>, defined: Seq<Seq<char>>) -> bool {
    forall|i: int| 0 <= i < needed.len() ==> defined.contains((#[trigger] needed[i]).name())
}

impl<'a> Kernel<'a> {
    /// Whether no two arguments have the same name, as the binding of
    /// arguments by position and name asks.
    pub fn has_distinct_args(&self) -> (r: bool)
        ensures
            r == distinct_arg_names(self@.args),
    {
        let ghost args = self@.args;
        let mut j: usize = 0;
        while j < self.args.len()
            invariant
                j <= self.args.len(),
                args == args_model(self.args@),
                forall|a: int, b: int|
                    0 <= a < b < j ==> (#[trigger] args[a]).name() != (#[trigger] args[b]).name(),
            decreases self.args.len() - j,
        {
            let later: &'a str = self.args[j].name();
            let mut i: usize = 0;
            while i < j
                invariant
                    i <= j < self.args.len(),
                    args == args_model(self.args@),
                    later@ == args[j as int].name(),
                    forall|a: int| 0 <= a < i ==> (#[trigger] args[a]).name() != later@,
                decreases j - i,
            {
                if same_text(self.args[i].name(), later) {
                    assert(args[i as int].name() == args[j as int].name());
                    return false;
                }
                i += 1;
            }
            j += 1;
        }
        true
    }

    /// Checks the declared dependencies against the names of the shared
    /// functions that are defined: fails as soon as one is not among them.
    pub fn check_dependencies(&self, defined: &Vec<&str>) -> (r: Result<(), KernelError>)
        ensures
            r is Ok <==> resolved(self@.needed, names_model(defined@)),
            r is Err ==> r == Err::<(), KernelError>(KernelError::UnresolvedDependency),
    {
        let ghost names = names_model(defined@);
        let mut i: usize = 0;
        while i < self.needed.len()
            invariant
                i <= self.needed.len(),
                names == names_model(defined@),
                forall|k: int| 0 <= k < i ==> names.contains((#[trigger] self@.needed[k]).name()),
            decreases self.needed.len() - i,
        {
            let Needed::FuncName(wanted) = self.needed[i];
            let mut found = false;
            let mut j: usize = 0;
            while j < defined.len() && !found
                invariant
                    j <= defined.len(),
                    names == names_model(defined@),
                    found ==> names.contains(wanted@),
                    !found ==> forall|k: int| 0 <= k < j ==> names[k] != wanted@,
                decreases defined.len() - j + if found { 0int } else { 1 },
            {
                if same_text(defined[j], wanted) {
                    found = true;
                    assert(names[j as int] == wanted@);
                } else {
                    j += 1;
                }
            }
            if !found {
                assert(self@.needed[i as int].name() == wanted@);
                assert(!names.contains(wanted@));
                return Err(KernelError::UnresolvedDependency);
            }
            assert(self@.needed[i as int].name() == wanted@);
            i += 1;
        }
        Ok(())
    }
}

/// A kernel with dependencies is never resolved against an empty set of
/// shared functions.
pub proof fn lemma_unresolved_against_nothing(needed: Seq<NeededModel>)
    requires
        needed.len() > 0,
    ensures
        !resolved(needed, Seq::<Seq<char>>::empty()),
{
    assert(!Seq::<Seq<char>>::empty().contains(needed[0].name()));
}

/// The descriptors of the catalog, in its order: the generator kernels, then
/// the elementwise ones.
pub open spec fn kernel_table() -> Seq<KernelModel> {
    generator_table() + elementwise_table()
}

/// Whether the text has the fixed characters of a call body: an assignment
/// to `dst[x]` at its start, and the bracket that opens the operands 9 or 12
/// characters from its end.
spec fn looks_like_call(src: Seq<char>) -> bool {
    src[4] == 'd' && (src[src.len() - 9] == '(' || src[src.len() - 12] == '(')
}

/// In every descriptor of the table a body that is a call of a shared
/// function comes with the declaration of that function alone, and a
/// declaration comes with a body that is a call of the declared function.
pub proof fn lemma_table_declares_what_it_calls()
    ensures
        forall|i: int|
            0 <= i < kernel_table().len() ==> declares_what_it_calls(#[trigger] kernel_table()[i]),
{
    let t = kernel_table();
    reveal_strlit("    ulong key = x;\n");
    reveal_strlit("    ulong key[2] = {0,x};\n");
    reveal_strlit("    uint key[2] = {x>>32,x};\n");
    reveal_strlit("    dst[x] = a[x]+b[x];");
    reveal_strlit("    dst[x] = a[x]-b[x];");
    reveal_strlit("    dst[x] = a[x]*b[x];");
    reveal_strlit("    dst[x] = a[x]/b[x];");
    reveal_strlit("    dst[x] = src[x]+c;");
    reveal_strlit("    dst[x] = src[x]-c;");
    reveal_strlit("    dst[x] = src[x]*c;");
    reveal_strlit("    dst[x] = src[x]/c;");
    reveal_strlit("    dst[x+x_size*(y+y_size*z) + offset] = src[x+size.x*(y+size.y*z)];");
    reveal_strlit("    dst[x+size.x*(y+size.y*z) + offset] = src[x+x_size*(y+y_size*z)];");
    reveal_strlit("    dst[dst_size.x*(x+dst_size.y*(y+dst_size.z*z)) + dst_size.w] = src[x+size.x*(y+size.y*z)];");
    reveal_strlit("    dst[x+dst_size.y*(y+dst_size.z*(z+dst_size.x*dst_size.w))] = src[x+size.x*(y+size.y*z)];");
    reveal_strlit("    dst[x] = (double2)(src[x],0);");
    reveal_strlit("    dst[x] = (double2)(0,src[x]);");
    reveal_strlit("    dst[x] = src[x].x;");
    reveal_strlit("    dst[x] = src[x].y;");
    assert(!looks_like_call(t[0].src));
    assert(!looks_like_call(t[1].src));
    assert(!looks_like_call(t[2].src));
    assert(!looks_like_call(t[3].src));
    assert(!looks_like_call(t[4].src));
    assert(!looks_like_call(t[5].src));
    assert(!looks_like_call(t[6].src));
    assert(!looks_like_call(t[7].src));
    assert(!looks_like_call(t[8].src));
    assert(!looks_like_call(t[9].src));
    assert(!looks_like_call(t[10].src));
    assert(!looks_like_call(t[11].src));
    assert(!looks_like_call(t[12].src));
    assert(!looks_like_call(t[13].src));
    assert(!looks_like_call(t[14].src));
    assert(!looks_like_call(t[15].src));
    assert(!looks_like_call(t[16].src));
    assert(!looks_like_call(t[17].src));
    assert(!looks_like_call(t[18].src));
    assert(!looks_like_call(t[19].src));
    assert(!looks_like_call(t[20].src));
    assert(!looks_like_call(t[21].src));
    assert(!looks_like_call(t[22].src));
    assert(!looks_like_call(t[23].src));
    assert(!looks_like_call(t[24].src));
    assert(t[25] == unary_call_model("kc_sqrmod"@, "c_sqrmod"@));
    assert(t[26] == unary_call_model("kc_mod"@, "c_mod"@));
    assert(t[27] == binary_call_model("kc_times"@, "c_times"@));
    assert(t[28] == binary_call_model("kc_times_conj"@, "c_times_conj"@));
    assert(t[29] == binary_call_model("kc_divides"@, "c_divides"@));
    assert forall|i: int| 0 <= i < t.len() implies declares_what_it_calls(#[trigger] t[i]) by {
        if i < 25 {
            assert(t[i].needed.len() == 0);
            assert(!looks_like_call(t[i].src));
            assert forall|f: Seq<char>| #[trigger] is_call_of(t[i].src, f) implies false by {
                lemma_call_body_shape(f);
            }
        } else {
            let g = t[i].needed[0].name();
            assert(t[i].needed =~= seq![NeededModel::FuncName(g)]);
            assert(is_call_of(t[i].src, g));
            assert forall|f: Seq<char>| #[trigger] is_call_of(t[i].src, f) implies f == g by {
                lemma_call_body_names_one_function(f, g);
                lemma_call_body_names_one_function(g, f);
            }
        }
    }
}

/// What tells two names of the table apart: the length and four characters.
/// Names that differ in it are different.
spec fn name_key(name: Seq<char>) -> (nat, char, char, char, char) {
    (name.len(), name[0], name[1], name[6], name[8])
}

/// The names of the table are pairwise different.
pub proof fn lemma_table_names_distinct()
    ensures
        distinct_names(kernel_table()),
{
    let t = kernel_table();
    reveal_strlit("philox2x64_10");
    reveal_strlit("philox2x64_10_unit");
    reveal_strlit("philox2x64_10_normal");
    reveal_strlit("philox4x64_10");
    reveal_strlit("philox4x64_10_unit");
    reveal_strlit("philox4x64_10_normal");
    reveal_strlit("philox4x32_10");
    reveal_strlit("philox4x32_10_unit");
    reveal_strlit("philox4x32_10_normal");
    reveal_strlit("plus");
    reveal_strlit("minus");
    reveal_strlit("times");
    reveal_strlit("divides");
    reveal_strlit("cplus");
    reveal_strlit("cminus");
    reveal_strlit("ctimes");
    reveal_strlit("cdivides");
    reveal_strlit("move");
    reveal_strlit("smove");
    reveal_strlit("dmove");
    reveal_strlit("rdmove");
    reveal_strlit("complex_from_real");
    reveal_strlit("complex_from_image");
    reveal_strlit("real_from_complex");
    reveal_strlit("image_from_complex");
    reveal_strlit("kc_sqrmod");
    reveal_strlit("kc_mod");
    reveal_strlit("kc_times");
    reveal_strlit("kc_times_conj");
    reveal_strlit("kc_divides");
    assert(t.len() == 30);
    assert(t[0].name == "philox2x64_10"@);
    assert(t[1].name == "philox2x64_10_unit"@);
    assert(t[2].name == "philox2x64_10_normal"@);
    assert(t[3].name == "philox4x64_10"@);
    assert(t[4].name == "philox4x64_10_unit"@);
    assert(t[5].name == "philox4x64_10_normal"@);
    assert(t[6].name == "philox4x32_10"@);
    assert(t[7].name == "philox4x32_10_unit"@);
    assert(t[8].name == "philox4x32_10_normal"@);
    assert(t[9].name == "plus"@);
    assert(t[10].name == "minus"@);
    assert(t[11].name == "times"@);
    assert(t[12].name == "divides"@);
    assert(t[13].name == "cplus"@);
    assert(t[14].name == "cminus"@);
    assert(t[15].name == "ctimes"@);
    assert(t[16].name == "cdivides"@);
    assert(t[17].name == "move"@);
    assert(t[18].name == "smove"@);
    assert(t[19].name == "dmove"@);
    assert(t[20].name == "rdmove"@);
    assert(t[21].name == "complex_from_real"@);
    assert(t[22].name == "complex_from_image"@);
    assert(t[23].name == "real_from_complex"@);
    assert(t[24].name == "image_from_complex"@);
    assert(t[25].name == "kc_sqrmod"@);
    assert(t[26].name == "kc_mod"@);
    assert(t[27].name == "kc_times"@);
    assert(t[28].name == "kc_times_conj"@);
    assert(t[29].name == "kc_divides"@);
    assert forall|i: int, j: int| 0 <= i < j < t.len() implies (#[trigger] t[i]).name != (
    #[trigger] t[j]).name by {
        assert(name_key(t[i].name) != name_key(t[j].name));
    }
}

/// What tells two argument names of the table apart: the length and the
/// first character.
spec fn arg_key(name: Seq<char>) -> (nat, char) {
    (name.len(), name[0])
}

/// Within each descriptor of the table the argument names are pairwise
/// different.
pub proof fn lemma_table_arg_names_distinct()
    ensures
        forall|i: int|
            0 <= i < kernel_table().len() ==> distinct_arg_names(
                (#[trigger] kernel_table()[i]).args,
            ),
{
    let t = kernel_table();
    reveal_strlit("src");
    reveal_strlit("dst");
    reveal_strlit("a");
    reveal_strlit("b");
    reveal_strlit("c");
    reveal_strlit("size");
    reveal_strlit("offset");
    reveal_strlit("dst_size");
    assert forall|i: int| 0 <= i < t.len() implies distinct_arg_names((#[trigger] t[i]).args) by {
        let args = t[i].args;
        assert forall|a: int, b: int| 0 <= a < b < args.len() implies (#[trigger] args[a]).name()
            != (#[trigger] args[b]).name() by {
            assert(arg_key(args[a].name()) != arg_key(args[b].name()));
        }
    }
}

/// The catalog of all kernels that this library defines.
pub fn kernels() -> (c: Catalog<'static>)
    ensures
        c@ == kernel_table(),
        distinct_names(c@),
        forall|i: int| 0 <= i < c@.len() ==> distinct_arg_names((#[trigger] c@[i]).args),
        forall|i: int| 0 <= i < c@.len() ==> declares_what_it_calls(#[trigger] c@[i]),
{
    let mut v = generator_kernels();
    let mut w = elementwise_kernels();
    let ghost first = v@;
    let ghost second = w@;
    v.append(&mut w);
    proof {
        assert(kernels_model(v@) =~= kernels_model(first) + kernels_model(second));
        lemma_table_names_distinct();
        lemma_table_arg_names_distinct();
        lemma_table_declares_what_it_calls();
    }
    Catalog::new(v).unwrap()
}

} // verus!
