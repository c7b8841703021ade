//! The counter-based generator kernels: three lane configurations of one
//! round structure, each with three ways of writing its result.
use vstd::prelude::*;
use vstd::string::*;
use crate::descriptors::{ArgModel, ConstructorTypes, KernelConstructor};
use crate::catalog::kernels_model;
use crate::functions::{Needed, NeededModel};
use crate::kernels::{Kernel, KernelModel};
use crate::sources::{
    NORMAL_FROM_32, NORMAL_FROM_64, PHILOX2X64_KEY, PHILOX2X64_ROUNDS, PHILOX4X32_KEY,
    PHILOX4X32_ROUNDS, PHILOX4X64_KEY, PHILOX4X64_ROUNDS, UNIT_FROM_32, UNIT_FROM_64,
};

verus! {

/// Lane configuration of the generator: how many state words each thread
/// owns, and how wide they are.
#[derive(Clone, Copy, Debug, PartialEq, Eq, Structural)]
pub enum PhiloxVariant {
    /// Two 64-bit lanes.
    X2x64,
    /// Four 64-bit lanes.
    X4x64,
    /// Four 32-bit lanes.
    X4x32,
}

/// What a generator kernel does with the state after the rounds.
#[derive(Clone, Copy, Debug, PartialEq, Eq, Structural)]
pub enum PhiloxOutput {
    /// Leaves the permuted words in the state buffer.
    Raw,
    /// Writes values of the unit interval, each from 53 bits.
    Unit,
    /// Writes standard-normal values, two from each pair of uniform values.
    Normal,
}

impl PhiloxVariant {
    /// Number of state words per thread.
    pub open spec fn spec_state_width(self) -> nat {
        match self {
            PhiloxVariant::X2x64 => 2,
            PhiloxVariant::X4x64 => 4,
            PhiloxVariant::X4x32 => 4,
        }
    }

    /// Element type of the state buffer.
    pub open spec fn spec_word_type(self) -> ConstructorTypes {
        match self {
            PhiloxVariant::X2x64 => ConstructorTypes::CU64,
            PhiloxVariant::X4x64 => ConstructorTypes::CU64,
            PhiloxVariant::X4x32 => ConstructorTypes::CU32,
        }
    }

    /// Number of elements that one thread produces, stated for each variant
    /// by itself. A raw kernel leaves the whole state. A transform of 64-bit
    /// lanes writes one element for each state word; a transform of 32-bit
    /// lanes joins two state words for each element.
    pub open spec fn spec_outputs_per_thread(self, output: PhiloxOutput) -> nat {
        match (self, output) {
            (PhiloxVariant::X2x64, _) => 2,
            (PhiloxVariant::X4x64, _) => 4,
            (PhiloxVariant::X4x32, PhiloxOutput::Raw) => 4,
            (PhiloxVariant::X4x32, _) => 2,
        }
    }

    /// Device code that sets the key of a thread up.
    pub open spec fn spec_key_setup(self) -> Seq<char> {
        match self {
            PhiloxVariant::X2x64 => PHILOX2X64_KEY@,
            PhiloxVariant::X4x64 => PHILOX4X64_KEY@,
            PhiloxVariant::X4x32 => PHILOX4X32_KEY@,
        }
    }

    /// Device code of the ten rounds.
    pub open spec fn spec_rounds(self) -> Seq<char> {
        match self {
            PhiloxVariant::X2x64 => PHILOX2X64_ROUNDS@,
            PhiloxVariant::X4x64 => PHILOX4X64_ROUNDS@,
            PhiloxVariant::X4x32 => PHILOX4X32_ROUNDS@,
        }
    }

    /// Device code that follows the rounds; nothing for a raw kernel.
    pub open spec fn spec_suffix(self, output: PhiloxOutput) -> Seq<char> {
        match (self, output) {
            (_, PhiloxOutput::Raw) => Seq::empty(),
            (PhiloxVariant::X4x32, PhiloxOutput::Unit) => UNIT_FROM_32@,
            (PhiloxVariant::X4x32, PhiloxOutput::Normal) => NORMAL_FROM_32@,
            (_, PhiloxOutput::Unit) => UNIT_FROM_64@,
            (_, PhiloxOutput::Normal) => NORMAL_FROM_64@,
        }
    }

    /// Name of the kernel in the catalog.
    pub open spec fn spec_kernel_name(self, output: PhiloxOutput) -> Seq<char> {
        match (self, output) {
            (PhiloxVariant::X2x64, PhiloxOutput::Raw) => "philox2x64_10"@,
            (PhiloxVariant::X2x64, PhiloxOutput::Unit) => "philox2x64_10_unit"@,
            (PhiloxVariant::X2x64, PhiloxOutput::Normal) => "philox2x64_10_normal"@,
            (PhiloxVariant::X4x64, PhiloxOutput::Raw) => "philox4x64_10"@,
            (PhiloxVariant::X4x64, PhiloxOutput::Unit) => "philox4x64_10_unit"@,
            (PhiloxVariant::X4x64, PhiloxOutput::Normal) => "philox4x64_10_normal"@,
            (PhiloxVariant::X4x32, PhiloxOutput::Raw) => "philox4x32_10"@,
            (PhiloxVariant::X4x32, PhiloxOutput::Unit) => "philox4x32_10_unit"@,
            (PhiloxVariant::X4x32, PhiloxOutput::Normal) => "philox4x32_10_normal"@,
        }
    }

    /// The descriptor of one generator kernel: the state buffer `src`, for a
    /// transform also the output buffer `dst` of floating-point elements, and
    /// as body the key setup and the rounds, followed by the output's suffix.
    pub open spec fn descriptor(self, output: PhiloxOutput) -> KernelModel {
        let state = ArgModel::Buffer { name: "src"@, ty: self.spec_word_type() };
        let result = ArgModel::Buffer { name: "dst"@, ty: ConstructorTypes::CF64 };
        KernelModel {
            name: self.spec_kernel_name(output),
            args: if output == PhiloxOutput::Raw {
                seq![state]
            } else {
                seq![state, result]
            },
            src: self.spec_key_setup() + self.spec_rounds() + self.spec_suffix(output),
            needed: Seq::empty(),
        }
    }

    /// Number of state words per thread.
    pub fn state_width(self) -> (l: u32)
        ensures
            l == self.spec_state_width(),
    {
        match self {
            PhiloxVariant::X2x64 => 2,
            PhiloxVariant::X4x64 => 4,
            PhiloxVariant::X4x32 => 4,
        }
    }

    /// Element type of the state buffer.
    pub fn word_type(self) -> (ty: ConstructorTypes)
        ensures
            ty == self.spec_word_type(),
    {
        match self {
            PhiloxVariant::X4x32 => ConstructorTypes::CU32,
            _ => ConstructorTypes::CU64,
        }
    }

    /// Number of elements that one thread produces. A transform of 32-bit
    /// lanes gives half as many elements as there are state words; every
    /// other kernel gives as many.
    pub fn outputs_per_thread(self, output: PhiloxOutput) -> (n: u32)
        ensures
            n == self.spec_outputs_per_thread(output),
            self == PhiloxVariant::X4x32 && output != PhiloxOutput::Raw ==> 2 * n
                == self.spec_state_width(),
            self != PhiloxVariant::X4x32 || output == PhiloxOutput::Raw ==> n
                == self.spec_state_width(),
    {
        let l: u32 = self.state_width();
        match (self, output) {
            (PhiloxVariant::X4x32, PhiloxOutput::Unit) => l / 2,
            (PhiloxVariant::X4x32, PhiloxOutput::Normal) => l / 2,
            _ => l,
        }
    }

    /// Device code that sets the key of a thread up.
    pub fn key_setup(self) -> (text: &'static str)
        ensures
            text@ == self.spec_key_setup(),
    {
        match self {
            PhiloxVariant::X2x64 => PHILOX2X64_KEY,
            PhiloxVariant::X4x64 => PHILOX4X64_KEY,
            PhiloxVariant::X4x32 => PHILOX4X32_KEY,
        }
    }

    /// Device code of the ten rounds, shared by the three kernels of the
    /// variant.
    pub fn rounds(self) -> (text: &'static str)
        ensures
            text@ == self.spec_rounds(),
    {
        match self {
            PhiloxVariant::X2x64 => PHILOX2X64_ROUNDS,
            PhiloxVariant::X4x64 => PHILOX4X64_ROUNDS,
            PhiloxVariant::X4x32 => PHILOX4X32_ROUNDS,
        }
    }

    /// Device code that follows the rounds; empty for a raw kernel.
    pub fn suffix(self, output: PhiloxOutput) -> (text: &'static str)
        ensures
            text@ == self.spec_suffix(output),
    {
        let text: &'static str = match (self, output) {
            (_, PhiloxOutput::Raw) => "",
            (PhiloxVariant::X4x32, PhiloxOutput::Unit) => UNIT_FROM_32,
            (PhiloxVariant::X4x32, PhiloxOutput::Normal) => NORMAL_FROM_32,
            (_, PhiloxOutput::Unit) => UNIT_FROM_64,
            (_, PhiloxOutput::Normal) => NORMAL_FROM_64,
        };
        proof {
            reveal_strlit("");
            assert(""@ =~= Seq::<char>::empty());
        }
        text
    }

    /// Name of the kernel in the catalog.
    pub fn kernel_name(self, output: PhiloxOutput) -> (name: &'static str)
        ensures
            name@ == self.spec_kernel_name(output),
    {
        match (self, output) {
            (PhiloxVariant::X2x64, PhiloxOutput::Raw) => "philox2x64_10",
            (PhiloxVariant::X2x64, PhiloxOutput::Unit) => "philox2x64_10_unit",
            (PhiloxVariant::X2x64, PhiloxOutput::Normal) => "philox2x64_10_normal",
            (PhiloxVariant::X4x64, PhiloxOutput::Raw) => "philox4x64_10",
            (PhiloxVariant::X4x64, PhiloxOutput::Unit) => "philox4x64_10_unit",
            (PhiloxVariant::X4x64, PhiloxOutput::Normal) => "philox4x64_10_normal",
            (PhiloxVariant::X4x32, PhiloxOutput::Raw) => "philox4x32_10",
            (PhiloxVariant::X4x32, PhiloxOutput::Unit) => "philox4x32_10_unit",
            (PhiloxVariant::X4x32, PhiloxOutput::Normal) => "philox4x32_10_normal",
        }
    }

    /// Builds one generator kernel: the shared rounds of the variant, joined
    /// with the suffix of the output.
    pub fn kernel(self, output: PhiloxOutput) -> (k: Kernel<'static>)
        ensures
            k@ == self.descriptor(output),
    {
        let mut args: Vec<KernelConstructor<'static>> = Vec::new();
        args.push(KernelConstructor::KCBuffer("src", self.word_type()));
        match output {
            PhiloxOutput::Raw => {},
            _ => {
                args.push(KernelConstructor::KCBuffer("dst", ConstructorTypes::CF64));
            },
        }
        let needed: Vec<Needed<'static>> = Vec::new();
        let src: String = self.key_setup().to_owned().concat(self.rounds()).concat(
            self.suffix(output),
        );
        let k = Kernel { name: self.kernel_name(output), args, src, needed };
        proof {
            assert(k@.args =~= self.descriptor(output).args);
            assert(k@.needed =~= Seq::<NeededModel>::empty());
        }
        k
    }
}

/// A transform of 32-bit lanes gives half as many elements per thread as
/// there are state words; a transform of 64-bit lanes gives as many as there
/// are state words.
pub proof fn lemma_outputs_per_thread(variant: PhiloxVariant, output: PhiloxOutput)
    requires
        output != PhiloxOutput::Raw,
    ensures
        variant == PhiloxVariant::X4x32 ==> 2 * variant.spec_outputs_per_thread(output)
            == variant.spec_state_width(),
        variant != PhiloxVariant::X4x32 ==> variant.spec_outputs_per_thread(output)
            == variant.spec_state_width(),
{
}

/// The generator kernels: each lane configuration with each output.
pub open spec fn generator_table() -> Seq<KernelModel> {
    seq![
        PhiloxVariant::X2x64.descriptor(PhiloxOutput::Raw),
        PhiloxVariant::X2x64.descriptor(PhiloxOutput::Unit),
        PhiloxVariant::X2x64.descriptor(PhiloxOutput::Normal),
        PhiloxVariant::X4x64.descriptor(PhiloxOutput::Raw),
        PhiloxVariant::X4x64.descriptor(PhiloxOutput::Unit),
        PhiloxVariant::X4x64.descriptor(PhiloxOutput::Normal),
        PhiloxVariant::X4x32.descriptor(PhiloxOutput::Raw),
        PhiloxVariant::X4x32.descriptor(PhiloxOutput::Unit),
        PhiloxVariant::X4x32.descriptor(PhiloxOutput::Normal),
    ]
}

/// Builds the generator kernels.
pub fn generator_kernels() -> (v: Vec<Kernel<'static>>)
    ensures
        kernels_model(v@) == generator_table(),
{
    let mut v: Vec<Kernel<'static>> = Vec::new();
    v.push(PhiloxVariant::X2x64.kernel(PhiloxOutput::Raw));
    v.push(PhiloxVariant::X2x64.kernel(PhiloxOutput::Unit));
    v.push(PhiloxVariant::X2x64.kernel(PhiloxOutput::Normal));
    v.push(PhiloxVariant::X4x64.kernel(PhiloxOutput::Raw));
    v.push(PhiloxVariant::X4x64.kernel(PhiloxOutput::Unit));
    v.push(PhiloxVariant::X4x64.kernel(PhiloxOutput::Normal));
    v.push(PhiloxVariant::X4x32.kernel(PhiloxOutput::Raw));
    v.push(PhiloxVariant::X4x32.kernel(PhiloxOutput::Unit));
    v.push(PhiloxVariant::X4x32.kernel(PhiloxOutput::Normal));
    proof {
        assert(kernels_model(v@) =~= generator_table());
    }
    v
}

} // verus!
