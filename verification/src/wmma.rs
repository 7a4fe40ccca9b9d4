//! Which matrix-multiply fragments the CUDA warp-level API offers on a
//! given architecture.

use vstd::prelude::*;

verus! {

/// Header that declares the warp-level matrix API.
pub const WMMA_INCLUDE: &'static str = "#include <mma.h>\n";

/// Namespace of the warp-level matrix API.
pub const WMMA_NAMESPACE: &'static str = "nvcuda::wmma";

/// First architecture version that has the warp-level matrix API.
pub const WMMA_MINIMUM_VERSION: u32 = 70;

/// Element type of a matrix fragment.
#[derive(Debug, Clone, Copy, PartialEq, Eq, Structural, Hash)]
pub enum Elem {
    F16,
    BF16,
    TF32,
    F32,
    I8,
    I32,
}

/// Fragment types `a`, `b` and accumulator `c`, with the tile sizes
/// `(m, n, k)` offered for them.
pub type WmmaCombination = (Elem, Elem, Elem, Vec<(u8, u8, u8)>);

/// Compiler of warp-level matrix instructions for CUDA.
#[derive(Clone, Copy, Debug, PartialEq, Eq, Hash)]
pub struct CudaWmmaCompiler {}

/// The tile sizes that every fully supported combination has.
pub open spec fn full_tiles() -> Seq<(u8, u8, u8)> {
    seq![(16u8, 16u8, 16u8), (32u8, 8u8, 16u8), (8u8, 32u8, 16u8)]
}

/// The combinations on an architecture of the given version, in the order
/// in which they are listed; none below the minimum version.
pub open spec fn supported(version: u32) -> Seq<(Elem, Elem, Elem, Seq<(u8, u8, u8)>)> {
    if version >= WMMA_MINIMUM_VERSION {
        seq![
            (Elem::F16, Elem::F16, Elem::F16, full_tiles()),
            (Elem::F16, Elem::F16, Elem::F32, full_tiles()),
            (Elem::BF16, Elem::BF16, Elem::F32, full_tiles()),
            (Elem::I8, Elem::I8, Elem::I32, full_tiles()),
            (Elem::TF32, Elem::TF32, Elem::F32, seq![(16u8, 16u8, 8u8)]),
        ]
    } else {
        Seq::empty()
    }
}

/// A list of combinations as plain sequences.
pub open spec fn combinations_view(list: Vec<WmmaCombination>) -> Seq<
    (Elem, Elem, Elem, Seq<(u8, u8, u8)>),
> {
    Seq::new(list@.len(), |i: int| (list@[i].0, list@[i].1, list@[i].2, list@[i].3@))
}

impl Default for CudaWmmaCompiler {
    fn default() -> (compiler: Self)
        ensures
            compiler == (CudaWmmaCompiler {  }),
    {
        CudaWmmaCompiler {  }
    }
}

impl CudaWmmaCompiler {
    /// The compiler.
    pub fn new() -> (compiler: Self)
        ensures
            compiler == (CudaWmmaCompiler {  }),
    {
        CudaWmmaCompiler {  }
    }

    /// Nothing: the matrix types need no definitions of their own.
    pub fn compile_wmma_type_definitions() -> (text: &'static str)
        ensures
            text@.len() == 0,
    {
        proof {
            reveal_strlit("");
        }
        ""
    }

    /// Nothing: matrix code needs no local variables of its own.
    pub fn compile_local_variables() -> (text: &'static str)
        ensures
            text@.len() == 0,
    {
        proof {
            reveal_strlit("");
        }
        ""
    }

    /// The include line that generated code needs for matrix fragments.
    pub fn compile_wmma_includes() -> (text: &'static str)
        ensures
            text@ == WMMA_INCLUDE@,
    {
        WMMA_INCLUDE
    }

    /// The three tile sizes of a fully supported combination.
    fn tiles() -> (tiles: Vec<(u8, u8, u8)>)
        ensures
            tiles@ == full_tiles(),
    {
        let mut tiles: Vec<(u8, u8, u8)> = Vec::new();
        tiles.push((16u8, 16u8, 16u8));
        tiles.push((32u8, 8u8, 16u8));
        tiles.push((8u8, 32u8, 16u8));
        assert(tiles@ =~= full_tiles());
        tiles
    }

    /// The fragment combinations that an architecture of version
    /// `arch_version` supports.
    pub fn supported_wmma_combinations(arch_version: u32) -> (result: Vec<WmmaCombination>)
        ensures
            combinations_view(result) == supported(arch_version),
    {
        let mut result: Vec<WmmaCombination> = Vec::new();
        if arch_version >= WMMA_MINIMUM_VERSION {
            result.push((Elem::F16, Elem::F16, Elem::F16, Self::tiles()));
            result.push((Elem::F16, Elem::F16, Elem::F32, Self::tiles()));
            result.push((Elem::BF16, Elem::BF16, Elem::F32, Self::tiles()));
            result.push((Elem::I8, Elem::I8, Elem::I32, Self::tiles()));
            let mut small: Vec<(u8, u8, u8)> = Vec::new();
            small.push((16u8, 16u8, 8u8));
            assert(small@ =~= seq![(16u8, 16u8, 8u8)]);
            result.push((Elem::TF32, Elem::TF32, Elem::F32, small));
        }
        assert(combinations_view(result) =~= supported(arch_version));
        result
    }
}

} // verus!
