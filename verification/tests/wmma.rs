use compute_channel::wmma::{CudaWmmaCompiler, Elem, WMMA_MINIMUM_VERSION, WMMA_NAMESPACE};

#[test]
fn nothing_is_supported_below_the_minimum_version() {
    assert!(CudaWmmaCompiler::supported_wmma_combinations(0).is_empty());
    assert!(CudaWmmaCompiler::supported_wmma_combinations(69).is_empty());
    assert_eq!(WMMA_MINIMUM_VERSION, 70);
}

#[test]
fn five_combinations_from_the_minimum_version_on() {
    let tiles = vec![(16u8, 16u8, 16u8), (32, 8, 16), (8, 32, 16)];
    let expected = vec![
        (Elem::F16, Elem::F16, Elem::F16, tiles.clone()),
        (Elem::F16, Elem::F16, Elem::F32, tiles.clone()),
        (Elem::BF16, Elem::BF16, Elem::F32, tiles.clone()),
        (Elem::I8, Elem::I8, Elem::I32, tiles),
        (Elem::TF32, Elem::TF32, Elem::F32, vec![(16u8, 16u8, 8u8)]),
    ];
    assert_eq!(CudaWmmaCompiler::supported_wmma_combinations(70), expected);
    assert_eq!(CudaWmmaCompiler::supported_wmma_combinations(90), expected);
}

#[test]
fn include_line_names_the_matrix_header() {
    assert_eq!(CudaWmmaCompiler::compile_wmma_includes(), "#include <mma.h>\n");
    assert_eq!(WMMA_NAMESPACE, "nvcuda::wmma");
    assert_eq!(CudaWmmaCompiler::new(), CudaWmmaCompiler::default());
    assert_eq!(CudaWmmaCompiler::compile_wmma_type_definitions(), "");
    assert_eq!(CudaWmmaCompiler::compile_local_variables(), "");
}
