use kernel_build::GpuArchitecture;

#[test]
fn codes_match_documented_compute_capabilities() {
    assert_eq!(GpuArchitecture::Rtx2.code(), 75);
    assert_eq!(GpuArchitecture::Rtx3.code(), 86);
    assert_eq!(GpuArchitecture::Rtx4.code(), 89);
    assert_eq!(GpuArchitecture::Rtx5.code(), 100);
}

#[test]
fn gencode_val_formats_each_code() {
    assert_eq!(GpuArchitecture::Rtx2.gencode_val(), "arch=compute_75,code=sm_75");
    assert_eq!(GpuArchitecture::Rtx3.gencode_val(), "arch=compute_86,code=sm_86");
    assert_eq!(GpuArchitecture::Rtx4.gencode_val(), "arch=compute_89,code=sm_89");
    assert_eq!(GpuArchitecture::Rtx5.gencode_val(), "arch=compute_100,code=sm_100");
}

#[test]
fn compute_val_formats_each_code() {
    assert_eq!(GpuArchitecture::Rtx2.compute_val(), "-arch=compute_75");
    assert_eq!(GpuArchitecture::Rtx3.compute_val(), "-arch=compute_86");
    assert_eq!(GpuArchitecture::Rtx4.compute_val(), "-arch=compute_89");
    assert_eq!(GpuArchitecture::Rtx5.compute_val(), "-arch=compute_100");
}

#[test]
fn sm_val_formats_each_code() {
    assert_eq!(GpuArchitecture::Rtx2.sm_val(), "-arch=sm_75");
    assert_eq!(GpuArchitecture::Rtx3.sm_val(), "-arch=sm_86");
    assert_eq!(GpuArchitecture::Rtx4.sm_val(), "-arch=sm_89");
    assert_eq!(GpuArchitecture::Rtx5.sm_val(), "-arch=sm_100");
}

#[test]
fn flag_accessors_are_deterministic() {
    let a = GpuArchitecture::Rtx4;
    assert_eq!(a.gencode_val(), a.gencode_val());
    assert_eq!(a.compute_val(), a.compute_val());
    assert_eq!(a.sm_val(), a.sm_val());
}

#[test]
fn decimal_rendering_handles_edges() {
    assert_eq!(kernel_build::text::dec_string(0), "0");
    assert_eq!(kernel_build::text::dec_string(7), "7");
    assert_eq!(kernel_build::text::dec_string(100), "100");
    assert_eq!(kernel_build::text::dec_string(4294967295), "4294967295");
}
