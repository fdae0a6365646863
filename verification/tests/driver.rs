use kernel_build::driver::{
    classify, cuda_root, host_compile_flags, host_link_lines, plan_host, plan_ptx, rerun_lines,
    BuildError, BuildReport, HostOs, SpawnOutcome,
};
use kernel_build::GpuArchitecture;

fn strings(v: &[&str]) -> Vec<String> {
    let mut r: Vec<String> = Vec::new();
    for s in v {
        r.push(s.to_string());
    }
    r
}

#[test]
fn empty_source_list_yields_no_plan() {
    let files = strings(&[]);
    let plan = plan_ptx(GpuArchitecture::Rtx3, &files, "out");
    assert!(plan.is_none());
}

#[test]
fn one_rerun_line_per_path_in_order() {
    let files = strings(&["a.cu", "util.cuh", "b.cu"]);
    let lines = rerun_lines(&files);
    assert_eq!(lines.len(), 3);
    assert_eq!(lines[0], "cargo:rerun-if-changed=a.cu");
    assert_eq!(lines[1], "cargo:rerun-if-changed=util.cuh");
    assert_eq!(lines[2], "cargo:rerun-if-changed=b.cu");
}

#[test]
fn ptx_plan_for_ada_kernel() {
    let files = strings(&["kernel.cu"]);
    let plan = plan_ptx(GpuArchitecture::Rtx4, &files, "out").unwrap();
    assert_eq!(plan.rerun.len(), 1);
    assert_eq!(plan.rerun[0], "cargo:rerun-if-changed=kernel.cu");
    assert_eq!(plan.program, "nvcc");
    assert_eq!(
        plan.args,
        vec!["kernel.cu", "-arch=compute_89", "-ptx", "-O3", "-o", "out.ptx"]
    );
}

#[test]
fn successful_exit_reports_success_and_is_not_fatal() {
    let files = strings(&["kernel.cu"]);
    let outcome = SpawnOutcome::Finished {
        success: true,
        code: Some(0),
        stdout: String::new(),
        stderr: String::new(),
    };
    let report = classify(&outcome, &files);
    assert!(!report.is_fatal());
    match &report {
        BuildReport::Success { message } => {
            assert_eq!(message, "Compiled the following PTX files: [\"kernel.cu\"]");
        }
        _ => panic!("expected a success report"),
    }
}

#[test]
fn success_message_names_every_input() {
    let files = strings(&["a.cu", "b.cu"]);
    let outcome = SpawnOutcome::Finished {
        success: true,
        code: Some(0),
        stdout: String::new(),
        stderr: String::new(),
    };
    let report = classify(&outcome, &files);
    assert_eq!(
        report.text(),
        "Compiled the following PTX files: [\"a.cu\", \"b.cu\"]"
    );
}

#[test]
fn failing_exit_is_fatal_with_status_and_streams() {
    let files = strings(&["kernel.cu"]);
    let outcome = SpawnOutcome::Finished {
        success: false,
        code: Some(1),
        stdout: "ptxas info".to_string(),
        stderr: "kernel.cu(3): error".to_string(),
    };
    let report = classify(&outcome, &files);
    assert!(report.is_fatal());
    match &report {
        BuildReport::CompileFailure { diagnostic } => {
            assert_eq!(
                diagnostic,
                "CUDA PTX compilation problem:\nstatus: 1\nstdout: ptxas info\nstderr: kernel.cu(3): error"
            );
            assert!(diagnostic.contains("1"));
            assert!(diagnostic.contains("ptxas info"));
            assert!(diagnostic.contains("kernel.cu(3): error"));
        }
        _ => panic!("expected a compile-failure report"),
    }
}

#[test]
fn negative_exit_code_is_rendered_with_sign() {
    let files = strings(&["kernel.cu"]);
    let outcome = SpawnOutcome::Finished {
        success: false,
        code: Some(-11),
        stdout: String::new(),
        stderr: String::new(),
    };
    let report = classify(&outcome, &files);
    assert_eq!(
        report.text(),
        "CUDA PTX compilation problem:\nstatus: -11\nstdout: \nstderr: "
    );
}

#[test]
fn missing_exit_code_is_reported_as_signal() {
    let files = strings(&["kernel.cu"]);
    let outcome = SpawnOutcome::Finished {
        success: false,
        code: None,
        stdout: String::new(),
        stderr: String::new(),
    };
    let report = classify(&outcome, &files);
    assert_eq!(
        report.text(),
        "CUDA PTX compilation problem:\nstatus: terminated by signal\nstdout: \nstderr: "
    );
}

#[test]
fn spawn_failure_is_fatal_and_names_the_error() {
    let files = strings(&["kernel.cu"]);
    let outcome = SpawnOutcome::SpawnError {
        reason: "No such file or directory (os error 2)".to_string(),
    };
    let report = classify(&outcome, &files);
    assert!(report.is_fatal());
    match &report {
        BuildReport::SpawnFailure { diagnostic } => {
            assert_eq!(
                diagnostic,
                "Unable to compile PTX: No such file or directory (os error 2)"
            );
        }
        _ => panic!("expected a spawn-failure report"),
    }
}

#[test]
fn cuda_root_prefers_the_environment_value() {
    assert_eq!(cuda_root(Some("/opt/cuda".to_string())), "/opt/cuda");
    assert_eq!(cuda_root(None), "/usr/local/cuda");
}

#[test]
fn host_compile_flags_by_platform() {
    let linux = host_compile_flags(GpuArchitecture::Rtx3, HostOs::Linux);
    assert_eq!(linux, vec!["-O3", "-arch=sm_86", "-Xcompiler=-fPIC"]);
    let windows = host_compile_flags(GpuArchitecture::Rtx3, HostOs::Windows);
    assert_eq!(windows, vec!["-O3", "-arch=sm_86"]);
}

#[test]
fn host_link_lines_by_platform() {
    let linux = host_link_lines(HostOs::Linux, "/usr/local/cuda");
    assert_eq!(
        linux,
        vec![
            "cargo:rustc-link-search=native=/usr/local/cuda/lib64",
            "cargo:rustc-link-lib=cufft"
        ]
    );
    let windows = host_link_lines(HostOs::Windows, "C:\\CUDA");
    assert_eq!(
        windows,
        vec![
            "cargo:rustc-link-search=native=C:\\CUDA\\lib\\x64",
            "cargo:rustc-link-lib=cufft"
        ]
    );
}

#[test]
fn host_plan_on_linux_with_default_root() {
    let files = strings(&["fft.cu", "fft.cuh"]);
    let plan = plan_host(
        GpuArchitecture::Rtx2,
        &files,
        "fft",
        Some(HostOs::Linux),
        None,
    )
    .unwrap();
    assert_eq!(plan.rerun.len(), 2);
    assert_eq!(plan.rerun[0], "cargo:rerun-if-changed=fft.cu");
    assert_eq!(plan.rerun[1], "cargo:rerun-if-changed=fft.cuh");
    assert_eq!(plan.entry, "fft.cu");
    assert_eq!(plan.flags, vec!["-O3", "-arch=sm_75", "-Xcompiler=-fPIC"]);
    assert_eq!(plan.output_name, "fft");
    assert_eq!(
        plan.link_lines,
        vec![
            "cargo:rustc-link-search=native=/usr/local/cuda/lib64",
            "cargo:rustc-link-lib=cufft"
        ]
    );
}

#[test]
fn host_plan_rejects_an_unrecognized_platform() {
    let files = strings(&["fft.cu"]);
    let r = plan_host(GpuArchitecture::Rtx2, &files, "fft", None, None);
    match r {
        Err(e) => assert_eq!(e, BuildError::UnsupportedPlatform),
        Ok(_) => panic!("expected an unsupported-platform error"),
    }
}
