use cuda_toolkit::linking::{
    enumerate_link_dirs, link_dir_candidates, link_directives, link_targets, Capabilities,
};
use cuda_toolkit::probe::Probe;

fn nothing() -> Capabilities {
    Capabilities {
        driver: false,
        nccl: false,
        nvrtc: false,
        curand: false,
        cublas: false,
        cublaslt: false,
        cudnn: false,
    }
}

fn everything() -> Capabilities {
    Capabilities {
        driver: true,
        nccl: true,
        nvrtc: true,
        curand: true,
        cublas: true,
        cublaslt: true,
        cudnn: true,
    }
}

fn probes_below(root: &str, there: &[&str]) -> Vec<Probe> {
    link_dir_candidates(root)
        .into_iter()
        .map(|path| Probe { present: there.contains(&path.as_str()), path })
        .collect()
}

#[test]
fn link_dir_candidates_below_a_root() {
    assert_eq!(
        link_dir_candidates("/opt/cuda"),
        vec![
            "/opt/cuda/lib",
            "/opt/cuda/lib/x64",
            "/opt/cuda/lib/Win32",
            "/opt/cuda/lib/x86_64",
            "/opt/cuda/lib/x86_64-linux-gnu",
            "/opt/cuda/lib64",
            "/opt/cuda/lib64/stubs",
            "/opt/cuda/targets/x86_64-linux",
            "/opt/cuda/targets/x86_64-linux/lib",
            "/opt/cuda/targets/x86_64-linux/lib/stubs",
        ]
    );
}

#[test]
fn link_dir_candidates_below_a_root_with_trailing_separator() {
    let dirs = link_dir_candidates("/usr/");
    assert_eq!(dirs.len(), 10);
    assert_eq!(dirs[0], "/usr/lib");
    assert_eq!(dirs[9], "/usr/targets/x86_64-linux/lib/stubs");
}

#[test]
fn enumerate_link_dirs_with_lib64_only() {
    let probes = probes_below("/opt/cuda", &["/opt/cuda/lib64"]);
    assert_eq!(enumerate_link_dirs(&probes), vec!["/opt/cuda/lib64"]);
}

#[test]
fn enumerate_link_dirs_keeps_all_that_exist_in_order() {
    let probes = probes_below(
        "/usr/local/cuda",
        &[
            "/usr/local/cuda/targets/x86_64-linux/lib",
            "/usr/local/cuda/lib64",
            "/usr/local/cuda/lib64/stubs",
        ],
    );
    assert_eq!(
        enumerate_link_dirs(&probes),
        vec![
            "/usr/local/cuda/lib64",
            "/usr/local/cuda/lib64/stubs",
            "/usr/local/cuda/targets/x86_64-linux/lib",
        ]
    );
}

#[test]
fn enumerate_link_dirs_with_none_or_all() {
    assert_eq!(enumerate_link_dirs(&probes_below("/usr", &[])), Vec::<String>::new());
    assert_eq!(enumerate_link_dirs(&Vec::new()), Vec::<String>::new());
    let all: Vec<Probe> = link_dir_candidates("/usr")
        .into_iter()
        .map(|path| Probe { path, present: true })
        .collect();
    assert_eq!(enumerate_link_dirs(&all), link_dir_candidates("/usr"));
}

#[test]
fn link_targets_of_each_capability_alone() {
    assert_eq!(link_targets(&nothing()), Vec::<String>::new());
    assert_eq!(link_targets(&Capabilities { driver: true, ..nothing() }), vec!["cuda"]);
    assert_eq!(link_targets(&Capabilities { nccl: true, ..nothing() }), vec!["nccl"]);
    assert_eq!(link_targets(&Capabilities { nvrtc: true, ..nothing() }), vec!["nvrtc"]);
    assert_eq!(link_targets(&Capabilities { curand: true, ..nothing() }), vec!["curand"]);
    assert_eq!(link_targets(&Capabilities { cublas: true, ..nothing() }), vec!["cublas", "cublasLt"]);
    assert_eq!(link_targets(&Capabilities { cublaslt: true, ..nothing() }), vec!["cublasLt"]);
    assert_eq!(link_targets(&Capabilities { cudnn: true, ..nothing() }), vec!["cudnn"]);
}

#[test]
fn link_targets_of_all_capabilities() {
    assert_eq!(
        link_targets(&everything()),
        vec!["cuda", "nccl", "nvrtc", "curand", "cublas", "cublasLt", "cudnn"]
    );
}

#[test]
fn link_directives_without_cudnn_leave_its_directories_out() {
    let toolkit = vec!["/opt/cuda/lib64".to_string(), "/opt/cuda/lib64/stubs".to_string()];
    let cudnn = vec!["/opt/cudnn/lib".to_string()];
    let capabilities = Capabilities { driver: true, nvrtc: true, ..nothing() };
    assert_eq!(
        link_directives(&toolkit, &cudnn, &capabilities),
        vec![
            "cargo:rustc-link-search=native=/opt/cuda/lib64",
            "cargo:rustc-link-search=native=/opt/cuda/lib64/stubs",
            "cargo:rustc-link-lib=dylib=cuda",
            "cargo:rustc-link-lib=dylib=nvrtc",
        ]
    );
}

#[test]
fn link_directives_with_cudnn() {
    let toolkit = vec!["/opt/cuda/lib64".to_string()];
    let cudnn = vec!["/opt/cudnn/lib".to_string(), "/opt/cudnn/lib64".to_string()];
    let capabilities = Capabilities { cublaslt: true, cudnn: true, ..nothing() };
    assert_eq!(
        link_directives(&toolkit, &cudnn, &capabilities),
        vec![
            "cargo:rustc-link-search=native=/opt/cuda/lib64",
            "cargo:rustc-link-search=native=/opt/cudnn/lib",
            "cargo:rustc-link-search=native=/opt/cudnn/lib64",
            "cargo:rustc-link-lib=dylib=cublasLt",
            "cargo:rustc-link-lib=dylib=cudnn",
        ]
    );
}

#[test]
fn link_directives_of_nothing() {
    assert_eq!(link_directives(&Vec::new(), &Vec::new(), &nothing()), Vec::<String>::new());
}
