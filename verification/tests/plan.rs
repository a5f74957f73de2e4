use cuda_toolkit::error::{LocateError, Malformation};
use cuda_toolkit::linking::{link_dir_candidates, Capabilities};
use cuda_toolkit::plan::{
    build_directives, dynamic_linking, locate, version_from_build_system, BuildConfig, BuildError,
    HeaderFacts, RootFacts,
};
use cuda_toolkit::probe::{Component, Probe};
use cuda_toolkit::roots::root_candidates;
use cuda_toolkit::selection::{SelectionError, VersionFlags};
use cuda_toolkit::version::CudaVersion;

fn bare(root: &str) -> RootFacts {
    RootFacts {
        root: root.to_string(),
        toolkit_header: HeaderFacts::Missing,
        cudnn_header: false,
        link_dirs: link_dir_candidates(root)
            .into_iter()
            .map(|path| Probe { path, present: false })
            .collect(),
    }
}

fn with_header(root: &str, text: &str) -> RootFacts {
    RootFacts { toolkit_header: HeaderFacts::Text { text: text.to_string() }, ..bare(root) }
}

fn with_dirs(mut facts: RootFacts, there: &[&str]) -> RootFacts {
    for probe in facts.link_dirs.iter_mut() {
        probe.present = there.contains(&probe.path.as_str());
    }
    facts
}

fn survey(overrides: &[Option<&str>]) -> Vec<RootFacts> {
    let values: Vec<Option<String>> =
        overrides.iter().map(|value| value.map(|root| root.to_string())).collect();
    root_candidates(&values).iter().map(|root| bare(root)).collect()
}

fn no_versions() -> VersionFlags {
    VersionFlags {
        from_build_system: false,
        cuda_12030: false,
        cuda_12020: false,
        cuda_12010: false,
        cuda_12000: false,
        cuda_11080: false,
        cuda_11070: false,
    }
}

fn no_capabilities() -> Capabilities {
    Capabilities {
        driver: false,
        nccl: false,
        nvrtc: false,
        curand: false,
        cublas: false,
        cublaslt: false,
        cudnn: false,
    }
}

fn detecting() -> BuildConfig {
    BuildConfig {
        versions: VersionFlags { from_build_system: true, ..no_versions() },
        dynamic_linking: false,
        capabilities: no_capabilities(),
    }
}

fn pinned() -> BuildConfig {
    BuildConfig {
        versions: VersionFlags { cuda_12030: true, ..no_versions() },
        dynamic_linking: false,
        capabilities: no_capabilities(),
    }
}

fn all_roots(facts: &[RootFacts]) -> Vec<String> {
    facts.iter().map(|facts| facts.root.clone()).collect()
}

#[test]
fn default_install_selects_root_and_release() {
    let mut facts = survey(&[None, None, None, None]);
    assert_eq!(facts[2].root, "/opt/cuda");
    facts[2] = with_header("/opt/cuda", "/* cuda.h */\n#define CUDA_VERSION 12020\n");
    assert_eq!(locate(Component::Toolkit, &facts), Ok(2));
    assert_eq!(version_from_build_system(&facts), Ok(CudaVersion::Cuda12020));
    assert_eq!(
        build_directives(&detecting(), &facts),
        Ok(vec!["cargo:rustc-cfg=feature=\"cuda-12020\"".to_string()])
    );
}

#[test]
fn override_wins_over_a_default_install() {
    let mut facts = survey(&[None, Some("/my/cuda"), None, None]);
    assert_eq!(facts[0].root, "/my/cuda");
    facts[0] = with_header("/my/cuda", "#define CUDA_VERSION 11080\n");
    facts[3] = with_header("/opt/cuda", "#define CUDA_VERSION 12020\n");
    assert_eq!(locate(Component::Toolkit, &facts), Ok(0));
    assert_eq!(version_from_build_system(&facts), Ok(CudaVersion::Cuda11080));
}

#[test]
fn no_install_lists_all_searched_roots() {
    let facts = survey(&[Some("/env/path"), None, Some("/env/toolkit"), None]);
    let error = build_directives(&detecting(), &facts).unwrap_err();
    assert_eq!(
        error,
        BuildError::Locate(LocateError::DiscoveryFailure {
                component: Component::Toolkit,
                candidates: all_roots(&facts),
            })
    );
    assert_eq!(
        error.message(),
        "Unable to find `include/cuda.h` under any of: [\"/env/path\", \"/env/toolkit\", \"/usr\", \"/usr/local/cuda\", \"/opt/cuda\", \"/usr/lib/cuda\", \"C:/Program Files/NVIDIA GPU Computing Toolkit\", \"C:/CUDA\"]. Set the `CUDA_ROOT` environment variable to `$CUDA_ROOT/include/cuda.h` to override path."
    );
}

#[test]
fn header_without_key_is_malformed() {
    let mut facts = survey(&[None, None, None, None]);
    facts[1] = with_header("/usr/local/cuda", "#define CUDART_VERSION 12020\n");
    facts[2] = with_header("/opt/cuda", "#define CUDA_VERSION 12020\n");
    let expected =
        LocateError::MalformedInstallation { reason: Malformation::KeyMissing };
    assert_eq!(version_from_build_system(&facts), Err(expected.clone()));
    assert_eq!(
        build_directives(&detecting(), &facts),
        Err(BuildError::Locate(expected))
    );
}

#[test]
fn unreadable_header_is_malformed() {
    let mut facts = survey(&[None, None, None, None]);
    facts[0].toolkit_header = HeaderFacts::Unreadable;
    facts[2] = with_header("/opt/cuda", "#define CUDA_VERSION 12020\n");
    assert_eq!(locate(Component::Toolkit, &facts), Ok(0));
    assert_eq!(
        version_from_build_system(&facts),
        Err(LocateError::MalformedInstallation { reason: Malformation::Unreadable })
    );
}

#[test]
fn unknown_release_is_refused() {
    let facts = vec![with_header("/usr", "#define CUDA_VERSION 13000\n")];
    assert_eq!(
        build_directives(&detecting(), &facts),
        Err(BuildError::Locate(LocateError::UnsupportedVersion { token: "13000".to_string() }))
    );
}

#[test]
fn pinned_release_needs_no_install() {
    assert_eq!(build_directives(&pinned(), &Vec::new()), Ok(Vec::new()));
    assert_eq!(build_directives(&pinned(), &survey(&[None])), Ok(Vec::new()));
}

#[test]
fn markers_are_judged_first() {
    let config = BuildConfig { versions: no_versions(), dynamic_linking: true, ..detecting() };
    assert_eq!(
        build_directives(&config, &Vec::new()),
        Err(BuildError::Selection(SelectionError::NoneSelected))
    );
    let config = BuildConfig {
        versions: VersionFlags { cuda_12030: true, cuda_12020: true, ..no_versions() },
        ..detecting()
    };
    let error = build_directives(&config, &Vec::new()).unwrap_err();
    assert_eq!(error, BuildError::Selection(SelectionError::SeveralSelected));
    assert_eq!(error.message(), SelectionError::SeveralSelected.message());
}

#[test]
fn dynamic_linking_registers_directories_and_targets() {
    let capabilities = Capabilities { driver: true, nvrtc: true, ..no_capabilities() };
    let facts = vec![
        bare("/usr"),
        with_dirs(
            with_header("/usr/local/cuda", "#define CUDA_VERSION 12030\n"),
            &["/usr/local/cuda/lib64"],
        ),
        with_dirs(with_header("/opt/cuda", "#define CUDA_VERSION 12030\n"), &["/opt/cuda/lib"]),
    ];
    assert_eq!(
        dynamic_linking(&facts, &capabilities),
        Ok(vec![
            "cargo:rustc-link-search=native=/usr/local/cuda/lib64".to_string(),
            "cargo:rustc-link-lib=dylib=cuda".to_string(),
            "cargo:rustc-link-lib=dylib=nvrtc".to_string(),
        ])
    );
}

#[test]
fn dynamic_linking_needs_the_toolkit() {
    let facts = vec![with_dirs(bare("/usr"), &["/usr/lib", "/usr/lib64"])];
    assert_eq!(
        dynamic_linking(&facts, &no_capabilities()),
        Err(LocateError::DiscoveryFailure {
            component: Component::Toolkit,
            candidates: vec!["/usr".to_string()],
        })
    );
}

#[test]
fn cudnn_is_located_only_on_request() {
    let facts = vec![with_dirs(with_header("/usr", "x"), &["/usr/lib"])];
    let without = Capabilities { cublas: true, ..no_capabilities() };
    assert_eq!(
        dynamic_linking(&facts, &without),
        Ok(vec![
            "cargo:rustc-link-search=native=/usr/lib".to_string(),
            "cargo:rustc-link-lib=dylib=cublas".to_string(),
            "cargo:rustc-link-lib=dylib=cublasLt".to_string(),
        ])
    );
    let with = Capabilities { cudnn: true, ..without };
    let error = dynamic_linking(&facts, &with).unwrap_err();
    assert_eq!(
        error,
        LocateError::DiscoveryFailure {
            component: Component::Cudnn,
            candidates: vec!["/usr".to_string()],
        }
    );
    assert_eq!(
        error.message(),
        "Unable to find `include/cudnn.h` under any of: [\"/usr\"]. Set the `CUDNN_LIB` environment variable to `$CUDNN_LIB/include/cudnn.h` to override path."
    );
}

#[test]
fn cudnn_may_have_a_root_of_its_own() {
    let capabilities = Capabilities { cudnn: true, ..no_capabilities() };
    let mut cudnn = with_dirs(bare("/opt/cudnn"), &["/opt/cudnn/lib", "/opt/cudnn/lib64"]);
    cudnn.cudnn_header = true;
    let facts = vec![
        cudnn,
        with_dirs(with_header("/usr/local/cuda", "x"), &["/usr/local/cuda/lib64"]),
    ];
    assert_eq!(locate(Component::Toolkit, &facts), Ok(1));
    assert_eq!(locate(Component::Cudnn, &facts), Ok(0));
    assert_eq!(
        dynamic_linking(&facts, &capabilities),
        Ok(vec![
            "cargo:rustc-link-search=native=/usr/local/cuda/lib64".to_string(),
            "cargo:rustc-link-search=native=/opt/cudnn/lib".to_string(),
            "cargo:rustc-link-search=native=/opt/cudnn/lib64".to_string(),
            "cargo:rustc-link-lib=dylib=cudnn".to_string(),
        ])
    );
}

#[test]
fn build_directives_put_the_release_before_the_linking() {
    let config = BuildConfig {
        dynamic_linking: true,
        capabilities: Capabilities { curand: true, ..no_capabilities() },
        ..detecting()
    };
    let facts = vec![with_dirs(
        with_header("/usr", "#define CUDA_VERSION 12000\r\n"),
        &["/usr/lib/x86_64-linux-gnu"],
    )];
    assert_eq!(
        build_directives(&config, &facts),
        Ok(vec![
            "cargo:rustc-cfg=feature=\"cuda-12000\"".to_string(),
            "cargo:rustc-link-search=native=/usr/lib/x86_64-linux-gnu".to_string(),
            "cargo:rustc-link-lib=dylib=curand".to_string(),
        ])
    );
}

#[test]
fn build_directives_of_a_pinned_release_with_linking() {
    let config = BuildConfig {
        dynamic_linking: true,
        capabilities: Capabilities { nccl: true, ..no_capabilities() },
        ..pinned()
    };
    let facts = vec![with_dirs(with_header("/usr", "no version here"), &["/usr/lib64"])];
    assert_eq!(
        build_directives(&config, &facts),
        Ok(vec![
            "cargo:rustc-link-search=native=/usr/lib64".to_string(),
            "cargo:rustc-link-lib=dylib=nccl".to_string(),
        ])
    );
}
