use cuda_toolkit::error::{LocateError, Malformation};
use cuda_toolkit::header::{detect_version, extract_version, VERSION_KEY};
use cuda_toolkit::version::CudaVersion;

fn malformed(reason: Malformation) -> LocateError {
    LocateError::MalformedInstallation { reason }
}

#[test]
fn version_key_ends_in_a_space() {
    assert_eq!(VERSION_KEY, "CUDA_VERSION ");
}

#[test]
fn extract_version_reads_the_define_line() {
    let header = "#ifndef __cuda_cuda_h__\n#define CUDA_VERSION 12020\n#endif\n";
    assert_eq!(extract_version(header), Ok("12020".to_string()));
}

#[test]
fn extract_version_takes_the_first_occurrence() {
    let header = "// 11070 99999\n#define CUDA_VERSION 12030\n#define OTHER 11080\n#define CUDA_VERSION 11070\n";
    assert_eq!(extract_version(header), Ok("12030".to_string()));
}

#[test]
fn extract_version_is_repeatable() {
    let header = "x 1\n#define CUDA_VERSION 12030\n12020\n";
    let first = extract_version(header);
    let second = extract_version(header);
    assert_eq!(first, Ok("12030".to_string()));
    assert_eq!(first, second);
}

#[test]
fn extract_version_drops_carriage_return_before_line_feed() {
    assert_eq!(extract_version("#define CUDA_VERSION 12010\r\nrest"), Ok("12010".to_string()));
}

#[test]
fn extract_version_keeps_carriage_return_at_end_of_text() {
    assert_eq!(extract_version("#define CUDA_VERSION 12010\r"), Ok("12010\r".to_string()));
}

#[test]
fn extract_version_drops_one_carriage_return_only() {
    assert_eq!(extract_version("CUDA_VERSION 12010\r\r\n"), Ok("12010\r".to_string()));
}

#[test]
fn extract_version_reads_to_end_of_text_without_line_feed() {
    assert_eq!(extract_version("#define CUDA_VERSION 11080"), Ok("11080".to_string()));
}

#[test]
fn extract_version_keeps_the_rest_of_the_line_as_it_is() {
    assert_eq!(
        extract_version("#define CUDA_VERSION 12020 /* 12.2 */\n"),
        Ok("12020 /* 12.2 */".to_string())
    );
    assert_eq!(extract_version("CUDA_VERSION \n12020\n"), Ok("".to_string()));
}

#[test]
fn extract_version_counts_characters_not_bytes() {
    let header = "/* \u{a9} NVIDIA \u{2014} \u{1f600} */\n#define CUDA_VERSION 12000\n";
    assert_eq!(extract_version(header), Ok("12000".to_string()));
}

#[test]
fn extract_version_without_key_is_malformed() {
    assert_eq!(extract_version("#define SOMETHING 12020\n"), Err(malformed(Malformation::KeyMissing)));
    assert_eq!(extract_version(""), Err(malformed(Malformation::KeyMissing)));
}

#[test]
fn extract_version_needs_the_exact_key() {
    assert_eq!(extract_version("#define CUDA_VERSION\t12020\n"), Err(malformed(Malformation::KeyMissing)));
    assert_eq!(extract_version("#define CUDA_VERSION"), Err(malformed(Malformation::KeyMissing)));
    assert_eq!(extract_version("#define cuda_version 12020\n"), Err(malformed(Malformation::KeyMissing)));
}

#[test]
fn extract_version_with_nothing_after_key_is_malformed() {
    assert_eq!(extract_version("#define CUDA_VERSION "), Err(malformed(Malformation::ValueMissing)));
}

#[test]
fn detect_version_of_a_default_install() {
    let header = "/* cuda.h */\n#define CUDA_VERSION 12020\n";
    let version = detect_version(Some(header)).unwrap();
    assert_eq!(version, CudaVersion::Cuda12020);
    assert_eq!(version.feature(), "cuda-12020");
}

#[test]
fn detect_version_without_key_never_defaults() {
    let header = "/* cuda.h */\n#define CUDART_VERSION 12020\n";
    assert_eq!(detect_version(Some(header)), Err(malformed(Malformation::KeyMissing)));
}

#[test]
fn detect_version_of_unreadable_header() {
    assert_eq!(detect_version(None), Err(malformed(Malformation::Unreadable)));
}

#[test]
fn detect_version_of_unknown_release() {
    assert_eq!(
        detect_version(Some("#define CUDA_VERSION 12040\n")),
        Err(LocateError::UnsupportedVersion { token: "12040".to_string() })
    );
    assert_eq!(
        detect_version(Some("#define CUDA_VERSION 12020 \n")),
        Err(LocateError::UnsupportedVersion { token: "12020 ".to_string() })
    );
}

#[test]
fn malformed_messages() {
    assert_eq!(
        malformed(Malformation::Unreadable).message(),
        "Unable to read the toolkit header `include/cuda.h`."
    );
    assert_eq!(
        malformed(Malformation::KeyMissing).message(),
        "Unable to find `CUDA_VERSION ` in the toolkit header `include/cuda.h`."
    );
    assert_eq!(
        malformed(Malformation::ValueMissing).message(),
        "Nothing follows `CUDA_VERSION ` in the toolkit header `include/cuda.h`."
    );
    assert_eq!(Malformation::KeyMissing.text(), malformed(Malformation::KeyMissing).message());
}
