use cv::bindgen::{enabled_modules, header_candidates, select_headers, select_sources, BuildError};
use cv::config::Features;

fn strings(items: &[&str]) -> Vec<String> {
    items.iter().map(|s| s.to_string()).collect()
}

#[test]
fn core_is_always_enabled_and_toggles_add_their_module() {
    let f = Features {
        dnn: true,
        features2d: false,
        highgui: false,
        imgcodecs: true,
        imgproc: false,
        objdetect: false,
        cuda: false,
    };
    assert_eq!(enabled_modules(&f), strings(&["core", "dnn", "imgcodecs"]));
}

#[test]
fn candidates_are_tried_in_a_fixed_order() {
    assert_eq!(
        header_candidates("dnn"),
        strings(&["gocv/dnn.h", "gocv/dnn_gocv.h", "dnn.h"])
    );
}

#[test]
fn one_header_per_module_with_the_version_module_last() {
    let modules = strings(&["core", "dnn"]);
    let available = strings(&[
        "gocv/core.h",
        "dnn.h",
        "gocv/dnn_gocv.h",
        "gocv/version_gocv.h",
        "unrelated.txt",
    ]);
    let headers = select_headers(&modules, &available).unwrap();
    // exactly one header per module, each the first available candidate
    assert_eq!(
        headers,
        strings(&["gocv/core.h", "gocv/dnn_gocv.h", "gocv/version_gocv.h"])
    );
}

#[test]
fn a_module_without_any_candidate_fails_fast() {
    let modules = strings(&["core", "highgui", "dnn"]);
    let available = strings(&["gocv/core.h", "gocv/dnn.h", "version.h"]);
    assert_eq!(
        select_headers(&modules, &available),
        Err(BuildError::MissingHeader("highgui".to_string()))
    );
}

#[test]
fn the_implicit_version_module_needs_a_header_too() {
    let modules = strings(&["core"]);
    let available = strings(&["gocv/core.h"]);
    assert_eq!(
        select_headers(&modules, &available),
        Err(BuildError::MissingHeader("version".to_string()))
    );
}

#[test]
fn one_shim_source_per_module() {
    let modules = strings(&["core", "dnn"]);
    let available = strings(&["gocv/core.cpp", "dnn.cpp"]);
    assert_eq!(
        select_sources(&modules, &available).unwrap(),
        strings(&["gocv/core.cpp", "dnn.cpp"])
    );
}

#[test]
fn a_module_without_a_shim_source_fails_fast() {
    let modules = strings(&["core", "imgproc"]);
    let available = strings(&["gocv/core.cpp"]);
    assert_eq!(
        select_sources(&modules, &available),
        Err(BuildError::MissingSource("imgproc".to_string()))
    );
}
