use cv::dnn::{Mat, Net};
use cv::text::{concat2, concat3, contains_nul, str_eq, strip_prefix, CText};
use cv::CvError;

#[test]
fn embedded_nul_is_detected() {
    assert!(contains_nul("a\0b"));
    assert!(contains_nul("\0"));
    assert!(!contains_nul(""));
    assert!(!contains_nul("plain"));
}

#[test]
fn ctext_rejects_embedded_nul() {
    match CText::new("bad\0path") {
        Err(CvError::InvalidString(s)) => assert_eq!(s, "bad\0path"),
        other => panic!("expected the invalid-string error, got {:?}", other),
    }
    assert_eq!(CText::new("good_path").unwrap().as_str(), "good_path");
}

fn invalid<T: std::fmt::Debug>(e: Result<T, CvError>, s: &str) {
    match e {
        Err(CvError::InvalidString(t)) => assert_eq!(t, s),
        other => panic!("expected the invalid-string error, got {:?}", other),
    }
}

#[test]
fn every_text_taking_operation_rejects_embedded_nul() {
    invalid(Net::read_net("m\0", "c"), "m\0");
    invalid(Net::read_net("m", "c\0"), "c\0");
    invalid(Net::from_caffe("p\0", "m"), "p\0");
    invalid(Net::from_caffe("p", "m\0"), "m\0");
    invalid(Net::from_tensorflow("m\0"), "m\0");

    let mut net = Net::adopt(4, "").unwrap();
    let blob = Mat::adopt(8);
    invalid(net.set_input(&blob, "in\0put"), "in\0put");
    invalid(net.forward("out\0"), "out\0");
    invalid(
        net.forward_multi(vec!["fine".to_string(), "bro\0ken".to_string()]),
        "bro\0ken",
    );
}

#[test]
fn str_eq_compares_by_characters() {
    assert!(str_eq("", ""));
    assert!(str_eq("abc", "abc"));
    assert!(!str_eq("abc", "abd"));
    assert!(!str_eq("abc", "abcd"));
}

#[test]
fn strip_prefix_yields_the_rest_exactly_when_the_prefix_is_there() {
    assert_eq!(strip_prefix("OPENCV_LIB_DIR", "OPENCV_"), Some("LIB_DIR".to_string()));
    assert_eq!(strip_prefix("OPENCV_LIB_DIR", "LIB"), None);
    assert_eq!(strip_prefix("ab", "abc"), None);
    assert_eq!(strip_prefix("same", "same"), Some(String::new()));
}

#[test]
fn concatenation_appends_in_order() {
    assert_eq!(concat2("lib", "jpeg.a"), "libjpeg.a");
    assert_eq!(concat3("gocv/", "dnn", ".h"), "gocv/dnn.h");
    assert_eq!(concat3("", "", ""), "");
}
