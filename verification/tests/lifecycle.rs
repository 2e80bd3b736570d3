use cv::dnn::{adopt_outputs, DnnBackend, DnnTarget, Mat, Net, NetSource};
use cv::CvError;

#[test]
fn dispose_releases_exactly_once() {
    let mut m = Mat::adopt(42);
    assert!(!m.is_disposed());
    assert_eq!(m.dispose(), Some(42));
    assert!(m.is_disposed());
    assert_eq!(m.dispose(), None);
    assert!(m.is_disposed());
    assert_eq!(m.dispose(), None);
}

#[test]
fn net_dispose_is_idempotent() {
    let mut n = Net::adopt(7, "").unwrap();
    assert_eq!(n.dispose(), Some(7));
    assert_eq!(n.dispose(), None);
}

#[test]
fn adopt_rejects_null_handle() {
    match Net::adopt(0, "model failed to load") {
        Err(CvError::UnknownError(d)) => assert_eq!(d, "model failed to load"),
        other => panic!("expected the unknown error, got {:?}", other),
    }
    assert!(Net::adopt(1, "").is_ok());
}

#[test]
fn read_net_marshals_both_paths() {
    match Net::read_net("model.pb", "config.pbtxt") {
        Ok(NetSource::Generic { model, config }) => {
            assert_eq!(model.as_str(), "model.pb");
            assert_eq!(config.as_str(), "config.pbtxt");
        }
        other => panic!("expected the generic source, got {:?}", other),
    }
}

#[test]
fn from_caffe_marshals_both_paths() {
    match Net::from_caffe("net.prototxt", "net.caffemodel") {
        Ok(NetSource::Caffe { prototxt, model }) => {
            assert_eq!(prototxt.as_str(), "net.prototxt");
            assert_eq!(model.as_str(), "net.caffemodel");
        }
        other => panic!("expected the caffe source, got {:?}", other),
    }
}

#[test]
fn from_tensorflow_marshals_the_model() {
    match Net::from_tensorflow("graph.pb") {
        Ok(NetSource::Tensorflow { model }) => assert_eq!(model.as_str(), "graph.pb"),
        other => panic!("expected the tensorflow source, got {:?}", other),
    }
}

#[test]
fn forward_multi_round_trip() {
    let net = Net::adopt(9, "").unwrap();
    let names = vec![
        "detection_out".to_string(),
        "detection_scores".to_string(),
        "detection_classes".to_string(),
    ];
    let table = net.forward_multi(names).unwrap();
    assert_eq!(table.len(), 3);
    assert_eq!(table[0].as_str(), "detection_out");
    assert_eq!(table[1].as_str(), "detection_scores");
    assert_eq!(table[2].as_str(), "detection_classes");

    // the native side fills one output slot per requested name; each
    // adopted wrapper is disposable on its own
    let raws = vec![11usize, 22, 33];
    let mut mats = adopt_outputs(&raws);
    assert_eq!(mats.len(), 3);
    assert_eq!(mats[1].dispose(), Some(22));
    assert!(!mats[0].is_disposed());
    assert!(!mats[2].is_disposed());
    assert_eq!(mats[0].dispose(), Some(11));
    assert_eq!(mats[2].dispose(), Some(33));
    assert_eq!(mats[1].dispose(), None);
}

#[test]
fn set_input_and_forward_marshal_the_name() {
    let mut net = Net::adopt(5, "").unwrap();
    let blob = Mat::adopt(6);
    let name = net.set_input(&blob, "data").unwrap();
    assert_eq!(name.as_str(), "data");
    let out = net.forward("prob").unwrap();
    assert_eq!(out.as_str(), "prob");
}

#[test]
fn backend_codes_match_the_native_enumeration() {
    let net = Net::adopt(3, "").unwrap();
    assert_eq!(net.set_preferable_backend(DnnBackend::DnnBackendDefault), 0);
    assert_eq!(net.set_preferable_backend(DnnBackend::DnnBackendHalide), 1);
    assert_eq!(
        net.set_preferable_backend(DnnBackend::DnnBackendInferenceEngine),
        2
    );
    assert_eq!(net.set_preferable_backend(DnnBackend::DnnBackendOpencv), 3);
}

#[test]
fn target_codes_match_the_native_enumeration() {
    let net = Net::adopt(3, "").unwrap();
    assert_eq!(net.set_preferable_target(DnnTarget::DnnTargetCpu), 0);
    assert_eq!(net.set_preferable_target(DnnTarget::DnnTargetOpencl), 1);
    assert_eq!(net.set_preferable_target(DnnTarget::DnnTargetOpenclFp16), 2);
    assert_eq!(net.set_preferable_target(DnnTarget::DnnTargetMyriad), 3);
}

#[test]
fn from_code_round_trips_and_rejects_unknown_codes() {
    assert_eq!(
        DnnBackend::from_code(2).unwrap().code(),
        2
    );
    assert_eq!(
        DnnTarget::from_code(3).unwrap().code(),
        3
    );
    assert_eq!(
        DnnBackend::from_code(9),
        Err(CvError::EnumFromPrimitiveConversionError { value: 9 })
    );
    assert_eq!(
        DnnTarget::from_code(-1),
        Err(CvError::EnumFromPrimitiveConversionError { value: -1 })
    );
}
