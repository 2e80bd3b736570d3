use cv::config::{assemble, base_defines, ConfigSet, Features};

fn no_features() -> Features {
    Features {
        dnn: false,
        features2d: false,
        highgui: false,
        imgcodecs: false,
        imgproc: false,
        objdetect: false,
        cuda: false,
    }
}

#[test]
fn set_and_get_replace_in_place() {
    let mut c = ConfigSet::new();
    assert_eq!(c.get("WITH_TBB"), None);
    c.set("WITH_TBB", "OFF");
    c.set("BUILD_ZLIB", "ON");
    assert_eq!(c.get("WITH_TBB"), Some("OFF".to_string()));
    c.set("WITH_TBB", "ON");
    assert_eq!(c.get("WITH_TBB"), Some("ON".to_string()));
    assert_eq!(c.get("BUILD_ZLIB"), Some("ON".to_string()));
    assert_eq!(c.pairs().len(), 2);
}

#[test]
fn defaults_shrink_the_build_scope() {
    let c = base_defines();
    assert_eq!(c.get("BUILD_ZLIB"), Some("ON".to_string()));
    assert_eq!(c.get("BUILD_opencv_core"), Some("ON".to_string()));
    assert_eq!(c.get("BUILD_TESTS"), Some("OFF".to_string()));
    assert_eq!(c.get("BUILD_EXAMPLES"), Some("OFF".to_string()));
    assert_eq!(c.get("WITH_FFMPEG"), Some("OFF".to_string()));
    assert_eq!(c.get("BUILD_opencv_dnn"), Some("OFF".to_string()));
    assert_eq!(c.get("WITH_CUDA"), Some("OFF".to_string()));
    assert_eq!(c.get("WITH_OPENCL"), Some("OFF".to_string()));
    assert_eq!(c.get("BUILD_SHARED_LIBS"), None);
}

#[test]
fn dnn_feature_forces_the_serialization_dependency() {
    let f = Features { dnn: true, ..no_features() };
    let (defines, build_env) = assemble(&f, &Vec::new(), "X86_64_UNKNOWN_LINUX_GNU");
    assert_eq!(defines.get("BUILD_opencv_dnn"), Some("ON".to_string()));
    assert_eq!(defines.get("BUILD_PROTOBUF"), Some("ON".to_string()));
    assert_eq!(defines.get("WITH_PROTOBUF"), Some("ON".to_string()));
    assert_eq!(defines.get("OPENCV_DNN_OPENCL"), Some("OFF".to_string()));
    // unrelated acceleration backends stay disabled
    assert_eq!(defines.get("WITH_CUDA"), Some("OFF".to_string()));
    assert_eq!(defines.get("WITH_OPENCL"), Some("OFF".to_string()));
    assert_eq!(build_env.pairs().len(), 0);
}

#[test]
fn static_linkage_is_always_forced() {
    let over = vec![(
        "RUSTCV_OPENCV_DEFINE_BUILD_SHARED_LIBS".to_string(),
        "ON".to_string(),
    )];
    let (defines, _) = assemble(&no_features(), &over, "T");
    assert_eq!(defines.get("BUILD_SHARED_LIBS"), Some("OFF".to_string()));
}

#[test]
fn target_specific_override_beats_the_generic_one() {
    let target = "X86_64_UNKNOWN_LINUX_GNU";
    let generic = ("RUSTCV_OPENCV_DEFINE_WITH_TBB".to_string(), "ON".to_string());
    let scoped = (
        "RUSTCV_OPENCV_DEFINE_X86_64_UNKNOWN_LINUX_GNU_WITH_TBB".to_string(),
        "OFF".to_string(),
    );

    let env = vec![generic.clone(), scoped.clone()];
    let (defines, _) = assemble(&no_features(), &env, target);
    assert_eq!(defines.get("WITH_TBB"), Some("OFF".to_string()));

    // the same pair in the other order: the target-specific value still wins
    let env = vec![scoped, generic];
    let (defines, _) = assemble(&no_features(), &env, target);
    assert_eq!(defines.get("WITH_TBB"), Some("OFF".to_string()));
}

#[test]
fn generic_override_lands_when_no_scoped_one_exists() {
    let env = vec![
        ("RUSTCV_OPENCV_DEFINE_WITH_VTK".to_string(), "ON".to_string()),
        ("RUSTCV_OPENCV_ENV_CXXFLAGS".to_string(), "-O2".to_string()),
        ("HOME".to_string(), "/root".to_string()),
    ];
    let (defines, build_env) = assemble(&no_features(), &env, "T");
    assert_eq!(defines.get("WITH_VTK"), Some("ON".to_string()));
    assert_eq!(build_env.get("CXXFLAGS"), Some("-O2".to_string()));
    assert_eq!(defines.get("HOME"), None);
    assert_eq!(build_env.get("HOME"), None);
}

#[test]
fn scoped_build_environment_override_beats_the_generic_one() {
    let env = vec![
        ("RUSTCV_OPENCV_ENV_CC".to_string(), "cc".to_string()),
        ("RUSTCV_OPENCV_ENV_T_CC".to_string(), "target-cc".to_string()),
    ];
    let (_, build_env) = assemble(&no_features(), &env, "T");
    assert_eq!(build_env.get("CC"), Some("target-cc".to_string()));
}

#[test]
fn every_module_toggle_turns_its_build_switch_on() {
    let f = Features {
        dnn: false,
        features2d: true,
        highgui: true,
        imgcodecs: true,
        imgproc: true,
        objdetect: true,
        cuda: true,
    };
    let (defines, _) = assemble(&f, &Vec::new(), "T");
    assert_eq!(defines.get("BUILD_opencv_features2d"), Some("ON".to_string()));
    assert_eq!(defines.get("BUILD_opencv_highgui"), Some("ON".to_string()));
    assert_eq!(defines.get("BUILD_opencv_imgcodecs"), Some("ON".to_string()));
    assert_eq!(defines.get("BUILD_opencv_imgproc"), Some("ON".to_string()));
    assert_eq!(defines.get("BUILD_opencv_objdetect"), Some("ON".to_string()));
    assert_eq!(defines.get("BUILD_opencv_cudaobjdetect"), Some("ON".to_string()));
    // without the neural-network toggle its dependency stays off
    assert_eq!(defines.get("BUILD_PROTOBUF"), Some("OFF".to_string()));
    assert_eq!(defines.get("BUILD_opencv_dnn"), Some("OFF".to_string()));
}
