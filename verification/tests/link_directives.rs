use cv::link::{classify_lib_file, lib_dirs, rename_doubled_archive, scan_directory, LinkDirective};

fn strings(items: &[&str]) -> Vec<String> {
    items.iter().map(|s| s.to_string()).collect()
}

#[test]
fn shared_objects_link_dynamically() {
    assert_eq!(
        classify_lib_file("libopencv_core.so"),
        Some(LinkDirective::Dynamic("opencv_core".to_string()))
    );
}

#[test]
fn archives_link_statically() {
    assert_eq!(
        classify_lib_file("libprotobuf.a"),
        Some(LinkDirective::Static("protobuf".to_string()))
    );
}

#[test]
fn other_files_yield_no_directive() {
    assert_eq!(classify_lib_file("README"), None);
    assert_eq!(classify_lib_file("opencv_core.so"), None);
    assert_eq!(classify_lib_file("libname.so.3"), None);
    assert_eq!(classify_lib_file("lib"), None);
    assert_eq!(classify_lib_file(".so"), None);
}

#[test]
fn the_name_is_the_text_between_prefix_and_suffix() {
    // the degenerate all-prefix-and-suffix name yields the empty library name
    assert_eq!(
        classify_lib_file("lib.so"),
        Some(LinkDirective::Dynamic(String::new()))
    );
    assert_eq!(
        classify_lib_file("lib.a"),
        Some(LinkDirective::Static(String::new()))
    );
}

#[test]
fn a_scan_yields_one_directive_per_matching_file_in_order() {
    let listing = strings(&[
        "libopencv_dnn.so",
        "notes.txt",
        "libjpeg.a",
        "core.so",
        "libz.so",
    ]);
    assert_eq!(
        scan_directory(&listing),
        vec![
            LinkDirective::Dynamic("opencv_dnn".to_string()),
            LinkDirective::Static("jpeg".to_string()),
            LinkDirective::Dynamic("z".to_string()),
        ]
    );
}

#[test]
fn an_empty_listing_yields_no_directives() {
    assert_eq!(scan_directory(&Vec::new()), Vec::new());
}

#[test]
fn doubled_prefix_archives_are_renamed() {
    assert_eq!(
        rename_doubled_archive("liblibjpeg-turbo.a"),
        Some("libjpeg-turbo.a".to_string())
    );
    assert_eq!(rename_doubled_archive("libjpeg.a"), None);
    assert_eq!(rename_doubled_archive("liblib"), Some("lib".to_string()));
}

#[test]
fn declared_library_directories_are_picked_up_with_their_variants() {
    let env = vec![
        ("OPENCV_LIB_DIR".to_string(), "/opt/native/lib".to_string()),
        ("PATH".to_string(), "/usr/bin".to_string()),
        ("OPENCV_LIB_DIR_3RDPARTY".to_string(), "/opt/native/3rdparty/lib".to_string()),
        ("OPENCV_INCLUDE_DIR".to_string(), "/opt/native/include".to_string()),
    ];
    assert_eq!(
        lib_dirs(&env),
        strings(&["/opt/native/lib", "/opt/native/3rdparty/lib"])
    );
}
