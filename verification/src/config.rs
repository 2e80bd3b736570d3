//! The native build configuration set.
//!
//! At build time the native library is configured from a mapping of option
//! name to value. The mapping is assembled once, in layers of rising
//! precedence: hardcoded defaults that shrink the build's scope, options
//! implied by the enabled feature toggles, generic environment overrides,
//! target-specific environment overrides, and one final forced option that
//! pins static linkage. [`assemble`] builds the whole set; the laws at the
//! end of the module state the precedence and the feature implications.

use vstd::prelude::*;

use crate::text::{concat3, lemma_concat_starts_with, lemma_starts_with_concat, starts_with_spec, str_eq, strip_prefix};

verus! {

/// One boolean toggle per optional native module.
///
/// A toggle both gates which headers and shim sources the binding step
/// requires and which native build options are forced on.
#[derive(Debug, Clone, Copy, PartialEq, Eq, Structural)]
pub struct Features {
    /// Neural-network inference.
    pub dnn: bool,
    /// Feature matching.
    pub features2d: bool,
    /// GUI display.
    pub highgui: bool,
    /// Image codecs.
    pub imgcodecs: bool,
    /// Image processing.
    pub imgproc: bool,
    /// Object detection.
    pub objdetect: bool,
    /// GPU acceleration for object detection.
    pub cuda: bool,
}

/// The mapping an association list stands for: later entries override
/// earlier ones.
spec fn entries_map(s: Seq<(String, String)>) -> Map<Seq<char>, Seq<char>>
    decreases s.len(),
{
    if s.len() == 0 {
        Map::empty()
    } else {
        entries_map(s.drop_last()).insert(s.last().0@, s.last().1@)
    }
}

/// A set of named build options: a mapping from option name to value.
///
/// Entries keep the order in which options were first set, and every later
/// setting of a name replaces its value in place, so the set holds each
/// name once.
#[derive(Debug)]
pub struct ConfigSet {
    entries: Vec<(String, String)>,
}

impl View for ConfigSet {
    type V = Map<Seq<char>, Seq<char>>;

    closed spec fn view(&self) -> Map<Seq<char>, Seq<char>> {
        entries_map(self.entries@)
    }
}

/// No two entries share a name.
spec fn distinct_keys(s: Seq<(String, String)>) -> bool {
    forall|p: int, q: int| 0 <= p < q < s.len() ==> s[p].0@ != s[q].0@
}

/// Every entry of a distinct-key list is bound in its mapping.
proof fn lemma_entry_lookup(s: Seq<(String, String)>, i: int)
    requires
        distinct_keys(s),
        0 <= i < s.len(),
    ensures
        entries_map(s).contains_key(s[i].0@),
        entries_map(s)[s[i].0@] == s[i].1@,
    decreases s.len(),
{
    if i == s.len() - 1 {
    } else {
        lemma_entry_lookup(s.drop_last(), i);
        assert(s.drop_last()[i] == s[i]);
    }
}

/// A name no entry carries is not bound in the mapping.
proof fn lemma_absent_lookup(s: Seq<(String, String)>, k: Seq<char>)
    requires
        forall|i: int| 0 <= i < s.len() ==> s[i].0@ != k,
    ensures
        !entries_map(s).contains_key(k),
    decreases s.len(),
{
    if s.len() > 0 {
        lemma_absent_lookup(s.drop_last(), k);
    }
}

/// Replacing the value of the entry that carries a name is, on the
/// mapping, inserting under that name.
proof fn lemma_replace_entry(s: Seq<(String, String)>, i: int, e: (String, String))
    requires
        distinct_keys(s),
        0 <= i < s.len(),
        s[i].0@ == e.0@,
    ensures
        entries_map(s.update(i, e)) == entries_map(s).insert(e.0@, e.1@),
    decreases s.len(),
{
    let s2 = s.update(i, e);
    if i == s.len() - 1 {
        assert(s2.drop_last() =~= s.drop_last());
        assert(entries_map(s2) =~= entries_map(s).insert(e.0@, e.1@));
    } else {
        assert(s2.drop_last() =~= s.drop_last().update(i, e));
        lemma_replace_entry(s.drop_last(), i, e);
        assert(s.drop_last()[i] == s[i]);
        assert(s.last().0@ != e.0@);
        assert(entries_map(s2) == entries_map(s.drop_last()).insert(e.0@, e.1@).insert(
            s.last().0@,
            s.last().1@,
        ));
        assert(entries_map(s2) =~= entries_map(s).insert(e.0@, e.1@));
    }
}

impl ConfigSet {
    /// The invariant: each option name stands in at most one entry.
    pub closed spec fn wf(&self) -> bool {
        distinct_keys(self.entries@)
    }

    /// The empty configuration set.
    pub fn new() -> (c: ConfigSet)
        ensures
            c.wf(),
            c@ == Map::<Seq<char>, Seq<char>>::empty(),
    {
        ConfigSet { entries: Vec::new() }
    }

    /// Sets an option to a value, replacing any value the option had.
    pub fn set(&mut self, k: &str, v: &str)
        requires
            old(self).wf(),
        ensures
            final(self).wf(),
            final(self)@ == old(self)@.insert(k@, v@),
    {
        let n = self.entries.len();
        let mut i: usize = 0;
        while i < n
            invariant
                *self == *old(self),
                self.wf(),
                n == self.entries@.len(),
                i <= n,
                forall|j: int| 0 <= j < i ==> self.entries@[j].0@ != k@,
            decreases n - i,
        {
            if str_eq(self.entries[i].0.as_str(), k) {
                let e = (k.to_owned(), v.to_owned());
                proof {
                    lemma_replace_entry(self.entries@, i as int, e);
                }
                let ghost pre = self.entries@;
                self.entries.set(i, e);
                proof {
                    assert forall|p: int, q: int|
                        0 <= p < q < self.entries@.len() implies self.entries@[p].0@
                        != self.entries@[q].0@ by {
                        assert(pre[i as int].0@ == k@);
                        if p != i as int && q != i as int {
                            assert(self.entries@[p] == pre[p]);
                            assert(self.entries@[q] == pre[q]);
                        }
                    }
                }
                return ;
            }
            i = i + 1;
        }
        proof {
            lemma_absent_lookup(self.entries@, k@);
        }
        let ghost pre = self.entries@;
        self.entries.push((k.to_owned(), v.to_owned()));
        proof {
            assert(self.entries@.drop_last() =~= pre);
            assert(entries_map(self.entries@) == entries_map(pre).insert(k@, v@));
            assert forall|p: int, q: int|
                0 <= p < q < self.entries@.len() implies self.entries@[p].0@
                != self.entries@[q].0@ by {
                if q == pre.len() as int {
                    assert(self.entries@[p] == pre[p]);
                    assert(self.entries@[q].0@ == k@);
                } else {
                    assert(self.entries@[p] == pre[p]);
                    assert(self.entries@[q] == pre[q]);
                }
            }
        }
    }

    /// The value an option is set to, if it is set at all.
    pub fn get(&self, k: &str) -> (r: Option<String>)
        requires
            self.wf(),
        ensures
            match r {
                Some(v) => self@.contains_key(k@) && v@ == self@[k@],
                None => !self@.contains_key(k@),
            },
    {
        let n = self.entries.len();
        let mut i: usize = 0;
        while i < n
            invariant
                self.wf(),
                n == self.entries@.len(),
                i <= n,
                forall|j: int| 0 <= j < i ==> self.entries@[j].0@ != k@,
            decreases n - i,
        {
            if str_eq(self.entries[i].0.as_str(), k) {
                proof {
                    lemma_entry_lookup(self.entries@, i as int);
                }
                return Some(self.entries[i].1.clone());
            }
            i = i + 1;
        }
        proof {
            lemma_absent_lookup(self.entries@, k@);
        }
        None
    }

    /// The option/value pairs, one per option, for handing the whole set to
    /// the native build system.
    pub fn pairs(&self) -> (r: &Vec<(String, String)>)
        requires
            self.wf(),
        ensures
            forall|i: int|
                0 <= i < r@.len() ==> self@.contains_key(#[trigger] r@[i].0@) && self@[r@[i].0@]
                    == r@[i].1@,
            forall|p: int, q: int| 0 <= p < q < r@.len() ==> r@[p].0@ != r@[q].0@,
            forall|k: Seq<char>| self@.contains_key(k) ==> exists|i: int|
                0 <= i < r@.len() && r@[i].0@ == k,
    {
        proof {
            assert forall|i: int| 0 <= i < self.entries@.len() implies self@.contains_key(
                #[trigger] self.entries@[i].0@,
            ) && self@[self.entries@[i].0@] == self.entries@[i].1@ by {
                lemma_entry_lookup(self.entries@, i);
            }
            assert forall|k: Seq<char>| self@.contains_key(k) implies exists|i: int|
                0 <= i < self.entries@.len() && self.entries@[i].0@ == k by {
                if forall|i: int| 0 <= i < self.entries@.len() ==> self.entries@[i].0@ != k {
                    lemma_absent_lookup(self.entries@, k);
                }
            }
        }
        &self.entries
    }
}


/// The hardcoded defaults that shrink the native build's scope: general
/// third-party backends, codecs and tooling switched off, and the one
/// bundled compression library built in place.
pub open spec fn base_chunk_backends(m: Map<Seq<char>, Seq<char>>) -> Map<Seq<char>, Seq<char>> {
    m.insert("BUILD_ZLIB"@, "ON"@).insert("WITH_PNG"@, "OFF"@).insert("BUILD_PROTOBUF"@, "OFF"@)
        .insert("WITH_PROTOBUF"@, "OFF"@).insert("BUILD_TBB"@, "OFF"@).insert("WITH_TBB"@, "OFF"@)
        .insert("WITH_1394"@, "OFF"@).insert("WITH_OPENGL"@, "OFF"@).insert("WITH_V4L"@, "OFF"@)
        .insert("WITH_LIBV4L"@, "OFF"@).insert("WITH_GTK"@, "OFF"@).insert("WITH_GDAL"@, "OFF"@)
        .insert("WITH_XINE"@, "OFF"@).insert("WITH_FFMPEG"@, "OFF"@).insert("WITH_GSTREAMER"@, "OFF"@)
        .insert("WITH_IMGCODEC_SUNRASTER"@, "OFF"@).insert("WITH_IPP"@, "OFF"@)
        .insert("WITH_ITT"@, "OFF"@).insert("WITH_JASPER"@, "OFF"@).insert("WITH_OPENEXR"@, "OFF"@)
        .insert("WITH_PTHREADS_PF"@, "OFF"@).insert("WITH_QUIRC"@, "OFF"@)
        .insert("WITH_TIFF"@, "OFF"@).insert("WITH_VTK"@, "OFF"@).insert("WITH_WEBP"@, "OFF"@)
        .insert("ccitt"@, "OFF"@).insert("logluv"@, "OFF"@).insert("lzw"@, "OFF"@)
        .insert("mdi"@, "OFF"@).insert("next"@, "OFF"@).insert("old_jpeg"@, "OFF"@)
        .insert("packbits"@, "OFF"@).insert("thunder"@, "OFF"@)
        .insert("opencv_dnn_PERF_CAFFE"@, "OFF"@).insert("opencv_dnn_PERF_CLCAFFE"@, "OFF"@)
}

/// The hardcoded defaults that switch off the native modules no binding is
/// made for, GPU submodules above all.
pub open spec fn base_chunk_modules(m: Map<Seq<char>, Seq<char>>) -> Map<Seq<char>, Seq<char>> {
    m.insert("BUILD_opencv_cudabgsegm"@, "OFF"@).insert("BUILD_opencv_cudalegacy"@, "OFF"@)
        .insert("BUILD_opencv_cudafilters"@, "OFF"@).insert("BUILD_opencv_cudastereo"@, "OFF"@)
        .insert("BUILD_opencv_cudafeatures2d"@, "OFF"@).insert("BUILD_opencv_cudaoptflow"@, "OFF"@)
        .insert("BUILD_opencv_cudacodec"@, "OFF"@).insert("BUILD_opencv_cudaimgproc"@, "OFF"@)
        .insert("BUILD_opencv_cudawarping"@, "OFF"@).insert("BUILD_opencv_cudaarithm"@, "OFF"@)
        .insert("BUILD_opencv_cudaobjdetect"@, "OFF"@).insert("BUILD_opencv_cudev"@, "OFF"@)
        .insert("BUILD_opencv_superres"@, "OFF"@).insert("BUILD_opencv_ts"@, "OFF"@)
        .insert("BUILD_opencv_videostab"@, "OFF"@).insert("BUILD_opencv_gapi"@, "OFF"@)
        .insert("BUILD_opencv_apps"@, "OFF"@).insert("BUILD_opencv_world"@, "OFF"@)
        .insert("BUILD_opencv_stitching"@, "OFF"@).insert("BUILD_opencv_photo"@, "OFF"@)
        .insert("BUILD_opencv_flann"@, "OFF"@).insert("BUILD_opencv_video"@, "OFF"@)
        .insert("BUILD_opencv_videoio"@, "OFF"@).insert("BUILD_opencv_calib3d"@, "OFF"@)
        .insert("BUILD_opencv_shape"@, "OFF"@).insert("BUILD_opencv_ml"@, "OFF"@)
        .insert("BUILD_opencv_python_bindings_generator"@, "OFF"@)
        .insert("BUILD_opencv_java_bindings_generator"@, "OFF"@)
}

/// The hardcoded defaults that switch off examples, tests, docs and
/// packaging, gate every optional module off until a feature toggle turns
/// it on, keep the core module on, and leave the GPU acceleration backends
/// disabled.
pub open spec fn base_chunk_scope(m: Map<Seq<char>, Seq<char>>) -> Map<Seq<char>, Seq<char>> {
    m.insert("INSTALL_C_EXAMPLES"@, "OFF"@).insert("BUILD_EXAMPLES"@, "OFF"@)
        .insert("BUILD_PERF_TESTS"@, "OFF"@).insert("BUILD_TESTS"@, "OFF"@)
        .insert("BUILD_DOCS"@, "OFF"@).insert("BUILD_JAVA"@, "OFF"@)
        .insert("BUILD_IPP_IW"@, "OFF"@).insert("BUILD_ITT"@, "OFF"@)
        .insert("BUILD_PACKAGE"@, "OFF"@).insert("CPACK_BINARY_DEB"@, "OFF"@)
        .insert("CPACK_BINARY_FREEBSD"@, "OFF"@).insert("CPACK_BINARY_IFW"@, "OFF"@)
        .insert("CPACK_BINARY_NSIS"@, "OFF"@).insert("CPACK_BINARY_RPM"@, "OFF"@)
        .insert("CPACK_BINARY_STGZ"@, "OFF"@).insert("CPACK_BINARY_TBZ2"@, "OFF"@)
        .insert("CPACK_BINARY_TGZ"@, "OFF"@).insert("CPACK_BINARY_TXZ"@, "OFF"@)
        .insert("CPACK_BINARY_TZ"@, "OFF"@).insert("CPACK_SOURCE_RPM"@, "OFF"@)
        .insert("CPACK_SOURCE_TBZ2"@, "OFF"@).insert("CPACK_SOURCE_TGZ"@, "OFF"@)
        .insert("CPACK_SOURCE_TXZ"@, "OFF"@).insert("CPACK_SOURCE_TZ"@, "OFF"@)
        .insert("CPACK_SOURCE_ZIP"@, "OFF"@).insert("BUILD_opencv_imgproc"@, "OFF"@)
        .insert("BUILD_opencv_imgcodecs"@, "OFF"@).insert("BUILD_opencv_highgui"@, "OFF"@)
        .insert("BUILD_opencv_objdetect"@, "OFF"@).insert("BUILD_opencv_dnn"@, "OFF"@)
        .insert("BUILD_opencv_features2d"@, "OFF"@).insert("BUILD_opencv_core"@, "ON"@)
        .insert("WITH_OPENCL"@, "OFF"@).insert("WITH_CUDA"@, "OFF"@)
}

/// The whole hardcoded default layer.
pub open spec fn base_map() -> Map<Seq<char>, Seq<char>> {
    base_chunk_scope(base_chunk_modules(base_chunk_backends(Map::empty())))
}

fn apply_chunk_backends(c: &mut ConfigSet)
    requires
        old(c).wf(),
    ensures
        final(c).wf(),
        final(c)@ == base_chunk_backends(old(c)@),
{
    c.set("BUILD_ZLIB", "ON");
    c.set("WITH_PNG", "OFF");
    c.set("BUILD_PROTOBUF", "OFF");
    c.set("WITH_PROTOBUF", "OFF");
    c.set("BUILD_TBB", "OFF");
    c.set("WITH_TBB", "OFF");
    c.set("WITH_1394", "OFF");
    c.set("WITH_OPENGL", "OFF");
    c.set("WITH_V4L", "OFF");
    c.set("WITH_LIBV4L", "OFF");
    c.set("WITH_GTK", "OFF");
    c.set("WITH_GDAL", "OFF");
    c.set("WITH_XINE", "OFF");
    c.set("WITH_FFMPEG", "OFF");
    c.set("WITH_GSTREAMER", "OFF");
    c.set("WITH_IMGCODEC_SUNRASTER", "OFF");
    c.set("WITH_IPP", "OFF");
    c.set("WITH_ITT", "OFF");
    c.set("WITH_JASPER", "OFF");
    c.set("WITH_OPENEXR", "OFF");
    c.set("WITH_PTHREADS_PF", "OFF");
    c.set("WITH_QUIRC", "OFF");
    c.set("WITH_TIFF", "OFF");
    c.set("WITH_VTK", "OFF");
    c.set("WITH_WEBP", "OFF");
    c.set("ccitt", "OFF");
    c.set("logluv", "OFF");
    c.set("lzw", "OFF");
    c.set("mdi", "OFF");
    c.set("next", "OFF");
    c.set("old_jpeg", "OFF");
    c.set("packbits", "OFF");
    c.set("thunder", "OFF");
    c.set("opencv_dnn_PERF_CAFFE", "OFF");
    c.set("opencv_dnn_PERF_CLCAFFE", "OFF");
}

fn apply_chunk_modules(c: &mut ConfigSet)
    requires
        old(c).wf(),
    ensures
        final(c).wf(),
        final(c)@ == base_chunk_modules(old(c)@),
{
    c.set("BUILD_opencv_cudabgsegm", "OFF");
    c.set("BUILD_opencv_cudalegacy", "OFF");
    c.set("BUILD_opencv_cudafilters", "OFF");
    c.set("BUILD_opencv_cudastereo", "OFF");
    c.set("BUILD_opencv_cudafeatures2d", "OFF");
    c.set("BUILD_opencv_cudaoptflow", "OFF");
    c.set("BUILD_opencv_cudacodec", "OFF");
    c.set("BUILD_opencv_cudaimgproc", "OFF");
    c.set("BUILD_opencv_cudawarping", "OFF");
    c.set("BUILD_opencv_cudaarithm", "OFF");
    c.set("BUILD_opencv_cudaobjdetect", "OFF");
    c.set("BUILD_opencv_cudev", "OFF");
    c.set("BUILD_opencv_superres", "OFF");
    c.set("BUILD_opencv_ts", "OFF");
    c.set("BUILD_opencv_videostab", "OFF");
    c.set("BUILD_opencv_gapi", "OFF");
    c.set("BUILD_opencv_apps", "OFF");
    c.set("BUILD_opencv_world", "OFF");
    c.set("BUILD_opencv_stitching", "OFF");
    c.set("BUILD_opencv_photo", "OFF");
    c.set("BUILD_opencv_flann", "OFF");
    c.set("BUILD_opencv_video", "OFF");
    c.set("BUILD_opencv_videoio", "OFF");
    c.set("BUILD_opencv_calib3d", "OFF");
    c.set("BUILD_opencv_shape", "OFF");
    c.set("BUILD_opencv_ml", "OFF");
    c.set("BUILD_opencv_python_bindings_generator", "OFF");
    c.set("BUILD_opencv_java_bindings_generator", "OFF");
}

fn apply_chunk_scope(c: &mut ConfigSet)
    requires
        old(c).wf(),
    ensures
        final(c).wf(),
        final(c)@ == base_chunk_scope(old(c)@),
{
    c.set("INSTALL_C_EXAMPLES", "OFF");
    c.set("BUILD_EXAMPLES", "OFF");
    c.set("BUILD_PERF_TESTS", "OFF");
    c.set("BUILD_TESTS", "OFF");
    c.set("BUILD_DOCS", "OFF");
    c.set("BUILD_JAVA", "OFF");
    c.set("BUILD_IPP_IW", "OFF");
    c.set("BUILD_ITT", "OFF");
    c.set("BUILD_PACKAGE", "OFF");
    c.set("CPACK_BINARY_DEB", "OFF");
    c.set("CPACK_BINARY_FREEBSD", "OFF");
    c.set("CPACK_BINARY_IFW", "OFF");
    c.set("CPACK_BINARY_NSIS", "OFF");
    c.set("CPACK_BINARY_RPM", "OFF");
    c.set("CPACK_BINARY_STGZ", "OFF");
    c.set("CPACK_BINARY_TBZ2", "OFF");
    c.set("CPACK_BINARY_TGZ", "OFF");
    c.set("CPACK_BINARY_TXZ", "OFF");
    c.set("CPACK_BINARY_TZ", "OFF");
    c.set("CPACK_SOURCE_RPM", "OFF");
    c.set("CPACK_SOURCE_TBZ2", "OFF");
    c.set("CPACK_SOURCE_TGZ", "OFF");
    c.set("CPACK_SOURCE_TXZ", "OFF");
    c.set("CPACK_SOURCE_TZ", "OFF");
    c.set("CPACK_SOURCE_ZIP", "OFF");
    c.set("BUILD_opencv_imgproc", "OFF");
    c.set("BUILD_opencv_imgcodecs", "OFF");
    c.set("BUILD_opencv_highgui", "OFF");
    c.set("BUILD_opencv_objdetect", "OFF");
    c.set("BUILD_opencv_dnn", "OFF");
    c.set("BUILD_opencv_features2d", "OFF");
    c.set("BUILD_opencv_core", "ON");
    c.set("WITH_OPENCL", "OFF");
    c.set("WITH_CUDA", "OFF");
}

/// The hardcoded default layer as a configuration set.
pub fn base_defines() -> (c: ConfigSet)
    ensures
        c.wf(),
        c@ == base_map(),
{
    let mut c = ConfigSet::new();
    apply_chunk_backends(&mut c);
    apply_chunk_modules(&mut c);
    apply_chunk_scope(&mut c);
    c
}

/// The options a set of feature toggles forces on top of the defaults:
/// each enabled module's build switch, and for neural-network inference
/// also the serialization-format dependency it needs.
pub open spec fn feature_applied(m: Map<Seq<char>, Seq<char>>, f: Features) -> Map<
    Seq<char>,
    Seq<char>,
> {
    let m = if f.imgproc {
        m.insert("BUILD_opencv_imgproc"@, "ON"@)
    } else {
        m
    };
    let m = if f.imgcodecs {
        m.insert("BUILD_opencv_imgcodecs"@, "ON"@)
    } else {
        m
    };
    let m = if f.highgui {
        m.insert("BUILD_opencv_highgui"@, "ON"@)
    } else {
        m
    };
    let m = if f.objdetect {
        m.insert("BUILD_opencv_objdetect"@, "ON"@)
    } else {
        m
    };
    let m = if f.dnn {
        m.insert("BUILD_opencv_dnn"@, "ON"@).insert("BUILD_PROTOBUF"@, "ON"@).insert(
            "WITH_PROTOBUF"@,
            "ON"@,
        ).insert("OPENCV_DNN_OPENCL"@, "OFF"@)
    } else {
        m
    };
    let m = if f.features2d {
        m.insert("BUILD_opencv_features2d"@, "ON"@)
    } else {
        m
    };
    if f.cuda {
        m.insert("BUILD_opencv_cudaobjdetect"@, "ON"@)
    } else {
        m
    }
}

/// Forces on the options the enabled feature toggles imply.
pub fn apply_features(c: &mut ConfigSet, f: &Features)
    requires
        old(c).wf(),
    ensures
        final(c).wf(),
        final(c)@ == feature_applied(old(c)@, *f),
{
    if f.imgproc {
        c.set("BUILD_opencv_imgproc", "ON");
    }
    if f.imgcodecs {
        c.set("BUILD_opencv_imgcodecs", "ON");
    }
    if f.highgui {
        c.set("BUILD_opencv_highgui", "ON");
    }
    if f.objdetect {
        c.set("BUILD_opencv_objdetect", "ON");
    }
    if f.dnn {
        c.set("BUILD_opencv_dnn", "ON");
        c.set("BUILD_PROTOBUF", "ON");
        c.set("WITH_PROTOBUF", "ON");
        c.set("OPENCV_DNN_OPENCL", "OFF");
    }
    if f.features2d {
        c.set("BUILD_opencv_features2d", "ON");
    }
    if f.cuda {
        c.set("BUILD_opencv_cudaobjdetect", "ON");
    }
}


/// The prefix that marks an environment variable as a native build option
/// override.
pub open spec fn define_prefix() -> Seq<char> {
    "RUSTCV_OPENCV_DEFINE_"@
}

/// The prefix that marks an environment variable as an override for the
/// native build system's own environment.
pub open spec fn env_prefix() -> Seq<char> {
    "RUSTCV_OPENCV_ENV_"@
}

/// The build-option override prefix scoped to one target platform.
pub open spec fn target_define_prefix(t: Seq<char>) -> Seq<char> {
    define_prefix() + t + "_"@
}

/// The build-environment override prefix scoped to one target platform.
pub open spec fn target_env_prefix(t: Seq<char>) -> Seq<char> {
    env_prefix() + t + "_"@
}

/// One environment entry's effect in the generic pass: a generic
/// build-option override lands in the defines, a generic build-environment
/// override in the build environment, and target-scoped entries wait for
/// the target pass.
pub open spec fn generic_step(
    d: Map<Seq<char>, Seq<char>>,
    b: Map<Seq<char>, Seq<char>>,
    k: Seq<char>,
    v: Seq<char>,
    t: Seq<char>,
) -> (Map<Seq<char>, Seq<char>>, Map<Seq<char>, Seq<char>>) {
    if starts_with_spec(k, target_define_prefix(t)) {
        (d, b)
    } else if starts_with_spec(k, define_prefix()) {
        (d.insert(k.skip(define_prefix().len() as int), v), b)
    } else if starts_with_spec(k, target_env_prefix(t)) {
        (d, b)
    } else if starts_with_spec(k, env_prefix()) {
        (d, b.insert(k.skip(env_prefix().len() as int), v))
    } else {
        (d, b)
    }
}

/// The generic pass over the environment, in entry order.
pub open spec fn generic_pass(
    d: Map<Seq<char>, Seq<char>>,
    b: Map<Seq<char>, Seq<char>>,
    entries: Seq<(Seq<char>, Seq<char>)>,
    t: Seq<char>,
) -> (Map<Seq<char>, Seq<char>>, Map<Seq<char>, Seq<char>>)
    decreases entries.len(),
{
    if entries.len() == 0 {
        (d, b)
    } else {
        let prev = generic_pass(d, b, entries.drop_last(), t);
        generic_step(prev.0, prev.1, entries.last().0, entries.last().1, t)
    }
}

/// One environment entry's effect in the target pass: only entries scoped
/// to the target platform land, overriding whatever the generic pass put
/// under the same option name.
pub open spec fn target_step(
    d: Map<Seq<char>, Seq<char>>,
    b: Map<Seq<char>, Seq<char>>,
    k: Seq<char>,
    v: Seq<char>,
    t: Seq<char>,
) -> (Map<Seq<char>, Seq<char>>, Map<Seq<char>, Seq<char>>) {
    if starts_with_spec(k, target_define_prefix(t)) {
        (d.insert(k.skip(target_define_prefix(t).len() as int), v), b)
    } else if starts_with_spec(k, target_env_prefix(t)) {
        (d, b.insert(k.skip(target_env_prefix(t).len() as int), v))
    } else {
        (d, b)
    }
}

/// The target pass over the environment, in entry order.
pub open spec fn target_pass(
    d: Map<Seq<char>, Seq<char>>,
    b: Map<Seq<char>, Seq<char>>,
    entries: Seq<(Seq<char>, Seq<char>)>,
    t: Seq<char>,
) -> (Map<Seq<char>, Seq<char>>, Map<Seq<char>, Seq<char>>)
    decreases entries.len(),
{
    if entries.len() == 0 {
        (d, b)
    } else {
        let prev = target_pass(d, b, entries.drop_last(), t);
        target_step(prev.0, prev.1, entries.last().0, entries.last().1, t)
    }
}

/// The whole assembled configuration: defaults, then feature-implied
/// options, then generic environment overrides, then target-specific
/// environment overrides, and last the forced static linkage; the second
/// mapping is the build system's environment.
pub open spec fn assembled(f: Features, entries: Seq<(Seq<char>, Seq<char>)>, t: Seq<char>) -> (
    Map<Seq<char>, Seq<char>>,
    Map<Seq<char>, Seq<char>>,
) {
    let m0 = feature_applied(base_map(), f);
    let p1 = generic_pass(m0, Map::empty(), entries, t);
    let p2 = target_pass(p1.0, p1.1, entries, t);
    (p2.0.insert("BUILD_SHARED_LIBS"@, "OFF"@), p2.1)
}

/// Assembles the native build configuration for one target platform from
/// the enabled feature toggles and the process environment. The first set
/// holds the build options, the second the variables for the build
/// system's own environment.
pub fn assemble(f: &Features, env: &Vec<(String, String)>, target: &str) -> (r: (
    ConfigSet,
    ConfigSet,
))
    ensures
        r.0.wf(),
        r.1.wf(),
        r.0@ == assembled(*f, env.deep_view(), target@).0,
        r.1@ == assembled(*f, env.deep_view(), target@).1,
{
    let mut defines = base_defines();
    apply_features(&mut defines, f);
    let mut benv = ConfigSet::new();
    let tdp = concat3("RUSTCV_OPENCV_DEFINE_", target, "_");
    let tep = concat3("RUSTCV_OPENCV_ENV_", target, "_");
    let ghost ev = env.deep_view();
    let ghost m0 = feature_applied(base_map(), *f);
    let ghost t = target@;
    let n = env.len();
    let mut i: usize = 0;
    while i < n
        invariant
            defines.wf(),
            benv.wf(),
            n == env@.len(),
            ev == env.deep_view(),
            ev.len() == n,
            i <= n,
            tdp@ == target_define_prefix(t),
            tep@ == target_env_prefix(t),
            (defines@, benv@) == generic_pass(m0, Map::<Seq<char>, Seq<char>>::empty(), ev.take(i as int), t),
        decreases n - i,
    {
        proof {
            assert(ev[i as int] == (env@[i as int].0@, env@[i as int].1@));
            assert(ev.take(i as int + 1).drop_last() =~= ev.take(i as int));
            assert(ev.take(i as int + 1).last() == ev[i as int]);
        }
        let k = env[i].0.as_str();
        let v = env[i].1.as_str();
        if strip_prefix(k, tdp.as_str()).is_none() {
            if let Some(opt) = strip_prefix(k, "RUSTCV_OPENCV_DEFINE_") {
                defines.set(opt.as_str(), v);
            } else if strip_prefix(k, tep.as_str()).is_none() {
                if let Some(name) = strip_prefix(k, "RUSTCV_OPENCV_ENV_") {
                    benv.set(name.as_str(), v);
                }
            }
        }
        i = i + 1;
    }
    proof {
        assert(ev.take(n as int) =~= ev);
    }
    let mut i: usize = 0;
    while i < n
        invariant
            defines.wf(),
            benv.wf(),
            n == env@.len(),
            ev == env.deep_view(),
            ev.len() == n,
            i <= n,
            tdp@ == target_define_prefix(t),
            tep@ == target_env_prefix(t),
            (defines@, benv@) == target_pass(
                generic_pass(m0, Map::<Seq<char>, Seq<char>>::empty(), ev, t).0,
                generic_pass(m0, Map::<Seq<char>, Seq<char>>::empty(), ev, t).1,
                ev.take(i as int),
                t,
            ),
        decreases n - i,
    {
        proof {
            assert(ev[i as int] == (env@[i as int].0@, env@[i as int].1@));
            assert(ev.take(i as int + 1).drop_last() =~= ev.take(i as int));
            assert(ev.take(i as int + 1).last() == ev[i as int]);
        }
        let k = env[i].0.as_str();
        let v = env[i].1.as_str();
        if let Some(opt) = strip_prefix(k, tdp.as_str()) {
            defines.set(opt.as_str(), v);
        } else if let Some(name) = strip_prefix(k, tep.as_str()) {
            benv.set(name.as_str(), v);
        }
        i = i + 1;
    }
    proof {
        assert(ev.take(n as int) =~= ev);
    }
    defines.set("BUILD_SHARED_LIBS", "OFF");
    (defines, benv)
}


/// Law: a target-specific environment override for a build option beats a
/// generic override of the same option, in whichever order the environment
/// lists the two entries. `opt` is the bare option name; the requirement
/// that it not start with the target's own scoped prefix rules out names
/// that would be ambiguous between the two namespaces.
pub proof fn lemma_target_override_wins(
    f: Features,
    t: Seq<char>,
    opt: Seq<char>,
    gv: Seq<char>,
    tv: Seq<char>,
)
    requires
        opt != "BUILD_SHARED_LIBS"@,
        !starts_with_spec(opt, t + "_"@),
    ensures
        assembled(
            f,
            seq![(define_prefix() + opt, gv), (target_define_prefix(t) + opt, tv)],
            t,
        ).0[opt] == tv,
        assembled(
            f,
            seq![(target_define_prefix(t) + opt, tv), (define_prefix() + opt, gv)],
            t,
        ).0[opt] == tv,
{
    let gk = define_prefix() + opt;
    let tk = target_define_prefix(t) + opt;
    lemma_concat_starts_with(define_prefix(), opt);
    lemma_concat_starts_with(target_define_prefix(t), opt);
    assert(target_define_prefix(t) =~= define_prefix() + (t + "_"@));
    lemma_starts_with_concat(define_prefix(), opt, t + "_"@);
    assert(!starts_with_spec(gk, target_define_prefix(t)));
    assert(!starts_with_spec(gk, target_env_prefix(t))) by {
        if starts_with_spec(gk, target_env_prefix(t)) {
            reveal_strlit("RUSTCV_OPENCV_DEFINE_");
            reveal_strlit("RUSTCV_OPENCV_ENV_");
            assert(gk.subrange(0, target_env_prefix(t).len() as int)[14] == target_env_prefix(
                t,
            )[14]);
            assert(gk[14] == define_prefix()[14]);
            assert(target_env_prefix(t)[14] == env_prefix()[14]);
            assert(false);
        }
    };
    let m0 = feature_applied(base_map(), f);
    let d1 = m0.insert(opt, gv);
    let e = Map::<Seq<char>, Seq<char>>::empty();
    let none = Seq::<(Seq<char>, Seq<char>)>::empty();
    let e1 = seq![(gk, gv), (tk, tv)];
    let e2 = seq![(tk, tv), (gk, gv)];
    assert(seq![(gk, gv)].drop_last() =~= none);
    assert(seq![(tk, tv)].drop_last() =~= none);
    assert(e1.drop_last() =~= seq![(gk, gv)]);
    assert(e2.drop_last() =~= seq![(tk, tv)]);
    assert(generic_step(m0, e, gk, gv, t) == (d1, e));
    assert(generic_step(m0, e, tk, tv, t) == (m0, e));
    assert(generic_step(d1, e, tk, tv, t) == (d1, e));
    assert(target_step(d1, e, gk, gv, t) == (d1, e));
    assert(target_step(d1, e, tk, tv, t) == (d1.insert(opt, tv), e));
    assert(target_step(d1.insert(opt, tv), e, gk, gv, t) == (d1.insert(opt, tv), e));
    // first order: the generic entry lands in the generic pass, the
    // target entry in the target pass
    assert(generic_pass(m0, e, none, t) == (m0, e));
    assert(generic_pass(m0, e, seq![(gk, gv)], t) == (d1, e));
    assert(generic_pass(m0, e, e1, t) == (d1, e));
    assert(target_pass(d1, e, none, t) == (d1, e));
    assert(target_pass(d1, e, seq![(gk, gv)], t) == (d1, e));
    assert(target_pass(d1, e, e1, t) == (d1.insert(opt, tv), e));
    // second order: the same two landings, so the same result
    assert(generic_pass(m0, e, seq![(tk, tv)], t) == (m0, e));
    assert(generic_pass(m0, e, e2, t) == (d1, e));
    assert(target_pass(d1, e, seq![(tk, tv)], t) == (d1.insert(opt, tv), e));
    assert(target_pass(d1, e, e2, t) == (d1.insert(opt, tv), e));
}

/// Law: enabling the neural-network inference toggle forces the
/// serialization-format dependency that module needs into the assembled
/// configuration, and (with no environment overrides in play) leaves the
/// unrelated GPU acceleration backends disabled, whatever the other
/// toggles say.
/// What the feature layer binds for the neural-network toggle, whatever
/// map it is applied to and whatever the other toggles say.
proof fn lemma_feature_dnn_keys(m: Map<Seq<char>, Seq<char>>, f: Features)
    requires
        f.dnn,
    ensures
        feature_applied(m, f)["BUILD_PROTOBUF"@] == "ON"@,
        feature_applied(m, f)["WITH_PROTOBUF"@] == "ON"@,
        feature_applied(m, f)["OPENCV_DNN_OPENCL"@] == "OFF"@,
{
    reveal_strlit("BUILD_PROTOBUF");
    reveal_strlit("WITH_PROTOBUF");
    reveal_strlit("OPENCV_DNN_OPENCL");
    reveal_strlit("BUILD_opencv_features2d");
    reveal_strlit("BUILD_opencv_cudaobjdetect");
    assert("BUILD_PROTOBUF"@.len() == 14);
    assert("WITH_PROTOBUF"@.len() == 13);
    assert("OPENCV_DNN_OPENCL"@.len() == 17);
    assert("BUILD_opencv_features2d"@.len() == 23);
    assert("BUILD_opencv_cudaobjdetect"@.len() == 26);
}

/// The feature layer touches nothing but its own option names.
proof fn lemma_feature_keeps(m: Map<Seq<char>, Seq<char>>, f: Features, k: Seq<char>)
    requires
        k != "BUILD_opencv_imgproc"@,
        k != "BUILD_opencv_imgcodecs"@,
        k != "BUILD_opencv_highgui"@,
        k != "BUILD_opencv_objdetect"@,
        k != "BUILD_opencv_dnn"@,
        k != "BUILD_PROTOBUF"@,
        k != "WITH_PROTOBUF"@,
        k != "OPENCV_DNN_OPENCL"@,
        k != "BUILD_opencv_features2d"@,
        k != "BUILD_opencv_cudaobjdetect"@,
    ensures
        feature_applied(m, f)[k] == m[k],
{
}

/// The default layer leaves the GPU acceleration backends disabled.
#[verifier::rlimit(100)]
proof fn lemma_base_gpu_disabled()
    ensures
        base_map()["WITH_CUDA"@] == "OFF"@,
        base_map()["WITH_OPENCL"@] == "OFF"@,
{
    reveal_strlit("WITH_CUDA");
    reveal_strlit("WITH_OPENCL");
    assert("WITH_CUDA"@.len() == 9);
    assert("WITH_OPENCL"@.len() == 11);
}

/// Law: enabling the neural-network inference toggle forces the
/// serialization-format dependency that module needs into the assembled
/// configuration, and (with no environment overrides in play) leaves the
/// unrelated GPU acceleration backends disabled, whatever the other
/// toggles say.
pub proof fn lemma_dnn_forces_serialization(f: Features, t: Seq<char>)
    requires
        f.dnn,
    ensures
        assembled(f, Seq::<(Seq<char>, Seq<char>)>::empty(), t).0["BUILD_PROTOBUF"@] == "ON"@,
        assembled(f, Seq::<(Seq<char>, Seq<char>)>::empty(), t).0["WITH_PROTOBUF"@] == "ON"@,
        assembled(f, Seq::<(Seq<char>, Seq<char>)>::empty(), t).0["OPENCV_DNN_OPENCL"@] == "OFF"@,
        assembled(f, Seq::<(Seq<char>, Seq<char>)>::empty(), t).0["WITH_CUDA"@] == "OFF"@,
        assembled(f, Seq::<(Seq<char>, Seq<char>)>::empty(), t).0["WITH_OPENCL"@] == "OFF"@,
{
    reveal_strlit("BUILD_PROTOBUF");
    reveal_strlit("WITH_PROTOBUF");
    reveal_strlit("OPENCV_DNN_OPENCL");
    reveal_strlit("WITH_CUDA");
    reveal_strlit("WITH_OPENCL");
    reveal_strlit("BUILD_SHARED_LIBS");
    reveal_strlit("BUILD_opencv_imgproc");
    reveal_strlit("BUILD_opencv_imgcodecs");
    reveal_strlit("BUILD_opencv_highgui");
    reveal_strlit("BUILD_opencv_objdetect");
    reveal_strlit("BUILD_opencv_dnn");
    reveal_strlit("BUILD_opencv_features2d");
    reveal_strlit("BUILD_opencv_cudaobjdetect");
    assert("BUILD_PROTOBUF"@.len() == 14);
    assert("WITH_PROTOBUF"@.len() == 13);
    assert("OPENCV_DNN_OPENCL"@.len() == 17);
    assert("WITH_CUDA"@.len() == 9);
    assert("WITH_OPENCL"@.len() == 11);
    assert("BUILD_SHARED_LIBS"@.len() == 17);
    assert("BUILD_opencv_imgproc"@.len() == 20);
    assert("BUILD_opencv_imgcodecs"@.len() == 22);
    assert("BUILD_opencv_highgui"@.len() == 20);
    assert("BUILD_opencv_objdetect"@.len() == 22);
    assert("BUILD_opencv_dnn"@.len() == 16);
    assert("BUILD_opencv_features2d"@.len() == 23);
    assert("BUILD_opencv_cudaobjdetect"@.len() == 26);
    let none = Seq::<(Seq<char>, Seq<char>)>::empty();
    let e = Map::<Seq<char>, Seq<char>>::empty();
    let m0 = feature_applied(base_map(), f);
    assert(generic_pass(m0, e, none, t) == (m0, e));
    assert(target_pass(m0, e, none, t) == (m0, e));
    assert(assembled(f, none, t).0 == m0.insert("BUILD_SHARED_LIBS"@, "OFF"@));
    lemma_feature_dnn_keys(base_map(), f);
    lemma_feature_keeps(base_map(), f, "WITH_CUDA"@);
    lemma_feature_keeps(base_map(), f, "WITH_OPENCL"@);
    lemma_base_gpu_disabled();
    assert("OPENCV_DNN_OPENCL"@ != "BUILD_SHARED_LIBS"@) by {
        assert("OPENCV_DNN_OPENCL"@[0] == 'O');
        assert("BUILD_SHARED_LIBS"@[0] == 'B');
    };
}



} // verus!
