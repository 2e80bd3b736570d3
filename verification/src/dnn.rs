//! Deep-neural-network wrapper: owned handles and call marshaling.
//!
//! A network or a matrix lives on the native side; here each is an opaque
//! address-sized token owned by exactly one wrapper value. The wrapper moves
//! through two states, constructed and disposed: disposal yields the release
//! action (the raw handle to hand to the native release call) exactly once,
//! and every later disposal yields none. Operations on a disposed wrapper
//! are ruled out by their contracts, so a stale handle is never forwarded.
//!
//! The native calls themselves (loading a model, running a forward pass)
//! are outside work: each operation here validates and marshals its
//! arguments, and hands back a record of what to pass; adopting the raw
//! results turns them back into owned wrappers.

use vstd::prelude::*;

use crate::CvError;
use crate::text::{CText, has_interior_nul};

verus! {

/// Backends available for use by the network.
#[derive(Debug, Clone, Copy, PartialEq, Eq, Structural)]
pub enum DnnBackend {
    /// Default
    DnnBackendDefault,
    /// Halide gpu
    DnnBackendHalide,
    /// Inference engine
    DnnBackendInferenceEngine,
    /// opencv optimized
    DnnBackendOpencv,
}

/// Targets available for the computation.
#[derive(Debug, Clone, Copy, PartialEq, Eq, Structural)]
pub enum DnnTarget {
    /// On cpu
    DnnTargetCpu,
    /// gpu using opencl
    DnnTargetOpencl,
    /// gpu using opencl with fp16
    DnnTargetOpenclFp16,
    /// myriad gpu
    DnnTargetMyriad,
}

/// The numeric code the native side uses for a backend.
pub open spec fn backend_code(b: DnnBackend) -> i32 {
    match b {
        DnnBackend::DnnBackendDefault => 0,
        DnnBackend::DnnBackendHalide => 1,
        DnnBackend::DnnBackendInferenceEngine => 2,
        DnnBackend::DnnBackendOpencv => 3,
    }
}

/// The numeric code the native side uses for a target.
pub open spec fn target_code(t: DnnTarget) -> i32 {
    match t {
        DnnTarget::DnnTargetCpu => 0,
        DnnTarget::DnnTargetOpencl => 1,
        DnnTarget::DnnTargetOpenclFp16 => 2,
        DnnTarget::DnnTargetMyriad => 3,
    }
}

impl DnnBackend {
    /// The numeric code to pass to the native side for this backend.
    pub fn code(&self) -> (r: i32)
        ensures
            r == backend_code(*self),
    {
        match self {
            DnnBackend::DnnBackendDefault => 0,
            DnnBackend::DnnBackendHalide => 1,
            DnnBackend::DnnBackendInferenceEngine => 2,
            DnnBackend::DnnBackendOpencv => 3,
        }
    }

    /// The backend a numeric code from the native side stands for; a code
    /// outside the known range is the conversion error carrying that code.
    pub fn from_code(value: i32) -> (r: Result<DnnBackend, CvError>)
        ensures
            0 <= value <= 3 ==> (r matches Ok(b) && backend_code(b) == value),
            !(0 <= value <= 3) ==> r == Err::<DnnBackend, CvError>(
                CvError::EnumFromPrimitiveConversionError { value },
            ),
    {
        if value == 0 {
            Ok(DnnBackend::DnnBackendDefault)
        } else if value == 1 {
            Ok(DnnBackend::DnnBackendHalide)
        } else if value == 2 {
            Ok(DnnBackend::DnnBackendInferenceEngine)
        } else if value == 3 {
            Ok(DnnBackend::DnnBackendOpencv)
        } else {
            Err(CvError::EnumFromPrimitiveConversionError { value })
        }
    }
}

impl DnnTarget {
    /// The numeric code to pass to the native side for this target.
    pub fn code(&self) -> (r: i32)
        ensures
            r == target_code(*self),
    {
        match self {
            DnnTarget::DnnTargetCpu => 0,
            DnnTarget::DnnTargetOpencl => 1,
            DnnTarget::DnnTargetOpenclFp16 => 2,
            DnnTarget::DnnTargetMyriad => 3,
        }
    }

    /// The target a numeric code from the native side stands for; a code
    /// outside the known range is the conversion error carrying that code.
    pub fn from_code(value: i32) -> (r: Result<DnnTarget, CvError>)
        ensures
            0 <= value <= 3 ==> (r matches Ok(t) && target_code(t) == value),
            !(0 <= value <= 3) ==> r == Err::<DnnTarget, CvError>(
                CvError::EnumFromPrimitiveConversionError { value },
            ),
    {
        if value == 0 {
            Ok(DnnTarget::DnnTargetCpu)
        } else if value == 1 {
            Ok(DnnTarget::DnnTargetOpencl)
        } else if value == 2 {
            Ok(DnnTarget::DnnTargetOpenclFp16)
        } else if value == 3 {
            Ok(DnnTarget::DnnTargetMyriad)
        } else {
            Err(CvError::EnumFromPrimitiveConversionError { value })
        }
    }
}

/// The lifecycle step an owned wrapper takes on disposal: from a live
/// wrapper it moves to the disposed state and yields the one release action
/// (the raw handle to release); from a disposed wrapper it stays disposed
/// and yields none.
pub open spec fn dispose_transition(live: bool, raw: usize) -> (bool, Option<usize>) {
    if live {
        (false, Some(raw))
    } else {
        (false, None)
    }
}

/// Law: disposal is idempotent. However a wrapper is disposed a second
/// time, the second transition yields no release action, so one handle is
/// never released twice.
pub proof fn lemma_dispose_idempotent(live: bool, raw: usize)
    ensures
        dispose_transition(dispose_transition(live, raw).0, raw).1 is None,
        !dispose_transition(dispose_transition(live, raw).0, raw).0,
{
}

/// An owned matrix (or blob) handle.
///
/// The value exclusively owns one native matrix handle; it is created only
/// by adopting a handle the native side returned, and it releases that
/// handle at most once, on the first disposal.
#[derive(Debug)]
pub struct Mat {
    raw: usize,
    disposed: bool,
}

impl Mat {
    /// The raw native handle this wrapper owns.
    pub closed spec fn raw_id(&self) -> usize {
        self.raw
    }

    /// Whether the wrapper is still in the constructed state.
    pub closed spec fn is_live(&self) -> bool {
        !self.disposed
    }

    /// Takes ownership of a matrix handle the native side returned.
    pub fn adopt(raw: usize) -> (m: Mat)
        ensures
            m.is_live(),
            m.raw_id() == raw,
    {
        Mat { raw, disposed: false }
    }

    /// Whether the wrapper has been disposed.
    pub fn is_disposed(&self) -> (b: bool)
        ensures
            b == !self.is_live(),
    {
        self.disposed
    }

    /// The raw handle, for forwarding into a native call; only a live
    /// wrapper may be forwarded.
    pub fn raw(&self) -> (r: usize)
        requires
            self.is_live(),
        ensures
            r == self.raw_id(),
    {
        self.raw
    }

    /// Moves the wrapper to the disposed state and yields the release
    /// action: the raw handle to release on the first call, and nothing on
    /// every later call.
    pub fn dispose(&mut self) -> (r: Option<usize>)
        ensures
            final(self).raw_id() == old(self).raw_id(),
            (final(self).is_live(), r) == dispose_transition(
                old(self).is_live(),
                old(self).raw_id(),
            ),
    {
        if self.disposed {
            None
        } else {
            self.disposed = true;
            Some(self.raw)
        }
    }
}

/// An owned network handle, with the same two-state lifecycle as [`Mat`].
#[derive(Debug)]
pub struct Net {
    raw: usize,
    disposed: bool,
}

/// The marshaled arguments of a network constructor: which native reader to
/// invoke, with its checked text arguments.
#[derive(Debug, Clone)]
pub enum NetSource {
    /// The generic reader, which infers the model format.
    Generic {
        /// Path of the model weights file.
        model: CText,
        /// Path of the model configuration file.
        config: CText,
    },
    /// The reader for models stored in Caffe's format.
    Caffe {
        /// Path of the prototxt file.
        prototxt: CText,
        /// Path of the model weights file.
        model: CText,
    },
    /// The reader for models stored in Tensorflow's format.
    Tensorflow {
        /// Path of the model file.
        model: CText,
    },
}

impl Net {
    /// The raw native handle this wrapper owns.
    pub closed spec fn raw_id(&self) -> usize {
        self.raw
    }

    /// Whether the wrapper is still in the constructed state.
    pub closed spec fn is_live(&self) -> bool {
        !self.disposed
    }

    /// Marshals the arguments for reading a network model of any supported
    /// format (Caffe, Tensorflow, Darknet, OpenVino, Torch). Text holding
    /// an embedded null character is rejected and nothing is marshaled.
    pub fn read_net(model: &str, config: &str) -> (r: Result<NetSource, CvError>)
        ensures
            !has_interior_nul(model@) && !has_interior_nul(config@) ==> (r matches Ok(
                NetSource::Generic { model: m, config: c },
            ) && m@ == model@ && c@ == config@),
            has_interior_nul(model@) ==> (r matches Err(e) && e matches CvError::InvalidString(s)
                && s@ == model@),
            !has_interior_nul(model@) && has_interior_nul(config@) ==> (r matches Err(e)
                && e matches CvError::InvalidString(s) && s@ == config@),
    {
        let model = CText::new(model)?;
        let config = CText::new(config)?;
        Ok(NetSource::Generic { model, config })
    }

    /// Marshals the arguments for reading a network model stored in Caffe's
    /// format. Text holding an embedded null character is rejected and
    /// nothing is marshaled.
    pub fn from_caffe(prototxt: &str, model: &str) -> (r: Result<NetSource, CvError>)
        ensures
            !has_interior_nul(prototxt@) && !has_interior_nul(model@) ==> (r matches Ok(
                NetSource::Caffe { prototxt: p, model: m },
            ) && p@ == prototxt@ && m@ == model@),
            has_interior_nul(prototxt@) ==> (r matches Err(e) && e matches CvError::InvalidString(
                s,
            ) && s@ == prototxt@),
            !has_interior_nul(prototxt@) && has_interior_nul(model@) ==> (r matches Err(e)
                && e matches CvError::InvalidString(s) && s@ == model@),
    {
        let prototxt = CText::new(prototxt)?;
        let model = CText::new(model)?;
        Ok(NetSource::Caffe { prototxt, model })
    }

    /// Marshals the arguments for reading a network model stored in
    /// Tensorflow's format. Text holding an embedded null character is
    /// rejected and nothing is marshaled.
    pub fn from_tensorflow(model: &str) -> (r: Result<NetSource, CvError>)
        ensures
            !has_interior_nul(model@) ==> (r matches Ok(NetSource::Tensorflow { model: m })
                && m@ == model@),
            has_interior_nul(model@) ==> (r matches Err(e) && e matches CvError::InvalidString(s)
                && s@ == model@),
    {
        let model = CText::new(model)?;
        Ok(NetSource::Tensorflow { model })
    }

    /// Takes ownership of the handle a native network constructor returned.
    /// The null handle is the native side's sentinel for a model that failed
    /// to load: it is rejected with the unknown error carrying whatever
    /// diagnostic text the native side produced.
    pub fn adopt(raw: usize, diagnostic: &str) -> (r: Result<Net, CvError>)
        ensures
            raw != 0 ==> (r matches Ok(n) && n.is_live() && n.raw_id() == raw),
            raw == 0 ==> (r matches Err(e) && e matches CvError::UnknownError(d)
                && d@ == diagnostic@),
    {
        if raw == 0 {
            Err(CvError::UnknownError(diagnostic.to_owned()))
        } else {
            Ok(Net { raw, disposed: false })
        }
    }

    /// Whether the wrapper has been disposed.
    pub fn is_disposed(&self) -> (b: bool)
        ensures
            b == !self.is_live(),
    {
        self.disposed
    }

    /// The raw handle, for forwarding into a native call; only a live
    /// wrapper may be forwarded.
    pub fn raw(&self) -> (r: usize)
        requires
            self.is_live(),
        ensures
            r == self.raw_id(),
    {
        self.raw
    }

    /// Moves the wrapper to the disposed state and yields the release
    /// action: the raw handle to release on the first call, and nothing on
    /// every later call.
    pub fn dispose(&mut self) -> (r: Option<usize>)
        ensures
            final(self).raw_id() == old(self).raw_id(),
            (final(self).is_live(), r) == dispose_transition(
                old(self).is_live(),
                old(self).raw_id(),
            ),
    {
        if self.disposed {
            None
        } else {
            self.disposed = true;
            Some(self.raw)
        }
    }

    /// Marshals the layer name for setting a new value of a layer's output
    /// blob. The blob is borrowed for the call only; the name is checked
    /// for an embedded null character and rejected with the invalid-string
    /// error if it has one.
    pub fn set_input(&mut self, blob: &Mat, name: &str) -> (r: Result<CText, CvError>)
        requires
            old(self).is_live(),
            blob.is_live(),
        ensures
            *final(self) == *old(self),
            !has_interior_nul(name@) ==> (r matches Ok(t) && t@ == name@),
            has_interior_nul(name@) ==> (r matches Err(e) && e matches CvError::InvalidString(s)
                && s@ == name@),
    {
        CText::new(name)
    }

    /// Marshals the layer name for a forward pass that computes the output
    /// of the layer with that name; the result handle the native side
    /// returns is then adopted with [`Mat::adopt`].
    pub fn forward(&self, output_name: &str) -> (r: Result<CText, CvError>)
        requires
            self.is_live(),
        ensures
            !has_interior_nul(output_name@) ==> (r matches Ok(t) && t@ == output_name@),
            has_interior_nul(output_name@) ==> (r matches Err(e)
                && e matches CvError::InvalidString(s) && s@ == output_name@),
    {
        CText::new(output_name)
    }

    /// Marshals the layer names for a forward pass that computes the
    /// outputs of several named layers at once: one checked, null-free
    /// entry per requested name, in order, so the native side is handed a
    /// pointer table of exactly that length and fills one output slot per
    /// name. If any name holds an embedded null character, the first such
    /// name is rejected and nothing is marshaled.
    pub fn forward_multi(&self, output_names: Vec<String>) -> (r: Result<Vec<CText>, CvError>)
        requires
            self.is_live(),
        ensures
            all_nul_free(output_names.deep_view()) ==> (r matches Ok(t) && t.deep_view()
                == output_names.deep_view()),
            !all_nul_free(output_names.deep_view()) ==> (r matches Err(e)
                && e matches CvError::InvalidString(s) && (exists|i: int|
                0 <= i < output_names.deep_view().len() && s@ == output_names.deep_view()[i]
                    && has_interior_nul(output_names.deep_view()[i]) && (forall|j: int|
                    0 <= j < i ==> !has_interior_nul(output_names.deep_view()[j])))),
    {
        let ghost names = output_names.deep_view();
        let mut table: Vec<CText> = Vec::new();
        let mut i: usize = 0;
        let n = output_names.len();
        while i < n
            invariant
                n == output_names.len(),
                names == output_names.deep_view(),
                names.len() == n,
                i <= n,
                table@.len() == i,
                table.deep_view() =~= names.take(i as int),
                forall|j: int| 0 <= j < i ==> !has_interior_nul(names[j]),
            decreases n - i,
        {
            proof {
                assert(names[i as int] == output_names@[i as int]@);
            }
            let entry = match CText::new(output_names[i].as_str()) {
                Ok(t) => t,
                Err(e) => {
                    return Err(e);
                },
            };
            let ghost e = entry@;
            let ghost pre_table = table.deep_view();
            table.push(entry);
            proof {
                assert(table@.len() == i + 1);
                assert(table.deep_view().len() == i + 1);
                assert forall|k: int| 0 <= k <= i as int implies table.deep_view()[k]
                    == names.take(i as int + 1)[k] by {
                    if k < i as int {
                        assert(table.deep_view()[k] == pre_table[k]);
                    } else {
                        assert(table.deep_view()[k] == e);
                    }
                }
                assert(table.deep_view() =~= names.take(i as int + 1));
            }
            i = i + 1;
        }
        proof {
            assert(names.take(n as int) =~= names);
        }
        Ok(table)
    }

    /// The numeric code to hand to the native call that selects the desired
    /// backend.
    pub fn set_preferable_backend(&self, backend: DnnBackend) -> (r: i32)
        requires
            self.is_live(),
        ensures
            r == backend_code(backend),
    {
        backend.code()
    }

    /// The numeric code to hand to the native call that selects the target
    /// for the computation.
    pub fn set_preferable_target(&self, target: DnnTarget) -> (r: i32)
        requires
            self.is_live(),
        ensures
            r == target_code(target),
    {
        target.code()
    }
}

/// True when no name in the list holds an embedded null character.
pub open spec fn all_nul_free(names: Seq<Seq<char>>) -> bool {
    forall|i: int| 0 <= i < names.len() ==> !has_interior_nul(names[i])
}

/// True when `mats` is the adoption of `raws`: one live wrapper per raw
/// handle, in order.
pub open spec fn adopted(mats: Seq<Mat>, raws: Seq<usize>) -> bool {
    mats.len() == raws.len() && (forall|i: int|
        0 <= i < mats.len() ==> #[trigger] mats[i].is_live() && mats[i].raw_id() == raws[i])
}

/// Takes ownership of the handles a multi-output forward pass populated:
/// each becomes its own owned wrapper, not a shared view into the output
/// array.
pub fn adopt_outputs(raws: &Vec<usize>) -> (mats: Vec<Mat>)
    ensures
        adopted(mats@, raws@),
{
    let mut mats: Vec<Mat> = Vec::new();
    let mut i: usize = 0;
    let n = raws.len();
    while i < n
        invariant
            n == raws.len(),
            i <= n,
            mats@.len() == i,
            forall|j: int| 0 <= j < i ==> #[trigger] mats@[j].is_live() && mats@[j].raw_id()
                == raws@[j],
        decreases n - i,
    {
        mats.push(Mat::adopt(raws[i]));
        i = i + 1;
    }
    mats
}

/// Law: a list of names fed into the multi-output forward pass comes back
/// as exactly as many owned result wrappers, each independently disposable.
/// `table` is what the marshaling produced of `names`, `raws` the handles
/// the native side filled into the equally long output array, and `mats`
/// their adoption. Disposing any one wrapper yields exactly its own handle
/// as the release action and leaves every other wrapper untouched and live.
pub proof fn lemma_forward_multi_round_trip(
    names: Seq<Seq<char>>,
    table: Seq<Seq<char>>,
    raws: Seq<usize>,
    mats: Seq<Mat>,
    i: int,
)
    requires
        all_nul_free(names),
        table == names,
        raws.len() == table.len(),
        adopted(mats, raws),
        0 <= i < mats.len(),
    ensures
        mats.len() == names.len(),
        dispose_transition(mats[i].is_live(), mats[i].raw_id()).1 == Some(raws[i]),
        forall|j: int, w: Mat|
            0 <= j < mats.len() && j != i ==> mats.update(i, w)[j] == mats[j]
                && mats[j].is_live(),
{
    assert(mats[i].is_live());
}

} // verus!
