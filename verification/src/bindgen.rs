//! Header and shim-source selection for the binding generator.
//!
//! For each enabled module (plus the implicit version module) the binding
//! generator feeds exactly one public header into the generator: the first
//! of a small ordered set of candidate file names that exists. A module
//! with none of its candidates present is a configuration error, and the
//! selection fails fast naming that module. The shim compilation step picks
//! one native source file per enabled module the same way.

use vstd::prelude::*;

use crate::config::Features;
use crate::text::{concat2, concat3, push_owned, str_eq};

verus! {

/// A fatal build-time configuration error: an enabled module misses a file
/// the binding step needs. There is no recovery; the build aborts with the
/// module's name.
#[derive(Debug, Clone, PartialEq)]
pub enum BuildError {
    /// An enabled module has none of its candidate headers.
    MissingHeader(String),
    /// An enabled module has none of its candidate shim sources.
    MissingSource(String),
}

/// Whether a file name is among the available ones.
pub open spec fn contains_str(avail: Seq<Seq<char>>, x: Seq<char>) -> bool {
    exists|i: int| 0 <= i < avail.len() && avail[i] == x
}

/// The ordered candidate header names for one module: the module's shim
/// header, its alternate shim header, and the bare module header.
pub open spec fn header_candidates_spec(m: Seq<char>) -> Seq<Seq<char>> {
    seq!["gocv/"@ + m + ".h"@, "gocv/"@ + m + "_gocv.h"@, m + ".h"@]
}

/// The ordered candidate shim source names for one module: the module's
/// shim source and the bare module source.
pub open spec fn source_candidates_spec(m: Seq<char>) -> Seq<Seq<char>> {
    seq!["gocv/"@ + m + ".cpp"@, m + ".cpp"@]
}

/// The first candidate that is available, if any.
pub open spec fn first_present(cands: Seq<Seq<char>>, avail: Seq<Seq<char>>) -> Option<Seq<char>>
    decreases cands.len(),
{
    if cands.len() == 0 {
        None
    } else if contains_str(avail, cands[0]) {
        Some(cands[0])
    } else {
        first_present(cands.drop_first(), avail)
    }
}

/// The one header the generator consumes for a module, if the module has
/// any of its candidates.
pub open spec fn module_header(m: Seq<char>, avail: Seq<Seq<char>>) -> Option<Seq<char>> {
    first_present(header_candidates_spec(m), avail)
}

/// The one shim source compiled for a module, if the module has any of its
/// candidates.
pub open spec fn module_source(m: Seq<char>, avail: Seq<Seq<char>>) -> Option<Seq<char>> {
    first_present(source_candidates_spec(m), avail)
}

/// The module list a set of feature toggles enables, in a fixed order; the
/// core module is always in.
pub open spec fn enabled_modules_spec(f: Features) -> Seq<Seq<char>> {
    let s = seq!["core"@];
    let s = if f.dnn {
        s.push("dnn"@)
    } else {
        s
    };
    let s = if f.features2d {
        s.push("features2d"@)
    } else {
        s
    };
    let s = if f.highgui {
        s.push("highgui"@)
    } else {
        s
    };
    let s = if f.imgcodecs {
        s.push("imgcodecs"@)
    } else {
        s
    };
    let s = if f.imgproc {
        s.push("imgproc"@)
    } else {
        s
    };
    let s = if f.objdetect {
        s.push("objdetect"@)
    } else {
        s
    };
    if f.cuda {
        s.push("cuda"@)
    } else {
        s
    }
}

/// The modules a set of feature toggles enables, in the order the binding
/// step walks them.
pub fn enabled_modules(f: &Features) -> (r: Vec<String>)
    ensures
        r.deep_view() == enabled_modules_spec(*f),
{
    let mut out: Vec<String> = Vec::new();
    push_owned(&mut out, "core".to_owned());
    proof {
        assert(out.deep_view() =~= Seq::<Seq<char>>::empty().push("core"@));
        assert(Seq::<Seq<char>>::empty().push("core"@) =~= seq!["core"@]);
    }
    if f.dnn {
        push_owned(&mut out, "dnn".to_owned());
    }
    if f.features2d {
        push_owned(&mut out, "features2d".to_owned());
    }
    if f.highgui {
        push_owned(&mut out, "highgui".to_owned());
    }
    if f.imgcodecs {
        push_owned(&mut out, "imgcodecs".to_owned());
    }
    if f.imgproc {
        push_owned(&mut out, "imgproc".to_owned());
    }
    if f.objdetect {
        push_owned(&mut out, "objdetect".to_owned());
    }
    if f.cuda {
        push_owned(&mut out, "cuda".to_owned());
    }
    out
}

/// Whether a file name is among the available ones.
fn contains(avail: &Vec<String>, x: &str) -> (r: bool)
    ensures
        r == contains_str(avail.deep_view(), x@),
{
    let n = avail.len();
    let mut i: usize = 0;
    while i < n
        invariant
            n == avail@.len(),
            i <= n,
            forall|j: int| 0 <= j < i ==> avail.deep_view()[j] != x@,
        decreases n - i,
    {
        if str_eq(avail[i].as_str(), x) {
            proof {
                assert(avail.deep_view()[i as int] == x@);
            }
            return true;
        }
        proof {
            assert(avail.deep_view()[i as int] == avail@[i as int]@);
        }
        i = i + 1;
    }
    false
}

/// The candidate header names for a module, in the order they are tried.
pub fn header_candidates(m: &str) -> (r: Vec<String>)
    ensures
        r.deep_view() == header_candidates_spec(m@),
{
    let mut out: Vec<String> = Vec::new();
    push_owned(&mut out, concat3("gocv/", m, ".h"));
    push_owned(&mut out, concat3("gocv/", m, "_gocv.h"));
    push_owned(&mut out, concat2(m, ".h"));
    proof {
        assert(out.deep_view() =~= header_candidates_spec(m@));
    }
    out
}

/// The candidate shim source names for a module, in the order they are
/// tried.
pub fn source_candidates(m: &str) -> (r: Vec<String>)
    ensures
        r.deep_view() == source_candidates_spec(m@),
{
    let mut out: Vec<String> = Vec::new();
    push_owned(&mut out, concat3("gocv/", m, ".cpp"));
    push_owned(&mut out, concat2(m, ".cpp"));
    proof {
        assert(out.deep_view() =~= source_candidates_spec(m@));
    }
    out
}

/// The first available candidate header for a module.
fn find_header(m: &str, available: &Vec<String>) -> (r: Option<String>)
    ensures
        match r {
            Some(h) => module_header(m@, available.deep_view()) == Some(h@),
            None => module_header(m@, available.deep_view()) is None,
        },
{
    let ghost av = available.deep_view();
    let ghost cs = header_candidates_spec(m@);
    let ghost cs1 = cs.drop_first();
    let ghost cs2 = cs1.drop_first();
    proof {
        assert(cs.len() == 3);
        assert(cs1.len() == 2);
        assert(cs2.len() == 1);
        assert(cs2.drop_first().len() == 0);
        assert(cs1[0] == cs[1]);
        assert(cs2[0] == cs[2]);
    }
    let c1 = concat3("gocv/", m, ".h");
    if contains(available, c1.as_str()) {
        proof {
            assert(first_present(cs, av) == Some(cs[0]));
        }
        return Some(c1);
    }
    proof {
        assert(first_present(cs, av) == first_present(cs1, av));
    }
    let c2 = concat3("gocv/", m, "_gocv.h");
    if contains(available, c2.as_str()) {
        proof {
            assert(first_present(cs1, av) == Some(cs1[0]));
        }
        return Some(c2);
    }
    proof {
        assert(first_present(cs1, av) == first_present(cs2, av));
    }
    let c3 = concat2(m, ".h");
    if contains(available, c3.as_str()) {
        proof {
            assert(first_present(cs2, av) == Some(cs2[0]));
        }
        return Some(c3);
    }
    proof {
        assert(first_present(cs2, av) == first_present(cs2.drop_first(), av));
        assert(first_present(cs2.drop_first(), av) is None);
    }
    None
}

/// The first available candidate shim source for a module.
fn find_source(m: &str, available: &Vec<String>) -> (r: Option<String>)
    ensures
        match r {
            Some(h) => module_source(m@, available.deep_view()) == Some(h@),
            None => module_source(m@, available.deep_view()) is None,
        },
{
    let ghost av = available.deep_view();
    let ghost cs = source_candidates_spec(m@);
    let ghost cs1 = cs.drop_first();
    proof {
        assert(cs.len() == 2);
        assert(cs1.len() == 1);
        assert(cs1.drop_first().len() == 0);
        assert(cs1[0] == cs[1]);
    }
    let c1 = concat3("gocv/", m, ".cpp");
    if contains(available, c1.as_str()) {
        proof {
            assert(first_present(cs, av) == Some(cs[0]));
        }
        return Some(c1);
    }
    proof {
        assert(first_present(cs, av) == first_present(cs1, av));
    }
    let c2 = concat2(m, ".cpp");
    if contains(available, c2.as_str()) {
        proof {
            assert(first_present(cs1, av) == Some(cs1[0]));
        }
        return Some(c2);
    }
    proof {
        assert(first_present(cs1, av) == first_present(cs1.drop_first(), av));
        assert(first_present(cs1.drop_first(), av) is None);
    }
    None
}

/// Selects the one header the generator consumes for every enabled module,
/// in order, with the implicit version module last. The selection succeeds
/// exactly when every module (the version module included) has one of its
/// three candidate headers among the available files; otherwise it fails
/// fast, naming the first module that has none.
pub fn select_headers(modules: &Vec<String>, available: &Vec<String>) -> (r: Result<
    Vec<String>,
    BuildError,
>)
    ensures
        ({
            let mods = modules.deep_view().push("version"@);
            let av = available.deep_view();
            match r {
                Ok(hs) => {
                    &&& hs.deep_view().len() == mods.len()
                    &&& forall|i: int|
                        0 <= i < mods.len() ==> module_header(#[trigger] mods[i], av) == Some(
                            hs.deep_view()[i],
                        )
                },
                Err(e) => {
                    &&& e matches BuildError::MissingHeader(m)
                    &&& exists|i: int|
                        0 <= i < mods.len() && #[trigger] mods[i] == m@ && module_header(
                            mods[i],
                            av,
                        ) is None && (forall|j: int|
                            0 <= j < i ==> module_header(#[trigger] mods[j], av) is Some)
                },
            }
        }),
{
    let ghost mods = modules.deep_view().push("version"@);
    let ghost av = available.deep_view();
    let mut out: Vec<String> = Vec::new();
    let n = modules.len();
    let mut i: usize = 0;
    while i < n
        invariant
            n == modules@.len(),
            mods == modules.deep_view().push("version"@),
            av == available.deep_view(),
            mods.len() == n + 1,
            i <= n,
            out.deep_view().len() == i,
            forall|j: int|
                0 <= j < i ==> module_header(#[trigger] mods[j], av) == Some(out.deep_view()[j]),
        decreases n - i,
    {
        proof {
            assert(mods[i as int] == modules.deep_view()[i as int]);
            assert(modules.deep_view()[i as int] == modules@[i as int]@);
        }
        match find_header(modules[i].as_str(), available) {
            Some(h) => {
                push_owned(&mut out, h);
            },
            None => {
                return Err(BuildError::MissingHeader(modules[i].clone()));
            },
        }
        i = i + 1;
    }
    proof {
        assert(mods[n as int] == "version"@);
    }
    match find_header("version", available) {
        Some(h) => {
            push_owned(&mut out, h);
            Ok(out)
        },
        None => Err(BuildError::MissingHeader("version".to_owned())),
    }
}

/// Selects the one shim source compiled for every enabled module, in
/// order. The selection succeeds exactly when every module has one of its
/// candidate sources among the available files; otherwise it fails fast,
/// naming the first module that has none.
pub fn select_sources(modules: &Vec<String>, available: &Vec<String>) -> (r: Result<
    Vec<String>,
    BuildError,
>)
    ensures
        ({
            let mods = modules.deep_view();
            let av = available.deep_view();
            match r {
                Ok(ss) => {
                    &&& ss.deep_view().len() == mods.len()
                    &&& forall|i: int|
                        0 <= i < mods.len() ==> module_source(#[trigger] mods[i], av) == Some(
                            ss.deep_view()[i],
                        )
                },
                Err(e) => {
                    &&& e matches BuildError::MissingSource(m)
                    &&& exists|i: int|
                        0 <= i < mods.len() && #[trigger] mods[i] == m@ && module_source(
                            mods[i],
                            av,
                        ) is None && (forall|j: int|
                            0 <= j < i ==> module_source(#[trigger] mods[j], av) is Some)
                },
            }
        }),
{
    let ghost mods = modules.deep_view();
    let ghost av = available.deep_view();
    let mut out: Vec<String> = Vec::new();
    let n = modules.len();
    let mut i: usize = 0;
    while i < n
        invariant
            n == modules@.len(),
            mods == modules.deep_view(),
            av == available.deep_view(),
            mods.len() == n,
            i <= n,
            out.deep_view().len() == i,
            forall|j: int|
                0 <= j < i ==> module_source(#[trigger] mods[j], av) == Some(out.deep_view()[j]),
        decreases n - i,
    {
        proof {
            assert(mods[i as int] == modules@[i as int]@);
        }
        match find_source(modules[i].as_str(), available) {
            Some(s) => {
                push_owned(&mut out, s);
            },
            None => {
                return Err(BuildError::MissingSource(modules[i].clone()));
            },
        }
        i = i + 1;
    }
    Ok(out)
}

/// Law: a successful selection consumes exactly one header per enabled
/// module plus one for the implicit version module, each the first
/// available candidate of its own module; and the selection succeeds if
/// and only if every one of those modules has an available candidate.
pub proof fn lemma_one_header_per_module(
    mods: Seq<Seq<char>>,
    av: Seq<Seq<char>>,
    hs: Seq<Seq<char>>,
)
    requires
        hs.len() == mods.push("version"@).len(),
        forall|i: int|
            0 <= i < mods.push("version"@).len() ==> module_header(
                #[trigger] mods.push("version"@)[i],
                av,
            ) == Some(hs[i]),
    ensures
        hs.len() == mods.len() + 1,
        forall|i: int| 0 <= i < mods.len() ==> module_header(#[trigger] mods[i], av) == Some(hs[i]),
        module_header("version"@, av) == Some(hs[mods.len() as int]),
{
    assert forall|i: int| 0 <= i < mods.len() implies module_header(#[trigger] mods[i], av)
        == Some(hs[i]) by {
        assert(mods.push("version"@)[i] == mods[i]);
    }
    assert(mods.push("version"@)[mods.len() as int] == "version"@);
}

} // verus!
