//! Linker directives derived from library file names.
//!
//! For every declared library directory the build step emits one search-path
//! directive and scans the directory: a file named `lib<name>.so` yields one
//! dynamic-link directive for `<name>`, a file named `lib<name>.a` one
//! static-link directive, and any other file none. A directory that cannot
//! be read is not fatal; the link step degrades to the directives of the
//! files that were discoverable.
//!
//! Some native build systems merge third-party archives under a doubled
//! name prefix; [`rename_doubled_archive`] gives such a file the name the
//! scan above expects.

use vstd::prelude::*;

use crate::text::{concat2, push_owned, starts_with_spec, str_eq, strip_prefix};

verus! {

/// True when `p` is a suffix of `s`.
pub open spec fn ends_with_spec(s: Seq<char>, p: Seq<char>) -> bool {
    p.len() <= s.len() && s.subrange(s.len() - p.len(), s.len() as int) == p
}

/// One linker directive: link a library dynamically or statically by name.
#[derive(Debug, Clone, PartialEq)]
pub enum LinkDirective {
    /// Link `lib<name>.so` dynamically.
    Dynamic(String),
    /// Link `lib<name>.a` statically.
    Static(String),
}

/// The mathematical shape of a linker directive.
pub enum LinkDirectiveModel {
    /// Link dynamically by name.
    Dynamic(Seq<char>),
    /// Link statically by name.
    Static(Seq<char>),
}

impl View for LinkDirective {
    type V = LinkDirectiveModel;

    open spec fn view(&self) -> LinkDirectiveModel {
        match self {
            LinkDirective::Dynamic(name) => LinkDirectiveModel::Dynamic(name@),
            LinkDirective::Static(name) => LinkDirectiveModel::Static(name@),
        }
    }
}

impl DeepView for LinkDirective {
    type V = LinkDirectiveModel;

    open spec fn deep_view(&self) -> LinkDirectiveModel {
        self.view()
    }
}

/// The library name a shared-object file name carries: the text between
/// the `lib` prefix and the `.so` suffix, when the name has both.
pub open spec fn so_base(name: Seq<char>) -> Option<Seq<char>> {
    if name.len() >= 6 && starts_with_spec(name, "lib"@) && ends_with_spec(name, ".so"@) {
        Some(name.subrange(3, name.len() - 3))
    } else {
        None
    }
}

/// The library name a static-archive file name carries: the text between
/// the `lib` prefix and the `.a` suffix, when the name has both.
pub open spec fn archive_base(name: Seq<char>) -> Option<Seq<char>> {
    if name.len() >= 5 && starts_with_spec(name, "lib"@) && ends_with_spec(name, ".a"@) {
        Some(name.subrange(3, name.len() - 2))
    } else {
        None
    }
}

/// The directives one file name yields: one dynamic directive for a shared
/// object, one static directive for an archive, none for anything else.
pub open spec fn file_directives(name: Seq<char>) -> Seq<LinkDirectiveModel> {
    match so_base(name) {
        Some(b) => seq![LinkDirectiveModel::Dynamic(b)],
        None => match archive_base(name) {
            Some(b) => seq![LinkDirectiveModel::Static(b)],
            None => Seq::empty(),
        },
    }
}

/// The directives a whole directory listing yields, in file order.
pub open spec fn link_directives(names: Seq<Seq<char>>) -> Seq<LinkDirectiveModel>
    decreases names.len(),
{
    if names.len() == 0 {
        Seq::empty()
    } else {
        link_directives(names.drop_last()) + file_directives(names.last())
    }
}

/// The directive one library file name calls for, if any.
pub fn classify_lib_file(name: &str) -> (r: Option<LinkDirective>)
    ensures
        match so_base(name@) {
            Some(b) => r matches Some(d) && d@ == LinkDirectiveModel::Dynamic(b),
            None => match archive_base(name@) {
                Some(b) => r matches Some(d) && d@ == LinkDirectiveModel::Static(b),
                None => r is None,
            },
        },
{
    proof {
        reveal_strlit("lib");
        reveal_strlit(".so");
        reveal_strlit(".a");
        assert("lib"@.len() == 3);
        assert(".so"@.len() == 3);
        assert(".a"@.len() == 2);
    }
    let n = name.unicode_len();
    if n >= 6 && str_eq(name.substring_char(0, 3), "lib") && str_eq(
        name.substring_char(n - 3, n),
        ".so",
    ) {
        return Some(LinkDirective::Dynamic(name.substring_char(3, n - 3).to_owned()));
    }
    if n >= 5 && str_eq(name.substring_char(0, 3), "lib") && str_eq(
        name.substring_char(n - 2, n),
        ".a",
    ) {
        return Some(LinkDirective::Static(name.substring_char(3, n - 2).to_owned()));
    }
    None
}

/// Appends one directive to a list of directives.
fn push_directive(out: &mut Vec<LinkDirective>, d: LinkDirective)
    ensures
        final(out).deep_view() == old(out).deep_view().push(d@),
{
    let ghost e = d@;
    let ghost pre = out.deep_view();
    out.push(d);
    proof {
        assert(out@.len() == pre.len() + 1);
        assert(out.deep_view().len() == pre.len() + 1);
        assert forall|k: int| 0 <= k < out.deep_view().len() implies out.deep_view()[k] == pre.push(
            e,
        )[k] by {
            if k < pre.len() as int {
                assert(out.deep_view()[k] == pre[k]);
            } else {
                assert(out.deep_view()[k] == e);
            }
        }
        assert(out.deep_view() =~= pre.push(e));
    }
}

/// The directives for every file of a directory listing, in order: exactly
/// one per file that matches either library-name shape, none for any other
/// file.
pub fn scan_directory(names: &Vec<String>) -> (r: Vec<LinkDirective>)
    ensures
        r.deep_view() == link_directives(names.deep_view()),
{
    let ghost nv = names.deep_view();
    let mut out: Vec<LinkDirective> = Vec::new();
    let n = names.len();
    let mut i: usize = 0;
    while i < n
        invariant
            n == names@.len(),
            nv == names.deep_view(),
            nv.len() == n,
            i <= n,
            out.deep_view() =~= link_directives(nv.take(i as int)),
        decreases n - i,
    {
        proof {
            assert(nv[i as int] == names@[i as int]@);
            assert(nv.take(i as int + 1).drop_last() =~= nv.take(i as int));
            assert(nv.take(i as int + 1).last() == nv[i as int]);
        }
        let ghost pre = out.deep_view();
        match classify_lib_file(names[i].as_str()) {
            Some(d) => {
                push_directive(&mut out, d);
                proof {
                    assert(out.deep_view() =~= link_directives(nv.take(i as int + 1)));
                }
            },
            None => {
                proof {
                    assert(file_directives(nv[i as int]) =~= Seq::<LinkDirectiveModel>::empty());
                    assert(out.deep_view() =~= link_directives(nv.take(i as int + 1)));
                }
            },
        }
        i = i + 1;
    }
    proof {
        assert(nv.take(n as int) =~= nv);
    }
    out
}


/// The library directories the environment declares: the values of every
/// variable whose name starts with the lib-dir variable's name, so that
/// suffixed per-component variants are picked up too, in entry order.
pub open spec fn lib_dirs_spec(entries: Seq<(Seq<char>, Seq<char>)>) -> Seq<Seq<char>>
    decreases entries.len(),
{
    if entries.len() == 0 {
        Seq::empty()
    } else {
        let rest = lib_dirs_spec(entries.drop_last());
        if starts_with_spec(entries.last().0, "OPENCV_LIB_DIR"@) {
            rest.push(entries.last().1)
        } else {
            rest
        }
    }
}

/// The library directories declared in the environment, each of which gets
/// a search-path directive and a scan.
pub fn lib_dirs(env: &Vec<(String, String)>) -> (r: Vec<String>)
    ensures
        r.deep_view() == lib_dirs_spec(env.deep_view()),
{
    let ghost ev = env.deep_view();
    let mut out: Vec<String> = Vec::new();
    let n = env.len();
    let mut i: usize = 0;
    while i < n
        invariant
            n == env@.len(),
            ev == env.deep_view(),
            ev.len() == n,
            i <= n,
            out.deep_view() =~= lib_dirs_spec(ev.take(i as int)),
        decreases n - i,
    {
        proof {
            assert(ev[i as int] == (env@[i as int].0@, env@[i as int].1@));
            assert(ev.take(i as int + 1).drop_last() =~= ev.take(i as int));
            assert(ev.take(i as int + 1).last() == ev[i as int]);
        }
        if strip_prefix(env[i].0.as_str(), "OPENCV_LIB_DIR").is_some() {
            push_owned(&mut out, env[i].1.clone());
            proof {
                assert(out.deep_view() =~= lib_dirs_spec(ev.take(i as int + 1)));
            }
        } else {
            proof {
                assert(out.deep_view() =~= lib_dirs_spec(ev.take(i as int + 1)));
            }
        }
        i = i + 1;
    }
    proof {
        assert(ev.take(n as int) =~= ev);
    }
    out
}

/// Gives a static archive whose name carries the doubled prefix some build
/// systems emit when merging third-party archives the name the directory
/// scan expects: the name with one leading `lib` removed.
pub fn rename_doubled_archive(name: &str) -> (r: Option<String>)
    ensures
        starts_with_spec(name@, "liblib"@) ==> (r matches Some(fixed) && fixed@ == name@.skip(3)),
        !starts_with_spec(name@, "liblib"@) ==> r is None,
{
    match strip_prefix(name, "liblib") {
        Some(rest) => {
            let fixed = concat2("lib", rest.as_str());
            proof {
                reveal_strlit("lib");
                reveal_strlit("liblib");
                assert("lib"@.len() == 3);
                assert("liblib"@.len() == 6);
                assert forall|k: int| 0 <= k < name@.skip(3).len() implies ("lib"@ + name@.skip(
                    6,
                ))[k] == name@.skip(3)[k] by {
                    if k < 3 {
                        assert(name@.subrange(0, 6)[k + 3] == "liblib"@[k + 3]);
                    }
                }
                assert("lib"@ + name@.skip(6) =~= name@.skip(3));
            }
            Some(fixed)
        },
        None => None,
    }
}

/// Law: a file name that carries the shared-object shape yields exactly
/// one dynamic directive naming the text between the prefix and the
/// suffix; one that carries the archive shape yields exactly one static
/// directive; a name of neither shape yields none, and no name can carry
/// both shapes at once.
pub proof fn lemma_one_directive_per_file(name: Seq<char>)
    ensures
        so_base(name) matches Some(b) ==> file_directives(name) == seq![
            LinkDirectiveModel::Dynamic(b),
        ],
        archive_base(name) matches Some(b) ==> file_directives(name) == seq![
            LinkDirectiveModel::Static(b),
        ],
        so_base(name) is None && archive_base(name) is None ==> file_directives(name)
            == Seq::<LinkDirectiveModel>::empty(),
        !(so_base(name) is Some && archive_base(name) is Some),
{
    if so_base(name) is Some && archive_base(name) is Some {
        reveal_strlit(".so");
        reveal_strlit(".a");
        assert(".so"@.len() == 3);
        assert(".a"@.len() == 2);
        assert(name.subrange(name.len() - 3, name.len() as int)[2] == ".so"@[2]);
        assert(name.subrange(name.len() - 2, name.len() as int)[1] == ".a"@[1]);
        assert(name[name.len() - 1] == 'o');
        assert(name[name.len() - 1] == 'a');
        assert(false);
    }
}

/// Law: a directory listing's directives are the concatenation, in file
/// order, of each file's own directives.
pub proof fn lemma_scan_in_file_order(names: Seq<Seq<char>>, extra: Seq<char>)
    ensures
        link_directives(names.push(extra)) == link_directives(names) + file_directives(extra),
{
    assert(names.push(extra).drop_last() =~= names);
}


} // verus!
