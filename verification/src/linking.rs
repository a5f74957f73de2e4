//! Library directories below an installation root, and what is registered
//! with the linker.

use vstd::prelude::*;
use vstd::string::*;

use crate::probe::{present_paths, Probe, ProbeView};
use crate::text::{join_path, joined};

verus! {

/// The places below an installation root where libraries may lie, over the
/// usual layouts of the supported systems and architectures.
pub open spec fn link_dir_templates() -> Seq<Seq<char>> {
    seq![
        "lib"@,
        "lib/x64"@,
        "lib/Win32"@,
        "lib/x86_64"@,
        "lib/x86_64-linux-gnu"@,
        "lib64"@,
        "lib64/stubs"@,
        "targets/x86_64-linux"@,
        "targets/x86_64-linux/lib"@,
        "targets/x86_64-linux/lib/stubs"@,
    ]
}

/// Every place below `root` where libraries may lie.
pub open spec fn link_dirs_below(root: Seq<char>) -> Seq<Seq<char>> {
    Seq::new(link_dir_templates().len(), |i: int| joined(root, link_dir_templates()[i]))
}

/// The native libraries that a build may ask for. Each is asked for on its
/// own: none brings another with it, but for the extensions of the dense
/// linear algebra library, which that library needs.
#[derive(Clone, Copy, Debug, PartialEq, Eq, Structural)]
pub struct Capabilities {
    pub driver: bool,
    pub nccl: bool,
    pub nvrtc: bool,
    pub curand: bool,
    pub cublas: bool,
    pub cublaslt: bool,
    pub cudnn: bool,
}

/// `name` alone where it is wanted, and nothing where it is not.
pub open spec fn named_if(wanted: bool, name: Seq<char>) -> Seq<Seq<char>> {
    if wanted {
        seq![name]
    } else {
        Seq::empty()
    }
}

impl Capabilities {
    /// The names of the libraries to link, in the order in which they are
    /// registered.
    pub open spec fn link_target_names(self) -> Seq<Seq<char>> {
        named_if(self.driver, "cuda"@) + named_if(self.nccl, "nccl"@) + named_if(
            self.nvrtc,
            "nvrtc"@,
        ) + named_if(self.curand, "curand"@) + named_if(self.cublas, "cublas"@) + named_if(
            self.cublas || self.cublaslt,
            "cublasLt"@,
        ) + named_if(self.cudnn, "cudnn"@)
    }
}

/// The line that registers a library directory with the linker.
pub open spec fn search_directive_text(dir: Seq<char>) -> Seq<char> {
    "cargo:rustc-link-search=native="@ + dir
}

/// The line that registers a dynamic library as a link target.
pub open spec fn lib_directive_text(name: Seq<char>) -> Seq<char> {
    "cargo:rustc-link-lib=dylib="@ + name
}

/// All lines of a dynamically linked build: the toolkit's library
/// directories, then those of the deep-learning primitives library where it
/// is asked for, then the link targets.
pub open spec fn link_directive_texts(
    toolkit_dirs: Seq<Seq<char>>,
    cudnn_dirs: Seq<Seq<char>>,
    capabilities: Capabilities,
) -> Seq<Seq<char>> {
    toolkit_dirs.map_values(|dir: Seq<char>| search_directive_text(dir)) + (if capabilities.cudnn {
        cudnn_dirs.map_values(|dir: Seq<char>| search_directive_text(dir))
    } else {
        Seq::empty()
    }) + capabilities.link_target_names().map_values(|name: Seq<char>| lib_directive_text(name))
}

/// Each library is a link target exactly when it is asked for, and the
/// extensions of the dense linear algebra library also when that library is.
pub proof fn lemma_link_targets_follow_capabilities(capabilities: Capabilities)
    ensures
        capabilities.link_target_names().contains("cuda"@) <==> capabilities.driver,
        capabilities.link_target_names().contains("nccl"@) <==> capabilities.nccl,
        capabilities.link_target_names().contains("nvrtc"@) <==> capabilities.nvrtc,
        capabilities.link_target_names().contains("curand"@) <==> capabilities.curand,
        capabilities.link_target_names().contains("cublas"@) <==> capabilities.cublas,
        capabilities.link_target_names().contains("cublasLt"@) <==> capabilities.cublas
            || capabilities.cublaslt,
        capabilities.link_target_names().contains("cudnn"@) <==> capabilities.cudnn,
{
    reveal_strlit("cuda");
    reveal_strlit("nccl");
    reveal_strlit("nvrtc");
    reveal_strlit("curand");
    reveal_strlit("cublas");
    reveal_strlit("cublasLt");
    reveal_strlit("cudnn");
    assert("cuda"@.len() == 4 && "cuda"@[2] == 'd');
    assert("nccl"@.len() == 4 && "nccl"@[2] == 'c');
    assert("nvrtc"@.len() == 5 && "nvrtc"@[2] == 'r');
    assert("curand"@.len() == 6 && "curand"@[2] == 'r');
    assert("cublas"@.len() == 6 && "cublas"@[2] == 'b');
    assert("cublasLt"@.len() == 8);
    assert("cudnn"@.len() == 5 && "cudnn"@[2] == 'd');
    lemma_named_if_contains(capabilities, "cuda"@);
    lemma_named_if_contains(capabilities, "nccl"@);
    lemma_named_if_contains(capabilities, "nvrtc"@);
    lemma_named_if_contains(capabilities, "curand"@);
    lemma_named_if_contains(capabilities, "cublas"@);
    lemma_named_if_contains(capabilities, "cublasLt"@);
    lemma_named_if_contains(capabilities, "cudnn"@);
}

/// A name is a link target exactly when one of the parts of the list holds
/// it.
proof fn lemma_named_if_contains(capabilities: Capabilities, name: Seq<char>)
    ensures
        capabilities.link_target_names().contains(name) <==> {
            ||| capabilities.driver && name == "cuda"@
            ||| capabilities.nccl && name == "nccl"@
            ||| capabilities.nvrtc && name == "nvrtc"@
            ||| capabilities.curand && name == "curand"@
            ||| capabilities.cublas && name == "cublas"@
            ||| (capabilities.cublas || capabilities.cublaslt) && name == "cublasLt"@
            ||| capabilities.cudnn && name == "cudnn"@
        },
{
    let a = named_if(capabilities.driver, "cuda"@);
    let b = named_if(capabilities.nccl, "nccl"@);
    let c = named_if(capabilities.nvrtc, "nvrtc"@);
    let d = named_if(capabilities.curand, "curand"@);
    let e = named_if(capabilities.cublas, "cublas"@);
    let f = named_if(capabilities.cublas || capabilities.cublaslt, "cublasLt"@);
    let g = named_if(capabilities.cudnn, "cudnn"@);
    lemma_contains_add(a, b, name);
    lemma_contains_add(a + b, c, name);
    lemma_contains_add(a + b + c, d, name);
    lemma_contains_add(a + b + c + d, e, name);
    lemma_contains_add(a + b + c + d + e, f, name);
    lemma_contains_add(a + b + c + d + e + f, g, name);
    lemma_named_if_holds(capabilities.driver, "cuda"@, name);
    lemma_named_if_holds(capabilities.nccl, "nccl"@, name);
    lemma_named_if_holds(capabilities.nvrtc, "nvrtc"@, name);
    lemma_named_if_holds(capabilities.curand, "curand"@, name);
    lemma_named_if_holds(capabilities.cublas, "cublas"@, name);
    lemma_named_if_holds(capabilities.cublas || capabilities.cublaslt, "cublasLt"@, name);
    lemma_named_if_holds(capabilities.cudnn, "cudnn"@, name);
}

/// What two lists hold together is what one of them holds.
proof fn lemma_contains_add(a: Seq<Seq<char>>, b: Seq<Seq<char>>, name: Seq<char>)
    ensures
        (a + b).contains(name) <==> a.contains(name) || b.contains(name),
{
    if a.contains(name) {
        let i = choose|i: int| 0 <= i < a.len() && a[i] == name;
        assert((a + b)[i] == name);
    }
    if b.contains(name) {
        let i = choose|i: int| 0 <= i < b.len() && b[i] == name;
        assert((a + b)[a.len() + i] == name);
    }
    if (a + b).contains(name) {
        let i = choose|i: int| 0 <= i < (a + b).len() && (a + b)[i] == name;
        if i < a.len() {
            assert(a[i] == name);
        } else {
            assert(b[i - a.len()] == name);
        }
    }
}

/// A part of the list holds its own name where it is wanted, and nothing
/// else.
proof fn lemma_named_if_holds(wanted: bool, own: Seq<char>, name: Seq<char>)
    ensures
        named_if(wanted, own).contains(name) <==> wanted && name == own,
{
    if wanted {
        assert(named_if(wanted, own)[0] == own);
    }
}

/// Every directory that is returned exists: it is the path of a probe that
/// is present.
pub proof fn lemma_present_paths_exist(probes: Seq<ProbeView>, k: int)
    requires
        0 <= k < present_paths(probes).len(),
    ensures
        exists|i: int|
            0 <= i < probes.len() && (#[trigger] probes[i]).present && probes[i].path
                == present_paths(probes)[k],
    decreases probes.len(),
{
    let front = probes.drop_last();
    if k < present_paths(front).len() {
        lemma_present_paths_exist(front, k);
        let i = choose|i: int|
            0 <= i < front.len() && (#[trigger] front[i]).present && front[i].path
                == present_paths(front)[k];
        assert(probes[i] == front[i]);
    } else {
        assert(probes[probes.len() - 1].present);
    }
}

/// Every directory that exists is returned.
pub proof fn lemma_present_paths_complete(probes: Seq<ProbeView>, i: int)
    requires
        0 <= i < probes.len(),
        probes[i].present,
    ensures
        present_paths(probes).contains(probes[i].path),
    decreases probes.len(),
{
    let front = probes.drop_last();
    if i < front.len() {
        lemma_present_paths_complete(front, i);
        let k = choose|k: int|
            0 <= k < present_paths(front).len() && present_paths(front)[k] == front[i].path;
        assert(present_paths(probes)[k] == probes[i].path);
    } else {
        assert(present_paths(probes).last() == probes[i].path);
    }
}

/// Where one directory alone exists, it alone is returned.
pub proof fn lemma_single_present(probes: Seq<ProbeView>, k: int)
    requires
        0 <= k < probes.len(),
        forall|i: int| 0 <= i < probes.len() ==> (probes[i].present <==> i == k),
    ensures
        present_paths(probes) == seq![probes[k].path],
    decreases probes.len(),
{
    let front = probes.drop_last();
    if k < front.len() {
        lemma_single_present(front, k);
    } else {
        lemma_none_present(front);
        assert(present_paths(probes) =~= seq![probes[k].path]);
    }
}

/// Where no directory exists, none is returned.
pub proof fn lemma_none_present(probes: Seq<ProbeView>)
    requires
        forall|i: int| 0 <= i < probes.len() ==> !probes[i].present,
    ensures
        present_paths(probes) == Seq::<Seq<char>>::empty(),
    decreases probes.len(),
{
    if probes.len() > 0 {
        lemma_none_present(probes.drop_last());
    }
}

/// The paths below `root` at which library directories are looked for.
pub fn link_dir_candidates(root: &str) -> (dirs: Vec<String>)
    ensures
        dirs.deep_view() == link_dirs_below(root@),
{
    let mut dirs: Vec<String> = Vec::new();
    dirs.push(join_path(root, "lib"));
    dirs.push(join_path(root, "lib/x64"));
    dirs.push(join_path(root, "lib/Win32"));
    dirs.push(join_path(root, "lib/x86_64"));
    dirs.push(join_path(root, "lib/x86_64-linux-gnu"));
    dirs.push(join_path(root, "lib64"));
    dirs.push(join_path(root, "lib64/stubs"));
    dirs.push(join_path(root, "targets/x86_64-linux"));
    dirs.push(join_path(root, "targets/x86_64-linux/lib"));
    dirs.push(join_path(root, "targets/x86_64-linux/lib/stubs"));
    assert(dirs.deep_view() =~= link_dirs_below(root@));
    dirs
}

/// The library directories that exist. Each probe holds a path and whether
/// it is a directory; the result holds the paths that are, in the order of
/// the probes. All of them are registered: none takes precedence.
pub fn enumerate_link_dirs(probes: &Vec<Probe>) -> (dirs: Vec<String>)
    ensures
        dirs.deep_view() == present_paths(probes.deep_view()),
{
    let mut dirs: Vec<String> = Vec::new();
    let mut i: usize = 0;
    while i < probes.len()
        invariant
            i <= probes.len(),
            dirs.deep_view() == present_paths(probes.deep_view().take(i as int)),
        decreases probes.len() - i,
    {
        let ghost before = dirs.deep_view();
        proof {
            assert(probes.deep_view().take(i + 1).drop_last() =~= probes.deep_view().take(
                i as int,
            ));
            assert(probes.deep_view().take(i + 1).last() == probes[i as int]@);
        }
        if probes[i].present {
            dirs.push(probes[i].path.clone());
            assert(dirs.deep_view() =~= before.push(probes[i as int].path@));
        }
        i += 1;
    }
    proof {
        assert(probes.deep_view().take(probes.len() as int) =~= probes.deep_view());
    }
    dirs
}

/// The names of the libraries to link, in the order in which they are
/// registered.
pub fn link_targets(capabilities: &Capabilities) -> (names: Vec<String>)
    ensures
        names.deep_view() == capabilities.link_target_names(),
{
    let mut names: Vec<String> = Vec::new();
    if capabilities.driver {
        names.push(String::from_str("cuda"));
    }
    if capabilities.nccl {
        names.push(String::from_str("nccl"));
    }
    if capabilities.nvrtc {
        names.push(String::from_str("nvrtc"));
    }
    if capabilities.curand {
        names.push(String::from_str("curand"));
    }
    if capabilities.cublas {
        names.push(String::from_str("cublas"));
    }
    if capabilities.cublas || capabilities.cublaslt {
        names.push(String::from_str("cublasLt"));
    }
    if capabilities.cudnn {
        names.push(String::from_str("cudnn"));
    }
    assert(names.deep_view() =~= capabilities.link_target_names());
    names
}

/// Appends to `lines` one line for each item: `prefix` and the item.
fn push_directives(lines: &mut Vec<String>, prefix: &str, items: &Vec<String>)
    ensures
        final(lines).deep_view() == old(lines).deep_view() + items.deep_view().map_values(
            |item: Seq<char>| prefix@ + item,
        ),
{
    let ghost start = lines.deep_view();
    let mut i: usize = 0;
    while i < items.len()
        invariant
            i <= items.len(),
            lines.deep_view() == start + items.deep_view().take(i as int).map_values(
                |item: Seq<char>| prefix@ + item,
            ),
        decreases items.len() - i,
    {
        let ghost before = lines.deep_view();
        let mut line = String::from_str(prefix);
        line.append(items[i].as_str());
        lines.push(line);
        proof {
            let text = prefix@ + items[i as int]@;
            assert(lines.deep_view() =~= before.push(text));
            assert(items.deep_view().take(i + 1).map_values(|item: Seq<char>| prefix@ + item)
                =~= items.deep_view().take(i as int).map_values(|item: Seq<char>| prefix@ + item).push(
                text,
            ));
        }
        i += 1;
    }
    proof {
        assert(items.deep_view().take(items.len() as int) =~= items.deep_view());
    }
}

/// The lines that a dynamically linked build hands to the build system:
/// one for each library directory of the toolkit, one for each of the
/// deep-learning primitives library where that is asked for, and one for
/// each link target.
pub fn link_directives(
    toolkit_dirs: &Vec<String>,
    cudnn_dirs: &Vec<String>,
    capabilities: &Capabilities,
) -> (lines: Vec<String>)
    ensures
        lines.deep_view() == link_directive_texts(
            toolkit_dirs.deep_view(),
            cudnn_dirs.deep_view(),
            *capabilities,
        ),
{
    let mut lines: Vec<String> = Vec::new();
    push_directives(&mut lines, "cargo:rustc-link-search=native=", toolkit_dirs);
    if capabilities.cudnn {
        push_directives(&mut lines, "cargo:rustc-link-search=native=", cudnn_dirs);
    }
    let names = link_targets(capabilities);
    push_directives(&mut lines, "cargo:rustc-link-lib=dylib=", &names);
    assert(lines.deep_view() =~= link_directive_texts(
        toolkit_dirs.deep_view(),
        cudnn_dirs.deep_view(),
        *capabilities,
    ));
    lines
}

} // verus!
