use vstd::prelude::*;

use crate::marshal::byte_strings;

verus! {

/// The byte `/`, which separates the components of a path.
pub open spec fn separator() -> u8 {
    47u8
}

/// The component name `lib`.
pub open spec fn lib_name() -> Seq<u8> {
    seq![108u8, 105u8, 98u8]
}

/// The component name `modules`.
pub open spec fn modules_name() -> Seq<u8> {
    seq![109u8, 111u8, 100u8, 117u8, 108u8, 101u8, 115u8]
}

/// `/n0/n1/.../nk` for the names `[n0, ..., nk]`; empty for no names.
pub open spec fn joined(names: Seq<Seq<u8>>) -> Seq<u8>
    decreases names.len(),
{
    if names.len() == 0 {
        Seq::<u8>::empty()
    } else {
        joined(names.drop_last()) + seq![separator()] + names.last()
    }
}

/// The bytes of the absolute path whose components after the root are `names`:
/// the root alone is `/`.
pub open spec fn path_bytes(names: Seq<Seq<u8>>) -> Seq<u8> {
    if names.len() == 0 {
        seq![separator()]
    } else {
        joined(names)
    }
}

/// The dist root of a canonical executable path: its grandparent
/// (`<root>/bin/madura`, or `target/<profile>/madura` in the dev tree).
pub open spec fn spec_dist_root(exe: Seq<Seq<u8>>) -> Option<Seq<Seq<u8>>> {
    if exe.len() >= 2 {
        Some(exe.take(exe.len() - 2))
    } else {
        None
    }
}

/// The platform image that a dist root must hold: `<root>/lib/modules`.
pub open spec fn spec_platform_image(root: Seq<Seq<u8>>) -> Seq<Seq<u8>> {
    root.push(lib_name()).push(modules_name())
}

/// A path is spelled as a `/` before each component, every component's bytes
/// copied unchanged and in order; the root alone is `/`.
pub proof fn lemma_path_spelling(names: Seq<Seq<u8>>, name: Seq<u8>)
    ensures
        joined(names.push(name)) == joined(names) + seq![47u8] + name,
        path_bytes(names.push(name)) == joined(names) + seq![47u8] + name,
        path_bytes(seq![name]) == seq![47u8] + name,
        path_bytes(Seq::<Seq<u8>>::empty()) == seq![47u8],
        names.len() > 0 ==> path_bytes(names) == joined(names),
{
    assert(names.push(name).drop_last() =~= names);
    assert(seq![name].drop_last() =~= Seq::<Seq<u8>>::empty());
    assert(Seq::<Seq<u8>>::empty().push(name) =~= seq![name]);
    assert(joined(Seq::<Seq<u8>>::empty()) =~= Seq::<u8>::empty());
    assert(Seq::<u8>::empty() + seq![47u8] + name =~= seq![47u8] + name);
}

/// The dist root is the executable path without its last two components
/// (its parent's parent): the root followed by those two components is the
/// executable path again. A path of fewer than two components has none.
pub proof fn lemma_dist_root_is_grandparent(exe: Seq<Seq<u8>>)
    ensures
        spec_dist_root(exe) is Some <==> exe.len() >= 2,
        exe.len() >= 2 ==> (spec_dist_root(exe) matches Some(root) && root.len() == exe.len() - 2
            && root + seq![exe[exe.len() - 2], exe[exe.len() - 1]] == exe),
{
    if exe.len() >= 2 {
        let root = exe.take(exe.len() - 2);
        assert(root + seq![exe[exe.len() - 2], exe[exe.len() - 1]] =~= exe);
    }
}

/// The platform image probed under a dist root is the `lib/modules` that the
/// compiler finds under that root once it is handed over as `java.home`: its
/// bytes are the root's bytes followed by `/lib/modules` (just `/lib/modules`
/// under the file-system root).
pub proof fn lemma_image_under_home(root: Seq<Seq<u8>>)
    ensures
        path_bytes(spec_platform_image(root)) == joined(root) + seq![separator()] + lib_name()
            + seq![separator()] + modules_name(),
        root.len() > 0 ==> path_bytes(root) == joined(root),
        root.len() == 0 ==> joined(root) == Seq::<u8>::empty(),
{
    let with_lib = root.push(lib_name());
    let image = with_lib.push(modules_name());
    assert(image.drop_last() =~= with_lib);
    assert(with_lib.drop_last() =~= root);
    assert(image.last() == modules_name());
    assert(with_lib.last() == lib_name());
    assert(joined(image) == joined(with_lib) + seq![separator()] + modules_name());
    assert(joined(with_lib) == joined(root) + seq![separator()] + lib_name());
    assert(path_bytes(image) =~= joined(root) + seq![separator()] + lib_name() + seq![separator()]
        + modules_name());
}

/// An absolute path, held as the names of its normal components after the
/// root: `/usr/bin` is `["usr", "bin"]` and `/` is `[]`. Canonical paths, as
/// the file system hands them out, have exactly this shape.
#[derive(Debug, PartialEq, Eq)]
pub struct DistPath {
    pub names: Vec<Vec<u8>>,
}

impl View for DistPath {
    type V = Seq<Seq<u8>>;

    open spec fn view(&self) -> Seq<Seq<u8>> {
        byte_strings(self.names@)
    }
}

/// Append `bytes` to `out`.
fn push_bytes(out: &mut Vec<u8>, bytes: &[u8])
    ensures
        final(out)@ == old(out)@ + bytes@,
{
    let n = bytes.len();
    let ghost start = out@;
    let mut i: usize = 0;
    while i < n
        invariant
            n == bytes@.len(),
            i <= n,
            out@ == start + bytes@.take(i as int),
        decreases n - i,
    {
        out.push(bytes[i]);
        i = i + 1;
        assert(out@ =~= start + bytes@.take(i as int));
    }
    assert(bytes@.take(n as int) =~= bytes@);
}

impl DistPath {
    /// The root directory `/`.
    pub fn root() -> (p: DistPath)
        ensures
            p@ == Seq::<Seq<u8>>::empty(),
    {
        let p = DistPath { names: Vec::new() };
        assert(p@ =~= Seq::<Seq<u8>>::empty());
        p
    }

    /// The path without its final component, or `None` for the root, which
    /// has no parent.
    pub fn parent(self) -> (res: Option<DistPath>)
        ensures
            res is None <==> self@.len() == 0,
            res matches Some(p) ==> p@ == self@.drop_last(),
    {
        let mut names = self.names;
        match names.pop() {
            None => None,
            Some(_) => {
                let p = DistPath { names };
                assert(p@ =~= self@.drop_last());
                Some(p)
            },
        }
    }

    /// The path extended by the component `name`.
    pub fn join(self, name: Vec<u8>) -> (p: DistPath)
        ensures
            p@ == self@.push(name@),
    {
        let mut names = self.names;
        names.push(name);
        let p = DistPath { names };
        assert(p@ =~= self@.push(name@));
        p
    }

    /// The bytes of this path, as the operating system spells it.
    pub fn to_bytes(&self) -> (bytes: Vec<u8>)
        ensures
            bytes@ == path_bytes(self@),
            self@.len() == 0 ==> bytes@ == seq![47u8],
            self@.len() > 0 ==> bytes@ == joined(self@.drop_last()) + seq![47u8] + self@.last(),
    {
        proof {
            if self@.len() > 0 {
                lemma_path_spelling(self@.drop_last(), self@.last());
                assert(self@.drop_last().push(self@.last()) =~= self@);
            } else {
                lemma_path_spelling(self@, Seq::<u8>::empty());
            }
        }
        let n = self.names.len();
        let mut out: Vec<u8> = Vec::new();
        if n == 0 {
            out.push(47u8);
            assert(out@ =~= path_bytes(self@));
            return out;
        }
        let mut i: usize = 0;
        while i < n
            invariant
                n == self.names@.len(),
                i <= n,
                out@ == joined(self@.take(i as int)),
            decreases n - i,
        {
            let ghost before = out@;
            out.push(47u8);
            push_bytes(&mut out, self.names[i].as_slice());
            proof {
                let t = self@.take(i + 1);
                assert(t.drop_last() =~= self@.take(i as int));
                assert(t.last() == self.names@[i as int]@);
                assert(out@ =~= joined(t));
            }
            i = i + 1;
        }
        assert(self@.take(n as int) =~= self@);
        out
    }
}

/// The dist root of the canonical executable path `exe`: its grandparent,
/// or `None` when `exe` is too short to have one.
pub fn dist_root(exe: DistPath) -> (res: Option<DistPath>)
    ensures
        res matches Some(r) ==> spec_dist_root(exe@) == Some(r@),
        res is None ==> spec_dist_root(exe@) is None,
        res is Some <==> exe@.len() >= 2,
        res matches Some(r) ==> r@ + seq![exe@[exe@.len() - 2], exe@[exe@.len() - 1]] == exe@,
{
    proof {
        lemma_dist_root_is_grandparent(exe@);
    }
    match exe.parent() {
        None => None,
        Some(bin) => {
            let res = bin.parent();
            proof {
                if res is Some {
                    assert(exe@.drop_last().drop_last() =~= exe@.take(exe@.len() - 2));
                }
            }
            res
        },
    }
}

/// The platform image under the dist root `root`: `<root>/lib/modules`.
pub fn platform_image(root: DistPath) -> (image: DistPath)
    ensures
        image@ == spec_platform_image(root@),
{
    let lib = vec![108u8, 105u8, 98u8];
    let modules = vec![109u8, 111u8, 100u8, 117u8, 108u8, 101u8, 115u8];
    assert(lib@ =~= lib_name());
    assert(modules@ =~= modules_name());
    root.join(lib).join(modules)
}

/// Resolve the dist root from the binary's own path, requiring
/// `<root>/lib/modules`: the same binary-relative rule as the image's own
/// `main()`.
///
/// `canonical_exe` is the canonicalised executable path, `None` when it could
/// not be canonicalised; `image_is_file` is whether
/// `platform_image(dist_root(canonical_exe))` names a regular file. The dist
/// root is returned exactly when all three steps succeed.
pub fn platform_home(canonical_exe: Option<DistPath>, image_is_file: bool) -> (res: Option<DistPath>)
    ensures
        res is Some <==> (canonical_exe matches Some(exe) && spec_dist_root(exe@) is Some
            && image_is_file),
        res matches Some(root) ==> canonical_exe matches Some(exe) && spec_dist_root(exe@) == Some(
            root@,
        ),
{
    match canonical_exe {
        None => None,
        Some(exe) => match dist_root(exe) {
            None => None,
            Some(root) => if image_is_file {
                Some(root)
            } else {
                None
            },
        },
    }
}

} // verus!
