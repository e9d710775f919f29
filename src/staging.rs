use vstd::prelude::*;

verus! {

/// `s` with every dot replaced by an underscore.
pub open spec fn underscore_dots(s: Seq<char>) -> Seq<char> {
    s.map_values(|c: char| if c == '.' { '_' } else { c })
}

/// The build identity of a workspace whose directory is named `basename`.
pub open spec fn spec_build_id(basename: Seq<char>) -> Seq<char> {
    underscore_dots("user"@ + basename)
}

/// The line appended to a workspace's manifest to give it its build identity.
pub open spec fn spec_manifest_line(id: Seq<char>) -> Seq<char> {
    "name = \""@ + id + "\"\n"@
}

/// The target for which submissions are compiled.
pub open spec fn target_triple() -> Seq<char> {
    "wasm32-wasip1"@
}

/// Where, below the build-output directory, compiled modules are placed.
pub open spec fn release_dir(target_dir: Seq<char>) -> Seq<char> {
    target_dir + "/wasm32-wasip1/release/"@
}

/// The compiled module of the workspace with build identity `id`.
pub open spec fn spec_artifact_path(target_dir: Seq<char>, id: Seq<char>) -> Seq<char> {
    release_dir(target_dir) + id + ".wasm"@
}

/// The dependency-info file written beside the compiled module.
pub open spec fn spec_dep_info_path(target_dir: Seq<char>, id: Seq<char>) -> Seq<char> {
    release_dir(target_dir) + id + ".d"@
}

/// `s` with every dot replaced by an underscore.
pub fn replace_dots(s: &str) -> (r: String)
    ensures
        r@ == underscore_dots(s@),
{
    let n = s.unicode_len();
    let mut out = String::new();
    let mut i: usize = 0;
    while i < n
        invariant
            n == s@.len(),
            i <= n,
            out@ == underscore_dots(s@.take(i as int)),
        decreases n - i,
    {
        let c = s.get_char(i);
        if c == '.' {
            out = out.concat("_");
        } else {
            out = out.concat(s.substring_char(i, i + 1));
        }
        proof {
            reveal_strlit("_");
            assert(underscore_dots(s@.take(i + 1)) =~= underscore_dots(s@.take(i as int)).push(
                if c == '.' { '_' } else { c },
            ));
        }
        i += 1;
    }
    proof {
        assert(s@.take(n as int) =~= s@);
    }
    out
}

/// The build identity of a workspace: `user` followed by the name of its directory,
/// with each dot turned into an underscore, so that it can name a file and a package.
pub fn build_id(basename: &str) -> (r: String)
    ensures
        r@ == spec_build_id(basename@),
{
    let prefixed = String::from_str("user").concat(basename);
    replace_dots(prefixed.as_str())
}

/// The manifest line `name = "<id>"` that names the workspace's package.
pub fn manifest_line(id: &str) -> (r: String)
    ensures
        r@ == spec_manifest_line(id@),
{
    String::from_str("name = \"").concat(id).concat("\"\n")
}

/// The arguments for the compiler: a release build for the portable target, with its
/// output in the shared build directory.
pub fn compile_args(target_dir: &str) -> (r: Vec<String>)
    ensures
        r@.len() == 6,
        r@[0]@ == "build"@,
        r@[1]@ == "--release"@,
        r@[2]@ == "--target"@,
        r@[3]@ == target_triple(),
        r@[4]@ == "--target-dir"@,
        r@[5]@ == target_dir@,
{
    let mut args: Vec<String> = Vec::new();
    args.push(String::from_str("build"));
    args.push(String::from_str("--release"));
    args.push(String::from_str("--target"));
    args.push(String::from_str("wasm32-wasip1"));
    args.push(String::from_str("--target-dir"));
    args.push(String::from_str(target_dir));
    args
}

/// The compiled module of the workspace with build identity `id`.
pub fn artifact_path(target_dir: &str, id: &str) -> (r: String)
    ensures
        r@ == spec_artifact_path(target_dir@, id@),
{
    String::from_str(target_dir).concat("/wasm32-wasip1/release/").concat(id).concat(".wasm")
}

/// The dependency-info file that the compiler writes beside the module.
pub fn dep_info_path(target_dir: &str, id: &str) -> (r: String)
    ensures
        r@ == spec_dep_info_path(target_dir@, id@),
{
    String::from_str(target_dir).concat("/wasm32-wasip1/release/").concat(id).concat(".d")
}

/// The files a run leaves in the shared build directory, all of which are removed
/// once it is over: the module and its dependency-info file.
pub fn artifact_files(target_dir: &str, id: &str) -> (r: Vec<String>)
    ensures
        r@.len() == 2,
        r@[0]@ == spec_artifact_path(target_dir@, id@),
        r@[1]@ == spec_dep_info_path(target_dir@, id@),
{
    let mut files: Vec<String> = Vec::new();
    files.push(artifact_path(target_dir, id));
    files.push(dep_info_path(target_dir, id));
    files
}

/// Distinct workspace directories get distinct build identities, as long as their
/// names hold no underscore (an underscore and a dot would otherwise look alike).
pub proof fn build_ids_differ(a: Seq<char>, b: Seq<char>)
    requires
        a != b,
        !a.contains('_'),
        !b.contains('_'),
    ensures
        spec_build_id(a) != spec_build_id(b),
{
    reveal_strlit("user");
    if spec_build_id(a) == spec_build_id(b) {
        let pa = "user"@ + a;
        let pb = "user"@ + b;
        assert(underscore_dots(pa).len() == pa.len());
        assert(underscore_dots(pb).len() == pb.len());
        assert(pa.len() == pb.len());
        assert(a.len() == b.len());
        assert forall|i: int| 0 <= i < a.len() implies a[i] == b[i] by {
            assert(underscore_dots(pa)[i + 4] == underscore_dots(pb)[i + 4]);
            assert(pa[i + 4] == a[i]);
            assert(pb[i + 4] == b[i]);
            if a[i] != b[i] {
                if a[i] == '.' {
                    assert(b.contains('_'));
                } else {
                    assert(a.contains('_'));
                }
            }
        }
        assert(a =~= b);
    }
}

} // verus!
