//! The user-data compiler: turns the normalized file list and the build
//! reference into a single boot script, and encodes it for transport as
//! provider instance metadata.
//!
//! The script writes the files in the order given — for each file a
//! directory-creation command followed by a command that decodes a base64
//! blob into that exact path — and ends with the one command that applies
//! the build reference. Paths and the build reference are trusted input:
//! no escaping beyond base64 is performed.

use vstd::prelude::*;
use vstd::string::StringExecFns;
use base64::Engine;
use crate::request::File;

verus! {

/// What base64's padded URL-safe engine returns for the UTF-8 bytes of a
/// given character sequence. The encoding is a function of the characters
/// alone; its value is pinned only by `b64_encode` below.
pub uninterp spec fn b64_url_of(s: Seq<char>) -> Seq<char>;

/// Relies on base64's `Engine::encode` with the `URL_SAFE` engine: the
/// result depends on the input bytes alone. Its only panic path needs an
/// input of more than three quarters of `usize::MAX` bytes, larger than
/// any Rust slice can be.
#[verifier::external_body]
fn b64_encode(s: &str) -> (r: String)
    ensures
        r@ == b64_url_of(s@),
{
    base64::engine::general_purpose::URL_SAFE.encode(s)
}

/// The index of the last `/` in `p`, or -1 when `p` holds none.
pub open spec fn last_slash(p: Seq<char>) -> int
    decreases p.len(),
{
    if p.len() == 0 {
        -1
    } else if p[p.len() - 1] == '/' {
        p.len() - 1
    } else {
        last_slash(p.subrange(0, p.len() - 1))
    }
}

/// The parent directory of a path: everything before the last `/`, or
/// empty when the path holds no `/`.
pub open spec fn dir_of(p: Seq<char>) -> Seq<char> {
    if last_slash(p) < 0 {
        Seq::empty()
    } else {
        p.subrange(0, last_slash(p))
    }
}

proof fn lemma_last_slash_at(p: Seq<char>, k: int)
    requires
        0 <= k < p.len(),
        p[k] == '/',
        forall|m: int| k < m < p.len() ==> p[m] != '/',
    ensures
        last_slash(p) == k,
    decreases p.len(),
{
    if k == p.len() - 1 {
    } else {
        assert(p[p.len() - 1] != '/');
        let q = p.subrange(0, p.len() - 1);
        assert(q[k] == '/');
        lemma_last_slash_at(q, k);
    }
}

proof fn lemma_last_slash_none(p: Seq<char>)
    requires
        forall|m: int| 0 <= m < p.len() ==> p[m] != '/',
    ensures
        last_slash(p) == -1,
    decreases p.len(),
{
    if p.len() > 0 {
        lemma_last_slash_none(p.subrange(0, p.len() - 1));
    }
}

/// The parent-directory part of a file path: everything before the last
/// `/`, or the empty string for a path without one.
pub fn get_dir_path(fpath: &str) -> (r: String)
    ensures
        r@ == dir_of(fpath@),
{
    let n = fpath.unicode_len();
    let mut i: usize = n;
    while i > 0
        invariant
            i <= n,
            n == fpath@.len(),
            forall|m: int| i <= m < n ==> fpath@[m] != '/',
        decreases i,
    {
        if fpath.get_char(i - 1) == '/' {
            proof {
                lemma_last_slash_at(fpath@, i - 1);
            }
            let d = fpath.substring_char(0, i - 1);
            return d.to_owned();
        }
        i = i - 1;
    }
    proof {
        lemma_last_slash_none(fpath@);
    }
    String::new()
}

/// The first line of every boot script.
pub open spec fn script_header() -> Seq<char> {
    "#!/bin/bash\n"@
}

/// The write command for one file: create its parent directory, then
/// decode a base64 blob into the exact path.
pub open spec fn file_cmd(f: File) -> Seq<char> {
    "mkdir -p "@ + dir_of(f.path@) + " && echo "@ + b64_url_of(f.content@) + " | base64 -d > "@
        + f.path@ + "\n"@
}

/// The final command: fetch and apply the build reference.
pub open spec fn build_cmd(flake_url: Seq<char>) -> Seq<char> {
    "nixos-rebuild switch --impure --flake '"@ + flake_url + "'\n"@
}

/// The write commands of a file list, in the order given.
pub open spec fn files_script(files: Seq<File>) -> Seq<char>
    decreases files.len(),
{
    if files.len() == 0 {
        Seq::empty()
    } else {
        file_cmd(files[0]) + files_script(files.drop_first())
    }
}

/// The whole boot script: header, one write command per file in input
/// order, and the build-apply command last.
pub open spec fn boot_script(files: Seq<File>, flake_url: Seq<char>) -> Seq<char> {
    script_header() + files_script(files) + build_cmd(flake_url)
}

/// Where the write command of file `i` starts inside the boot script.
pub open spec fn file_cmd_start(files: Seq<File>, i: int) -> int {
    script_header().len() + files_script(files.take(i)).len() as int
}

proof fn lemma_files_script_snoc(s: Seq<File>, i: int)
    requires
        0 <= i < s.len(),
    ensures
        files_script(s.take(i + 1)) == files_script(s.take(i)) + file_cmd(s[i]),
    decreases i,
{
    if i == 0 {
        assert(s.take(1).drop_first() =~= Seq::<File>::empty());
        assert(s.take(1)[0] == s[0]);
        assert(files_script(s.take(1)) == file_cmd(s[0]) + files_script(Seq::<File>::empty()));
        assert(s.take(0) =~= Seq::<File>::empty());
        assert(files_script(s.take(1)) =~= files_script(s.take(0)) + file_cmd(s[0]));
    } else {
        let t = s.drop_first();
        assert(s.take(i + 1).drop_first() =~= t.take(i));
        assert(s.take(i).drop_first() =~= t.take(i - 1));
        assert(s.take(i + 1)[0] == s[0]);
        assert(s.take(i)[0] == s[0]);
        lemma_files_script_snoc(t, i - 1);
        assert(t[i - 1] == s[i]);
        assert(files_script(s.take(i + 1)) == file_cmd(s[0]) + (files_script(t.take(i - 1))
            + file_cmd(s[i])));
        assert(files_script(s.take(i)) == file_cmd(s[0]) + files_script(t.take(i - 1)));
        assert(file_cmd(s[0]) + (files_script(t.take(i - 1)) + file_cmd(s[i])) =~= (file_cmd(s[0])
            + files_script(t.take(i - 1))) + file_cmd(s[i]));
    }
}

proof fn lemma_files_script_split(s: Seq<File>, m: int)
    requires
        0 <= m <= s.len(),
    ensures
        files_script(s) == files_script(s.take(m)) + files_script(s.skip(m)),
    decreases m,
{
    if m == 0 {
        assert(s.take(0) =~= Seq::<File>::empty());
        assert(s.skip(0) =~= s);
        assert(files_script(s.take(0)) + files_script(s) =~= files_script(s));
    } else {
        lemma_files_script_split(s, m - 1);
        lemma_files_script_snoc(s, m - 1);
        assert(s.skip(m - 1)[0] == s[m - 1]);
        assert(s.skip(m - 1).drop_first() =~= s.skip(m));
        assert(files_script(s.skip(m - 1)) == file_cmd(s[m - 1]) + files_script(s.skip(m)));
        assert(files_script(s.take(m - 1)) + (file_cmd(s[m - 1]) + files_script(s.skip(m)))
            =~= (files_script(s.take(m - 1)) + file_cmd(s[m - 1])) + files_script(s.skip(m)));
    }
}

proof fn lemma_files_script_len_mono(s: Seq<File>, m1: int, m2: int)
    requires
        0 <= m1 <= m2 <= s.len(),
    ensures
        files_script(s.take(m1)).len() <= files_script(s.take(m2)).len(),
    decreases m2 - m1,
{
    if m1 < m2 {
        lemma_files_script_len_mono(s, m1, m2 - 1);
        lemma_files_script_snoc(s, m2 - 1);
    }
}

/// The write command of file `k` is exactly the segment of the boot
/// script starting at `file_cmd_start(files, k)`.
proof fn lemma_file_cmd_segment(files: Seq<File>, flake_url: Seq<char>, k: int)
    requires
        0 <= k < files.len(),
    ensures
        file_cmd_start(files, k) + file_cmd(files[k]).len() <= script_header().len()
            + files_script(files).len(),
        boot_script(files, flake_url).subrange(
            file_cmd_start(files, k),
            file_cmd_start(files, k) + file_cmd(files[k]).len() as int,
        ) == file_cmd(files[k]),
{
    lemma_files_script_split(files, k);
    assert(files.skip(k)[0] == files[k]);
    assert(files.skip(k).drop_first() =~= files.skip(k + 1));
    assert(files_script(files.skip(k)) == file_cmd(files[k]) + files_script(files.skip(k + 1)));
    lemma_files_script_snoc(files, k);
    lemma_files_script_len_mono(files, k + 1, files.len() as int);
    assert(files.take(files.len() as int) =~= files);
    assert(boot_script(files, flake_url).subrange(
        file_cmd_start(files, k),
        file_cmd_start(files, k) + file_cmd(files[k]).len() as int,
    ) =~= file_cmd(files[k]));
}

/// The boot script preserves file ordering: the write command of an
/// earlier file is a segment of the script lying strictly before the
/// segment of a later file's write command, and the build-apply command
/// is the script's final segment, after every write command.
pub proof fn lemma_boot_script_order(files: Seq<File>, flake_url: Seq<char>, i: int, j: int)
    requires
        0 <= i < j < files.len(),
    ensures
        file_cmd_start(files, i) + file_cmd(files[i]).len() <= file_cmd_start(files, j),
        file_cmd_start(files, j) + file_cmd(files[j]).len() <= boot_script(files, flake_url).len()
            - build_cmd(flake_url).len(),
        boot_script(files, flake_url).subrange(
            file_cmd_start(files, i),
            file_cmd_start(files, i) + file_cmd(files[i]).len() as int,
        ) == file_cmd(files[i]),
        boot_script(files, flake_url).subrange(
            file_cmd_start(files, j),
            file_cmd_start(files, j) + file_cmd(files[j]).len() as int,
        ) == file_cmd(files[j]),
        boot_script(files, flake_url).subrange(
            boot_script(files, flake_url).len() - build_cmd(flake_url).len(),
            boot_script(files, flake_url).len() as int,
        ) == build_cmd(flake_url),
{
    lemma_file_cmd_segment(files, flake_url, i);
    lemma_file_cmd_segment(files, flake_url, j);
    lemma_files_script_snoc(files, i);
    lemma_files_script_len_mono(files, i + 1, j);
    assert(boot_script(files, flake_url).subrange(
        boot_script(files, flake_url).len() - build_cmd(flake_url).len(),
        boot_script(files, flake_url).len() as int,
    ) =~= build_cmd(flake_url));
}

/// Builds the boot script for the given files and build reference: the
/// header, one write command per file in input order, and the build-apply
/// command last.
pub fn build_boot_script(files: &Vec<File>, flake_url: &str) -> (r: String)
    ensures
        r@ == boot_script(files@, flake_url@),
{
    let mut script: String = "#!/bin/bash\n".to_owned();
    let mut i: usize = 0;
    while i < files.len()
        invariant
            i <= files@.len(),
            script@ == script_header() + files_script(files@.take(i as int)),
        decreases files@.len() - i,
    {
        let dirpath = get_dir_path(files[i].path.as_str());
        let encoded = b64_encode(files[i].content.as_str());
        script.append("mkdir -p ");
        script.append(dirpath.as_str());
        script.append(" && echo ");
        script.append(encoded.as_str());
        script.append(" | base64 -d > ");
        script.append(files[i].path.as_str());
        script.append("\n");
        proof {
            lemma_files_script_snoc(files@, i as int);
            assert(script@ =~= script_header() + files_script(files@.take(i as int + 1)));
        }
        i = i + 1;
    }
    proof {
        assert(files@.take(files@.len() as int) =~= files@);
    }
    script.append("nixos-rebuild switch --impure --flake '");
    script.append(flake_url);
    script.append("'\n");
    proof {
        assert(script@ =~= boot_script(files@, flake_url@));
    }
    script
}

/// Compiles the user data handed to the launch template: the boot script,
/// base64-encoded once more for transport as instance metadata.
pub fn compile_user_data(files: &Vec<File>, flake_url: &str) -> (r: String)
    ensures
        r@ == b64_url_of(boot_script(files@, flake_url@)),
{
    let script = build_boot_script(files, flake_url);
    b64_encode(script.as_str())
}

} // verus!
