//! The build tree's well-known locations, as path strings assembled from
//! the project root. The root itself comes from the build manifest's
//! directory, handed in by the caller.

use vstd::prelude::*;

use crate::utils::TargetType;

verus! {

/// The directory holding `dir`: everything before the final separator, or
/// nothing when there is no separator.
pub open spec fn parent_dir(s: Seq<char>) -> Seq<char>
    decreases s.len(),
{
    if s.len() == 0 {
        Seq::empty()
    } else if s.last() == '/' {
        s.drop_last()
    } else {
        parent_dir(s.drop_last())
    }
}

proof fn lemma_parent_dir_at(s: Seq<char>, i: int)
    requires
        0 <= i < s.len(),
        s[i] == '/',
        forall|j: int| i < j < s.len() ==> s[j] != '/',
    ensures
        parent_dir(s) == s.take(i),
    decreases s.len(),
{
    if s.len() == i + 1 {
        assert(s.drop_last() =~= s.take(i));
    } else {
        assert(s.drop_last()[i] == '/');
        lemma_parent_dir_at(s.drop_last(), i);
        assert(s.drop_last().take(i) =~= s.take(i));
    }
}

proof fn lemma_parent_dir_none(s: Seq<char>)
    requires
        forall|j: int| 0 <= j < s.len() ==> s[j] != '/',
    ensures
        parent_dir(s) == Seq::<char>::empty(),
    decreases s.len(),
{
    if s.len() > 0 {
        lemma_parent_dir_none(s.drop_last());
    }
}

/// The project root: the directory above the build manifest's directory.
pub fn project_root(manifest_dir: &str) -> (r: String)
    requires
        vstd::string::is_ascii(manifest_dir),
    ensures
        r@ == parent_dir(manifest_dir@),
{
    let n = manifest_dir.unicode_len();
    let mut cut: usize = 0;
    let mut found = false;
    let mut i: usize = 0;
    while i < n
        invariant
            n == manifest_dir@.len(),
            vstd::string::is_ascii(manifest_dir),
            i <= n,
            found ==> cut < i && manifest_dir@[cut as int] == '/' && forall|j: int|
                cut < j < i ==> manifest_dir@[j] != '/',
            !found ==> forall|j: int| 0 <= j < i ==> manifest_dir@[j] != '/',
        decreases n - i,
    {
        if manifest_dir.get_char(i) == '/' {
            cut = i;
            found = true;
        }
        i = i + 1;
    }
    if found {
        let parent = manifest_dir.substring_ascii(0, cut);
        proof {
            lemma_parent_dir_at(manifest_dir@, cut as int);
        }
        parent.to_owned()
    } else {
        proof {
            lemma_parent_dir_none(manifest_dir@);
        }
        String::new()
    }
}

/// `base` extended by a separator and one more component.
fn join(base: &str, component: &str) -> (r: String)
    ensures
        r@ == base@ + "/"@ + component@,
{
    let mut out = base.to_owned();
    out.append("/");
    out.append(component);
    out
}

/// The build output tree under the project root.
pub fn target_dir(root: &str) -> (r: String)
    ensures
        r@ == root@ + "/"@ + "target"@,
{
    join(root, "target")
}

/// Where external contributions live.
pub fn contrib_dir(root: &str) -> (r: String)
    ensures
        r@ == root@ + "/"@ + "contrib"@,
{
    join(root, "contrib")
}

/// The checkout of the firmware development tree.
pub fn edk2_dir(root: &str) -> (r: String)
    ensures
        r@ == target_dir_spec(root@) + "/"@ + ".edk2.git"@,
{
    let base = target_dir(root);
    join(base.as_str(), ".edk2.git")
}

/// Where the firmware images are staged.
pub fn ovmf_dir(root: &str) -> (r: String)
    ensures
        r@ == target_dir_spec(root@) + "/"@ + ".ovmf"@,
{
    let base = target_dir(root);
    join(base.as_str(), ".ovmf")
}

/// The spec-level value of [`target_dir`].
pub open spec fn target_dir_spec(root: Seq<char>) -> Seq<char> {
    root + "/"@ + "target"@
}

/// The spec-level value of [`ovmf_dir`].
pub open spec fn ovmf_dir_spec(root: Seq<char>) -> Seq<char> {
    target_dir_spec(root) + "/"@ + ".ovmf"@
}

/// The debugger prelude staged with the firmware.
pub fn ovmf_gdb_prelude(root: &str) -> (r: String)
    ensures
        r@ == ovmf_dir_spec(root@) + "/"@ + "prelude.gdb"@,
{
    let base = ovmf_dir(root);
    join(base.as_str(), "prelude.gdb")
}

/// The firmware code image.
pub fn ovmf_file_code(root: &str) -> (r: String)
    ensures
        r@ == ovmf_dir_spec(root@) + "/"@ + "OVMF_CODE.4m.fd"@,
{
    let base = ovmf_dir(root);
    join(base.as_str(), "OVMF_CODE.4m.fd")
}

/// The firmware variable store image.
pub fn ovmf_file_vars(root: &str) -> (r: String)
    ensures
        r@ == ovmf_dir_spec(root@) + "/"@ + "OVMF_VARS.4m.fd"@,
{
    let base = ovmf_dir(root);
    join(base.as_str(), "OVMF_VARS.4m.fd")
}

/// The staged system partition used when running under the firmware.
pub fn ovmf_esp(root: &str) -> (r: String)
    ensures
        r@ == ovmf_dir_spec(root@) + "/"@ + "esp"@,
{
    let base = ovmf_dir(root);
    join(base.as_str(), "esp")
}

/// Where the firmware images are assembled.
pub fn ovmf_img_dir(root: &str) -> (r: String)
    ensures
        r@ == ovmf_dir_spec(root@) + "/"@ + "efi"@,
{
    let base = ovmf_dir(root);
    join(base.as_str(), "efi")
}

/// The root of the emulated system partition.
pub fn efi_root(root: &str) -> (r: String)
    ensures
        r@ == target_dir_spec(root@) + "/"@ + "esp"@,
{
    let base = target_dir(root);
    join(base.as_str(), "esp")
}

/// The boot directory inside the emulated system partition.
pub fn efi_boot_dir(root: &str) -> (r: String)
    ensures
        r@ == target_dir_spec(root@) + "/"@ + "esp"@ + "/"@ + "EFI"@ + "/"@ + "boot"@,
{
    let base = efi_root(root);
    let mid = join(base.as_str(), "EFI");
    join(mid.as_str(), "boot")
}

/// The build output for debug binaries.
pub fn target_debug(root: &str) -> (r: String)
    ensures
        r@ == target_dir_spec(root@) + "/"@ + "x86_64-unknown-uefi"@ + "/"@ + "debug"@,
{
    let base = target_dir(root);
    let mid = join(base.as_str(), "x86_64-unknown-uefi");
    join(mid.as_str(), "debug")
}

/// The build output for release binaries.
pub fn target_release(root: &str) -> (r: String)
    ensures
        r@ == target_dir_spec(root@) + "/"@ + "x86_64-unknown-uefi"@ + "/"@ + "release"@,
{
    let base = target_dir(root);
    let mid = join(base.as_str(), "x86_64-unknown-uefi");
    join(mid.as_str(), "release")
}

/// The build output directory for the given flavor.
pub fn target_dir_for_type(root: &str, tar_type: TargetType) -> (r: String)
    ensures
        r@ == match tar_type {
            TargetType::Release => target_dir_spec(root@) + "/"@ + "x86_64-unknown-uefi"@ + "/"@
                + "release"@,
            TargetType::Debug => target_dir_spec(root@) + "/"@ + "x86_64-unknown-uefi"@ + "/"@
                + "debug"@,
        },
{
    match tar_type {
        TargetType::Release => target_release(root),
        TargetType::Debug => target_debug(root),
    }
}

/// The emulated firmware's persistent variable store.
pub fn uefi_vars(root: &str) -> (r: String)
    ensures
        r@ == target_dir_spec(root@) + "/"@ + "uefi-vars.json"@,
{
    let base = target_dir(root);
    join(base.as_str(), "uefi-vars.json")
}

} // verus!
