//! Windows drive-letter mount targets and System32 tools.
//!
//! Shared by the NFS backend, the mount setup and the window, so that the rules
//! stay in one place. They are the same on every platform; they matter on
//! Windows only.
use crate::platform;
use crate::platform::Platform;
use crate::text;
use vstd::prelude::*;

verus! {

/// The ASCII letters.
pub open spec fn is_ascii_letter(c: char) -> bool {
    ('a' <= c <= 'z') || ('A' <= c <= 'Z')
}

/// The letter of a bare drive-letter target such as `Z:`, `Z:\` or `z:/`.
pub open spec fn spec_drive_letter(path: Seq<char>) -> Option<char> {
    if path.len() >= 2 && is_ascii_letter(path[0]) && path[1] == ':' && (path.len() == 2 || (
    path.len() == 3 && (path[2] == '\\' || path[2] == '/'))) {
        Some(path[0])
    } else {
        None
    }
}

/// The letter of a bare drive-letter target. Anything longer is a directory.
pub fn drive_letter(path: &str) -> (r: Option<char>)
    ensures
        r == spec_drive_letter(path@),
{
    let chars = text::to_chars(path);
    let n: usize = chars.len();
    if n < 2 || n > 3 {
        return None;
    }
    let drive: char = chars[0];
    let is_letter: bool = ('a' <= drive && drive <= 'z') || ('A' <= drive && drive <= 'Z');
    if !is_letter || chars[1] != ':' {
        return None;
    }
    if n == 3 && chars[2] != '\\' && chars[2] != '/' {
        return None;
    }
    Some(drive)
}

/// Where Windows is, given the value of `SystemRoot`.
pub open spec fn spec_system_root(system_root: Option<Seq<char>>) -> Seq<char> {
    match system_root {
        Some(root) => root,
        None => "C:\\Windows"@,
    }
}

/// Where Windows is, given the value of `SystemRoot`.
pub fn system_root_or_default(system_root: Option<&str>) -> (r: String)
    ensures
        r@ == spec_system_root(text::opt_view(system_root)),
{
    match system_root {
        Some(root) => root.to_owned(),
        None => "C:\\Windows".to_owned(),
    }
}

/// The path of a tool of Windows.
pub open spec fn spec_system32_exe(system_root: Option<Seq<char>>, name: Seq<char>) -> Seq<char> {
    platform::spec_join(
        Platform::Windows,
        platform::spec_join(Platform::Windows, spec_system_root(system_root), "System32"@),
        name,
    )
}

/// The path of a tool of Windows, given the value of `SystemRoot`. With it no
/// program of the same name elsewhere is run in its place.
pub fn system32_exe(system_root: Option<&str>, name: &str) -> (r: String)
    ensures
        r@ == spec_system32_exe(text::opt_view(system_root), name@),
{
    let root = system_root_or_default(system_root);
    let dir = platform::join(Platform::Windows, root.as_str(), "System32");
    platform::join(Platform::Windows, dir.as_str(), name)
}

/// The drive is offered and the mask does not claim it.
pub open spec fn is_free_drive(c: char, assigned_mask: u32) -> bool {
    'D' <= c <= 'Z' && assigned_mask & (1u32 << ((c as u32 - 'A' as u32) as u32)) == 0
}

/// The drive letters that are free, from a mask whose lowest bit stands for
/// `A:`. They come from `Z` downwards, since high letters are the least likely
/// to collide with local disks. `A`, `B` and `C` are never offered.
pub fn free_drive_letters(assigned_mask: u32) -> (r: Vec<char>)
    ensures
        forall|c: char| r@.contains(c) <==> #[trigger] is_free_drive(c, assigned_mask),
        forall|i: int, j: int| 0 <= i < j < r@.len() ==> r@[i] > r@[j],
{
    let mut out: Vec<char> = Vec::new();
    let mut n: u8 = 26;
    while n > 3
        invariant
            3 <= n <= 26,
            forall|i: int|
                0 <= i < out@.len() ==> is_free_drive(#[trigger] out@[i], assigned_mask)
                    && out@[i] as u32 >= 65 + n,
            forall|i: int, j: int| 0 <= i < j < out@.len() ==> out@[i] > out@[j],
            forall|c: char| #[trigger]
                is_free_drive(c, assigned_mask) && c as u32 >= 65 + n ==> out@.contains(c),
        decreases n,
    {
        let bit: u8 = n - 1;
        let letter: char = (65u8 + bit) as char;
        let ghost before = out@;
        let shift: u32 = bit as u32;
        if assigned_mask & (1u32 << shift) == 0 {
            out.push(letter);
            assert(out@[before.len() as int] == letter);
        }
        assert forall|c: char| #[trigger]
            is_free_drive(c, assigned_mask) && c as u32 >= 65 + bit implies out@.contains(c) by {
            if c as u32 >= 65 + n {
                assert(before.contains(c));
                let i = before.index_of(c);
                assert(out@[i] == c);
            } else {
                assert(c == letter);
            }
        }
        n = n - 1;
    }
    assert forall|c: char| out@.contains(c) <==> #[trigger] is_free_drive(c, assigned_mask) by {
        if out@.contains(c) {
            let i = out@.index_of(c);
            assert(out@[i] == c);
        }
    }
    out
}

} // verus!
