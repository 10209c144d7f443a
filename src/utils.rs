use vstd::prelude::*;

verus! {

/// Number of leading bytes of a file that the format checks look at.
pub const MAGIC_MAX_LEN: usize = 6;

/// True when `head` starts with `magic`.
pub open spec fn starts_with(head: Seq<u8>, magic: Seq<u8>) -> bool {
    magic.len() <= head.len() && head.subrange(0, magic.len() as int) == magic
}

pub open spec fn gz_magic() -> Seq<u8> {
    seq![0x1fu8, 0x8bu8, 0x08u8]
}

pub open spec fn bz_magic() -> Seq<u8> {
    seq![0x42u8, 0x5au8, 0x68u8]
}

pub open spec fn xz_magic() -> Seq<u8> {
    seq![0xfdu8, 0x37u8, 0x7au8, 0x58u8, 0x5au8, 0x00u8]
}

fn has_prefix(head: &[u8], magic: &[u8]) -> (r: bool)
    ensures
        r == starts_with(head@, magic@),
{
    if magic.len() > head.len() {
        return false;
    }
    let mut i: usize = 0;
    while i < magic.len()
        invariant
            magic.len() <= head.len(),
            i <= magic.len(),
            forall|k: int| 0 <= k < i ==> head@[k] == magic@[k],
        decreases magic.len() - i,
    {
        if head[i] != magic[i] {
            assert(head@.subrange(0, magic@.len() as int)[i as int] != magic@[i as int]);
            return false;
        }
        i = i + 1;
    }
    assert(head@.subrange(0, magic@.len() as int) =~= magic@);
    true
}

fn ext_is(extension: Option<&str>, wanted: &str) -> (r: bool)
    ensures
        r == (extension is Some && extension->0@ == wanted@),
{
    match extension {
        Some(e) => crate::text::eq_str(e, wanted),
        None => false,
    }
}

/// Whether a file is gzip-compressed, judged by its first bytes (`head`) or by
/// its extension.
pub fn is_gzipped(head: &[u8], extension: Option<&str>) -> (r: bool)
    ensures
        r == (starts_with(head@, gz_magic()) || (extension is Some && extension->0@ == "gz"@)),
{
    let magic: [u8; 3] = [0x1f, 0x8b, 0x08];
    assert(magic@ =~= gz_magic());
    has_prefix(head, magic.as_slice()) || ext_is(extension, "gz")
}

/// Whether a file is bzip2-compressed, judged by its first bytes or by its
/// extension.
pub fn is_bzipped(head: &[u8], extension: Option<&str>) -> (r: bool)
    ensures
        r == (starts_with(head@, bz_magic()) || (extension is Some && extension->0@ == "bz2"@)),
{
    let magic: [u8; 3] = [0x42, 0x5a, 0x68];
    assert(magic@ =~= bz_magic());
    has_prefix(head, magic.as_slice()) || ext_is(extension, "bz2")
}

/// Whether a file is xz-compressed, judged by its first bytes or by its
/// extension.
pub fn is_xz(head: &[u8], extension: Option<&str>) -> (r: bool)
    ensures
        r == (starts_with(head@, xz_magic()) || (extension is Some && extension->0@ == "xz"@)),
{
    let magic: [u8; 6] = [0xfd, 0x37, 0x7a, 0x58, 0x5a, 0x00];
    assert(magic@ =~= xz_magic());
    has_prefix(head, magic.as_slice()) || ext_is(extension, "xz")
}

} // verus!
