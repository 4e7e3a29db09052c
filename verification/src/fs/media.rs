//! What kind of device holds a volume, and how volumes are named to the
//! operating system.
use vstd::prelude::*;
use crate::text::push_char;

verus! {

#[derive(Debug, Clone, Copy, PartialEq, Eq, Structural)]
pub enum MediaType {
    Hdd,
    Ssd,
    Vhd,
    Usb,
    Unknown,
}

pub const IOCTL_STORAGE_QUERY_PROPERTY: u32 = 0x002D1400;
pub const STORAGE_ADAPTER_PROPERTY: u32 = 1;
pub const STORAGE_DEVICE_SEEK_PENALTY_PROPERTY: u32 = 7;
pub const PROPERTY_STANDARD_QUERY: u32 = 0;
pub const BUS_TYPE_USB: u32 = 7;
pub const BUS_TYPE_VIRTUAL: u32 = 14;
pub const BUS_TYPE_FILE_BACKED_VIRTUAL: u32 = 15;

/// The media type of a volume from the bus type and seek penalty its device
/// reports (`None` where the device did not answer): the bus decides first,
/// then the seek penalty.
pub open spec fn media_type_of(bus_type: Option<u32>, seek_penalty: Option<bool>) -> MediaType {
    if bus_type == Some(BUS_TYPE_USB) {
        MediaType::Usb
    } else if bus_type == Some(BUS_TYPE_VIRTUAL) || bus_type == Some(BUS_TYPE_FILE_BACKED_VIRTUAL) {
        MediaType::Vhd
    } else {
        match seek_penalty {
            Some(true) => MediaType::Hdd,
            Some(false) => MediaType::Ssd,
            None => MediaType::Unknown,
        }
    }
}

pub fn detect_media_type(bus_type: Option<u32>, seek_penalty: Option<bool>) -> (r: MediaType)
    ensures
        r == media_type_of(bus_type, seek_penalty),
{
    match bus_type {
        Some(b) if b == BUS_TYPE_USB => MediaType::Usb,
        Some(b) if b == BUS_TYPE_VIRTUAL || b == BUS_TYPE_FILE_BACKED_VIRTUAL => MediaType::Vhd,
        _ => match seek_penalty {
            Some(true) => MediaType::Hdd,
            Some(false) => MediaType::Ssd,
            None => MediaType::Unknown,
        },
    }
}

/// Number of non-empty pieces of a text split at `\`.
pub open spec fn backslash_segments(s: Seq<char>) -> nat
    decreases s.len(),
{
    if s.len() == 0 {
        0
    } else {
        let starts_piece = s.last() != '\\' && (s.len() == 1 || s[s.len() - 2] == '\\');
        backslash_segments(s.drop_last()) + if starts_piece {
            1nat
        } else {
            0nat
        }
    }
}

/// A drive letter is a `subst` alias when the device it maps to is a path of
/// more than two components (a plain volume maps to `\Device\HarddiskVolumeN`).
/// `None` stands for a drive whose mapping could not be read.
pub open spec fn is_subst_target(target: Option<Seq<char>>) -> bool {
    match target {
        Some(t) => backslash_segments(t) > 2,
        None => false,
    }
}

pub fn is_subst_drive(dos_target: Option<&str>) -> (r: bool)
    ensures
        r == is_subst_target(
            match dos_target {
                Some(t) => Some(t@),
                None => None,
            },
        ),
{
    match dos_target {
        None => false,
        Some(t) => {
            let n = t.unicode_len();
            let mut count: usize = 0;
            let mut i: usize = 0;
            let mut prev_backslash = true;
            while i < n
                invariant
                    0 <= i <= n,
                    n == t@.len(),
                    count == backslash_segments(t@.subrange(0, i as int)),
                    count <= i,
                    prev_backslash == (i == 0 || t@[i - 1] == '\\'),
                decreases n - i,
            {
                let c = t.get_char(i);
                let ghost pre = t@.subrange(0, i as int);
                let ghost post = t@.subrange(0, i + 1);
                assert(post.drop_last() =~= pre);
                if c != '\\' && prev_backslash {
                    count = count + 1;
                }
                prev_backslash = c == '\\';
                i = i + 1;
            }
            assert(t@.subrange(0, n as int) =~= t@);
            count > 2
        },
    }
}

/// Trailing occurrences of one character removed (`trim_end_matches`).
pub open spec fn strip_trailing(s: Seq<char>, c: char) -> Seq<char>
    decreases s.len(),
{
    if s.len() > 0 && s.last() == c {
        strip_trailing(s.drop_last(), c)
    } else {
        s
    }
}

/// The text without trailing `c`.
pub fn trim_end_char(s: &str, c: char) -> (r: &str)
    ensures
        r@ == strip_trailing(s@, c),
{
    let n = s.unicode_len();
    let mut j: usize = n;
    assert(s@.subrange(0, n as int) =~= s@);
    while j > 0 && s.get_char(j - 1) == c
        invariant
            0 <= j <= n,
            n == s@.len(),
            strip_trailing(s@, c) == strip_trailing(s@.subrange(0, j as int), c),
        decreases j,
    {
        assert(s@.subrange(0, j as int).drop_last() =~= s@.subrange(0, j - 1));
        j = j - 1;
    }
    s.substring_char(0, j)
}

/// The DOS device name of a drive: the root without trailing `\` and `:`,
/// then `:`.
pub open spec fn dos_drive_name_of(root: Seq<char>) -> Seq<char> {
    strip_trailing(strip_trailing(root, '\\'), ':').push(':')
}

pub fn dos_drive_name(root: &str) -> (r: String)
    ensures
        r@ == dos_drive_name_of(root@),
{
    let a = trim_end_char(root, '\\');
    let b = trim_end_char(a, ':');
    let mut r = b.to_owned();
    push_char(&mut r, ':');
    r
}

/// A drive root written as a device path: `C:` and `C:\` become `\\.\C:`,
/// anything else loses its trailing `\` only. The drive form is a two-byte
/// text whose second character is `:`, that is an ASCII character then `:`.
pub open spec fn volume_path_of(root: Seq<char>) -> Seq<char> {
    let t = strip_trailing(root, '\\');
    if t.len() == 2 && (t[0] as u32) < 128 && t[1] == ':' {
        "\\\\.\\"@ + t
    } else {
        t
    }
}

pub fn get_volume_path(root: &str) -> (r: String)
    ensures
        r@ == volume_path_of(root@),
{
    let t = trim_end_char(root, '\\');
    if t.unicode_len() == 2 && (t.get_char(0) as u32) < 128 && t.get_char(1) == ':' {
        let mut r = String::new();
        r.append("\\\\.\\");
        r.append(t);
        r
    } else {
        t.to_owned()
    }
}

} // verus!

verus! {

/// Whether bit `i` of a logical-drive mask is set.
pub open spec fn drive_bit_set(mask: u32, i: u32) -> bool {
    (mask >> i) & 1u32 == 1u32
}

/// The root of drive number `i` (0 for `A`): `A:\`, `B:\`, ...
pub open spec fn drive_root_of(i: nat) -> Seq<char> {
    seq![((65 + i) as u32) as char, ':', '\\']
}

/// The roots of the drives among the first `n` letters whose bit is set, in
/// letter order.
pub open spec fn drive_roots_upto(mask: u32, n: nat) -> Seq<Seq<char>>
    decreases n,
{
    if n == 0 {
        Seq::empty()
    } else {
        let r = drive_roots_upto(mask, (n - 1) as nat);
        if drive_bit_set(mask, (n - 1) as u32) {
            r.push(drive_root_of((n - 1) as nat))
        } else {
            r
        }
    }
}

/// The roots of the drives a logical-drive mask names (bit 0 for `A:` up to
/// bit 25 for `Z:`), in letter order; the caller keeps the fixed drives.
pub fn drive_roots_in_mask(mask: u32) -> (r: Vec<String>)
    ensures
        crate::pattern::string_views(r@) == drive_roots_upto(mask, 26),
{
    let mut out: Vec<String> = Vec::new();
    let mut i: u32 = 0;
    assert(crate::pattern::string_views(out@) =~= Seq::<Seq<char>>::empty());
    while i < 26
        invariant
            0 <= i <= 26,
            crate::pattern::string_views(out@) == drive_roots_upto(mask, i as nat),
        decreases 26 - i,
    {
        if (mask >> i) & 1 == 1 {
            let letter: u8 = 65 + (i as u8);
            let mut root = String::new();
            push_char(&mut root, letter as char);
            push_char(&mut root, ':');
            push_char(&mut root, '\\');
            assert(root@ =~= drive_root_of(i as nat));
            let ghost before = crate::pattern::string_views(out@);
            out.push(root);
            assert(crate::pattern::string_views(out@) =~= before.push(drive_root_of(i as nat)));
        }
        i = i + 1;
    }
    out
}

proof fn lemma_strip_trailing_shape(s: Seq<char>, c: char)
    ensures
        strip_trailing(s, c).len() == 0 || strip_trailing(s, c).last() != c,
        strip_trailing(strip_trailing(s, c), c) == strip_trailing(s, c),
    decreases s.len(),
{
    if s.len() > 0 && s.last() == c {
        lemma_strip_trailing_shape(s.drop_last(), c);
    }
}

/// A device path never ends with `\`, and writing it as a device path again
/// leaves it unchanged.
pub proof fn volume_path_is_stable(root: Seq<char>)
    ensures
        volume_path_of(root).len() == 0 || volume_path_of(root).last() != '\\',
        volume_path_of(volume_path_of(root)) == volume_path_of(root),
{
    let t = strip_trailing(root, '\\');
    lemma_strip_trailing_shape(root, '\\');
    let p = volume_path_of(root);
    if t.len() == 2 && (t[0] as u32) < 128 && t[1] == ':' {
        reveal_strlit("\\\\.\\");
        assert(p.len() == 6);
        assert(p.last() == ':');
        assert(strip_trailing(p, '\\') == p);
    } else {
        assert(p == t);
    }
}

} // verus!
