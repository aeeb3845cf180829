//! Path logic: where a path's file name begins, what extension it has,
//! and which files count as wallpaper images. Everything is stated over
//! the UTF-8 bytes of the path, where the separators and the dot live.

use vstd::prelude::*;
use vstd::utf8::encode_utf8;

verus! {

/// The UTF-8 bytes of a string value: the view this module's contracts
/// are stated over.
pub open spec fn byte_view(s: Seq<char>) -> Seq<u8> {
    encode_utf8(s)
}

/// Path separators: `/` (47) and `\` (92).
pub open spec fn is_separator(b: u8) -> bool {
    b == 47 || b == 92
}

/// Where a path's file name begins: just past the last separator, or at
/// the start when there is none.
pub open spec fn file_name_start(p: Seq<u8>) -> int
    decreases p.len(),
{
    if p.len() == 0 {
        0
    } else if is_separator(p.last()) {
        p.len() as int
    } else {
        file_name_start(p.drop_last())
    }
}

/// The position of the last dot (46) in the path, if any.
pub open spec fn last_dot(p: Seq<u8>) -> Option<int>
    decreases p.len(),
{
    if p.len() == 0 {
        None
    } else if p.last() == 46 {
        Some((p.len() - 1) as int)
    } else {
        last_dot(p.drop_last())
    }
}

/// A path's extension: what follows the final dot of its file name — and
/// a file name whose only dot begins it, like a hidden file's, has no
/// extension.
pub open spec fn extension_bytes(p: Seq<u8>) -> Option<Seq<u8>> {
    match last_dot(p) {
        Some(d) => if d > file_name_start(p) {
            Some(p.skip(d + 1))
        } else {
            None
        },
        None => None,
    }
}

/// An ASCII capital letter's byte mapped to its small form; every other
/// byte stays as it is.
pub open spec fn ascii_lower_byte(b: u8) -> u8 {
    if 65 <= b && b <= 90 {
        (b + 32) as u8
    } else {
        b
    }
}

/// A byte sequence with every ASCII capital mapped to its small form.
pub open spec fn lower_bytes(e: Seq<u8>) -> Seq<u8> {
    e.map_values(|b: u8| ascii_lower_byte(b))
}

/// The image extensions the wallpaper library accepts, compared ignoring
/// ASCII case: `jpg`, `jpeg`, `png`, `gif`.
pub open spec fn is_image_extension(e: Seq<u8>) -> bool {
    ||| lower_bytes(e) == seq![106u8, 112u8, 103u8]
    ||| lower_bytes(e) == seq![106u8, 112u8, 101u8, 103u8]
    ||| lower_bytes(e) == seq![112u8, 110u8, 103u8]
    ||| lower_bytes(e) == seq![103u8, 105u8, 102u8]
}

/// Whether a path names an image file the wallpaper library accepts.
pub open spec fn is_image_path(p: Seq<u8>) -> bool {
    match extension_bytes(p) {
        Some(e) => is_image_extension(e),
        None => false,
    }
}

/// One pass over the path's bytes: where the file name starts, and where
/// its last dot sits.
fn scan_path(bytes: &[u8]) -> (r: (usize, Option<usize>))
    ensures
        r.0 as int == file_name_start(bytes@),
        r.0 <= bytes@.len(),
        match r.1 {
            Some(d) => last_dot(bytes@) == Some(d as int) && d < bytes@.len(),
            None => last_dot(bytes@) is None,
        },
{
    let n = bytes.len();
    let mut start: usize = 0;
    let mut dot: Option<usize> = None;
    let mut i: usize = 0;
    proof {
        assert(bytes@.take(0) =~= Seq::<u8>::empty());
    }
    while i < n
        invariant
            i <= n,
            n == bytes@.len(),
            start <= i,
            start as int == file_name_start(bytes@.take(i as int)),
            match dot {
                Some(d) => last_dot(bytes@.take(i as int)) == Some(d as int) && d < i,
                None => last_dot(bytes@.take(i as int)) is None,
            },
        decreases n - i,
    {
        proof {
            assert(bytes@.take(i as int + 1).drop_last() =~= bytes@.take(i as int));
            assert(bytes@.take(i as int + 1).last() == bytes@[i as int]);
        }
        let b = bytes[i];
        if b == 47 || b == 92 {
            start = i + 1;
        } else if b == 46 {
            dot = Some(i);
        }
        i = i + 1;
    }
    proof {
        assert(bytes@.take(n as int) =~= bytes@);
    }
    (start, dot)
}

fn ascii_lower_byte_exec(b: u8) -> (r: u8)
    ensures
        r == ascii_lower_byte(b),
{
    if 65 <= b && b <= 90 {
        b + 32
    } else {
        b
    }
}

/// Whether the bytes from `from` on, lowered, are exactly the three given.
fn ext_matches3(bytes: &[u8], from: usize, e0: u8, e1: u8, e2: u8) -> (r: bool)
    requires
        from <= bytes@.len(),
    ensures
        r == (lower_bytes(bytes@.skip(from as int)) == seq![e0, e1, e2]),
{
    proof {
        assert(lower_bytes(bytes@.skip(from as int)).len() == bytes@.len() - from);
    }
    if bytes.len() - from == 3 {
        let r = ascii_lower_byte_exec(bytes[from]) == e0 && ascii_lower_byte_exec(
            bytes[from + 1],
        ) == e1 && ascii_lower_byte_exec(bytes[from + 2]) == e2;
        proof {
            assert(forall|k: int|
                0 <= k < 3 ==> lower_bytes(bytes@.skip(from as int))[k] == ascii_lower_byte(
                    bytes@[from + k],
                ));
            if r {
                assert(lower_bytes(bytes@.skip(from as int)) =~= seq![e0, e1, e2]);
            }
        }
        r
    } else {
        false
    }
}

/// Whether the bytes from `from` on, lowered, are exactly the four given.
fn ext_matches4(bytes: &[u8], from: usize, e0: u8, e1: u8, e2: u8, e3: u8) -> (r: bool)
    requires
        from <= bytes@.len(),
    ensures
        r == (lower_bytes(bytes@.skip(from as int)) == seq![e0, e1, e2, e3]),
{
    proof {
        assert(lower_bytes(bytes@.skip(from as int)).len() == bytes@.len() - from);
    }
    if bytes.len() - from == 4 {
        let r = ascii_lower_byte_exec(bytes[from]) == e0 && ascii_lower_byte_exec(
            bytes[from + 1],
        ) == e1 && ascii_lower_byte_exec(bytes[from + 2]) == e2 && ascii_lower_byte_exec(
            bytes[from + 3],
        ) == e3;
        proof {
            assert(forall|k: int|
                0 <= k < 4 ==> lower_bytes(bytes@.skip(from as int))[k] == ascii_lower_byte(
                    bytes@[from + k],
                ));
            if r {
                assert(lower_bytes(bytes@.skip(from as int)) =~= seq![e0, e1, e2, e3]);
            }
        }
        r
    } else {
        false
    }
}

/// Whether a path names an image file: its file name has an extension
/// that is `jpg`, `jpeg`, `png` or `gif` ignoring ASCII case.
pub fn is_image_file(path: &str) -> (r: bool)
    ensures
        r == is_image_path(byte_view(path@)),
{
    let bytes = path.as_bytes();
    let n = bytes.len();
    let (start, dot) = scan_path(bytes);
    match dot {
        Some(d) => {
            if d > start {
                proof {
                    assert(d < n);
                }
                let from = d + 1;
                ext_matches3(bytes, from, 106, 112, 103) || ext_matches4(
                    bytes,
                    from,
                    106,
                    112,
                    101,
                    103,
                ) || ext_matches3(bytes, from, 112, 110, 103) || ext_matches3(
                    bytes,
                    from,
                    103,
                    105,
                    102,
                )
            } else {
                false
            }
        },
        None => false,
    }
}

/// The image files among a listing, in their listed order.
pub open spec fn image_files_of(files: Seq<String>) -> Seq<String>
    decreases files.len(),
{
    if files.len() == 0 {
        Seq::empty()
    } else {
        let rest = image_files_of(files.drop_last());
        if is_image_path(byte_view(files.last()@)) {
            rest.push(files.last())
        } else {
            rest
        }
    }
}

/// Keeps the image files of a folder listing, preserving their order.
pub fn filter_image_files(files: &Vec<String>) -> (imgs: Vec<String>)
    ensures
        imgs@ == image_files_of(files@),
{
    let mut imgs: Vec<String> = Vec::new();
    let n = files.len();
    let mut i: usize = 0;
    proof {
        assert(files@.take(0) =~= Seq::<String>::empty());
    }
    while i < n
        invariant
            i <= n,
            n == files@.len(),
            imgs@ == image_files_of(files@.take(i as int)),
        decreases n - i,
    {
        proof {
            assert(files@.take(i as int + 1).drop_last() =~= files@.take(i as int));
            assert(files@.take(i as int + 1).last() == files@[i as int]);
        }
        let f: &String = &files[i];
        if is_image_file(f.as_str()) {
            imgs.push(f.clone());
        }
        i = i + 1;
    }
    proof {
        assert(files@.take(n as int) =~= files@);
    }
    imgs
}

/// Where the file name of `path` begins, as a byte index; the caller
/// slices the path there to obtain the name itself.
pub fn file_name_start_index(path: &str) -> (i: usize)
    ensures
        i as int == file_name_start(byte_view(path@)),
        i <= byte_view(path@).len(),
{
    let (start, _dot) = scan_path(path.as_bytes());
    start
}

/// Whether a path has a non-empty file name to copy under.
pub fn has_file_name(path: &str) -> (r: bool)
    ensures
        r == (file_name_start(byte_view(path@)) < byte_view(path@).len()),
{
    let bytes = path.as_bytes();
    let (start, _dot) = scan_path(bytes);
    start < bytes.len()
}

} // verus!
