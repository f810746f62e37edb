//! File paths of images: their file name, their extension, and the material
//! path that the exported code loads for them.

use vstd::prelude::*;
use vstd::string::*;
use crate::text::push_char;

verus! {

/// The final component of `path` as `std::path::Path::file_name` gives it
/// (none for a path that ends in `..` or is empty, for instance), with the
/// path syntax of the platform the library is built for.
pub uninterp spec fn path_file_name(path: Seq<char>) -> Option<Seq<char>>;

/// The index of the last `c` in `s`, or -1.
pub open spec fn last_index_of(s: Seq<char>, c: char) -> int
    decreases s.len(),
{
    if s.len() == 0 {
        -1
    } else if s.last() == c {
        s.len() - 1
    } else {
        last_index_of(s.drop_last(), c)
    }
}

/// The extension of a file name, as `std::path::Path::extension` documents
/// it: none when the name has no dot, or only a leading one; otherwise the
/// text after the last dot.
pub open spec fn extension_of(name: Seq<char>) -> Option<Seq<char>> {
    let i = last_index_of(name, '.');
    if i <= 0 { None } else { Some(name.subrange(i + 1, name.len() as int)) }
}

/// The extension of `path` as `std::path::Path::extension` gives it: none
/// without a file name, else the extension of the file name.
pub open spec fn path_extension(path: Seq<char>) -> Option<Seq<char>> {
    match path_file_name(path) {
        Some(n) => extension_of(n),
        None => None,
    }
}

/// `Path::file_name` of `path`, as text. The name is a part of a `str`, so
/// it converts back to text.
#[verifier::external_body]
fn file_name(path: &str) -> (r: Option<String>)
    ensures
        r is Some <==> path_file_name(path@) is Some,
        r matches Some(n) ==> path_file_name(path@) == Some(n@),
{
    std::path::Path::new(path).file_name().and_then(|n| n.to_str()).map(|n| n.to_string())
}

/// `Path::extension` of `path`, as text: claimed to be the extension of the
/// path's file name as the documentation of `Path::extension` describes it
/// (`path_extension`). The extension is a part of a `str`, so it converts
/// back to text.
#[verifier::external_body]
fn extension(path: &str) -> (r: Option<String>)
    ensures
        r is Some <==> path_extension(path@) is Some,
        r matches Some(e) ==> path_extension(path@) == Some(e@),
{
    std::path::Path::new(path).extension().and_then(|e| e.to_str()).map(|e| e.to_string())
}

/// The material path suggested for a file named `name`: `materials/` and
/// the name, or `materials/image.png` when there is no name.
pub open spec fn material_for_name(name: Option<Seq<char>>) -> Seq<char> {
    "materials/"@ + match name {
        Some(n) => n,
        None => "image.png"@,
    }
}

/// The material path suggested for an image file: that of its file name.
pub open spec fn material_for(path: Seq<char>) -> Seq<char> {
    material_for_name(path_file_name(path))
}

/// The material path suggested for a file named `name` (see
/// `material_for_name`).
pub fn material_path_for_name(name: Option<&str>) -> (r: String)
    ensures
        r@ == material_for_name(match name {
            Some(n) => Some(n@),
            None => None,
        }),
{
    match name {
        Some(n) => String::from_str("materials/").concat(n),
        None => String::from_str("materials/").concat("image.png"),
    }
}

/// The material path suggested for an image file.
pub fn suggest_material_path(path: &str) -> (r: String)
    ensures
        r@ == material_for(path@),
{
    match file_name(path) {
        Some(n) => material_path_for_name(Some(n.as_str())),
        None => material_path_for_name(None),
    }
}

/// `c` with an ASCII capital letter turned into the small one.
pub open spec fn ascii_lower(c: char) -> char {
    if 'A' <= c <= 'Z' { ((c as u32) + 32) as char } else { c }
}

/// `c` with an ASCII small letter turned into the capital one.
pub open spec fn ascii_upper(c: char) -> char {
    if 'a' <= c <= 'z' { ((c as u32) - 32) as char } else { c }
}

/// `s` with its ASCII small letters turned into capitals.
pub open spec fn ascii_uppercase(s: Seq<char>) -> Seq<char> {
    s.map_values(|c: char| ascii_upper(c))
}

/// `s` with its ASCII capitals turned into small letters.
pub open spec fn ascii_lowercase(s: Seq<char>) -> Seq<char> {
    s.map_values(|c: char| ascii_lower(c))
}

fn lower_char(c: char) -> (r: char)
    ensures
        r == ascii_lower(c),
{
    if 'A' <= c && c <= 'Z' {
        let u = (c as u32) + 32;
        assert(0x61 <= u <= 0x7a);
        char_from_ascii(u)
    } else {
        c
    }
}

fn char_from_ascii(u: u32) -> (c: char)
    requires
        0x61 <= u <= 0x7a,
    ensures
        c == u as char,
{
    let b = u as u8;
    b as char
}

/// `s` with its ASCII capitals turned into small letters.
pub fn to_ascii_lowercase(s: &str) -> (r: String)
    ensures
        r@ == ascii_lowercase(s@),
{
    let n = s.unicode_len();
    let mut r = String::new();
    let mut i: usize = 0;
    while i < n
        invariant
            n == s@.len(),
            i <= n,
            r@ == ascii_lowercase(s@.subrange(0, i as int)),
        decreases n - i,
    {
        push_char(&mut r, lower_char(s.get_char(i)));
        assert(r@ =~= ascii_lowercase(s@.subrange(0, i + 1)));
        i = i + 1;
    }
    assert(s@.subrange(0, n as int) =~= s@);
    r
}

/// Whether an extension, in any case, is one of the image formats the
/// editor loads: png, jpg, jpeg, webp, gif and bmp.
pub open spec fn is_image_extension(e: Seq<char>) -> bool {
    let l = ascii_lowercase(e);
    l == "png"@ || l == "jpg"@ || l == "jpeg"@ || l == "webp"@ || l == "gif"@ || l == "bmp"@
}

/// Each of png, jpg, jpeg, webp, gif and bmp, written in any mix of ASCII
/// capitals and small letters, is an image extension, and nothing else is.
pub proof fn lemma_image_extensions(e: Seq<char>)
    ensures
        ascii_lowercase(e) == "png"@ ==> is_image_extension(e),
        ascii_lowercase(e) == "jpg"@ ==> is_image_extension(e),
        ascii_lowercase(e) == "jpeg"@ ==> is_image_extension(e),
        ascii_lowercase(e) == "webp"@ ==> is_image_extension(e),
        ascii_lowercase(e) == "gif"@ ==> is_image_extension(e),
        ascii_lowercase(e) == "bmp"@ ==> is_image_extension(e),
        is_image_extension(e) ==> ascii_lowercase(e) == "png"@ || ascii_lowercase(e) == "jpg"@
            || ascii_lowercase(e) == "jpeg"@ || ascii_lowercase(e) == "webp"@ || ascii_lowercase(e) == "gif"@
            || ascii_lowercase(e) == "bmp"@,
        is_image_extension("png"@),
        is_image_extension("PNG"@),
        is_image_extension("jpg"@),
        is_image_extension("JPG"@),
        is_image_extension("jpeg"@),
        is_image_extension("JPEG"@),
        is_image_extension("webp"@),
        is_image_extension("WEBP"@),
        is_image_extension("gif"@),
        is_image_extension("GIF"@),
        is_image_extension("bmp"@),
        is_image_extension("BMP"@),
{
    reveal_strlit("png");
    reveal_strlit("PNG");
    assert(ascii_lowercase("png"@) =~= "png"@);
    assert(ascii_lowercase("PNG"@) =~= "png"@);
    reveal_strlit("jpg");
    reveal_strlit("JPG");
    assert(ascii_lowercase("jpg"@) =~= "jpg"@);
    assert(ascii_lowercase("JPG"@) =~= "jpg"@);
    reveal_strlit("jpeg");
    reveal_strlit("JPEG");
    assert(ascii_lowercase("jpeg"@) =~= "jpeg"@);
    assert(ascii_lowercase("JPEG"@) =~= "jpeg"@);
    reveal_strlit("webp");
    reveal_strlit("WEBP");
    assert(ascii_lowercase("webp"@) =~= "webp"@);
    assert(ascii_lowercase("WEBP"@) =~= "webp"@);
    reveal_strlit("gif");
    reveal_strlit("GIF");
    assert(ascii_lowercase("gif"@) =~= "gif"@);
    assert(ascii_lowercase("GIF"@) =~= "gif"@);
    reveal_strlit("bmp");
    reveal_strlit("BMP");
    assert(ascii_lowercase("bmp"@) =~= "bmp"@);
    assert(ascii_lowercase("BMP"@) =~= "bmp"@);
}

/// Whether the extension, if any, is that of an image format the editor
/// loads (see `is_image_extension`).
pub fn is_image_extension_of(ext: Option<&str>) -> (r: bool)
    ensures
        r == match ext {
            Some(e) => is_image_extension(e@),
            None => false,
        },
        ext matches Some(e) && ascii_lowercase(e@) == "png"@ ==> r,
        ext matches Some(e) && ascii_lowercase(e@) == "jpg"@ ==> r,
        ext matches Some(e) && ascii_lowercase(e@) == "jpeg"@ ==> r,
        ext matches Some(e) && ascii_lowercase(e@) == "webp"@ ==> r,
        ext matches Some(e) && ascii_lowercase(e@) == "gif"@ ==> r,
        ext matches Some(e) && ascii_lowercase(e@) == "bmp"@ ==> r,
{
    match ext {
        Some(e) => {
            let l = to_ascii_lowercase(e);
            let l = l.as_str();
            crate::text::str_eq(l, "png") || crate::text::str_eq(l, "jpg")
                || crate::text::str_eq(l, "jpeg") || crate::text::str_eq(l, "webp")
                || crate::text::str_eq(l, "gif") || crate::text::str_eq(l, "bmp")
        },
        None => false,
    }
}

/// Whether the path names an image file by its extension.
pub fn is_image_file(path: &str) -> (r: bool)
    ensures
        r == match path_extension(path@) {
            Some(e) => is_image_extension(e),
            None => false,
        },
        path_extension(path@) matches Some(e) && ascii_lowercase(e) == "png"@ ==> r,
        path_extension(path@) matches Some(e) && ascii_lowercase(e) == "jpg"@ ==> r,
        path_extension(path@) matches Some(e) && ascii_lowercase(e) == "jpeg"@ ==> r,
        path_extension(path@) matches Some(e) && ascii_lowercase(e) == "webp"@ ==> r,
        path_extension(path@) matches Some(e) && ascii_lowercase(e) == "gif"@ ==> r,
        path_extension(path@) matches Some(e) && ascii_lowercase(e) == "bmp"@ ==> r,
{
    match extension(path) {
        Some(e) => is_image_extension_of(Some(e.as_str())),
        None => is_image_extension_of(None),
    }
}

} // verus!
