//! File-name and extension logic for slash-separated paths.
//!
//! The rules follow the component model of `std::path` on POSIX systems:
//! trailing separators and `.` components are not file names, a final `..`
//! has no file name, and an extension is the text after the last `.` of the
//! file name unless that dot is the first character.
use vstd::prelude::*;

verus! {

/// Index of the last `/` in `s`, or -1 when there is none.
pub open spec fn last_separator(s: Seq<char>) -> int
    decreases s.len(),
{
    if s.len() == 0 {
        -1
    } else if s.last() == '/' {
        s.len() - 1
    } else {
        last_separator(s.drop_last())
    }
}

/// `last_separator` points at a `/` after which no `/` follows.
pub proof fn lemma_last_separator(s: Seq<char>)
    ensures
        -1 <= last_separator(s) < s.len(),
        last_separator(s) >= 0 ==> s[last_separator(s)] == '/',
        forall|i: int| last_separator(s) < i < s.len() ==> s[i] != '/',
    decreases s.len(),
{
    if s.len() > 0 && s.last() != '/' {
        lemma_last_separator(s.drop_last());
        assert forall|i: int| last_separator(s) < i < s.len() implies s[i] != '/' by {
            if i < s.len() - 1 {
                assert(s[i] == s.drop_last()[i]);
            }
        }
    }
}

/// `last_dot` points at a `.` after which no `.` follows.
pub proof fn lemma_last_dot(s: Seq<char>)
    ensures
        -1 <= last_dot(s) < s.len(),
        last_dot(s) >= 0 ==> s[last_dot(s)] == '.',
        forall|i: int| last_dot(s) < i < s.len() ==> s[i] != '.',
    decreases s.len(),
{
    if s.len() > 0 && s.last() != '.' {
        lemma_last_dot(s.drop_last());
        assert forall|i: int| last_dot(s) < i < s.len() implies s[i] != '.' by {
            if i < s.len() - 1 {
                assert(s[i] == s.drop_last()[i]);
            }
        }
    }
}

/// The final normal component of a path, as `Path::file_name` gives it.
pub open spec fn file_name_of(s: Seq<char>) -> Option<Seq<char>>
    decreases s.len(),
{
    if s.len() == 0 {
        None
    } else if s.last() == '/' {
        file_name_of(s.drop_last())
    } else {
        let k = last_separator(s);
        proof {
            lemma_last_separator(s);
        }
        let seg = s.subrange(k + 1, s.len() as int);
        if seg == seq!['.'] {
            if k < 0 {
                None
            } else {
                file_name_of(s.subrange(0, k))
            }
        } else if seg == seq!['.', '.'] {
            None
        } else {
            Some(seg)
        }
    }
}

/// Index of the last `.` in `s`, or -1 when there is none.
pub open spec fn last_dot(s: Seq<char>) -> int
    decreases s.len(),
{
    if s.len() == 0 {
        -1
    } else if s.last() == '.' {
        s.len() - 1
    } else {
        last_dot(s.drop_last())
    }
}

/// The extension of a file name: what follows its last dot, when that dot
/// exists and is not the first character.
pub open spec fn extension_of_name(name: Seq<char>) -> Option<Seq<char>> {
    let d = last_dot(name);
    if d <= 0 {
        None
    } else {
        Some(name.subrange(d + 1, name.len() as int))
    }
}

/// The extension of a path, as `Path::extension` gives it.
pub open spec fn path_extension(s: Seq<char>) -> Option<Seq<char>> {
    match file_name_of(s) {
        Some(name) => extension_of_name(name),
        None => None,
    }
}

/// ASCII lower-casing of one character; other characters stay as they are.
pub open spec fn ascii_lower_char(c: char) -> char {
    if 'A' <= c && c <= 'Z' {
        ((c as u32) + 32) as char
    } else {
        c
    }
}

/// ASCII lower-casing of a character sequence.
pub open spec fn ascii_lower(s: Seq<char>) -> Seq<char> {
    s.map_values(|c: char| ascii_lower_char(c))
}

/// The extensions, in lower case, of the image formats that a folder scan
/// keeps: JPEG/JFIF, PNG, WebP, GIF, BMP, TIFF, QOI, ICO, TGA, DDS, OpenEXR,
/// Radiance HDR, Farbfeld and PNM.
pub open spec fn is_supported_extension(e: Seq<char>) -> bool {
    ||| e == "png"@
    ||| e == "jpg"@
    ||| e == "jpeg"@
    ||| e == "jfif"@
    ||| e == "webp"@
    ||| e == "gif"@
    ||| e == "bmp"@
    ||| e == "tiff"@
    ||| e == "tif"@
    ||| e == "qoi"@
    ||| e == "ico"@
    ||| e == "tga"@
    ||| e == "dds"@
    ||| e == "exr"@
    ||| e == "hdr"@
    ||| e == "ff"@
    ||| e == "pbm"@
    ||| e == "pgm"@
    ||| e == "ppm"@
    ||| e == "pam"@
    ||| e == "pnm"@
}

/// A path names a supported image when its extension, lower-cased, is supported.
pub open spec fn is_supported_path(s: Seq<char>) -> bool {
    match path_extension(s) {
        Some(e) => is_supported_extension(ascii_lower(e)),
        None => false,
    }
}

/// The characters of a string, in order.
pub fn chars_of(s: &str) -> (v: Vec<char>)
    ensures
        v@ == s@,
{
    let n = s.unicode_len();
    let mut v: Vec<char> = Vec::new();
    for i in 0..n
        invariant
            n == s@.len(),
            v@ == s@.subrange(0, i as int),
    {
        v.push(s.get_char(i));
        assert(v@ =~= s@.subrange(0, i + 1));
    }
    assert(v@ =~= s@);
    v
}

/// Whether `v[from..to]` holds exactly the characters of `lit`.
pub fn range_equals(v: &Vec<char>, from: usize, to: usize, lit: &str) -> (b: bool)
    requires
        from <= to <= v@.len(),
    ensures
        b == (v@.subrange(from as int, to as int) == lit@),
{
    let n = lit.unicode_len();
    if to - from != n {
        return false;
    }
    let mut i: usize = 0;
    while i < n
        invariant
            from <= to <= v@.len(),
            to - from == n,
            n == lit@.len(),
            i <= n,
            forall|j: int| 0 <= j < i ==> v@[from + j] == lit@[j],
        decreases n - i,
    {
        if v[from + i] != lit.get_char(i) {
            assert(v@.subrange(from as int, to as int)[i as int] != lit@[i as int]);
            return false;
        }
        i = i + 1;
    }
    assert(v@.subrange(from as int, to as int) =~= lit@);
    true
}

/// Index one past the last `/` in `v[0..end]`, or 0 when there is none.
fn segment_start(v: &Vec<char>, end: usize) -> (k: usize)
    requires
        end <= v@.len(),
    ensures
        k as int == last_separator(v@.subrange(0, end as int)) + 1,
        k <= end,
{
    proof {
        lemma_last_separator(v@.subrange(0, end as int));
    }
    let mut j = end;
    while j > 0 && v[j - 1] != '/'
        invariant
            j <= end <= v@.len(),
            last_separator(v@.subrange(0, end as int)) == last_separator(v@.subrange(0, j as int)),
        decreases j,
    {
        assert(v@.subrange(0, j as int).drop_last() =~= v@.subrange(0, j - 1));
        j = j - 1;
    }
    j
}

/// Index of the last `.` in `v[from..to]` relative to `from`, or none.
fn dot_position(v: &Vec<char>, from: usize, to: usize) -> (d: Option<usize>)
    requires
        from <= to <= v@.len(),
    ensures
        match d {
            Some(i) => i as int == last_dot(v@.subrange(from as int, to as int)) && i < to - from,
            None => last_dot(v@.subrange(from as int, to as int)) == -1,
        },
{
    let mut j = to;
    while j > from && v[j - 1] != '.'
        invariant
            from <= j <= to <= v@.len(),
            last_dot(v@.subrange(from as int, to as int)) == last_dot(v@.subrange(from as int, j as int)),
        decreases j,
    {
        assert(v@.subrange(from as int, j as int).drop_last() =~= v@.subrange(from as int, j - 1));
        j = j - 1;
    }
    if j == from {
        None
    } else {
        Some(j - 1 - from)
    }
}

/// The position `start..end` of the file name within the characters of a path.
pub fn file_name_range(v: &Vec<char>) -> (r: Option<(usize, usize)>)
    ensures
        match r {
            Some((start, end)) => start <= end <= v@.len()
                && file_name_of(v@) == Some(v@.subrange(start as int, end as int)),
            None => file_name_of(v@) is None,
        },
{
    let mut end = v.len();
    assert(v@.subrange(0, end as int) =~= v@);
    loop
        invariant
            end <= v@.len(),
            file_name_of(v@) == file_name_of(v@.subrange(0, end as int)),
        decreases end,
    {
        let ghost s = v@.subrange(0, end as int);
        if end == 0 {
            return None;
        }
        if v[end - 1] == '/' {
            assert(s.drop_last() =~= v@.subrange(0, end - 1));
            end = end - 1;
        } else {
            let k = segment_start(v, end);
            let ghost seg = s.subrange(k as int, s.len() as int);
            assert(seg =~= v@.subrange(k as int, end as int));
            if range_equals(v, k, end, ".") {
                proof { reveal_strlit("."); }
                assert(seg == seq!['.']);
                if k == 0 {
                    return None;
                }
                assert(s.subrange(0, k - 1) =~= v@.subrange(0, k - 1));
                end = k - 1;
            } else if range_equals(v, k, end, "..") {
                proof { reveal_strlit(".."); }
                assert(seg == seq!['.', '.']);
                return None;
            } else {
                proof {
                    reveal_strlit(".");
                    reveal_strlit("..");
                    assert(seg != seq!['.']) by {
                        if seg == seq!['.'] {
                            assert(v@.subrange(k as int, end as int) =~= "."@);
                        }
                    }
                    assert(seg != seq!['.', '.']) by {
                        if seg == seq!['.', '.'] {
                            assert(v@.subrange(k as int, end as int) =~= ".."@);
                        }
                    }
                }
                return Some((k, end));
            }
        }
    }
}

/// ASCII lower-casing of one character.
pub fn lower_char(c: char) -> (r: char)
    ensures
        r == ascii_lower_char(c),
{
    if 'A' <= c && c <= 'Z' {
        let code: u8 = c as u8;
        (code + 32) as char
    } else {
        c
    }
}

/// The lower-cased characters of `v[from..to]`.
pub fn lower_range(v: &Vec<char>, from: usize, to: usize) -> (r: Vec<char>)
    requires
        from <= to <= v@.len(),
    ensures
        r@ == ascii_lower(v@.subrange(from as int, to as int)),
{
    let mut r: Vec<char> = Vec::new();
    let mut i = from;
    while i < to
        invariant
            from <= i <= to <= v@.len(),
            r@ == ascii_lower(v@.subrange(from as int, i as int)),
        decreases to - i,
    {
        r.push(lower_char(v[i]));
        assert(r@ =~= ascii_lower(v@.subrange(from as int, i + 1)));
        i = i + 1;
    }
    r
}

/// Whether the lower-cased extension characters name a supported format.
fn supported_extension(e: &Vec<char>) -> (b: bool)
    ensures
        b == is_supported_extension(e@),
{
    let n = e.len();
    assert(e@.subrange(0, n as int) =~= e@);
    range_equals(e, 0, n, "png")
        || range_equals(e, 0, n, "jpg")
        || range_equals(e, 0, n, "jpeg")
        || range_equals(e, 0, n, "jfif")
        || range_equals(e, 0, n, "webp")
        || range_equals(e, 0, n, "gif")
        || range_equals(e, 0, n, "bmp")
        || range_equals(e, 0, n, "tiff")
        || range_equals(e, 0, n, "tif")
        || range_equals(e, 0, n, "qoi")
        || range_equals(e, 0, n, "ico")
        || range_equals(e, 0, n, "tga")
        || range_equals(e, 0, n, "dds")
        || range_equals(e, 0, n, "exr")
        || range_equals(e, 0, n, "hdr")
        || range_equals(e, 0, n, "ff")
        || range_equals(e, 0, n, "pbm")
        || range_equals(e, 0, n, "pgm")
        || range_equals(e, 0, n, "ppm")
        || range_equals(e, 0, n, "pam")
        || range_equals(e, 0, n, "pnm")
}

/// The file name of a path, when it has one.
pub fn file_name(path: &str) -> (r: Option<String>)
    ensures
        match r {
            Some(name) => file_name_of(path@) == Some(name@),
            None => file_name_of(path@) is None,
        },
{
    let v = chars_of(path);
    match file_name_range(&v) {
        Some((start, end)) => Some(String::from_str(path.substring_char(start, end))),
        None => None,
    }
}

/// Whether a path names an image that a folder scan keeps: its extension, in
/// ASCII lower case, is that of a supported format (see `is_supported_extension`).
pub fn is_supported_image(path: &str) -> (b: bool)
    ensures
        b == is_supported_path(path@),
{
    let v = chars_of(path);
    match file_name_range(&v) {
        None => false,
        Some((start, end)) => {
            let ghost name = v@.subrange(start as int, end as int);
            match dot_position(&v, start, end) {
                None => false,
                Some(d) => {
                    if d == 0 {
                        false
                    } else {
                        let e = lower_range(&v, start + d + 1, end);
                        assert(name.subrange(d + 1, name.len() as int) =~= v@.subrange(
                            start + d + 1,
                            end as int,
                        ));
                        supported_extension(&e)
                    }
                }
            }
        }
    }
}

/// The extensions of the image formats the viewer documents: JPEG/JFIF, PNG,
/// WebP, GIF, BMP, TIFF, QOI, ICO, TGA, DDS, OpenEXR, Radiance HDR, Farbfeld
/// and PNM.
pub open spec fn documented_extensions() -> Seq<Seq<char>> {
    seq![
        "png"@,
        "jpg"@,
        "jpeg"@,
        "jfif"@,
        "webp"@,
        "gif"@,
        "bmp"@,
        "tiff"@,
        "tif"@,
        "qoi"@,
        "ico"@,
        "tga"@,
        "dds"@,
        "exr"@,
        "hdr"@,
        "ff"@,
        "pbm"@,
        "pgm"@,
        "ppm"@,
        "pam"@,
        "pnm"@,
    ]
}

/// A path without `/` has no separator.
proof fn lemma_no_separator(s: Seq<char>)
    requires
        forall|j: int| 0 <= j < s.len() ==> s[j] != '/',
    ensures
        last_separator(s) == -1,
    decreases s.len(),
{
    if s.len() > 0 {
        lemma_no_separator(s.drop_last());
    }
}

/// The last dot of `stem.ext` is the one before `ext` when `ext` has no dot.
proof fn lemma_dot_before_extension(stem: Seq<char>, ext: Seq<char>)
    requires
        forall|j: int| 0 <= j < ext.len() ==> ext[j] != '.',
    ensures
        last_dot(stem + "."@ + ext) == stem.len(),
    decreases ext.len(),
{
    reveal_strlit(".");
    let s = stem + "."@ + ext;
    if ext.len() == 0 {
        assert(s.last() == '.');
    } else {
        assert(s.last() == ext.last());
        assert(s.drop_last() =~= stem + "."@ + ext.drop_last());
        lemma_dot_before_extension(stem, ext.drop_last());
    }
}

/// A file name `stem.ext` whose extension is lower-case letters of a
/// supported format names a supported image.
proof fn lemma_plain_extension_supported(stem: Seq<char>, ext: Seq<char>)
    requires
        stem.len() > 0,
        ext.len() > 0,
        forall|j: int| 0 <= j < stem.len() ==> stem[j] != '/',
        forall|j: int| 0 <= j < ext.len() ==> 'a' <= #[trigger] ext[j] <= 'z',
        is_supported_extension(ext),
    ensures
        file_name_of(stem + "."@ + ext) == Some(stem + "."@ + ext),
        path_extension(stem + "."@ + ext) == Some(ext),
        is_supported_path(stem + "."@ + ext),
{
    reveal_strlit(".");
    let s = stem + "."@ + ext;
    assert forall|j: int| 0 <= j < s.len() implies s[j] != '/' by {
        if j < stem.len() {
            assert(s[j] == stem[j]);
        } else if j > stem.len() {
            assert(s[j] == ext[j - stem.len() - 1]);
        }
    }
    lemma_no_separator(s);
    assert(s.last() == ext.last());
    assert(s.subrange(0, s.len() as int) =~= s);
    assert(s.len() >= 3);
    assert(s != seq!['.']);
    if s =~= seq!['.', '.'] {
        assert(s[s.len() - 1] == ext[ext.len() - 1]);
    }
    lemma_dot_before_extension(stem, ext);
    assert(s.subrange(stem.len() + 1 as int, s.len() as int) =~= ext);
    assert(ascii_lower(ext) =~= ext);
}

/// Every documented format is accepted: a file name with a non-empty stem
/// (without `/`) followed by `.` and a documented extension names a supported
/// image, and the file keeps its whole name.
pub proof fn lemma_documented_formats_supported(stem: Seq<char>, i: int)
    requires
        0 <= i < documented_extensions().len(),
        stem.len() > 0,
        forall|j: int| 0 <= j < stem.len() ==> stem[j] != '/',
    ensures
        is_supported_path(stem + "."@ + documented_extensions()[i]),
        file_name_of(stem + "."@ + documented_extensions()[i]) == Some(stem + "."@ + documented_extensions()[i]),
{
    if i == 0 {
        reveal_strlit("png");
        lemma_plain_extension_supported(stem, "png"@);
    } else if i == 1 {
        reveal_strlit("jpg");
        lemma_plain_extension_supported(stem, "jpg"@);
    } else if i == 2 {
        reveal_strlit("jpeg");
        lemma_plain_extension_supported(stem, "jpeg"@);
    } else if i == 3 {
        reveal_strlit("jfif");
        lemma_plain_extension_supported(stem, "jfif"@);
    } else if i == 4 {
        reveal_strlit("webp");
        lemma_plain_extension_supported(stem, "webp"@);
    } else if i == 5 {
        reveal_strlit("gif");
        lemma_plain_extension_supported(stem, "gif"@);
    } else if i == 6 {
        reveal_strlit("bmp");
        lemma_plain_extension_supported(stem, "bmp"@);
    } else if i == 7 {
        reveal_strlit("tiff");
        lemma_plain_extension_supported(stem, "tiff"@);
    } else if i == 8 {
        reveal_strlit("tif");
        lemma_plain_extension_supported(stem, "tif"@);
    } else if i == 9 {
        reveal_strlit("qoi");
        lemma_plain_extension_supported(stem, "qoi"@);
    } else if i == 10 {
        reveal_strlit("ico");
        lemma_plain_extension_supported(stem, "ico"@);
    } else if i == 11 {
        reveal_strlit("tga");
        lemma_plain_extension_supported(stem, "tga"@);
    } else if i == 12 {
        reveal_strlit("dds");
        lemma_plain_extension_supported(stem, "dds"@);
    } else if i == 13 {
        reveal_strlit("exr");
        lemma_plain_extension_supported(stem, "exr"@);
    } else if i == 14 {
        reveal_strlit("hdr");
        lemma_plain_extension_supported(stem, "hdr"@);
    } else if i == 15 {
        reveal_strlit("ff");
        lemma_plain_extension_supported(stem, "ff"@);
    } else if i == 16 {
        reveal_strlit("pbm");
        lemma_plain_extension_supported(stem, "pbm"@);
    } else if i == 17 {
        reveal_strlit("pgm");
        lemma_plain_extension_supported(stem, "pgm"@);
    } else if i == 18 {
        reveal_strlit("ppm");
        lemma_plain_extension_supported(stem, "ppm"@);
    } else if i == 19 {
        reveal_strlit("pam");
        lemma_plain_extension_supported(stem, "pam"@);
    } else if i == 20 {
        reveal_strlit("pnm");
        lemma_plain_extension_supported(stem, "pnm"@);
    }
}

} // verus!
