//! Classification of a file by its extension.

use vstd::prelude::*;

verus! {

/// The kinds of content that the viewer can display.
#[derive(Debug, Clone, Copy, PartialEq, Eq, Structural)]
pub enum ViewerContentType {
    VectorGraphics,
    Image,
    Video,
    Invalid,
}

/// What `str::to_lowercase` makes of a string.
pub uninterp spec fn lowercase_of(s: Seq<char>) -> Seq<char>;

/// The lowercase extensions shown as vector graphics.
pub open spec fn vector_extensions() -> Set<Seq<char>> {
    set!["svg"@]
}

/// The lowercase extensions shown as raster images.
pub open spec fn image_extensions() -> Set<Seq<char>> {
    set!["png"@, "jpg"@, "jpeg"@, "webp"@, "heic"@, "heif"@]
}

/// The lowercase extensions shown as video.
pub open spec fn video_extensions() -> Set<Seq<char>> {
    set!["mp4"@, "webm"@, "mkv"@, "mov"@, "avi"@, "gif"@]
}

/// The kind of content of an extension that is already in lowercase.
pub open spec fn content_type_of_lowercase(ext: Seq<char>) -> ViewerContentType {
    if vector_extensions().contains(ext) {
        ViewerContentType::VectorGraphics
    } else if image_extensions().contains(ext) {
        ViewerContentType::Image
    } else if video_extensions().contains(ext) {
        ViewerContentType::Video
    } else {
        ViewerContentType::Invalid
    }
}

/// The kind of content of an extension, whatever its case.
pub open spec fn content_type_of_ext(ext: Seq<char>) -> ViewerContentType {
    content_type_of_lowercase(lowercase_of(ext))
}

/// Relies on `str::to_lowercase`: the lowercase form of a string depends on
/// its characters alone.
#[verifier::external_body]
fn to_lowercase(s: &str) -> (r: String)
    ensures
        r@ == lowercase_of(s@),
{
    s.to_lowercase()
}

/// Whether two strings hold the same characters.
pub fn str_equal(a: &str, b: &str) -> (r: bool)
    ensures
        r == (a@ == b@),
{
    let n = a.unicode_len();
    if n != b.unicode_len() {
        return false;
    }
    let mut i: usize = 0;
    while i < n
        invariant
            n == a@.len(),
            n == b@.len(),
            i <= n,
            a@.subrange(0, i as int) == b@.subrange(0, i as int),
        decreases n - i,
    {
        if a.get_char(i) != b.get_char(i) {
            return false;
        }
        assert(a@.subrange(0, i + 1) == a@.subrange(0, i as int).push(a@[i as int]));
        assert(b@.subrange(0, i + 1) == b@.subrange(0, i as int).push(b@[i as int]));
        i = i + 1;
    }
    assert(a@ == a@.subrange(0, n as int));
    assert(b@ == b@.subrange(0, n as int));
    true
}

impl ViewerContentType {
    /// The kind of content of an extension that is already in lowercase.
    pub fn from_lowercase_ext(ext: &str) -> (r: ViewerContentType)
        ensures
            r == content_type_of_lowercase(ext@),
    {
        if str_equal(ext, "svg") {
            ViewerContentType::VectorGraphics
        } else if str_equal(ext, "png") || str_equal(ext, "jpg") || str_equal(ext, "jpeg")
            || str_equal(ext, "webp") || str_equal(ext, "heic") || str_equal(ext, "heif") {
            ViewerContentType::Image
        } else if str_equal(ext, "mp4") || str_equal(ext, "webm") || str_equal(ext, "mkv")
            || str_equal(ext, "mov") || str_equal(ext, "avi") || str_equal(ext, "gif") {
            ViewerContentType::Video
        } else {
            ViewerContentType::Invalid
        }
    }

    /// The kind of content of a file extension, given without its leading
    /// dot, compared without regard to case. `None` stands for an extension
    /// that is not valid text, which is never displayable.
    pub fn from_ext(extension: Option<&str>) -> (r: ViewerContentType)
        ensures
            r == match extension {
                Some(ext) => content_type_of_ext(ext@),
                None => ViewerContentType::Invalid,
            },
    {
        match extension {
            Some(ext) => {
                let lower = to_lowercase(ext);
                ViewerContentType::from_lowercase_ext(lower.as_str())
            },
            None => ViewerContentType::Invalid,
        }
    }
}

/// Classification ignores case: two extensions with the same lowercase form
/// are of the same kind, and so `JPG` and `jpg` are both raster images.
pub proof fn lemma_classification_ignores_case(a: Seq<char>, b: Seq<char>)
    requires
        lowercase_of(a) == lowercase_of(b),
    ensures
        content_type_of_ext(a) == content_type_of_ext(b),
        lowercase_of(a) == "jpg"@ ==> content_type_of_ext(a) == ViewerContentType::Image,
{
    reveal_strlit("jpg");
    reveal_strlit("png");
    reveal_strlit("svg");
    reveal_strlit("jpeg");
    reveal_strlit("webp");
    reveal_strlit("heic");
    reveal_strlit("heif");
    assert(image_extensions().contains("jpg"@));
    assert(!vector_extensions().contains("jpg"@)) by {
        assert("jpg"@ != "svg"@) by {
            assert("jpg"@[0] != "svg"@[0]);
        }
    }
}

/// Each displayable kind is given to exactly the extensions of its set, the
/// three sets do not overlap, and every other extension is invalid.
pub proof fn lemma_classification_coverage(ext: Seq<char>)
    ensures
        content_type_of_lowercase(ext) == ViewerContentType::VectorGraphics
            <==> vector_extensions().contains(ext),
        content_type_of_lowercase(ext) == ViewerContentType::Image
            <==> image_extensions().contains(ext),
        content_type_of_lowercase(ext) == ViewerContentType::Video
            <==> video_extensions().contains(ext),
        content_type_of_lowercase(ext) == ViewerContentType::Invalid <==> !(
        vector_extensions().contains(ext) || image_extensions().contains(ext)
            || video_extensions().contains(ext)),
{
    reveal_strlit("svg");
    reveal_strlit("png");
    reveal_strlit("jpg");
    reveal_strlit("jpeg");
    reveal_strlit("webp");
    reveal_strlit("heic");
    reveal_strlit("heif");
    reveal_strlit("mp4");
    reveal_strlit("webm");
    reveal_strlit("mkv");
    reveal_strlit("mov");
    reveal_strlit("avi");
    reveal_strlit("gif");
    lemma_extension_sets_disjoint(ext);
}

proof fn lemma_extension_sets_disjoint(ext: Seq<char>)
    ensures
        vector_extensions().contains(ext) ==> !image_extensions().contains(ext),
        vector_extensions().contains(ext) ==> !video_extensions().contains(ext),
        image_extensions().contains(ext) ==> !video_extensions().contains(ext),
{
    reveal_strlit("svg");
    reveal_strlit("png");
    reveal_strlit("jpg");
    reveal_strlit("jpeg");
    reveal_strlit("webp");
    reveal_strlit("heic");
    reveal_strlit("heif");
    reveal_strlit("mp4");
    reveal_strlit("webm");
    reveal_strlit("mkv");
    reveal_strlit("mov");
    reveal_strlit("avi");
    reveal_strlit("gif");
    if vector_extensions().contains(ext) {
        assert(ext[0] == 's');
    }
    if image_extensions().contains(ext) {
        assert(ext[0] == 'p' || ext[0] == 'j' || ext[0] == 'w' || ext[0] == 'h');
    }
    if video_extensions().contains(ext) {
        assert(ext[0] == 'm' || ext[0] == 'w' || ext[0] == 'a' || ext[0] == 'g');
        if ext[0] == 'w' {
            assert(ext == "webm"@);
            assert(ext[3] != "webp"@[3]);
        }
    }
}

} // verus!
