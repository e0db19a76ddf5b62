//! Filename-extension to content-type lookup: a fixed, pure table.
//!
//! The extension is the part of the filename after the last `.`, compared
//! case-insensitively (ASCII); a filename without a `.`, or with an
//! unrecognized extension, resolves to `application/octet-stream`.

use vstd::prelude::*;

use crate::text::spec_lower;
use crate::text::eq_lower;

verus! {

/// Index of the last occurrence of `c` in `s`, or `-1` if absent.
pub open spec fn find_last(s: Seq<char>, c: char) -> int
    decreases s.len(),
{
    if s.len() == 0 {
        -1
    } else if s[s.len() - 1] == c {
        s.len() - 1
    } else {
        find_last(s.drop_last(), c)
    }
}

fn find_last_char(s: &str, c: char) -> (r: Option<usize>)
    ensures
        match r {
            Some(i) => i == find_last(s@, c) && i < s@.len(),
            None => find_last(s@, c) == -1,
        },
    decreases s@.len(),
{
    let len = s.unicode_len();
    if len == 0 {
        None
    } else if s.get_char(len - 1) == c {
        Some(len - 1)
    } else {
        let rest = s.substring_char(0, len - 1);
        proof {
            assert(rest@ =~= s@.drop_last());
        }
        find_last_char(rest, c)
    }
}

/// Content type for a lowercased extension; unknown extensions resolve to
/// `application/octet-stream`.
pub open spec fn spec_mime_of(ext: Seq<char>) -> Seq<char> {
    if ext == "aac"@ { "audio/aac"@ }
    else if ext == "abw"@ { "application/x-abiword"@ }
    else if ext == "avi"@ { "video/x-msvideo"@ }
    else if ext == "azw"@ { "application/vnd.amazon.ebook"@ }
    else if ext == "bmp"@ { "image/bmp"@ }
    else if ext == "bz"@ { "application/x-bzip"@ }
    else if ext == "bz2"@ { "application/x-bzip2"@ }
    else if ext == "csh"@ { "application/x-csh"@ }
    else if ext == "css"@ { "text/css"@ }
    else if ext == "csv"@ { "text/csv"@ }
    else if ext == "doc"@ { "application/msword"@ }
    else if ext == "docx"@ { "application/vnd.openxmlformats-officedocument.wordprocessingml.document"@ }
    else if ext == "eot"@ { "application/vnd.ms-fontobject"@ }
    else if ext == "epub"@ { "application/epub+zip"@ }
    else if ext == "es"@ { "application/ecmascript"@ }
    else if ext == "gif"@ { "image/gif"@ }
    else if ext == "html"@ { "text/html"@ }
    else if ext == "htm"@ { "text/html"@ }
    else if ext == "ico"@ { "image/x-icon"@ }
    else if ext == "ics"@ { "text/calendar"@ }
    else if ext == "jar"@ { "application/java-archive"@ }
    else if ext == "jpeg"@ { "image/jpeg"@ }
    else if ext == "jpg"@ { "image/jpg"@ }
    else if ext == "js"@ { "application/javascript"@ }
    else if ext == "json"@ { "application/json"@ }
    else if ext == "mid"@ { "audo/midi"@ }
    else if ext == "midi"@ { "audo/midi"@ }
    else if ext == "mpeg"@ { "video/mpeg"@ }
    else if ext == "mpkg"@ { "application/vnd.apple.installer+xml"@ }
    else if ext == "odp"@ { "application/vnd.oasis.opendocument.presentation"@ }
    else if ext == "ods"@ { "application/vnd.oasis.opendocument.spreadsheet"@ }
    else if ext == "odt"@ { "application/vnd.oasis.opendocument.text"@ }
    else if ext == "oga"@ { "audio/ogg"@ }
    else if ext == "ogv"@ { "video/ogg"@ }
    else if ext == "ogx"@ { "application/ogg"@ }
    else if ext == "otf"@ { "font/otf"@ }
    else if ext == "png"@ { "image/png"@ }
    else if ext == "pdf"@ { "application/pdf"@ }
    else if ext == "ppt"@ { "application/vnd.ms-powerpoint"@ }
    else if ext == "pptx"@ { "application/vnd.openxmlformats-officedocument.presentationml.presentation"@ }
    else if ext == "rar"@ { "application/x-rar-compressed"@ }
    else if ext == "rtf"@ { "application/rtf"@ }
    else if ext == "sh"@ { "application/x-sh"@ }
    else if ext == "svg"@ { "image/svg+xml"@ }
    else if ext == "swf"@ { "application/x-shockwave-flash"@ }
    else if ext == "tar"@ { "application/x-tar"@ }
    else if ext == "tif"@ { "image/tiff"@ }
    else if ext == "tiff"@ { "image/tiff"@ }
    else if ext == "ts"@ { "application/typescript"@ }
    else if ext == "ttf"@ { "font/ttf"@ }
    else if ext == "txt"@ { "text/plain"@ }
    else if ext == "vsd"@ { "application/vnd.visio"@ }
    else if ext == "wav"@ { "audio/wav"@ }
    else if ext == "weba"@ { "audio/webm"@ }
    else if ext == "webm"@ { "video/webm"@ }
    else if ext == "webp"@ { "image/webp"@ }
    else if ext == "woff"@ { "font/woff"@ }
    else if ext == "woff2"@ { "font/woff2"@ }
    else if ext == "xhtml"@ { "application/xhtml+xml"@ }
    else if ext == "xls"@ { "application/vnd.ms-excel"@ }
    else if ext == "xlsx"@ { "application/vnd.openxmlformats-officedocument.spreadsheetml.sheet"@ }
    else if ext == "xml"@ { "application/xml"@ }
    else if ext == "xul"@ { "application/vnd.mozilla.xul+xml"@ }
    else if ext == "zip"@ { "application/zip"@ }
    else if ext == "3gp"@ { "video/3gpp"@ }
    else if ext == "3g2"@ { "video/3gpp2"@ }
    else if ext == "7z"@ { "application/x-7z-compressed"@ }
    else { "application/octet-stream"@ }
}

/// Content type for a whole filename: the table entry for the lowercased
/// extension after the last `.`, or the default when there is no `.`.
pub open spec fn spec_from_filename(f: Seq<char>) -> Seq<char> {
    let i = find_last(f, '.');
    if i < 0 {
        "application/octet-stream"@
    } else {
        spec_mime_of(spec_lower(f.subrange(i + 1, f.len() as int)))
    }
}

#[verifier::rlimit(50)]
fn mime_lookup(ext: &str) -> (r: String)
    ensures
        r@ == spec_mime_of(spec_lower(ext@)),
{
    if eq_lower(ext, "aac") { "audio/aac".to_owned() }
    else if eq_lower(ext, "abw") { "application/x-abiword".to_owned() }
    else if eq_lower(ext, "avi") { "video/x-msvideo".to_owned() }
    else if eq_lower(ext, "azw") { "application/vnd.amazon.ebook".to_owned() }
    else if eq_lower(ext, "bmp") { "image/bmp".to_owned() }
    else if eq_lower(ext, "bz") { "application/x-bzip".to_owned() }
    else if eq_lower(ext, "bz2") { "application/x-bzip2".to_owned() }
    else if eq_lower(ext, "csh") { "application/x-csh".to_owned() }
    else if eq_lower(ext, "css") { "text/css".to_owned() }
    else if eq_lower(ext, "csv") { "text/csv".to_owned() }
    else if eq_lower(ext, "doc") { "application/msword".to_owned() }
    else if eq_lower(ext, "docx") { "application/vnd.openxmlformats-officedocument.wordprocessingml.document".to_owned() }
    else if eq_lower(ext, "eot") { "application/vnd.ms-fontobject".to_owned() }
    else if eq_lower(ext, "epub") { "application/epub+zip".to_owned() }
    else if eq_lower(ext, "es") { "application/ecmascript".to_owned() }
    else if eq_lower(ext, "gif") { "image/gif".to_owned() }
    else if eq_lower(ext, "html") { "text/html".to_owned() }
    else if eq_lower(ext, "htm") { "text/html".to_owned() }
    else if eq_lower(ext, "ico") { "image/x-icon".to_owned() }
    else if eq_lower(ext, "ics") { "text/calendar".to_owned() }
    else if eq_lower(ext, "jar") { "application/java-archive".to_owned() }
    else if eq_lower(ext, "jpeg") { "image/jpeg".to_owned() }
    else if eq_lower(ext, "jpg") { "image/jpg".to_owned() }
    else if eq_lower(ext, "js") { "application/javascript".to_owned() }
    else if eq_lower(ext, "json") { "application/json".to_owned() }
    else if eq_lower(ext, "mid") { "audo/midi".to_owned() }
    else if eq_lower(ext, "midi") { "audo/midi".to_owned() }
    else if eq_lower(ext, "mpeg") { "video/mpeg".to_owned() }
    else if eq_lower(ext, "mpkg") { "application/vnd.apple.installer+xml".to_owned() }
    else if eq_lower(ext, "odp") { "application/vnd.oasis.opendocument.presentation".to_owned() }
    else if eq_lower(ext, "ods") { "application/vnd.oasis.opendocument.spreadsheet".to_owned() }
    else if eq_lower(ext, "odt") { "application/vnd.oasis.opendocument.text".to_owned() }
    else if eq_lower(ext, "oga") { "audio/ogg".to_owned() }
    else if eq_lower(ext, "ogv") { "video/ogg".to_owned() }
    else if eq_lower(ext, "ogx") { "application/ogg".to_owned() }
    else if eq_lower(ext, "otf") { "font/otf".to_owned() }
    else if eq_lower(ext, "png") { "image/png".to_owned() }
    else if eq_lower(ext, "pdf") { "application/pdf".to_owned() }
    else if eq_lower(ext, "ppt") { "application/vnd.ms-powerpoint".to_owned() }
    else if eq_lower(ext, "pptx") { "application/vnd.openxmlformats-officedocument.presentationml.presentation".to_owned() }
    else if eq_lower(ext, "rar") { "application/x-rar-compressed".to_owned() }
    else if eq_lower(ext, "rtf") { "application/rtf".to_owned() }
    else if eq_lower(ext, "sh") { "application/x-sh".to_owned() }
    else if eq_lower(ext, "svg") { "image/svg+xml".to_owned() }
    else if eq_lower(ext, "swf") { "application/x-shockwave-flash".to_owned() }
    else if eq_lower(ext, "tar") { "application/x-tar".to_owned() }
    else if eq_lower(ext, "tif") { "image/tiff".to_owned() }
    else if eq_lower(ext, "tiff") { "image/tiff".to_owned() }
    else if eq_lower(ext, "ts") { "application/typescript".to_owned() }
    else if eq_lower(ext, "ttf") { "font/ttf".to_owned() }
    else if eq_lower(ext, "txt") { "text/plain".to_owned() }
    else if eq_lower(ext, "vsd") { "application/vnd.visio".to_owned() }
    else if eq_lower(ext, "wav") { "audio/wav".to_owned() }
    else if eq_lower(ext, "weba") { "audio/webm".to_owned() }
    else if eq_lower(ext, "webm") { "video/webm".to_owned() }
    else if eq_lower(ext, "webp") { "image/webp".to_owned() }
    else if eq_lower(ext, "woff") { "font/woff".to_owned() }
    else if eq_lower(ext, "woff2") { "font/woff2".to_owned() }
    else if eq_lower(ext, "xhtml") { "application/xhtml+xml".to_owned() }
    else if eq_lower(ext, "xls") { "application/vnd.ms-excel".to_owned() }
    else if eq_lower(ext, "xlsx") { "application/vnd.openxmlformats-officedocument.spreadsheetml.sheet".to_owned() }
    else if eq_lower(ext, "xml") { "application/xml".to_owned() }
    else if eq_lower(ext, "xul") { "application/vnd.mozilla.xul+xml".to_owned() }
    else if eq_lower(ext, "zip") { "application/zip".to_owned() }
    else if eq_lower(ext, "3gp") { "video/3gpp".to_owned() }
    else if eq_lower(ext, "3g2") { "video/3gpp2".to_owned() }
    else if eq_lower(ext, "7z") { "application/x-7z-compressed".to_owned() }
    else { "application/octet-stream".to_owned() }
}

/// Determine the content type from a filename's extension.
pub fn from_filename(filename: &str) -> (r: String)
    ensures
        r@ == spec_from_filename(filename@),
{
    let len = filename.unicode_len();
    match find_last_char(filename, '.') {
        None => "application/octet-stream".to_owned(),
        Some(i) => {
            let ext = filename.substring_char(i + 1, len);
            mime_lookup(ext)
        },
    }
}

} // verus!
