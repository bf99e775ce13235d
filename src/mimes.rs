//! Media types, and the media type that a file's extension names.
use vstd::prelude::*;
use vstd::string::StrSliceExecFns;
use vstd::string::StringExecFns;
use crate::text::chars_of;

verus! {

/// The media types that file extensions name.
#[derive(PartialEq, Eq, Structural, Clone, Copy, Debug)]
pub enum MediaType {
    Txt,
    Html,
    Css,
    Js,
    Json,
    Xml,
    Png,
    Jpeg,
    Gif,
    Ico,
    Svg,
    Pdf,
    Bin,
}

/// The media type that an extension names.
pub open spec fn media_of(ext: Seq<char>) -> Option<MediaType> {
    if ext == "txt"@ {
        Some(MediaType::Txt)
    } else if ext == "html"@ || ext == "htm"@ {
        Some(MediaType::Html)
    } else if ext == "css"@ {
        Some(MediaType::Css)
    } else if ext == "js"@ {
        Some(MediaType::Js)
    } else if ext == "json"@ {
        Some(MediaType::Json)
    } else if ext == "xml"@ {
        Some(MediaType::Xml)
    } else if ext == "png"@ {
        Some(MediaType::Png)
    } else if ext == "jpg"@ || ext == "jpeg"@ {
        Some(MediaType::Jpeg)
    } else if ext == "gif"@ {
        Some(MediaType::Gif)
    } else if ext == "ico"@ {
        Some(MediaType::Ico)
    } else if ext == "svg"@ {
        Some(MediaType::Svg)
    } else if ext == "pdf"@ {
        Some(MediaType::Pdf)
    } else if ext == "bin"@ {
        Some(MediaType::Bin)
    } else {
        None
    }
}

/// The position of the last `c` among the first `n` characters of `p`, or -1.
pub open spec fn last_index(p: Seq<char>, c: char, n: int) -> int
    decreases n,
{
    if n <= 0 || n > p.len() {
        -1
    } else if p[n - 1] == c {
        n - 1
    } else {
        last_index(p, c, n - 1)
    }
}

/// The last component of a path.
pub open spec fn file_name(p: Seq<char>) -> Seq<char> {
    p.subrange(last_index(p, '/', p.len() as int) + 1, p.len() as int)
}

/// The text after the last `.` of a path's file name, where the name has a
/// `.` after its first character.
pub open spec fn extension(p: Seq<char>) -> Option<Seq<char>> {
    let name = file_name(p);
    let d = last_index(name, '.', name.len() as int);
    if d <= 0 {
        None
    } else {
        Some(name.subrange(d + 1, name.len() as int))
    }
}

proof fn lemma_last_index_bounds(p: Seq<char>, c: char, n: int)
    requires
        0 <= n <= p.len(),
    ensures
        -1 <= last_index(p, c, n) < n,
        last_index(p, c, n) >= 0 ==> p[last_index(p, c, n)] == c,
    decreases n,
{
    if n > 0 && p[n - 1] != c {
        lemma_last_index_bounds(p, c, n - 1);
    }
}

fn find_last(p: &Vec<char>, len: usize, c: char) -> (r: Option<usize>)
    requires
        len == p@.len(),
    ensures
        match r {
            Some(i) => i == last_index(p@, c, len as int),
            None => last_index(p@, c, len as int) == -1,
        },
{
    let mut n: usize = len;
    while n > 0
        invariant
            n <= len,
            len == p@.len(),
            last_index(p@, c, n as int) == last_index(p@, c, len as int),
        decreases n,
    {
        if p[n - 1] == c {
            return Some(n - 1);
        }
        n -= 1;
    }
    None
}

fn same_text(a: &str, b: &str) -> (r: bool)
    ensures
        r == (a@ == b@),
{
    String::from_str(a) == String::from_str(b)
}

impl MediaType {
    /// The media type that extension `ext` names.
    pub fn from_extension(ext: &str) -> (r: Option<MediaType>)
        ensures
            r == media_of(ext@),
    {
        if same_text(ext, "txt") {
            Some(MediaType::Txt)
        } else if same_text(ext, "html") || same_text(ext, "htm") {
            Some(MediaType::Html)
        } else if same_text(ext, "css") {
            Some(MediaType::Css)
        } else if same_text(ext, "js") {
            Some(MediaType::Js)
        } else if same_text(ext, "json") {
            Some(MediaType::Json)
        } else if same_text(ext, "xml") {
            Some(MediaType::Xml)
        } else if same_text(ext, "png") {
            Some(MediaType::Png)
        } else if same_text(ext, "jpg") || same_text(ext, "jpeg") {
            Some(MediaType::Jpeg)
        } else if same_text(ext, "gif") {
            Some(MediaType::Gif)
        } else if same_text(ext, "ico") {
            Some(MediaType::Ico)
        } else if same_text(ext, "svg") {
            Some(MediaType::Svg)
        } else if same_text(ext, "pdf") {
            Some(MediaType::Pdf)
        } else if same_text(ext, "bin") {
            Some(MediaType::Bin)
        } else {
            None
        }
    }

    /// The media type's name, as a `Content-Type` header gives it.
    pub fn as_str(&self) -> &'static str {
        match self {
            MediaType::Txt => "text/plain",
            MediaType::Html => "text/html",
            MediaType::Css => "text/css",
            MediaType::Js => "application/javascript",
            MediaType::Json => "application/json",
            MediaType::Xml => "application/xml",
            MediaType::Png => "image/png",
            MediaType::Jpeg => "image/jpeg",
            MediaType::Gif => "image/gif",
            MediaType::Ico => "image/x-icon",
            MediaType::Svg => "image/svg+xml",
            MediaType::Pdf => "application/pdf",
            MediaType::Bin => "application/octet-stream",
        }
    }
}

/// The media type that the extension of the file name of `path` names.
pub fn mime_from_filename(path: &str) -> (r: Option<MediaType>)
    ensures
        r == match extension(path@) {
            Some(ext) => media_of(ext),
            None => None,
        },
{
    let chars = chars_of(path);
    let len = chars.len();
    let found = find_last(&chars, len, '/');
    proof {
        lemma_last_index_bounds(path@, '/', len as int);
    }
    let start = match found {
        Some(i) => i + 1,
        None => 0,
    };
    let name = path.substring_char(start, len);
    let name_chars = chars_of(name);
    let name_len = name_chars.len();
    let dot = find_last(&name_chars, name_len, '.');
    proof {
        lemma_last_index_bounds(name@, '.', name_len as int);
        assert(name@ == file_name(path@));
    }
    match dot {
        Some(d) if d > 0 => {
            let ext = name.substring_char(d + 1, name_len);
            MediaType::from_extension(ext)
        },
        _ => None,
    }
}

} // verus!
