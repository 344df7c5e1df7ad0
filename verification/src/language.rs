//! The language of a file, told from the extension of its name.

use crate::path::{extension, file_extension, text_of};
use vstd::prelude::*;
use vstd::string::*;

verus! {

/// The language that the extension `ext` stands for. The comparison is exact:
/// an extension in another case stands for none.
pub open spec fn language_of(ext: Seq<char>) -> Option<Seq<char>> {
    if ext == "js"@ || ext == "jsx"@ {
        Some("javascript"@)
    } else if ext == "ts"@ || ext == "tsx"@ {
        Some("typescript"@)
    } else if ext == "rs"@ {
        Some("rust"@)
    } else if ext == "py"@ {
        Some("python"@)
    } else if ext == "json"@ {
        Some("json"@)
    } else if ext == "html"@ {
        Some("html"@)
    } else if ext == "css"@ {
        Some("css"@)
    } else if ext == "md"@ {
        Some("markdown"@)
    } else {
        None
    }
}

/// The language of the file named by `filename`: that of its extension,
/// none where it has no extension.
pub open spec fn detected_language(filename: Seq<char>) -> Option<Seq<char>> {
    match extension(filename) {
        Some(ext) => language_of(ext),
        None => None,
    }
}

/// Whether `text` reads `literal`.
fn reads(text: &String, literal: &str) -> (b: bool)
    ensures
        b == (text@ == literal@),
{
    let other = String::from_str(literal);
    *text == other
}

/// The language that the extension `ext` stands for.
pub fn language_for_extension(ext: &String) -> (out: Option<String>)
    ensures
        text_of(out) == language_of(ext@),
{
    if reads(ext, "js") || reads(ext, "jsx") {
        Some(String::from_str("javascript"))
    } else if reads(ext, "ts") || reads(ext, "tsx") {
        Some(String::from_str("typescript"))
    } else if reads(ext, "rs") {
        Some(String::from_str("rust"))
    } else if reads(ext, "py") {
        Some(String::from_str("python"))
    } else if reads(ext, "json") {
        Some(String::from_str("json"))
    } else if reads(ext, "html") {
        Some(String::from_str("html"))
    } else if reads(ext, "css") {
        Some(String::from_str("css"))
    } else if reads(ext, "md") {
        Some(String::from_str("markdown"))
    } else {
        None
    }
}

/// The language of the file named by `filename`, told once from its
/// extension.
pub fn detect_language(filename: &str) -> (out: Option<String>)
    ensures
        text_of(out) == detected_language(filename@),
{
    match file_extension(filename) {
        Some(ext) => language_for_extension(&ext),
        None => None,
    }
}

} // verus!
