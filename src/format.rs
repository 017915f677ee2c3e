//! The `X-Format` header and the template file name built from it.

use vstd::prelude::*;
use crate::code::{
    all_digits, canonical_code, is_code_text, is_digit, requested_code,
    string_view, text_view,
};

verus! {

/// The subtype of the media type that `s` spells, as the `mime` crate parses
/// it (lower-cased, without a `+suffix`), or `None` where it is not a media type.
pub uninterp spec fn media_subtype(s: Seq<char>) -> Option<Seq<char>>;

/// Relies on `mime::Mime::from_str`, `Mime::subtype` and `Name::as_str`:
/// whether a text parses, and to which subtype, depends on the text alone.
#[verifier::external_body]
fn parse_media_subtype(s: &str) -> (r: Option<String>)
    ensures
        string_view(r) == media_subtype(s@),
{
    match s.parse::<mime::Mime>() {
        Ok(m) => Some(m.subtype().as_str().to_string()),
        Err(_) => None,
    }
}

/// The subtype served when `X-Format` is absent, not text, or not a media type.
pub open spec fn default_subtype() -> Seq<char> {
    seq!['h', 't', 'm', 'l']
}

pub open spec fn is_separator(c: char) -> bool {
    c == '/' || c == '\\' || c == '\0'
}

/// Whether `t` is a single path segment that is not `..`: no separator, and
/// not the segment that leads to the parent directory.
pub open spec fn is_safe_name(t: Seq<char>) -> bool {
    &&& forall|i: int| 0 <= i < t.len() ==> !is_separator(#[trigger] t[i])
    &&& t != seq!['.', '.']
}

/// The subtype used for the file name, given what parsing `X-Format` gave.
pub open spec fn chosen_subtype(parsed: Option<Seq<char>>) -> Seq<char> {
    match parsed {
        Some(t) => if is_safe_name(t) {
            t
        } else {
            default_subtype()
        },
        None => default_subtype(),
    }
}

/// The subtype that a request asks for, given its `X-Format` header as text
/// (`None` when the header is absent or is not text).
pub open spec fn requested_subtype(h: Option<Seq<char>>) -> Seq<char> {
    match h {
        Some(s) => chosen_subtype(media_subtype(s)),
        None => default_subtype(),
    }
}

/// The file name `{code}.{subtype}`.
pub open spec fn file_name(code: Seq<char>, subtype: Seq<char>) -> Seq<char> {
    code + seq!['.'] + subtype
}

/// What became of a header: used, absent, or rejected for its default.
#[derive(PartialEq, Eq, Structural, Clone, Copy, Debug)]
pub enum HeaderUse {
    Used,
    Absent,
    Rejected,
}

/// What became of `X-Code`, given as text (`None` when absent or not text).
pub open spec fn code_use(h: Option<Seq<char>>) -> HeaderUse {
    match h {
        Some(s) => if is_code_text(s) {
            HeaderUse::Used
        } else {
            HeaderUse::Rejected
        },
        None => HeaderUse::Absent,
    }
}

/// What became of `X-Format`, given as text (`None` when absent or not text):
/// rejected where it is not a media type or its subtype is not a safe name.
pub open spec fn format_use(h: Option<Seq<char>>) -> HeaderUse {
    match h {
        Some(s) => match media_subtype(s) {
            Some(t) => if is_safe_name(t) {
                HeaderUse::Used
            } else {
                HeaderUse::Rejected
            },
            None => HeaderUse::Rejected,
        },
        None => HeaderUse::Absent,
    }
}

/// The template that the two headers select, and what became of each header.
pub struct Selection {
    pub name: String,
    pub code: HeaderUse,
    pub format: HeaderUse,
}

/// Every subtype that can be chosen is a safe name.
pub proof fn lemma_chosen_subtype_safe(parsed: Option<Seq<char>>)
    ensures
        is_safe_name(chosen_subtype(parsed)),
{
    assert(default_subtype() != seq!['.', '.']);
}

/// A file name built from a code of digits and a safe subtype is itself a
/// safe name: it names an entry right inside the directory it is joined onto.
pub proof fn lemma_file_name_safe(code: Seq<char>, t: Seq<char>)
    requires
        code.len() > 0,
        all_digits(code),
        is_safe_name(t),
    ensures
        is_safe_name(file_name(code, t)),
{
    let n = file_name(code, t);
    assert forall|i: int| 0 <= i < n.len() implies !is_separator(#[trigger] n[i]) by {
        if i < code.len() {
            assert(is_digit(code[i]));
        } else if i > code.len() {
            assert(n[i] == t[i - code.len() - 1]);
        }
    }
    assert(is_digit(code[0]));
    assert(n[0] == code[0]);
    assert(seq!['.', '.'][0] == '.');
}

/// Whether `t` is free of separators and is not `..`.
pub fn is_safe(t: &str) -> (r: bool)
    ensures
        r == is_safe_name(t@),
{
    let len = t.unicode_len();
    let mut i: usize = 0;
    let mut dots: usize = 0;
    while i < len
        invariant
            i <= len,
            len == t@.len(),
            forall|j: int| 0 <= j < i ==> !is_separator(#[trigger] t@[j]),
            dots <= i,
            dots == i <==> forall|j: int| 0 <= j < i ==> #[trigger] t@[j] == '.',
        decreases len - i,
    {
        let c = t.get_char(i);
        if c == '/' || c == '\\' || c == '\0' {
            return false;
        }
        if c == '.' && dots == i {
            dots = dots + 1;
        }
        i = i + 1;
    }
    if len == 2 && dots == 2 {
        assert(t@ =~= seq!['.', '.']);
        false
    } else {
        proof {
            if t@ == seq!['.', '.'] {
                assert(t@[0] == '.' && t@[1] == '.');
            }
        }
        true
    }
}

/// Joins a code and a subtype into the file name `{code}.{subtype}`.
fn join_name(code: &str, subtype: &str) -> (r: String)
    ensures
        r@ == file_name(code@, subtype@),
{
    proof {
        reveal_strlit(".");
    }
    let mut name = String::from_str(code);
    name.append(".");
    name.append(subtype);
    name
}

/// The template file name for a code of digits and the result of parsing
/// `X-Format` (`None` where the header is absent or is not a media type).
pub fn file_name_for(code: &str, parsed: Option<String>) -> (r: String)
    requires
        code@.len() > 0,
        all_digits(code@),
    ensures
        r@ == file_name(code@, chosen_subtype(string_view(parsed))),
{
    proof {
        reveal_strlit("html");
    }
    match parsed {
        Some(t) => if is_safe(t.as_str()) {
            join_name(code, t.as_str())
        } else {
            join_name(code, "html")
        },
        None => join_name(code, "html"),
    }
}

/// The template that the `X-Code` and `X-Format` headers select, each given
/// as text (`None` when absent or not text), with what became of each header.
pub fn select_template(code_header: Option<&str>, format_header: Option<&str>) -> (r: Selection)
    ensures
        r.name@ == file_name(
            requested_code(text_view(code_header)),
            requested_subtype(text_view(format_header)),
        ),
        r.code == code_use(text_view(code_header)),
        r.format == format_use(text_view(format_header)),
{
    proof {
        reveal_strlit("404");
        reveal_strlit("html");
    }
    let (code_text, code) = match code_header {
        Some(s) => match canonical_code(s) {
            Some(c) => (c, HeaderUse::Used),
            None => (String::from_str("404"), HeaderUse::Rejected),
        },
        None => (String::from_str("404"), HeaderUse::Absent),
    };
    let parsed = match format_header {
        Some(f) => parse_media_subtype(f),
        None => None,
    };
    let (subtype, format) = match &parsed {
        Some(t) => if is_safe(t.as_str()) {
            (t.as_str(), HeaderUse::Used)
        } else {
            ("html", HeaderUse::Rejected)
        },
        None => if format_header.is_some() {
            ("html", HeaderUse::Rejected)
        } else {
            ("html", HeaderUse::Absent)
        },
    };
    let name = join_name(code_text.as_str(), subtype);
    Selection { name, code, format }
}

/// The template file name that the `X-Code` and `X-Format` headers select,
/// each given as text (`None` when absent or not text).
pub fn template_name(code_header: Option<&str>, format_header: Option<&str>) -> (r: String)
    ensures
        r@ == file_name(
            requested_code(text_view(code_header)),
            requested_subtype(text_view(format_header)),
        ),
{
    select_template(code_header, format_header).name
}

} // verus!
