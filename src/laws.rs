//! What holds of every request.

use vstd::prelude::*;
use crate::code::{
    decimal, default_code, is_code_text, lemma_decimal_is_code, lemma_requested_code_canonical,
    requested_code, string_view,
};
use crate::format::{
    default_subtype, file_name, is_safe_name, lemma_chosen_subtype_safe, lemma_file_name_safe,
    media_subtype, requested_subtype,
};
use crate::service::{response, selected_template, STATUS_NOT_FOUND, STATUS_OK};

verus! {

/// A request to any path but `/` gets an empty `404`, whatever its headers.
pub proof fn law_other_paths_not_found(
    files: Map<Seq<char>, Seq<u8>>,
    path: Seq<char>,
    code_header: Option<Seq<char>>,
    format_header: Option<Seq<char>>,
)
    requires
        path != seq!['/'],
    ensures
        response(files, path, code_header, format_header) == (STATUS_NOT_FOUND, Seq::<u8>::empty()),
{
}

/// A request to `/` with `X-Code: n`, for any `n` however large, and an
/// `X-Format` whose subtype is a safe name `t`, where the file `{n}.{t}`
/// exists, gets `200` and that file's bytes.
pub proof fn law_existing_template_served(
    files: Map<Seq<char>, Seq<u8>>,
    n: nat,
    format: Seq<char>,
    t: Seq<char>,
)
    requires
        media_subtype(format) == Some(t),
        is_safe_name(t),
        files.contains_key(file_name(decimal(n), t)),
    ensures
        response(files, seq!['/'], Some(decimal(n)), Some(format)) == (
            STATUS_OK,
            files[file_name(decimal(n), t)],
        ),
{
    lemma_decimal_is_code(n);
}

/// A request without `X-Code` is answered as one with `X-Code: 404`.
pub proof fn law_absent_code_is_default(
    files: Map<Seq<char>, Seq<u8>>,
    path: Seq<char>,
    format_header: Option<Seq<char>>,
)
    ensures
        response(files, path, None, format_header) == response(
            files,
            path,
            Some(default_code()),
            format_header,
        ),
{
    lemma_decimal_is_code(404);
    assert(decimal(404) == default_code()) by {
        reveal_with_fuel(decimal, 3);
    }
}

/// A request whose `X-Code` is not a number is answered as one with
/// `X-Code: 404`.
pub proof fn law_unparseable_code_is_default(
    files: Map<Seq<char>, Seq<u8>>,
    path: Seq<char>,
    code: Seq<char>,
    format_header: Option<Seq<char>>,
)
    requires
        !is_code_text(code),
    ensures
        response(files, path, Some(code), format_header) == response(
            files,
            path,
            Some(default_code()),
            format_header,
        ),
{
    lemma_decimal_is_code(404);
    assert(decimal(404) == default_code()) by {
        reveal_with_fuel(decimal, 3);
    }
}

/// A request without `X-Format`, or with one that is not a media type, is
/// answered as one whose `X-Format` has the subtype `html` (`text/html`).
pub proof fn law_absent_or_unparseable_format_is_html(
    files: Map<Seq<char>, Seq<u8>>,
    path: Seq<char>,
    code_header: Option<Seq<char>>,
    format: Seq<char>,
    html_format: Seq<char>,
)
    requires
        media_subtype(format) is None,
        media_subtype(html_format) == Some(default_subtype()),
    ensures
        response(files, path, code_header, None) == response(
            files,
            path,
            code_header,
            Some(format),
        ),
        response(files, path, code_header, None) == response(
            files,
            path,
            code_header,
            Some(html_format),
        ),
{
    lemma_chosen_subtype_safe(None);
}

/// Where no file `{code}.{subtype}` exists for what a request selects, it
/// gets an empty `404`.
pub proof fn law_missing_template_not_found(
    files: Map<Seq<char>, Seq<u8>>,
    path: Seq<char>,
    code_header: Option<Seq<char>>,
    format_header: Option<Seq<char>>,
)
    requires
        !files.contains_key(
            file_name(requested_code(code_header), requested_subtype(format_header)),
        ),
    ensures
        response(files, path, code_header, format_header) == (STATUS_NOT_FOUND, Seq::<u8>::empty()),
{
}

/// Two template choices for the same request are the same: nothing that a
/// request does changes what the next one gets.
pub proof fn law_same_request_same_template(
    first: Option<String>,
    second: Option<String>,
    path: Seq<char>,
    code_header: Option<Seq<char>>,
    format_header: Option<Seq<char>>,
)
    requires
        string_view(first) == selected_template(path, code_header, format_header),
        string_view(second) == selected_template(path, code_header, format_header),
    ensures
        string_view(first) == string_view(second),
{
}

/// A selected template is always a plain name right inside the templates
/// directory: a name that holds no separator and is not `..`.
pub proof fn law_template_stays_inside(
    path: Seq<char>,
    code_header: Option<Seq<char>>,
    format_header: Option<Seq<char>>,
)
    ensures
        selected_template(path, code_header, format_header) matches Some(n) ==> is_safe_name(n),
{
    let parsed = match format_header {
        Some(f) => media_subtype(f),
        None => None,
    };
    lemma_chosen_subtype_safe(parsed);
    lemma_chosen_subtype_safe(None);
    lemma_requested_code_canonical(code_header);
    lemma_file_name_safe(requested_code(code_header), requested_subtype(format_header));
}

/// An `X-Format` whose subtype is not a safe name (one with a separator,
/// or `..` itself) is answered as a request without `X-Format`.
pub proof fn law_unsafe_subtype_is_default(
    files: Map<Seq<char>, Seq<u8>>,
    path: Seq<char>,
    code_header: Option<Seq<char>>,
    format: Seq<char>,
    t: Seq<char>,
)
    requires
        media_subtype(format) == Some(t),
        !is_safe_name(t),
    ensures
        response(files, path, code_header, Some(format)) == response(
            files,
            path,
            code_header,
            None,
        ),
{
}

} // verus!
