//! The responder: which template a request selects, and the reply built
//! from what reading it gave.

use vstd::prelude::*;
use std::path::PathBuf;
use crate::code::{requested_code, string_view, text_view};
use crate::format::{
    code_use, file_name, format_use, requested_subtype, select_template, Selection,
};

verus! {

#[verifier::external_type_specification]
#[verifier::external_body]
pub struct ExPathBuf(PathBuf);

/// The status of a reply whose body is a template.
pub const STATUS_OK: u16 = 200;

/// The status of a reply with an empty body.
pub const STATUS_NOT_FOUND: u16 = 404;

/// The template file that a request selects: `None` for any path but `/`,
/// else `{code}.{subtype}` from the two headers.
pub open spec fn selected_template(
    path: Seq<char>,
    code_header: Option<Seq<char>>,
    format_header: Option<Seq<char>>,
) -> Option<Seq<char>> {
    if path == seq!['/'] {
        Some(file_name(requested_code(code_header), requested_subtype(format_header)))
    } else {
        None
    }
}

pub open spec fn reply_status(contents: Option<Seq<u8>>) -> u16 {
    if contents is Some {
        STATUS_OK
    } else {
        STATUS_NOT_FOUND
    }
}

pub open spec fn reply_body(contents: Option<Seq<u8>>) -> Seq<u8> {
    match contents {
        Some(b) => b,
        None => Seq::empty(),
    }
}

/// What reading a template gives, where `files` maps the name of each
/// readable file right under the templates directory to its contents.
pub open spec fn read_template(files: Map<Seq<char>, Seq<u8>>, name: Option<Seq<char>>) -> Option<
    Seq<u8>,
> {
    match name {
        Some(n) => if files.contains_key(n) {
            Some(files[n])
        } else {
            None
        },
        None => None,
    }
}

/// The status and body of the reply to a request, over a directory whose
/// readable files are `files`.
pub open spec fn response(
    files: Map<Seq<char>, Seq<u8>>,
    path: Seq<char>,
    code_header: Option<Seq<char>>,
    format_header: Option<Seq<char>>,
) -> (u16, Seq<u8>) {
    let contents = read_template(files, selected_template(path, code_header, format_header));
    (reply_status(contents), reply_body(contents))
}

/// A reply: a status and a body.
pub struct Reply {
    pub status: u16,
    pub body: Vec<u8>,
}

/// The reply to a request, given the contents of its template file, or
/// `None` where no template was selected or it could not be read.
pub fn respond(contents: Option<Vec<u8>>) -> (r: Reply)
    ensures
        r.status == reply_status(match contents {
            Some(b) => Some(b@),
            None => None,
        }),
        r.body@ == reply_body(match contents {
            Some(b) => Some(b@),
            None => None,
        }),
{
    match contents {
        Some(body) => Reply { status: STATUS_OK, body },
        None => Reply { status: STATUS_NOT_FOUND, body: Vec::new() },
    }
}

/// Whether a request path is the root, the one path that is served.
pub fn is_root(path: &str) -> (r: bool)
    ensures
        r == (path@ == seq!['/']),
{
    let len = path.unicode_len();
    if len == 1 {
        let c = path.get_char(0);
        if c == '/' {
            assert(path@ =~= seq!['/']);
        }
        c == '/'
    } else {
        false
    }
}

/// The responder for one templates directory.
pub struct Svc {
    templates_dir: PathBuf,
}

impl Svc {
    pub closed spec fn dir(&self) -> PathBuf {
        self.templates_dir
    }

    pub fn new(templates_dir: PathBuf) -> (r: Self)
        ensures
            r.dir() == templates_dir,
    {
        Self { templates_dir }
    }

    /// The directory that template names are joined onto.
    pub fn templates_dir(&self) -> (r: &PathBuf)
        ensures
            *r == self.dir(),
    {
        &self.templates_dir
    }

    /// The name of the template file, under `templates_dir`, that a request
    /// selects; headers are given as text (`None` when absent or not text).
    /// `None` means the request gets an empty `404` at once.
    pub fn template_for(
        &self,
        path: &str,
        code_header: Option<&str>,
        format_header: Option<&str>,
    ) -> (r: Option<String>)
        ensures
            string_view(r) == selected_template(
                path@,
                text_view(code_header),
                text_view(format_header),
            ),
    {
        match self.selection_for(path, code_header, format_header) {
            Some(selection) => Some(selection.name),
            None => None,
        }
    }

    /// As `template_for`, with what became of each header.
    pub fn selection_for(
        &self,
        path: &str,
        code_header: Option<&str>,
        format_header: Option<&str>,
    ) -> (r: Option<Selection>)
        ensures
            r is None <==> selected_template(
                path@,
                text_view(code_header),
                text_view(format_header),
            ) is None,
            r matches Some(s) ==> {
                &&& selected_template(path@, text_view(code_header), text_view(format_header))
                    == Some(s.name@)
                &&& s.code == code_use(text_view(code_header))
                &&& s.format == format_use(text_view(format_header))
            },
    {
        if is_root(path) {
            Some(select_template(code_header, format_header))
        } else {
            None
        }
    }
}

/// Makes one `Svc` per connection, all on the same templates directory.
pub struct MakeSvc {
    templates_dir: PathBuf,
}

impl MakeSvc {
    pub closed spec fn dir(&self) -> PathBuf {
        self.templates_dir
    }

    pub fn new(templates_dir: PathBuf) -> (r: Self)
        ensures
            r.dir() == templates_dir,
    {
        Self { templates_dir }
    }

    /// The directory handed to each `Svc`.
    pub fn templates_dir(&self) -> (r: &PathBuf)
        ensures
            *r == self.dir(),
    {
        &self.templates_dir
    }
}

} // verus!
