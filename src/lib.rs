//! Default backend for an ingress proxy: picks a pre-rendered error page
//! from the `X-Code` and `X-Format` request headers.

pub mod code;
pub mod format;
pub mod laws;
pub mod service;

pub use code::{canonical_code, code_from_header};
pub use format::{file_name_for, is_safe, select_template, template_name, HeaderUse, Selection};
pub use service::{is_root, respond, MakeSvc, Reply, Svc, STATUS_NOT_FOUND, STATUS_OK};
