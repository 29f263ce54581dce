//! A small HTTP/1.1 response model: construction with a fixed status table,
//! and rendering to the exact text that goes on the wire.

mod decimal;
mod header_map;
mod response;
mod sink;

pub use decimal::{decimal, decimal_text, digit_char};
pub use header_map::{names_unique, HeaderMap};
pub use response::{
    body_text, default_headers, header_lines, lemma_absent_body_as_empty, lemma_empty_body_wire,
    lemma_known_status_text, lemma_unknown_status_text, lemma_wire_deterministic, response_model,
    status_line, status_text_of,
    wire_text, HttpResponse, ResponseModel,
};
