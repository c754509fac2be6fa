//! Guest-side runtime for exposing typed functions to a host across a
//! numeric-only isolation boundary.
//!
//! The crate is split by concern:
//!
//! * [`memory`]: the registry of blocks that are held by the host, with the
//!   single-ownership discipline of the boundary.
//! * [`record`]: the eight-byte record that packs a block's address and length.
//! * [`codec`]: structured values to and from their binary form.
//! * [`boundary`]: values across the boundary, and the run of one invocation.
//! * [`resumable`]: the two-state `Pause`/`Ready` result and its
//!   short-circuiting composition.
//! * [`descriptor`], [`synth`], [`render`]: function descriptors, their
//!   validation, and the synthesis of entry points from them.
//! * [`literal`]: string literals in the generated source text.
//! * [`exports`]: the table of exported names.
//! * [`schema`]: the schemas that introspection reports.
//! * [`host`]: the decisions of the host call surface.
//! * [`request`]: the records of the outbound request surface.
//! * [`text`]: the operations on text that the rest is stated over.
pub mod boundary;
pub mod codec;
pub mod descriptor;
pub mod exports;
pub mod host;
pub mod literal;
pub mod memory;
pub mod protocol;
pub mod record;
pub mod render;
pub mod request;
pub mod resumable;
pub mod schema;
pub mod synth;
pub mod text;

pub use codec::{decode_value, encode_value, DecodeError, EncodeError};
pub use descriptor::{
    Attribute, AttributeMeta, AttributeValue, FnArg, FnDescriptor, GenericArgument,
    PathArguments, PathSegment, Pattern, ReturnType, TypeExpr, TypeShape,
};
pub use boundary::{
    invoke, mprint, panic_message, value_from_host, value_to_host, BoundaryError,
};
pub use exports::ExportTable;
pub use host::{pause, pause_millis, prompt, prompt_with_schema, PromptError};
pub use memory::{
    bytes_from_host, record_to_host, unforget, vec_parts_from_host, vec_parts_to_host,
    wasm_alloc, GuestMemory, MemoryError,
};
pub use record::{pack_parts, unpack_parts};
pub use request::{
    HostRequestResponse, HostRequestType, RequestBuilder, RequestIn, RequestOut,
};
pub use resumable::Resumable;
pub use schema::{derive_schema, fn_info, FieldSchema, FnInfo, Schema, SchemaKind};
pub use synth::{
    extract_doc, middle_fn_inner, middle_workflow_inner, EntryKind, EnvelopeField, Generated,
    SynthesisError,
};
