//! Command-line toolbox library: text signing and verification, base64
//! transcoding, password generation and the argument rules around them.
//!
//! The library computes; it reads no file and writes none. Its caller reads
//! keys and content and hands them over as bytes, and stores or prints what
//! comes back.

pub mod b64;
pub mod cli;
pub mod csv_convert;
pub mod error;
pub mod gen_pass;
pub mod http_serve;
pub mod primitives;
pub mod text;
pub mod utils;

pub use b64::decode_signature;
pub use b64::encode_signature;
pub use b64::process_decode;
pub use b64::process_encode;
pub use b64::Base64Format;
pub use cli::verify_input_file;
pub use cli::Base64DecodeOpts;
pub use cli::Base64EncodeOpts;
pub use cli::CsvOpts;
pub use cli::GenPassOpts;
pub use cli::OutputFormat;
pub use cli::TextKeyGenerateOpts;
pub use cli::TextSignOpts;
pub use cli::TextVerifyOpts;
pub use csv_convert::process_csv;
pub use error::CliError;
pub use gen_pass::process_genpass;
pub use http_serve::file_response;
pub use http_serve::FileProbe;
pub use text::key_material_of_draw;
pub use text::process_text_key_generate;
pub use text::process_text_sign;
pub use text::process_text_verify;
pub use text::ContentStream;
pub use text::KeyMaterial;
pub use text::TextSignFormat;
pub use utils::verify_file;
pub use utils::verify_path;
