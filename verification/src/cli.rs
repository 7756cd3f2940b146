//! The options of each command, and what each command computes from them
//! and from the content that its caller has read.

use crate::b64::is_base64_string;
use crate::b64::decode_signature;
use crate::b64::decoded;
use crate::b64::encode_signature;
use crate::b64::encoded;
use crate::b64::encoded_len;
use crate::b64::process_decode;
use crate::b64::process_encode;
use crate::b64::trimmed;
use crate::b64::unpadded_len;
use crate::b64::url_safe_bytes;
use crate::b64::url_safe_text;
use crate::b64::Base64Format;
use crate::csv_convert::csv_outcome;
use crate::csv_convert::process_csv;
use crate::csv_convert::table;
use crate::error::CliError;
use crate::gen_pass::all_chars_of;
use crate::gen_pass::class_count;
use crate::gen_pass::has_char_of;
use crate::gen_pass::pool;
use crate::gen_pass::process_genpass;
use crate::gen_pass::LOWER;
use crate::gen_pass::NUMBER;
use crate::gen_pass::SYMBOL;
use crate::gen_pass::UPPER;
use crate::text::process_text_key_generate;
use crate::text::process_text_sign;
use crate::text::process_text_verify;
use crate::text::sign_outcome;
use crate::text::signed_by;
use crate::text::verify_outcome;
use crate::text::ContentStream;
use crate::text::KeyMaterial;
use crate::text::TextSignFormat;
use crate::utils::str_eq;
use vstd::prelude::*;
use vstd::string::StringExecFns;

pub use crate::utils::verify_file;
pub use crate::utils::verify_path;

verus! {

/// Checks an input file argument, given whether a file of that name
/// exists: it passes if the file exists, and is handed back as it came.
pub fn verify_input_file(filename: &str, exists: bool) -> (r: Result<String, &'static str>)
    ensures
        exists ==> r is Ok && r->Ok_0@ == filename@,
        !exists ==> r is Err && r->Err_0@ == "File docs not exist"@,
{
    if exists {
        Ok(filename.to_owned())
    } else {
        Err("File docs not exist")
    }
}

/// The formats a table can be written in.
#[derive(Debug, Clone, Copy, PartialEq, Eq, Structural)]
pub enum OutputFormat {
    Json,
    Yaml,
    Toml,
}

/// The format that `text` names, if it names one.
pub open spec fn named_output_format(text: Seq<char>) -> Option<OutputFormat> {
    if text == "json"@ {
        Some(OutputFormat::Json)
    } else if text == "yaml"@ {
        Some(OutputFormat::Yaml)
    } else if text == "toml"@ {
        Some(OutputFormat::Toml)
    } else {
        None
    }
}

impl OutputFormat {
    /// Reads a format's name: `json`, `yaml` or `toml`, in exactly these
    /// letters. Any other text is refused as `InvalidFormat`.
    pub fn from_str(s: &str) -> (r: Result<OutputFormat, CliError>)
        ensures
            match named_output_format(s@) {
                Some(format) => r == Ok::<OutputFormat, CliError>(format),
                None => r == Err::<OutputFormat, CliError>(CliError::InvalidFormat),
            },
    {
        if str_eq(s, "json") {
            Ok(OutputFormat::Json)
        } else if str_eq(s, "yaml") {
            Ok(OutputFormat::Yaml)
        } else if str_eq(s, "toml") {
            Ok(OutputFormat::Toml)
        } else {
            Err(CliError::InvalidFormat)
        }
    }
}

impl From<OutputFormat> for &'static str {
    /// The format's name, as `OutputFormat::from_str` reads it.
    fn from(value: OutputFormat) -> (name: Self) {
        match value {
            OutputFormat::Json => "json",
            OutputFormat::Yaml => "yaml",
            OutputFormat::Toml => "toml",
        }
    }
}

impl vstd::std_specs::convert::FromSpecImpl<OutputFormat> for &'static str {
    open spec fn obeys_from_spec() -> bool {
        true
    }

    open spec fn from_spec(value: OutputFormat) -> Self {
        match value {
            OutputFormat::Json => "json",
            OutputFormat::Yaml => "yaml",
            OutputFormat::Toml => "toml",
        }
    }
}

/// The options of the table conversion.
#[derive(Debug, Clone, PartialEq, Eq)]
pub struct CsvOpts {
    /// The file to read the table from.
    pub input: String,
    /// The file to write to, if one is given.
    pub output: Option<String>,
    /// The format to write.
    pub format: OutputFormat,
    /// The sign between two fields of a line.
    pub delimiter: char,
    /// Whether the first line names the columns.
    pub header: bool,
}

impl CsvOpts {
    /// The path that `output_path` gives.
    pub open spec fn spec_output_path(&self) -> Seq<char> {
        match self.output {
            Some(path) => path@,
            None => "output."@ + <&'static str as vstd::std_specs::convert::FromSpec<
                OutputFormat,
            >>::from_spec(self.format)@,
        }
    }

    /// The file that the converted table is written to: the one given, or
    /// else `output.` followed by the name of the format.
    pub fn output_path(&self) -> (path: String)
        ensures
            path@ == self.spec_output_path(),
    {
        match &self.output {
            Some(path) => path.clone(),
            None => {
                let name: &'static str = self.format.into();
                String::from_str("output.").concat(name)
            },
        }
    }

    /// Converts the table that was read from the input, given as the names
    /// of its columns and its lines, and gives the file to write and the
    /// text to write into it.
    pub fn execute(&self, headers: &Vec<String>, records: &Vec<Vec<String>>) -> (r: Result<
        (String, String),
        CliError,
    >)
        ensures
            match csv_outcome(table(headers@, records@), self.format) {
                Ok(text) => r is Ok && r->Ok_0.0@ == self.spec_output_path() && r->Ok_0.1@ == text,
                Err(e) => r == Err::<(String, String), CliError>(e),
            },
    {
        match process_csv(headers, records, self.format) {
            Ok(text) => Ok((self.output_path(), text)),
            Err(e) => Err(e),
        }
    }
}

/// The options of the password generator.
#[derive(Debug, Clone, Copy, PartialEq, Eq, Structural)]
pub struct GenPassOpts {
    /// How many characters to draw beyond the one of each chosen class.
    pub length: u8,
    /// Whether capital letters may occur.
    pub uppercase: bool,
    /// Whether small letters may occur.
    pub lowercase: bool,
    /// Whether digits may occur.
    pub number: bool,
    /// Whether punctuation marks may occur.
    pub symbol: bool,
}

impl Default for GenPassOpts {
    /// Length 16, with all four classes.
    fn default() -> (opts: Self)
        ensures
            opts == (GenPassOpts {
                length: 16,
                uppercase: true,
                lowercase: true,
                number: true,
                symbol: true,
            }),
    {
        GenPassOpts { length: 16, uppercase: true, lowercase: true, number: true, symbol: true }
    }
}

impl GenPassOpts {
    /// Whether there is something to draw the asked number of characters
    /// from: some class is chosen, or no character is asked for.
    pub open spec fn spec_can_generate(&self) -> bool {
        self.length == 0 || self.uppercase || self.lowercase || self.number || self.symbol
    }

    /// Whether a password can be generated from these options.
    #[verifier::when_used_as_spec(spec_can_generate)]
    pub fn can_generate(&self) -> (can: bool)
        ensures
            can == self.spec_can_generate(),
    {
        self.length == 0 || self.uppercase || self.lowercase || self.number || self.symbol
    }

    /// Generates a random password for these options: as `process_genpass`
    /// does.
    pub fn execute(&self) -> (password: String)
        requires
            self.spec_can_generate(),
        ensures
            password@.len() == self.length + class_count(
                self.uppercase,
                self.lowercase,
                self.number,
                self.symbol,
            ),
            all_chars_of(password@, pool(self.uppercase, self.lowercase, self.number, self.symbol)),
            self.uppercase ==> has_char_of(password@, UPPER@),
            self.lowercase ==> has_char_of(password@, LOWER@),
            self.number ==> has_char_of(password@, NUMBER@),
            self.symbol ==> has_char_of(password@, SYMBOL@),
    {
        process_genpass(self.length, self.uppercase, self.lowercase, self.number, self.symbol)
    }
}

/// The options of the base64 encoder.
#[derive(Debug, Clone, PartialEq, Eq)]
pub struct Base64EncodeOpts {
    /// The file to read, or `-` for standard input.
    pub input: String,
    /// The alphabet to write.
    pub format: Base64Format,
}

impl Base64EncodeOpts {
    /// The base64 text of the content that was read from the input.
    pub fn execute(&self, content: &[u8]) -> (text: String)
        ensures
            text@ == encoded(self.format, content@),
            is_base64_string(self.format, text@),
            text@.len() == encoded_len(self.format, content@.len()),
    {
        process_encode(content, self.format)
    }
}

/// The options of the base64 decoder.
#[derive(Debug, Clone, PartialEq, Eq)]
pub struct Base64DecodeOpts {
    /// The file to read, or `-` for standard input.
    pub input: String,
    /// The alphabet to read.
    pub format: Base64Format,
}

impl Base64DecodeOpts {
    /// The bytes that the text read from the input stands for: as
    /// `process_decode` gives them.
    pub fn execute(&self, text: &str) -> (r: Result<Vec<u8>, CliError>)
        ensures
            match decoded(self.format, trimmed(text@)) {
                Some(bytes) => r is Ok && r->Ok_0@ == bytes,
                None => r == Err::<Vec<u8>, CliError>(CliError::InvalidBase64),
            },
            forall|bytes: Seq<u8>|
                (#[trigger] encoded(self.format, bytes)) == trimmed(text@) ==> r is Ok && r->Ok_0@
                    == bytes,
            !is_base64_string(self.format, trimmed(text@)) ==> r == Err::<Vec<u8>, CliError>(
                CliError::InvalidBase64,
            ),
    {
        process_decode(text, self.format)
    }
}

/// The options of the signing command.
#[derive(Debug, Clone, PartialEq, Eq)]
pub struct TextSignOpts {
    /// The file that holds the content, or `-` for standard input.
    pub input: String,
    /// The file that holds the key.
    pub key: String,
    /// The scheme to sign with.
    pub format: TextSignFormat,
}

impl TextSignOpts {
    /// Signs the content that was read from the input under the key that
    /// was read from the key file, and gives the signature in its text
    /// form.
    pub fn execute(&self, reader: &ContentStream, key: &[u8]) -> (r: Result<String, CliError>)
        ensures
            match sign_outcome(self.format, key@, *reader) {
                Ok(signature) => r is Ok && r->Ok_0@ == url_safe_text(signature),
                Err(e) => r == Err::<String, CliError>(e),
            },
            r is Ok ==> r->Ok_0@.len() == unpadded_len(self.format.spec_signature_len() as nat),
    {
        match process_text_sign(reader, key, self.format) {
            Ok(signature) => Ok(encode_signature(signature.as_slice())),
            Err(e) => Err(e),
        }
    }
}

/// The options of the verifying command.
#[derive(Debug, Clone, PartialEq, Eq)]
pub struct TextVerifyOpts {
    /// The file that holds the content, or `-` for standard input.
    pub input: String,
    /// The file that holds the key.
    pub key: String,
    /// The signature in its text form.
    pub sig: String,
    /// The scheme to verify with.
    pub format: TextSignFormat,
}

impl TextVerifyOpts {
    /// What `execute` gives. A signature text that is malformed is an
    /// error, and is found before the key is looked at; a signature that is
    /// well formed and wrong is `Ok(false)`.
    pub open spec fn outcome(&self, content: ContentStream, key: Seq<u8>) -> Result<bool, CliError> {
        match url_safe_bytes(self.sig@) {
            Some(signature) => verify_outcome(self.format, key, content, signature),
            None => Err(CliError::MalformedSignatureText),
        }
    }

    /// Checks the signature of the options against the content that was
    /// read from the input, under the key that was read from the key file.
    ///
    /// The text that `TextSignOpts::execute` gives for the same content,
    /// under a signing key to which `key` belongs, is always accepted.
    pub fn execute(&self, reader: &ContentStream, key: &[u8]) -> (r: Result<bool, CliError>)
        ensures
            r == self.outcome(*reader, key@),
            forall|signature: Seq<u8>|
                reader matches ContentStream::Bytes(content) && (#[trigger] url_safe_text(
                    signature,
                )) == self.sig@ && signed_by(self.format, key@, content@, signature) ==> r == Ok::<
                    bool,
                    CliError,
                >(true),
    {
        match decode_signature(self.sig.as_str()) {
            Ok(signature) => process_text_verify(reader, key, signature.as_slice(), self.format),
            Err(e) => Err(e),
        }
    }
}

/// The options of the key generator.
#[derive(Debug, Clone, PartialEq, Eq)]
pub struct TextKeyGenerateOpts {
    /// The scheme to generate keys for.
    pub format: TextSignFormat,
    /// The directory to write the key files to.
    pub output: String,
}

/// The key files of `material`, each with the name it is stored under:
/// `blake3.txt` for the shared key; `ed25519.sk` for the private seed, then
/// `ed25519.pk` for the public key.
pub open spec fn key_files_of(material: KeyMaterial) -> Seq<(Seq<char>, Seq<u8>)> {
    match material {
        KeyMaterial::SymmetricMac { key } => seq![("blake3.txt"@, key@)],
        KeyMaterial::AsymmetricSignature { private, public } => seq![
            ("ed25519.sk"@, private@),
            ("ed25519.pk"@, public@),
        ],
    }
}

/// The files of a list, each as its name and its bytes.
pub open spec fn files_view(files: Seq<(&'static str, Vec<u8>)>) -> Seq<(Seq<char>, Seq<u8>)> {
    Seq::new(files.len(), |i: int| (files[i].0@, files[i].1@))
}

impl TextKeyGenerateOpts {
    /// The files in which `material` is stored, private material first.
    pub fn key_files(material: &KeyMaterial) -> (files: Vec<(&'static str, Vec<u8>)>)
        ensures
            files_view(files@) == key_files_of(*material),
    {
        let mut files: Vec<(&'static str, Vec<u8>)> = Vec::new();
        match material {
            KeyMaterial::SymmetricMac { .. } => {
                files.push(("blake3.txt", material.signing_key()));
            },
            KeyMaterial::AsymmetricSignature { .. } => {
                files.push(("ed25519.sk", material.signing_key()));
                files.push(("ed25519.pk", material.verifying_key()));
            },
        }
        assert(files_view(files@) =~= key_files_of(*material));
        files
    }

    /// Generates fresh keys for the scheme of the options and gives the
    /// files to write into the output directory. The only failure is that
    /// of the random source.
    pub fn execute(&self) -> (r: Result<Vec<(&'static str, Vec<u8>)>, CliError>)
        ensures
            r matches Ok(files) ==> exists|material: KeyMaterial|
                material.wf() && material.spec_format() == self.format && files_view(files@)
                    == key_files_of(material),
            r matches Err(e) ==> e == CliError::RandomSourceUnavailable,
    {
        match process_text_key_generate(self.format) {
            Ok(material) => Ok(Self::key_files(&material)),
            Err(e) => Err(e),
        }
    }
}

} // verus!
