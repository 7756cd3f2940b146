//! Writing the lines of a table, each field under the name of its column,
//! as JSON or YAML.

use crate::cli::OutputFormat;
use crate::error::CliError;
use vstd::prelude::*;
use vstd::string::StringExecFns;

verus! {

/// Stands for `serde_json::Error`, with which JSON serialisation fails.
#[verifier::external_type_specification]
#[verifier::external_body]
pub struct ExJsonError(serde_json::Error);

/// Stands for `serde_yaml::Error`, with which YAML serialisation fails.
#[verifier::external_type_specification]
#[verifier::external_body]
pub struct ExYamlError(serde_yaml::Error);

/// A line of a table as the pairs of a column's name and the line's field
/// in that column.
pub type Row = Vec<(String, String)>;

/// The lines of a table, as sequences of pairs of texts.
pub open spec fn rows_view(rows: Seq<Row>) -> Seq<Seq<(Seq<char>, Seq<char>)>> {
    Seq::new(rows.len(), |i: int| row_view(rows[i]@))
}

/// A line of a table, as a sequence of pairs of texts.
pub open spec fn row_view(row: Seq<(String, String)>) -> Seq<(Seq<char>, Seq<char>)> {
    Seq::new(row.len(), |j: int| (row[j].0@, row[j].1@))
}

/// The pretty-printed JSON text of a list of objects, one for each line,
/// each made of the line's pairs; `None` where the serialiser fails.
pub uninterp spec fn json_pretty_text(rows: Seq<Seq<(Seq<char>, Seq<char>)>>) -> Option<Seq<char>>;

/// The YAML text of a list of mappings, one for each line, each made of the
/// line's pairs; `None` where the serialiser fails.
pub uninterp spec fn yaml_text(rows: Seq<Seq<(Seq<char>, Seq<char>)>>) -> Option<Seq<char>>;

/// Calls `serde_json::to_string_pretty` on the list of `serde_json::Value`
/// objects that collecting each line's pairs gives. The contract claims only
/// that the outcome is a function of the lines.
#[verifier::external_body]
fn to_json_pretty(rows: &Vec<Row>) -> (r: Result<String, serde_json::Error>)
    ensures
        r matches Ok(text) ==> json_pretty_text(rows_view(rows@)) == Some(text@),
        r is Err ==> json_pretty_text(rows_view(rows@)) is None,
{
    let values: Vec<serde_json::Value> = rows.iter().map(|row| row.iter().cloned().collect()).collect();
    serde_json::to_string_pretty(&values)
}

/// Calls `serde_yaml::to_string` on the list of `serde_json::Value` objects
/// that collecting each line's pairs gives. The contract claims only that
/// the outcome is a function of the lines.
#[verifier::external_body]
fn to_yaml(rows: &Vec<Row>) -> (r: Result<String, serde_yaml::Error>)
    ensures
        r matches Ok(text) ==> yaml_text(rows_view(rows@)) == Some(text@),
        r is Err ==> yaml_text(rows_view(rows@)) is None,
{
    let values: Vec<serde_json::Value> = rows.iter().map(|row| row.iter().cloned().collect()).collect();
    serde_yaml::to_string(&values)
}

/// The fields of a line under the names of their columns: the first field
/// under the first name and so on, as far as both reach.
pub open spec fn paired(headers: Seq<String>, record: Seq<String>) -> Seq<(Seq<char>, Seq<char>)> {
    Seq::new(
        if headers.len() <= record.len() {
            headers.len()
        } else {
            record.len()
        },
        |j: int| (headers[j]@, record[j]@),
    )
}

/// The lines of a table under the names of its columns.
pub open spec fn table(headers: Seq<String>, records: Seq<Vec<String>>) -> Seq<
    Seq<(Seq<char>, Seq<char>)>,
> {
    Seq::new(records.len(), |i: int| paired(headers, records[i]@))
}

/// Pairs the fields of a line with the names of their columns.
pub fn pair_fields(headers: &Vec<String>, record: &Vec<String>) -> (row: Row)
    ensures
        row_view(row@) == paired(headers@, record@),
{
    let n = if headers.len() <= record.len() {
        headers.len()
    } else {
        record.len()
    };
    let mut row: Row = Vec::new();
    let mut j: usize = 0;
    while j < n
        invariant
            j <= n,
            n <= headers@.len(),
            n <= record@.len(),
            row@.len() == j,
            forall|k: int| 0 <= k < j ==> row@[k].0@ == headers@[k]@ && row@[k].1@ == record@[k]@,
        decreases n - j,
    {
        row.push((headers[j].clone(), record[j].clone()));
        j += 1;
    }
    assert(row_view(row@) =~= paired(headers@, record@));
    row
}

/// What `process_csv` gives: the table's text in the format, where the
/// serialiser gives one; for TOML a sentence that says it is not supported.
pub open spec fn csv_outcome(rows: Seq<Seq<(Seq<char>, Seq<char>)>>, format: OutputFormat) -> Result<
    Seq<char>,
    CliError,
> {
    match format {
        OutputFormat::Json => match json_pretty_text(rows) {
            Some(text) => Ok(text),
            None => Err(CliError::SerializeError),
        },
        OutputFormat::Yaml => match yaml_text(rows) {
            Some(text) => Ok(text),
            None => Err(CliError::SerializeError),
        },
        OutputFormat::Toml => Ok("This format is currently not supported"@),
    }
}

/// A result that holds a text, with the text as a sequence.
pub open spec fn text_outcome(r: Result<String, CliError>) -> Result<Seq<char>, CliError> {
    match r {
        Ok(text) => Ok(text@),
        Err(e) => Err(e),
    }
}

/// Converts a table, given as the names of its columns and its lines, into
/// the text to write: a list with one entry for each line, which holds the
/// line's fields under the names of their columns.
pub fn process_csv(headers: &Vec<String>, records: &Vec<Vec<String>>, format: OutputFormat) -> (r:
    Result<String, CliError>)
    ensures
        text_outcome(r) == csv_outcome(table(headers@, records@), format),
{
    let mut rows: Vec<Row> = Vec::new();
    let mut i: usize = 0;
    while i < records.len()
        invariant
            i <= records@.len(),
            rows@.len() == i,
            forall|k: int| 0 <= k < i ==> row_view(rows@[k]@) == paired(headers@, records@[k]@),
        decreases records@.len() - i,
    {
        rows.push(pair_fields(headers, &records[i]));
        i += 1;
    }
    assert(rows_view(rows@) =~= table(headers@, records@));
    match format {
        OutputFormat::Json => match to_json_pretty(&rows) {
            Ok(text) => Ok(text),
            Err(_) => Err(CliError::SerializeError),
        },
        OutputFormat::Yaml => match to_yaml(&rows) {
            Ok(text) => Ok(text),
            Err(_) => Err(CliError::SerializeError),
        },
        OutputFormat::Toml => Ok(String::from_str("This format is currently not supported")),
    }
}

} // verus!
