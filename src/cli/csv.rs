use super::{missing_file_msg, path_exists, str_eq};
use crate::error::{error_message, TextError};
use vstd::prelude::*;

verus! {

/// The output format of the CSV conversion.
#[derive(Debug, Clone, Copy, PartialEq, Eq, Structural)]
pub enum OutputFormat {
    Json,
    Yaml,
}

/// The output format that a token names, if any.
pub open spec fn output_format_of(token: Seq<char>) -> Option<OutputFormat> {
    if token == "json"@ {
        Some(OutputFormat::Json)
    } else if token == "yaml"@ {
        Some(OutputFormat::Yaml)
    } else {
        None
    }
}

impl OutputFormat {
    /// The token that names this format.
    pub fn as_str(&self) -> (r: &'static str)
        ensures
            output_format_of(r@) == Some(*self),
    {
        proof {
            reveal_strlit("json");
            reveal_strlit("yaml");
        }
        match self {
            OutputFormat::Json => {
                let name = "json";
                assert(name@ == "json"@);
                name
            },
            OutputFormat::Yaml => {
                let name = "yaml";
                assert(name@ == "yaml"@);
                assert(name@ != "json"@) by {
                    assert(name@[0] != "json"@[0]);
                }
                name
            },
        }
    }
}

/// Reads an output format token; any token but `json` and `yaml` is
/// refused with `OutputFormatError`, whose message is "Unsupported output
/// format".
pub fn parse_format(format: &str) -> (r: Result<OutputFormat, TextError>)
    ensures
        match output_format_of(format@) {
            Some(f) => r == Ok::<OutputFormat, TextError>(f),
            None => r == Err::<OutputFormat, TextError>(TextError::OutputFormatError),
        },
        r matches Err(e) ==> error_message(e) == "Unsupported output format"@,
{
    if str_eq(format, "json") {
        Ok(OutputFormat::Json)
    } else if str_eq(format, "yaml") {
        Ok(OutputFormat::Yaml)
    } else {
        Err(TextError::OutputFormatError)
    }
}

/// Checks that the CSV input names an existing file; standard input is not
/// accepted here.
pub fn verify_input_file(filename: &str) -> (r: Result<String, &'static str>)
    ensures
        r matches Ok(name) ==> name@ == filename@,
        r matches Err(msg) ==> msg@ == missing_file_msg(),
{
    if path_exists(filename) {
        Ok(filename.to_owned())
    } else {
        Err("Input file does not exist")
    }
}

/// Options of the CSV conversion.
pub struct CsvOpts {
    pub input: String,
    pub output: Option<String>,
    pub format: OutputFormat,
    pub delimiter: char,
    pub header: bool,
}


/// Pairs each header with the field below it, as far as both go; a record
/// becomes one object of the output.
pub fn pair_record(headers: &Vec<String>, record: &Vec<String>) -> (r: Vec<(String, String)>)
    ensures
        r@.len() == if headers@.len() <= record@.len() { headers@.len() } else { record@.len() },
        forall|i: int|
            0 <= i < r@.len() ==> (#[trigger] r@[i]).0@ == headers@[i]@ && r@[i].1@ == record@[i]@,
{
    let n = if headers.len() <= record.len() { headers.len() } else { record.len() };
    let mut out: Vec<(String, String)> = Vec::new();
    let mut i: usize = 0;
    while i < n
        invariant
            n <= headers@.len(),
            n <= record@.len(),
            i <= n,
            out@.len() == i,
            forall|j: int|
                0 <= j < i ==> (#[trigger] out@[j]).0@ == headers@[j]@ && out@[j].1@ == record@[j]@,
        decreases n - i,
    {
        out.push((headers[i].clone(), record[i].clone()));
        i += 1;
    }
    out
}

} // verus!
