//! The computing side of saving: the text to write, the file to write it to,
//! and the temporary sibling that makes the write all-or-nothing.
use vstd::prelude::*;
use crate::buffer::HBuffer;

verus! {

/// File name of a save that names none and whose buffer has no path.
pub const DEFAULT_FILE_NAME: &'static str = "helios_test.txt";

/// The buffer's text, as it is written to disk.
pub fn buffer_to_string(bf: &HBuffer) -> (s: String)
    ensures
        s@ == bf.text@,
{
    bf.text.to_string()
}

/// File name that a save writes to: the command's argument, else the
/// buffer's own path, else `DEFAULT_FILE_NAME`.
pub fn save_file_name(arg: Option<String>, bf: &HBuffer) -> (r: String)
    ensures
        r@ == match arg {
            Some(a) => a@,
            None => match bf.file_path {
                Some(p) => p@,
                None => DEFAULT_FILE_NAME@,
            },
        },
{
    match arg {
        Some(a) => a,
        None => match &bf.file_path {
            Some(p) => p.clone(),
            None => DEFAULT_FILE_NAME.to_owned(),
        },
    }
}

/// Name of the temporary file that a save of `file_name` writes first, in
/// the same directory: a dot, the name, then ".tmp".
pub fn temp_file_name(file_name: &str) -> (r: String)
    ensures
        r@ == "."@ + file_name@ + ".tmp"@,
{
    let mut r = String::from_str(".");
    r.append(file_name);
    r.append(".tmp");
    r
}

/// Status line after a save: the file name it wrote to, or why it failed.
pub fn save_status_message(result: &Result<String, String>) -> (r: String)
    ensures
        r@ == match result {
            Ok(name) => "Saved... Saved to "@ + name@,
            Err(e) => "Error Occurred... "@ + e@,
        },
{
    match result {
        Ok(name) => {
            let mut r = String::from_str("Saved... Saved to ");
            r.append(name.as_str());
            r
        },
        Err(e) => {
            let mut r = String::from_str("Error Occurred... ");
            r.append(e.as_str());
            r
        },
    }
}

} // verus!
