//! The call of calibre's converter, which turns the document into text.

use vstd::prelude::*;

verus! {

/// The converter's name in calibre's directory.
pub const CONVERTER: &'static str = "\\ebook-convert";

/// The option that keeps plain punctuation.
pub const PLAIN_PUNCTUATION: &'static str = "--unsmarten-punctuation";

/// A call of the converter.
#[derive(Clone, Debug, PartialEq, Eq)]
pub struct Conversion {
    /// The program to run.
    pub program: String,
    /// The document to read.
    pub source: String,
    /// The text to write.
    pub target: String,
    /// The option to pass.
    pub option: String,
}

/// A file of the working directory.
pub open spec fn in_dir(current_dir: Seq<char>, name: Seq<char>) -> Seq<char> {
    current_dir + "\\"@ + name
}

/// Names a file of the working directory.
pub fn working_file(current_dir: &str, name: &str) -> (path: String)
    ensures
        path@ == in_dir(current_dir@, name@),
{
    let mut path = current_dir.to_string();
    path.append("\\");
    path.append(name);
    path
}

/// The call that converts the document `output` of the working directory:
/// calibre's converter, from the document's `.html` to its `.txt`.
pub fn delegate_to_calibre(output: &str, calibre_dir: &str, current_dir: &str) -> (call: Conversion)
    ensures
        call.program@ == calibre_dir@ + CONVERTER@,
        call.source@ == in_dir(current_dir@, output@) + ".html"@,
        call.target@ == in_dir(current_dir@, output@) + ".txt"@,
        call.option@ == PLAIN_PUNCTUATION@,
{
    let mut program = calibre_dir.to_string();
    program.append(CONVERTER);
    let mut source = working_file(current_dir, output);
    source.append(".html");
    let mut target = working_file(current_dir, output);
    target.append(".txt");
    Conversion { program, source, target, option: PLAIN_PUNCTUATION.to_string() }
}

/// What is said once the converter has ended: `Ok` where it succeeded,
/// `Err` where it did not.
pub fn conversion_result(succeeded: bool) -> (r: Result<String, String>)
    ensures
        succeeded ==> (r matches Ok(text) && text@ == "Calibre was finished successfully"@),
        !succeeded ==> (r matches Err(text) && text@
            == "Calibre was not successful while parsing."@),
{
    if succeeded {
        Ok("Calibre was finished successfully".to_string())
    } else {
        Err("Calibre was not successful while parsing.".to_string())
    }
}

} // verus!
