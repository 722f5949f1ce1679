//! What the command line asks for.

use vstd::prelude::*;

verus! {

/// The arguments of a run.
#[derive(Clone, Debug, PartialEq, Eq)]
pub struct CmdLineArgs {
    /// The address of the novel's table of contents.
    pub url: String,
    /// The name of the output, without extension.
    pub output: String,
    /// The directory of the calibre installation.
    pub calibre_dir: String,
}

impl CmdLineArgs {
    /// The file that the document is written to before it is converted:
    /// the output's name with `.html` behind it.
    pub fn document_file(&self) -> (name: String)
        ensures
            name@ == self.output@ + ".html"@,
    {
        let mut name = self.output.clone();
        name.append(".html");
        name
    }
}

} // verus!
