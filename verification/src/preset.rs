use vstd::prelude::*;

verus! {

/// A named compression profile understood by the external PDF-processing
/// tool.  Each variant is identified on the command line by a fixed
/// lowercase token; the variants carry no numeric encoding and no ordering.
#[derive(Clone, Copy, Debug, PartialEq, Eq, Structural)]
pub enum CompressionPreset {
    Default,
    Screen,
    Ebook,
    Printer,
    Prepress,
}

impl CompressionPreset {
    /// The lowercase token that names this preset in the tool's argument
    /// syntax: the variant's own name, folded to lowercase.
    pub open spec fn token_spec(self) -> Seq<char> {
        match self {
            CompressionPreset::Default => "default"@,
            CompressionPreset::Screen => "screen"@,
            CompressionPreset::Ebook => "ebook"@,
            CompressionPreset::Printer => "printer"@,
            CompressionPreset::Prepress => "prepress"@,
        }
    }

    /// Renders the preset's command-line token.
    pub fn token(self) -> (r: &'static str)
        ensures
            r@ == self.token_spec(),
    {
        match self {
            CompressionPreset::Default => "default",
            CompressionPreset::Screen => "screen",
            CompressionPreset::Ebook => "ebook",
            CompressionPreset::Printer => "printer",
            CompressionPreset::Prepress => "prepress",
        }
    }
}

} // verus!
