use crate::decimal::{dec_of, to_decimal};
use crate::job::JobRequest;
use crate::preset::CompressionPreset;
use vstd::prelude::*;
use vstd::string::*;

verus! {

/// The fixed-shape argument vector handed to the external tool for one
/// job: batch flags, the compatibility level, the preset token, font
/// handling, one DPI value for every raster channel and for the overall
/// resolution, the output device, the output file, and finally the input
/// file.
pub open spec fn args_of(
    preset: CompressionPreset,
    dpi: u16,
    input: Seq<char>,
    output: Seq<char>,
) -> Seq<Seq<char>> {
    seq![
        "-dBATCH"@,
        "-dNOPAUSE"@,
        "-dCompatibilityLevel=1.4"@,
        "-dPDFSETTINGS=/"@ + preset.token_spec(),
        "-dCompressFonts=true"@,
        "-dEmbedAllFonts=true"@,
        "-dSubsetFonts=true"@,
        "-dColorImageResolution="@ + dec_of(dpi as nat),
        "-dGrayImageResolution="@ + dec_of(dpi as nat),
        "-dMonoImageResolution="@ + dec_of(dpi as nat),
        "-r"@ + dec_of(dpi as nat),
        "-sDEVICE=pdfwrite"@,
        "-sOutputFile="@ + output,
        input,
    ]
}

/// A flag built from a fixed prefix and a rendered value.
fn flag_with(prefix: &str, rest: &str) -> (r: String)
    ensures
        r@ == prefix@ + rest@,
{
    let mut s = String::from_str(prefix);
    s.append(rest);
    s
}

/// Builds the argument vector for `req`, in the documented order.
pub fn build_args(req: &JobRequest) -> (v: Vec<String>)
    ensures
        v.deep_view() == args_of(req.preset, req.dpi, req.input_path@, req.output_path@),
{
    let dpi_text = to_decimal(req.dpi);
    let mut v: Vec<String> = Vec::new();
    v.push(String::from_str("-dBATCH"));
    v.push(String::from_str("-dNOPAUSE"));
    v.push(String::from_str("-dCompatibilityLevel=1.4"));
    v.push(flag_with("-dPDFSETTINGS=/", req.preset.token()));
    v.push(String::from_str("-dCompressFonts=true"));
    v.push(String::from_str("-dEmbedAllFonts=true"));
    v.push(String::from_str("-dSubsetFonts=true"));
    v.push(flag_with("-dColorImageResolution=", dpi_text.as_str()));
    v.push(flag_with("-dGrayImageResolution=", dpi_text.as_str()));
    v.push(flag_with("-dMonoImageResolution=", dpi_text.as_str()));
    v.push(flag_with("-r", dpi_text.as_str()));
    v.push(String::from_str("-sDEVICE=pdfwrite"));
    v.push(flag_with("-sOutputFile=", req.output_path.as_str()));
    v.push(req.input_path.clone());
    proof {
        assert(v.deep_view() =~~= args_of(req.preset, req.dpi, req.input_path@, req.output_path@));
    }
    v
}

/// The external tool's command name, which differs between the Windows
/// family and the Unix-like family; the caller says which one it runs on.
pub fn tool_command(windows: bool) -> (r: &'static str)
    ensures
        windows ==> r@ == "gswin64"@,
        !windows ==> r@ == "gs"@,
{
    if windows {
        "gswin64"
    } else {
        "gs"
    }
}

/// Law: the argument vector has its fixed shape for every choice of
/// settings and paths — fourteen arguments, the preset's lowercase token
/// rendered verbatim into the settings flag, the derived output path in
/// the output flag, and the input path as the final positional argument.
pub proof fn lemma_args_shape(
    preset: CompressionPreset,
    dpi: u16,
    input: Seq<char>,
    output: Seq<char>,
)
    ensures
        ({
            let a = args_of(preset, dpi, input, output);
            &&& a.len() == 14
            &&& a[3] == "-dPDFSETTINGS=/"@ + preset.token_spec()
            &&& a[12] == "-sOutputFile="@ + output
            &&& a[13] == input
        }),
{
}

/// Law: every resolution-related argument carries one and the same decimal
/// rendering of the job's DPI value — the per-channel settings and the
/// overall resolution can never diverge.
pub proof fn lemma_uniform_resolution(
    preset: CompressionPreset,
    dpi: u16,
    input: Seq<char>,
    output: Seq<char>,
)
    ensures
        ({
            let a = args_of(preset, dpi, input, output);
            let d = dec_of(dpi as nat);
            &&& a[7] == "-dColorImageResolution="@ + d
            &&& a[8] == "-dGrayImageResolution="@ + d
            &&& a[9] == "-dMonoImageResolution="@ + d
            &&& a[10] == "-r"@ + d
        }),
{
}

} // verus!
