use pdf_compressor::args::{build_args, tool_command};
use pdf_compressor::job::JobRequest;
use pdf_compressor::preset::CompressionPreset;

fn screen_150_request() -> JobRequest {
    JobRequest {
        input_path: String::from("/docs/report.pdf"),
        output_path: String::from("/docs/report_compressed.pdf"),
        preset: CompressionPreset::Screen,
        dpi: 150,
    }
}

#[test]
fn full_vector_for_screen_at_150() {
    let args = build_args(&screen_150_request());
    let expected = vec![
        "-dBATCH",
        "-dNOPAUSE",
        "-dCompatibilityLevel=1.4",
        "-dPDFSETTINGS=/screen",
        "-dCompressFonts=true",
        "-dEmbedAllFonts=true",
        "-dSubsetFonts=true",
        "-dColorImageResolution=150",
        "-dGrayImageResolution=150",
        "-dMonoImageResolution=150",
        "-r150",
        "-sDEVICE=pdfwrite",
        "-sOutputFile=/docs/report_compressed.pdf",
        "/docs/report.pdf",
    ];
    assert_eq!(args, expected);
}

#[test]
fn vector_contains_preset_and_resolution_flags() {
    let args = build_args(&screen_150_request());
    assert!(args.iter().any(|a| a == "-dPDFSETTINGS=/screen"));
    assert!(args.iter().any(|a| a == "-r150"));
    assert!(args.iter().any(|a| a == "-dColorImageResolution=150"));
}

#[test]
fn every_resolution_flag_carries_the_same_value() {
    for dpi in [10u16, 40, 150, 300] {
        let mut req = screen_150_request();
        req.dpi = dpi;
        let args = build_args(&req);
        let rendered = dpi.to_string();
        assert_eq!(args[7], format!("-dColorImageResolution={rendered}"));
        assert_eq!(args[8], format!("-dGrayImageResolution={rendered}"));
        assert_eq!(args[9], format!("-dMonoImageResolution={rendered}"));
        assert_eq!(args[10], format!("-r{rendered}"));
    }
}

#[test]
fn preset_token_is_substituted_per_preset() {
    for (preset, flag) in [
        (CompressionPreset::Default, "-dPDFSETTINGS=/default"),
        (CompressionPreset::Screen, "-dPDFSETTINGS=/screen"),
        (CompressionPreset::Ebook, "-dPDFSETTINGS=/ebook"),
        (CompressionPreset::Printer, "-dPDFSETTINGS=/printer"),
        (CompressionPreset::Prepress, "-dPDFSETTINGS=/prepress"),
    ] {
        let mut req = screen_150_request();
        req.preset = preset;
        let args = build_args(&req);
        assert_eq!(args[3], flag);
    }
}

#[test]
fn command_name_depends_on_platform_family() {
    assert_eq!(tool_command(false), "gs");
    assert_eq!(tool_command(true), "gswin64");
}
