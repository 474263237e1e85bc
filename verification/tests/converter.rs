use alagappa_tools::converter::{
    candidate_paths, check_merge_inputs, check_tools, get_pandoc_path, get_soffice_path,
    get_wkhtmltopdf_path, libreoffice_args, libreoffice_output_path, merge_step,
    merged_message, pandoc_args, pdftk_args, qpdf_args, wkhtmltopdf_args, ConversionResult,
    DocumentInfo, MergeError, MergeStep, MergeTool, Platform, Tool, ToolProbes, ToolRun,
    ToolStatus,
};

#[test]
fn soffice_path_on_linux_is_the_command_name() {
    assert_eq!(get_soffice_path(Platform::Linux, &[]), "soffice");
    assert_eq!(get_soffice_path(Platform::Linux, &[true]), "soffice");
    assert_eq!(get_soffice_path(Platform::Other, &[]), "soffice");
}

#[test]
fn soffice_path_on_macos() {
    assert_eq!(
        get_soffice_path(Platform::MacOs, &[true]),
        "/Applications/LibreOffice.app/Contents/MacOS/soffice"
    );
    assert_eq!(get_soffice_path(Platform::MacOs, &[false]), "soffice");
    assert_eq!(get_soffice_path(Platform::MacOs, &[]), "soffice");
}

#[test]
fn soffice_path_on_windows_takes_first_existing() {
    assert_eq!(
        get_soffice_path(Platform::Windows, &[true, true]),
        "C:\\Program Files\\LibreOffice\\program\\soffice.exe"
    );
    assert_eq!(
        get_soffice_path(Platform::Windows, &[false, true]),
        "C:\\Program Files (x86)\\LibreOffice\\program\\soffice.exe"
    );
    assert_eq!(get_soffice_path(Platform::Windows, &[false, false]), "soffice.exe");
    assert_eq!(get_soffice_path(Platform::Windows, &[false]), "soffice.exe");
    assert_eq!(get_soffice_path(Platform::Windows, &[false, false, true]), "soffice.exe");
}

#[test]
fn pandoc_paths() {
    assert_eq!(get_pandoc_path(Platform::Linux, &[]), "pandoc");
    assert_eq!(get_pandoc_path(Platform::MacOs, &[true]), "pandoc");
    assert_eq!(get_pandoc_path(Platform::Windows, &[]), "pandoc.exe");
    assert_eq!(
        get_pandoc_path(Platform::Windows, &[true, false]),
        "C:\\Program Files\\Pandoc\\pandoc.exe"
    );
    assert_eq!(
        get_pandoc_path(Platform::Windows, &[false, true]),
        "C:\\Program Files (x86)\\Pandoc\\pandoc.exe"
    );
}

#[test]
fn wkhtmltopdf_paths() {
    assert_eq!(get_wkhtmltopdf_path(Platform::Linux, &[]), "wkhtmltopdf");
    assert_eq!(get_wkhtmltopdf_path(Platform::Other, &[]), "wkhtmltopdf");
    assert_eq!(get_wkhtmltopdf_path(Platform::Windows, &[false, false]), "wkhtmltopdf.exe");
    assert_eq!(
        get_wkhtmltopdf_path(Platform::Windows, &[true]),
        "C:\\Program Files\\wkhtmltopdf\\bin\\wkhtmltopdf.exe"
    );
    assert_eq!(
        get_wkhtmltopdf_path(Platform::Windows, &[false, true]),
        "C:\\Program Files (x86)\\wkhtmltopdf\\bin\\wkhtmltopdf.exe"
    );
}

#[test]
fn candidate_paths_by_platform() {
    assert_eq!(candidate_paths(Tool::LibreOffice, Platform::Linux), Vec::<&str>::new());
    assert_eq!(candidate_paths(Tool::Pandoc, Platform::MacOs), Vec::<&str>::new());
    assert_eq!(candidate_paths(Tool::LibreOffice, Platform::MacOs).len(), 1);
    assert_eq!(
        candidate_paths(Tool::Wkhtmltopdf, Platform::Windows),
        vec![
            "C:\\Program Files\\wkhtmltopdf\\bin\\wkhtmltopdf.exe",
            "C:\\Program Files (x86)\\wkhtmltopdf\\bin\\wkhtmltopdf.exe",
        ]
    );
}

#[test]
fn tools_report_when_all_are_found() {
    let probes = ToolProbes {
        soffice_path: "/usr/bin/soffice".to_string(),
        soffice_path_exists: true,
        soffice_output: Some("LibreOffice 7.6\nextra".to_string()),
        pandoc_path: "pandoc".to_string(),
        pandoc_path_exists: false,
        pandoc_output: Some("pandoc 3.1.9\nFeatures: +server".to_string()),
        wkhtmltopdf_output: Some("wkhtmltopdf 0.12.6".to_string()),
        ffmpeg_output: Some("ffmpeg version 6.0\r\nbuilt with gcc".to_string()),
    };
    assert_eq!(
        check_tools(probes),
        vec![
            ToolStatus {
                name: "LibreOffice".to_string(),
                available: true,
                version: Some("LibreOffice 7.6\nextra".to_string()),
                path: Some("/usr/bin/soffice".to_string()),
            },
            ToolStatus {
                name: "Pandoc".to_string(),
                available: true,
                version: Some("pandoc 3.1.9".to_string()),
                path: None,
            },
            ToolStatus {
                name: "wkhtmltopdf".to_string(),
                available: true,
                version: Some("wkhtmltopdf 0.12.6".to_string()),
                path: None,
            },
            ToolStatus {
                name: "FFmpeg".to_string(),
                available: true,
                version: Some("ffmpeg version 6.0".to_string()),
                path: None,
            },
        ]
    );
}

#[test]
fn tools_report_when_none_is_found() {
    let probes = ToolProbes {
        soffice_path: "soffice".to_string(),
        soffice_path_exists: false,
        soffice_output: None,
        pandoc_path: "/opt/pandoc".to_string(),
        pandoc_path_exists: true,
        pandoc_output: None,
        wkhtmltopdf_output: None,
        ffmpeg_output: Some(String::new()),
    };
    let tools = check_tools(probes);
    assert_eq!(tools.len(), 4);
    assert_eq!(
        tools[0],
        ToolStatus { name: "LibreOffice".to_string(), available: false, version: None, path: None }
    );
    assert_eq!(
        tools[1],
        ToolStatus {
            name: "Pandoc".to_string(),
            available: false,
            version: None,
            path: Some("/opt/pandoc".to_string()),
        }
    );
    assert_eq!(
        tools[2],
        ToolStatus { name: "wkhtmltopdf".to_string(), available: false, version: None, path: None }
    );
    assert_eq!(
        tools[3],
        ToolStatus {
            name: "FFmpeg".to_string(),
            available: true,
            version: Some(String::new()),
            path: None,
        }
    );
}

#[test]
fn document_types_are_plain_data() {
    let info = DocumentInfo {
        file_path: "/tmp/a.docx".to_string(),
        file_name: "a.docx".to_string(),
        file_size: 10,
        extension: "docx".to_string(),
    };
    assert_eq!(info.clone(), info);
    let result = ConversionResult {
        success: true,
        output_path: "/tmp/a.pdf".to_string(),
        message: "Document converted successfully".to_string(),
        output_size: Some(3),
    };
    assert_eq!(result.clone(), result);
}

fn paths(items: &[&str]) -> Vec<String> {
    items.iter().map(|s| s.to_string()).collect()
}

#[test]
fn libreoffice_is_run_headless() {
    assert_eq!(
        libreoffice_args("/in/a.docx", "pdf", "/out"),
        vec!["--headless", "--convert-to", "pdf", "--outdir", "/out", "/in/a.docx"]
    );
}

#[test]
fn libreoffice_output_path_by_platform() {
    assert_eq!(libreoffice_output_path("/out", "a", "pdf", Platform::Linux), "/out/a.pdf");
    assert_eq!(libreoffice_output_path("/out", "a", "pdf", Platform::MacOs), "/out/a.pdf");
    assert_eq!(libreoffice_output_path("/out", "a", "pdf", Platform::Other), "/out/a.pdf");
    assert_eq!(
        libreoffice_output_path("C:\\out", "output", "odt", Platform::Windows),
        "C:\\out\\output.odt"
    );
}

#[test]
fn pandoc_arguments_with_and_without_formats() {
    assert_eq!(pandoc_args("a.md", "a.html", None, None), vec!["a.md", "-o", "a.html", "--standalone"]);
    assert_eq!(
        pandoc_args("a.md", "a.html", Some("markdown".to_string()), None),
        vec!["a.md", "-o", "a.html", "-f", "markdown", "--standalone"]
    );
    assert_eq!(
        pandoc_args("a.md", "a.html", None, Some("html5".to_string())),
        vec!["a.md", "-o", "a.html", "-t", "html5", "--standalone"]
    );
    assert_eq!(
        pandoc_args("a.md", "a.html", Some("gfm".to_string()), Some("html5".to_string())),
        vec!["a.md", "-o", "a.html", "-f", "gfm", "-t", "html5", "--standalone"]
    );
}

#[test]
fn wkhtmltopdf_is_run_quietly() {
    assert_eq!(wkhtmltopdf_args("a.html", "a.pdf"), vec!["--quiet", "a.html", "a.pdf"]);
}

#[test]
fn qpdf_and_pdftk_arguments() {
    let inputs = paths(&["a.pdf", "b.pdf", "c.pdf"]);
    assert_eq!(
        qpdf_args(&inputs, "out.pdf"),
        vec!["--empty", "--pages", "a.pdf", "b.pdf", "c.pdf", "--", "out.pdf"]
    );
    assert_eq!(
        pdftk_args(&inputs, "out.pdf"),
        vec!["a.pdf", "b.pdf", "c.pdf", "cat", "output", "out.pdf"]
    );
    assert_eq!(qpdf_args(&[], "o"), vec!["--empty", "--pages", "--", "o"]);
    assert_eq!(pdftk_args(&[], "o"), vec!["cat", "output", "o"]);
}

#[test]
fn merge_needs_input() {
    let r = check_merge_inputs(&[], &[]);
    assert_eq!(r, Err(MergeError::NoInput));
    assert_eq!(r.unwrap_err().message(), "No input files provided");
}

#[test]
fn merge_reports_first_missing_file() {
    let inputs = paths(&["a.pdf", "b.pdf", "c.pdf"]);
    assert_eq!(check_merge_inputs(&inputs, &[true, true, true]), Ok(()));
    assert_eq!(check_merge_inputs(&inputs, &[true, true, true, false]), Ok(()));
    let r = check_merge_inputs(&inputs, &[true, false, false]);
    assert_eq!(r, Err(MergeError::FileNotFound("b.pdf".to_string())));
    assert_eq!(r.unwrap_err().message(), "File not found: b.pdf");
    assert_eq!(
        check_merge_inputs(&inputs, &[false, true, true]),
        Err(MergeError::FileNotFound("a.pdf".to_string()))
    );
    assert_eq!(
        check_merge_inputs(&inputs, &[true, true]),
        Err(MergeError::FileNotFound("c.pdf".to_string()))
    );
    assert_eq!(
        check_merge_inputs(&inputs, &[]),
        Err(MergeError::FileNotFound("a.pdf".to_string()))
    );
}

#[test]
fn merge_message_counts_files() {
    assert_eq!(merged_message(3), "Merged 3 PDFs successfully");
    assert_eq!(merged_message(0), "Merged 0 PDFs successfully");
    assert_eq!(merged_message(120), "Merged 120 PDFs successfully");
}

#[test]
fn conversion_result_of_success() {
    let r = ConversionResult::succeeded("/o/a.pdf".to_string(), "done".to_string(), Some(7));
    assert_eq!(
        r,
        ConversionResult {
            success: true,
            output_path: "/o/a.pdf".to_string(),
            message: "done".to_string(),
            output_size: Some(7),
        }
    );
}

#[test]
fn document_info_fills_in_what_is_missing() {
    let info = DocumentInfo::describe(
        "/d/Report.PDF".to_string(),
        Some("Report.PDF".to_string()),
        Some("pdf".to_string()),
        Some(1234),
    );
    assert_eq!(
        info,
        DocumentInfo {
            file_path: "/d/Report.PDF".to_string(),
            file_name: "Report.PDF".to_string(),
            file_size: 1234,
            extension: "pdf".to_string(),
        }
    );
    let info = DocumentInfo::describe("/".to_string(), None, None, None);
    assert_eq!(
        info,
        DocumentInfo {
            file_path: "/".to_string(),
            file_name: "unknown".to_string(),
            file_size: 0,
            extension: String::new(),
        }
    );
}

#[test]
fn merge_tries_qpdf_first() {
    let inputs = paths(&["a.pdf", "b.pdf"]);
    assert_eq!(
        merge_step(&inputs, "o.pdf", None, None),
        MergeStep::Run { tool: MergeTool::Qpdf, args: qpdf_args(&inputs, "o.pdf") }
    );
    assert_eq!(
        merge_step(&inputs, "o.pdf", None, Some(ToolRun::Succeeded)),
        MergeStep::Run { tool: MergeTool::Qpdf, args: qpdf_args(&inputs, "o.pdf") }
    );
    assert_eq!(
        merge_step(&inputs, "o.pdf", Some(ToolRun::Succeeded), None),
        MergeStep::Done(Ok("Merged 2 PDFs successfully".to_string()))
    );
}

#[test]
fn merge_falls_back_to_pdftk() {
    let inputs = paths(&["a.pdf", "b.pdf", "c.pdf"]);
    for first in [ToolRun::Failed("bad".to_string()), ToolRun::NotRun("no qpdf".to_string())] {
        assert_eq!(
            merge_step(&inputs, "o.pdf", Some(first.clone()), None),
            MergeStep::Run { tool: MergeTool::Pdftk, args: pdftk_args(&inputs, "o.pdf") }
        );
        assert_eq!(
            merge_step(&inputs, "o.pdf", Some(first.clone()), Some(ToolRun::Succeeded)),
            MergeStep::Done(Ok("Merged 3 PDFs successfully".to_string()))
        );
        assert_eq!(
            merge_step(&inputs, "o.pdf", Some(first.clone()), Some(ToolRun::Failed("oops".to_string()))),
            MergeStep::Done(Err(MergeError::ToolFailed("oops".to_string())))
        );
        assert_eq!(
            merge_step(&inputs, "o.pdf", Some(first), Some(ToolRun::NotRun("no pdftk".to_string()))),
            MergeStep::Done(Err(MergeError::NoTool("no pdftk".to_string())))
        );
    }
    assert_eq!(
        MergeError::ToolFailed("oops".to_string()).message(),
        "PDF merge failed: oops"
    );
    assert_eq!(
        MergeError::NoTool("no pdftk".to_string()).message(),
        "No PDF tools available (qpdf or pdftk): no pdftk"
    );
}
