//! Document conversion by outside tools, as far as it can be decided without
//! running them: where a tool is looked for, what it is called with, and how
//! the tools that were found are reported.

use vstd::prelude::*;
use vstd::string::*;
use crate::text::{decimal, decimal_digits, first_line, first_line_of, lemma_position_found, position_of};

verus! {

/// A file to convert.
#[derive(Clone, Debug, PartialEq, Eq)]
pub struct DocumentInfo {
    pub file_path: String,
    pub file_name: String,
    pub file_size: u64,
    pub extension: String,
}

/// The outcome of a conversion.
#[derive(Clone, Debug, PartialEq, Eq)]
pub struct ConversionResult {
    pub success: bool,
    pub output_path: String,
    pub message: String,
    pub output_size: Option<u64>,
}

/// One conversion tool and whether it was found.
#[derive(Clone, Debug, PartialEq, Eq)]
pub struct ToolStatus {
    pub name: String,
    pub available: bool,
    pub version: Option<String>,
    pub path: Option<String>,
}

/// The kind of system the tools are looked for on.
#[derive(Clone, Copy, Debug, PartialEq, Eq, Structural)]
pub enum Platform {
    Windows,
    MacOs,
    Linux,
    Other,
}

/// A tool that has well-known places of installation.
#[derive(Clone, Copy, Debug, PartialEq, Eq, Structural)]
pub enum Tool {
    LibreOffice,
    Pandoc,
    Wkhtmltopdf,
}

/// The places where `tool` is usually installed on `platform`, the likeliest
/// first.
pub open spec fn install_places(tool: Tool, platform: Platform) -> Seq<Seq<char>> {
    match (tool, platform) {
        (Tool::LibreOffice, Platform::Windows) => seq![
            "C:\\Program Files\\LibreOffice\\program\\soffice.exe"@,
            "C:\\Program Files (x86)\\LibreOffice\\program\\soffice.exe"@,
        ],
        (Tool::LibreOffice, Platform::MacOs) => seq![
            "/Applications/LibreOffice.app/Contents/MacOS/soffice"@,
        ],
        (Tool::Pandoc, Platform::Windows) => seq![
            "C:\\Program Files\\Pandoc\\pandoc.exe"@,
            "C:\\Program Files (x86)\\Pandoc\\pandoc.exe"@,
        ],
        (Tool::Wkhtmltopdf, Platform::Windows) => seq![
            "C:\\Program Files\\wkhtmltopdf\\bin\\wkhtmltopdf.exe"@,
            "C:\\Program Files (x86)\\wkhtmltopdf\\bin\\wkhtmltopdf.exe"@,
        ],
        _ => Seq::empty(),
    }
}

/// The name under which `tool` is found on the search path of `platform`.
pub open spec fn command_name(tool: Tool, platform: Platform) -> Seq<char> {
    match (tool, platform) {
        (Tool::LibreOffice, Platform::Windows) => "soffice.exe"@,
        (Tool::LibreOffice, _) => "soffice"@,
        (Tool::Pandoc, Platform::Windows) => "pandoc.exe"@,
        (Tool::Pandoc, _) => "pandoc"@,
        (Tool::Wkhtmltopdf, Platform::Windows) => "wkhtmltopdf.exe"@,
        (Tool::Wkhtmltopdf, _) => "wkhtmltopdf"@,
    }
}

/// The views of a sequence of string slices, in the same order.
pub open spec fn place_views(places: Seq<&'static str>) -> Seq<Seq<char>> {
    places.map_values(|p: &'static str| p@)
}

/// How many of the places have an answer in `present`.
pub open spec fn places_known(places: Seq<Seq<char>>, present: Seq<bool>) -> int {
    if present.len() < places.len() {
        present.len() as int
    } else {
        places.len() as int
    }
}

/// The executable to run for `tool`: the first place of installation that
/// `present` reports as existing, or else the bare command name, which
/// leaves the search to the system. Places without an answer in `present`
/// count as missing.
pub open spec fn chosen_path(tool: Tool, platform: Platform, present: Seq<bool>) -> Seq<char> {
    let places = install_places(tool, platform);
    let known = places_known(places, present);
    let first = position_of(present.take(known), true);
    if first < known {
        places[first]
    } else {
        command_name(tool, platform)
    }
}

/// The places to test for `tool` on `platform`, the likeliest first.
pub fn candidate_paths(tool: Tool, platform: Platform) -> (places: Vec<&'static str>)
    ensures
        place_views(places@) == install_places(tool, platform),
{
    let mut places: Vec<&'static str> = Vec::new();
    match (tool, platform) {
        (Tool::LibreOffice, Platform::Windows) => {
            places.push("C:\\Program Files\\LibreOffice\\program\\soffice.exe");
            places.push("C:\\Program Files (x86)\\LibreOffice\\program\\soffice.exe");
        },
        (Tool::LibreOffice, Platform::MacOs) => {
            places.push("/Applications/LibreOffice.app/Contents/MacOS/soffice");
        },
        (Tool::Pandoc, Platform::Windows) => {
            places.push("C:\\Program Files\\Pandoc\\pandoc.exe");
            places.push("C:\\Program Files (x86)\\Pandoc\\pandoc.exe");
        },
        (Tool::Wkhtmltopdf, Platform::Windows) => {
            places.push("C:\\Program Files\\wkhtmltopdf\\bin\\wkhtmltopdf.exe");
            places.push("C:\\Program Files (x86)\\wkhtmltopdf\\bin\\wkhtmltopdf.exe");
        },
        _ => {},
    }
    places
}

fn search_name(tool: Tool, platform: Platform) -> (name: &'static str)
    ensures
        name@ == command_name(tool, platform),
{
    match (tool, platform) {
        (Tool::LibreOffice, Platform::Windows) => "soffice.exe",
        (Tool::LibreOffice, _) => "soffice",
        (Tool::Pandoc, Platform::Windows) => "pandoc.exe",
        (Tool::Pandoc, _) => "pandoc",
        (Tool::Wkhtmltopdf, Platform::Windows) => "wkhtmltopdf.exe",
        (Tool::Wkhtmltopdf, _) => "wkhtmltopdf",
    }
}

/// The executable to run for `tool`, given for each of its candidate paths
/// whether a file exists there.
pub fn tool_path(tool: Tool, platform: Platform, present: &[bool]) -> (path: &'static str)
    ensures
        path@ == chosen_path(tool, platform, present@),
{
    let places = candidate_paths(tool, platform);
    let known: usize = if present.len() < places.len() {
        present.len()
    } else {
        places.len()
    };
    let mut i: usize = 0;
    while i < known && !present[i]
        invariant
            i <= known,
            known <= present@.len(),
            forall|j: int| 0 <= j < i ==> present@.take(known as int)[j] != true,
        decreases known - i,
    {
        i += 1;
    }
    proof {
        lemma_position_found(present@.take(known as int), true, i as int);
    }
    if i < known {
        places[i]
    } else {
        search_name(tool, platform)
    }
}

/// The LibreOffice executable to run.
pub fn get_soffice_path(platform: Platform, present: &[bool]) -> (path: &'static str)
    ensures
        path@ == chosen_path(Tool::LibreOffice, platform, present@),
{
    tool_path(Tool::LibreOffice, platform, present)
}

/// The Pandoc executable to run.
pub fn get_pandoc_path(platform: Platform, present: &[bool]) -> (path: &'static str)
    ensures
        path@ == chosen_path(Tool::Pandoc, platform, present@),
{
    tool_path(Tool::Pandoc, platform, present)
}

/// The wkhtmltopdf executable to run.
pub fn get_wkhtmltopdf_path(platform: Platform, present: &[bool]) -> (path: &'static str)
    ensures
        path@ == chosen_path(Tool::Wkhtmltopdf, platform, present@),
{
    tool_path(Tool::Wkhtmltopdf, platform, present)
}

/// What was learnt about the tools by trying them. An output is what a tool
/// printed when asked for its version, `None` where it could not be run or
/// failed.
#[derive(Clone, Debug, PartialEq, Eq)]
pub struct ToolProbes {
    pub soffice_path: String,
    pub soffice_path_exists: bool,
    pub soffice_output: Option<String>,
    pub pandoc_path: String,
    pub pandoc_path_exists: bool,
    pub pandoc_output: Option<String>,
    pub wkhtmltopdf_output: Option<String>,
    pub ffmpeg_output: Option<String>,
}

/// A `ToolStatus` with its texts as sequences of characters.
pub struct ToolStatusView {
    pub name: Seq<char>,
    pub available: bool,
    pub version: Option<Seq<char>>,
    pub path: Option<Seq<char>>,
}

/// The view of an optional text.
pub open spec fn optional_text(text: Option<String>) -> Option<Seq<char>> {
    match text {
        Some(t) => Some(t@),
        None => None,
    }
}

impl View for ToolStatus {
    type V = ToolStatusView;

    open spec fn view(&self) -> ToolStatusView {
        ToolStatusView {
            name: self.name@,
            available: self.available,
            version: optional_text(self.version),
            path: optional_text(self.path),
        }
    }
}

/// The first line of an optional text.
pub open spec fn optional_first_line(text: Option<Seq<char>>) -> Option<Seq<char>> {
    match text {
        Some(t) => Some(first_line_of(t)),
        None => None,
    }
}

/// The report on a tool called `name`: it is available where it printed
/// something, and that is its version; its path is given where it is known.
pub open spec fn status_of(name: Seq<char>, version: Option<Seq<char>>, path: Option<Seq<char>>)
    -> ToolStatusView {
    ToolStatusView { name, available: version is Some, version, path }
}

/// A path, where a file exists at it.
pub open spec fn path_if(exists: bool, path: Seq<char>) -> Option<Seq<char>> {
    if exists {
        Some(path)
    } else {
        None
    }
}

/// The report on the four tools, in the order LibreOffice, Pandoc,
/// wkhtmltopdf, FFmpeg. Of Pandoc and FFmpeg only the first line of the
/// output counts as the version; a path is reported for LibreOffice and
/// Pandoc only.
pub open spec fn tool_report(probes: ToolProbes) -> Seq<ToolStatusView> {
    seq![
        status_of(
            "LibreOffice"@,
            optional_text(probes.soffice_output),
            path_if(probes.soffice_path_exists, probes.soffice_path@),
        ),
        status_of(
            "Pandoc"@,
            optional_first_line(optional_text(probes.pandoc_output)),
            path_if(probes.pandoc_path_exists, probes.pandoc_path@),
        ),
        status_of("wkhtmltopdf"@, optional_text(probes.wkhtmltopdf_output), None),
        status_of("FFmpeg"@, optional_first_line(optional_text(probes.ffmpeg_output)), None),
    ]
}

/// The views of a sequence of tool reports, in the same order.
pub open spec fn status_views(tools: Seq<ToolStatus>) -> Seq<ToolStatusView> {
    tools.map_values(|t: ToolStatus| t@)
}

fn report(name: &str, version: Option<String>, path: Option<String>) -> (status: ToolStatus)
    ensures
        status@ == status_of(name@, optional_text(version), optional_text(path)),
{
    ToolStatus { name: String::from_str(name), available: version.is_some(), version, path }
}

fn first_line_only(output: Option<String>) -> (line: Option<String>)
    ensures
        optional_text(line) == optional_first_line(optional_text(output)),
{
    match output {
        Some(text) => Some(first_line(text.as_str())),
        None => None,
    }
}

fn known_path(exists: bool, path: String) -> (r: Option<String>)
    ensures
        optional_text(r) == path_if(exists, path@),
{
    if exists {
        Some(path)
    } else {
        None
    }
}

/// Reports on the conversion tools from what was learnt by trying them.
pub fn check_tools(probes: ToolProbes) -> (tools: Vec<ToolStatus>)
    ensures
        status_views(tools@) == tool_report(probes),
{
    let mut tools: Vec<ToolStatus> = Vec::new();
    tools.push(
        report(
            "LibreOffice",
            probes.soffice_output,
            known_path(probes.soffice_path_exists, probes.soffice_path),
        ),
    );
    tools.push(
        report(
            "Pandoc",
            first_line_only(probes.pandoc_output),
            known_path(probes.pandoc_path_exists, probes.pandoc_path),
        ),
    );
    tools.push(report("wkhtmltopdf", probes.wkhtmltopdf_output, None));
    tools.push(report("FFmpeg", first_line_only(probes.ffmpeg_output), None));
    tools
}

/// The views of a sequence of texts, in the same order.
pub open spec fn arg_views(args: Seq<String>) -> Seq<Seq<char>> {
    args.map_values(|a: String| a@)
}

/// The arguments that LibreOffice is run with to convert `input_path` to
/// `output_format`, writing into `output_dir`.
pub fn libreoffice_args(input_path: &str, output_format: &str, output_dir: &str) -> (args: Vec<
    String,
>)
    ensures
        arg_views(args@) == seq![
            "--headless"@,
            "--convert-to"@,
            output_format@,
            "--outdir"@,
            output_dir@,
            input_path@,
        ],
{
    let mut args: Vec<String> = Vec::new();
    args.push(String::from_str("--headless"));
    args.push(String::from_str("--convert-to"));
    args.push(String::from_str(output_format));
    args.push(String::from_str("--outdir"));
    args.push(String::from_str(output_dir));
    args.push(String::from_str(input_path));
    args
}

/// The character that parts directories on `platform`.
pub open spec fn separator(platform: Platform) -> Seq<char> {
    if platform is Windows {
        "\\"@
    } else {
        "/"@
    }
}

/// Where LibreOffice leaves the converted file: in `output_dir`, under the
/// name of the input without its extension, with the new format as
/// extension.
pub fn libreoffice_output_path(
    output_dir: &str,
    input_stem: &str,
    output_format: &str,
    platform: Platform,
) -> (path: String)
    ensures
        path@ == output_dir@ + separator(platform) + input_stem@ + "."@ + output_format@,
{
    let mut path = String::from_str(output_dir);
    match platform {
        Platform::Windows => path.append("\\"),
        _ => path.append("/"),
    }
    path.append(input_stem);
    path.append(".");
    path.append(output_format);
    path
}

/// An option and its value, where there is a value.
pub open spec fn option_args(flag: Seq<char>, value: Option<Seq<char>>) -> Seq<Seq<char>> {
    match value {
        Some(v) => seq![flag, v],
        None => Seq::empty(),
    }
}

/// The arguments that Pandoc is run with.
pub open spec fn pandoc_command(
    input_path: Seq<char>,
    output_path: Seq<char>,
    from_format: Option<Seq<char>>,
    to_format: Option<Seq<char>>,
) -> Seq<Seq<char>> {
    seq![input_path, "-o"@, output_path] + option_args("-f"@, from_format) + option_args(
        "-t"@,
        to_format,
    ) + seq!["--standalone"@]
}

/// The arguments that Pandoc is run with to convert `input_path` into
/// `output_path`: the formats where they are given, and always the demand
/// for a document that stands alone.
pub fn pandoc_args(
    input_path: &str,
    output_path: &str,
    from_format: Option<String>,
    to_format: Option<String>,
) -> (args: Vec<String>)
    ensures
        arg_views(args@) == pandoc_command(
            input_path@,
            output_path@,
            optional_text(from_format),
            optional_text(to_format),
        ),
{
    let mut args: Vec<String> = Vec::new();
    args.push(String::from_str(input_path));
    args.push(String::from_str("-o"));
    args.push(String::from_str(output_path));
    match from_format {
        Some(from) => {
            args.push(String::from_str("-f"));
            args.push(from);
        },
        None => {},
    }
    match to_format {
        Some(to) => {
            args.push(String::from_str("-t"));
            args.push(to);
        },
        None => {},
    }
    args.push(String::from_str("--standalone"));
    args
}

/// The arguments that wkhtmltopdf is run with to print `input_path` into
/// `output_path`.
pub fn wkhtmltopdf_args(input_path: &str, output_path: &str) -> (args: Vec<String>)
    ensures
        arg_views(args@) == seq!["--quiet"@, input_path@, output_path@],
{
    let mut args: Vec<String> = Vec::new();
    args.push(String::from_str("--quiet"));
    args.push(String::from_str(input_path));
    args.push(String::from_str(output_path));
    args
}

fn push_all(args: &mut Vec<String>, more: &[String])
    ensures
        arg_views(final(args)@) == arg_views(old(args)@) + arg_views(more@),
{
    let mut i: usize = 0;
    while i < more.len()
        invariant
            i <= more@.len(),
            arg_views(args@) == arg_views(old(args)@) + arg_views(more@.take(i as int)),
        decreases more@.len() - i,
    {
        let ghost before = args@;
        let item = more[i].clone();
        args.push(item);
        i += 1;
        proof {
            assert(arg_views(args@) =~= arg_views(before).push(more@[i - 1]@));
        }
    }
}

/// The arguments that qpdf is run with to join `input_paths`, in their
/// order, into `output_path`.
pub fn qpdf_args(input_paths: &[String], output_path: &str) -> (args: Vec<String>)
    ensures
        arg_views(args@) == seq!["--empty"@, "--pages"@] + arg_views(input_paths@) + seq![
            "--"@,
            output_path@,
        ],
{
    let mut args: Vec<String> = Vec::new();
    args.push(String::from_str("--empty"));
    args.push(String::from_str("--pages"));
    assert(arg_views(args@) =~= seq!["--empty"@, "--pages"@]);
    push_all(&mut args, input_paths);
    args.push(String::from_str("--"));
    args.push(String::from_str(output_path));
    args
}

/// The arguments that pdftk is run with to join `input_paths`, in their
/// order, into `output_path`.
pub fn pdftk_args(input_paths: &[String], output_path: &str) -> (args: Vec<String>)
    ensures
        arg_views(args@) == arg_views(input_paths@) + seq!["cat"@, "output"@, output_path@],
{
    let mut args: Vec<String> = Vec::new();
    push_all(&mut args, input_paths);
    args.push(String::from_str("cat"));
    args.push(String::from_str("output"));
    args.push(String::from_str(output_path));
    args
}

/// Why a set of files cannot be joined.
#[derive(Clone, Debug, PartialEq, Eq)]
pub enum MergeError {
    /// There is nothing to join.
    NoInput,
    /// This file does not exist.
    FileNotFound(String),
    /// Neither tool could be started; why the second could not.
    NoTool(String),
    /// The second tool ran and failed; what it wrote as its error.
    ToolFailed(String),
}

impl MergeError {
    /// The error in words.
    pub open spec fn message_text(self) -> Seq<char> {
        match self {
            MergeError::NoInput => "No input files provided"@,
            MergeError::FileNotFound(path) => "File not found: "@ + path@,
            MergeError::NoTool(why) => "No PDF tools available (qpdf or pdftk): "@ + why@,
            MergeError::ToolFailed(error) => "PDF merge failed: "@ + error@,
        }
    }

    /// The error in words.
    pub fn message(&self) -> (text: String)
        ensures
            text@ == self.message_text(),
    {
        match self {
            MergeError::NoInput => String::from_str("No input files provided"),
            MergeError::FileNotFound(path) => {
                let mut text = String::from_str("File not found: ");
                text.append(path.as_str());
                text
            },
            MergeError::NoTool(why) => {
                let mut text = String::from_str("No PDF tools available (qpdf or pdftk): ");
                text.append(why.as_str());
                text
            },
            MergeError::ToolFailed(error) => {
                let mut text = String::from_str("PDF merge failed: ");
                text.append(error.as_str());
                text
            },
        }
    }
}

/// How the run of a tool ended.
#[derive(Clone, Debug, PartialEq, Eq)]
pub enum ToolRun {
    /// It ran and reported success.
    Succeeded,
    /// It ran and reported failure; what it wrote as its error.
    Failed(String),
    /// It could not be started; why.
    NotRun(String),
}

/// The tools that join PDF files, in the order in which they are tried.
#[derive(Clone, Copy, Debug, PartialEq, Eq, Structural)]
pub enum MergeTool {
    Qpdf,
    Pdftk,
}

/// What to do next to join a set of files.
#[derive(Debug, PartialEq, Eq)]
pub enum MergeStep {
    /// Run this tool with these arguments and report how it ended.
    Run { tool: MergeTool, args: Vec<String> },
    /// Nothing: the files are joined, with this message, or they are not.
    Done(Result<String, MergeError>),
}

/// Whether `step` is what follows, in joining `input_paths` into
/// `output_path`, on the runs so far.
///
/// The first tool is tried first. Where it succeeds the files are joined.
/// Where it fails or cannot be started, the second tool is tried, and its
/// run decides: success joins the files, a failure is reported with the
/// tool's own error, and a tool that cannot be started means that no tool
/// is at hand.
pub open spec fn merge_follows(
    input_paths: Seq<String>,
    output_path: Seq<char>,
    qpdf: Option<ToolRun>,
    pdftk: Option<ToolRun>,
    step: MergeStep,
) -> bool {
    let joined = "Merged "@ + decimal_digits(input_paths.len()) + " PDFs successfully"@;
    match (qpdf, pdftk) {
        (None, _) => step matches MergeStep::Run { tool, args } && tool == MergeTool::Qpdf
            && arg_views(args@) == seq!["--empty"@, "--pages"@] + arg_views(input_paths) + seq![
            "--"@,
            output_path,
        ],
        (Some(ToolRun::Succeeded), _) => step matches MergeStep::Done(Ok(message)) && message@
            == joined,
        (Some(_), None) => step matches MergeStep::Run { tool, args } && tool == MergeTool::Pdftk
            && arg_views(args@) == arg_views(input_paths) + seq!["cat"@, "output"@, output_path],
        (Some(_), Some(ToolRun::Succeeded)) => step matches MergeStep::Done(Ok(message))
            && message@ == joined,
        (Some(_), Some(ToolRun::Failed(error))) => step matches MergeStep::Done(
            Err(MergeError::ToolFailed(e)),
        ) && e@ == error@,
        (Some(_), Some(ToolRun::NotRun(why))) => step matches MergeStep::Done(
            Err(MergeError::NoTool(w)),
        ) && w@ == why@,
    }
}

/// Says what to do next to join `input_paths` into `output_path`, given how
/// the tools that were run so far ended.
pub fn merge_step(
    input_paths: &[String],
    output_path: &str,
    qpdf: Option<ToolRun>,
    pdftk: Option<ToolRun>,
) -> (step: MergeStep)
    ensures
        merge_follows(input_paths@, output_path@, qpdf, pdftk, step),
{
    match qpdf {
        None => MergeStep::Run {
            tool: MergeTool::Qpdf,
            args: qpdf_args(input_paths, output_path),
        },
        Some(ToolRun::Succeeded) => MergeStep::Done(Ok(merged_message(input_paths.len()))),
        Some(_) => match pdftk {
            None => MergeStep::Run {
                tool: MergeTool::Pdftk,
                args: pdftk_args(input_paths, output_path),
            },
            Some(ToolRun::Succeeded) => MergeStep::Done(Ok(merged_message(input_paths.len()))),
            Some(ToolRun::Failed(error)) => MergeStep::Done(Err(MergeError::ToolFailed(error))),
            Some(ToolRun::NotRun(why)) => MergeStep::Done(Err(MergeError::NoTool(why))),
        },
    }
}

/// How many of the input files have an answer in `present`.
pub open spec fn inputs_known(input_paths: Seq<String>, present: Seq<bool>) -> int {
    if present.len() < input_paths.len() {
        present.len() as int
    } else {
        input_paths.len() as int
    }
}

/// The position of the first input file that is missing, or the number of
/// files where none is. A file without an answer in `present` counts as
/// missing.
pub open spec fn first_missing(input_paths: Seq<String>, present: Seq<bool>) -> int {
    position_of(present.take(inputs_known(input_paths, present)), false)
}

/// Checks the input of a merge, given for each file whether it exists.
///
/// No file at all is an error. Otherwise the first file that does not exist
/// is reported; where all exist, the merge can go ahead.
pub fn check_merge_inputs(input_paths: &[String], present: &[bool]) -> (r: Result<(), MergeError>)
    ensures
        input_paths@.len() == 0 ==> r matches Err(MergeError::NoInput),
        input_paths@.len() > 0 && first_missing(input_paths@, present@) < input_paths@.len() ==> (r
            matches Err(MergeError::FileNotFound(path)) && path@ == input_paths@[first_missing(
            input_paths@,
            present@,
        )]@),
        input_paths@.len() > 0 && first_missing(input_paths@, present@) >= input_paths@.len()
            ==> r is Ok,
{
    if input_paths.len() == 0 {
        return Err(MergeError::NoInput);
    }
    let known: usize = if present.len() < input_paths.len() {
        present.len()
    } else {
        input_paths.len()
    };
    let mut i: usize = 0;
    while i < known && present[i]
        invariant
            i <= known,
            known <= present@.len(),
            known <= input_paths@.len(),
            forall|j: int| 0 <= j < i ==> present@.take(known as int)[j] != false,
        decreases known - i,
    {
        i += 1;
    }
    proof {
        lemma_position_found(present@.take(known as int), false, i as int);
    }
    if i < input_paths.len() {
        Err(MergeError::FileNotFound(input_paths[i].clone()))
    } else {
        Ok(())
    }
}

/// The message of a merge of `count` files that went through.
pub fn merged_message(count: usize) -> (message: String)
    ensures
        message@ == "Merged "@ + decimal_digits(count as nat) + " PDFs successfully"@,
{
    let mut message = String::from_str("Merged ");
    message.append(decimal(count as u64).as_str());
    message.append(" PDFs successfully");
    message
}

impl ConversionResult {
    /// The result of a conversion that went through.
    pub fn succeeded(output_path: String, message: String, output_size: Option<u64>) -> (result:
        ConversionResult)
        ensures
            result.success,
            result.output_path == output_path,
            result.message == message,
            result.output_size == output_size,
    {
        ConversionResult { success: true, output_path, message, output_size }
    }
}

impl DocumentInfo {
    /// Describes the file at `file_path` from what could be learnt about
    /// it: the last component of the path, the extension in lower case, and
    /// the size. What could not be learnt is replaced: the name by
    /// `unknown`, the extension by nothing, the size by zero.
    pub fn describe(
        file_path: String,
        file_name: Option<String>,
        extension: Option<String>,
        file_size: Option<u64>,
    ) -> (info: DocumentInfo)
        ensures
            info.file_path == file_path,
            info.file_name@ == (match file_name {
                Some(n) => n@,
                None => "unknown"@,
            }),
            info.extension@ == (match extension {
                Some(e) => e@,
                None => Seq::<char>::empty(),
            }),
            info.file_size == (match file_size {
                Some(n) => n,
                None => 0,
            }),
    {
        DocumentInfo {
            file_path,
            file_name: match file_name {
                Some(n) => n,
                None => String::from_str("unknown"),
            },
            file_size: match file_size {
                Some(n) => n,
                None => 0,
            },
            extension: match extension {
                Some(e) => e,
                None => String::new(),
            },
        }
    }
}

} // verus!
