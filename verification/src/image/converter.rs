//! Driving the converter that turns a document into an image: the command
//! that starts it, and what its exit means.

use vstd::prelude::*;
use vstd::string::StringExecFns;
use vstd::utf8::{decode_utf8, valid_utf8};
use crate::errors::RenderError;
use crate::text::{decimal_nat, decimal_u32, text_of_bytes};

verus! {

/// One invocation of the converter: the program and its arguments, in order.
#[derive(Debug, PartialEq, Eq)]
pub struct ConverterCommand {
    pub program: String,
    pub arguments: Vec<String>,
}

/// An invocation of the converter, as mathematical values.
pub ghost struct ConverterCommandView {
    pub program: Seq<char>,
    pub arguments: Seq<Seq<char>>,
}

/// The texts of a sequence of strings, in order.
pub open spec fn string_views(strings: Seq<String>) -> Seq<Seq<char>> {
    Seq::new(strings.len(), |i: int| strings[i]@)
}

impl View for ConverterCommand {
    type V = ConverterCommandView;

    open spec fn view(&self) -> ConverterCommandView {
        ConverterCommandView {
            program: self.program@,
            arguments: string_views(self.arguments@),
        }
    }
}

/// The invocation that renders the document at `html_path` to `output_path`:
/// the converter in the working directory, told the height and the width of
/// the canvas in pixels, allowed to read local files, then given the input
/// and the output.
pub open spec fn converter_command(
    height: nat,
    width: nat,
    html_path: Seq<char>,
    output_path: Seq<char>,
) -> ConverterCommandView {
    ConverterCommandView {
        program: "./wkhtmltoimage"@,
        arguments: seq![
            "--height"@,
            decimal_nat(height),
            "--width"@,
            decimal_nat(width),
            "--enable-local-file-access"@,
            html_path,
            output_path,
        ],
    }
}

impl ConverterCommand {
    /// The invocation that renders the document at `html_path` to
    /// `output_path` on a canvas `height` pixels high and `width` wide.
    pub fn new(height: u32, width: u32, html_path: &str, output_path: &str) -> (command:
        ConverterCommand)
        ensures
            command@ == converter_command(height as nat, width as nat, html_path@, output_path@),
    {
        let mut arguments: Vec<String> = Vec::new();
        arguments.push(String::from_str("--height"));
        arguments.push(decimal_u32(height));
        arguments.push(String::from_str("--width"));
        arguments.push(decimal_u32(width));
        arguments.push(String::from_str("--enable-local-file-access"));
        arguments.push(String::from_str(html_path));
        arguments.push(String::from_str(output_path));
        let command = ConverterCommand { program: String::from_str("./wkhtmltoimage"), arguments };
        assert(command@.arguments =~= converter_command(
            height as nat,
            width as nat,
            html_path@,
            output_path@,
        ).arguments);
        command
    }
}

/// What the converter's exit means. A successful exit is a success. A failed
/// one is a failure that carries what the converter wrote to its error
/// stream, or that says that this is not UTF-8.
pub open spec fn converter_result(succeeded: bool, stderr: Seq<u8>) -> Result<(), RenderErrorView> {
    if succeeded {
        Ok(())
    } else if valid_utf8(stderr) {
        Err(RenderErrorView::ProcessFailed(decode_utf8(stderr)))
    } else {
        Err(RenderErrorView::DiagnosticsNotUtf8)
    }
}

/// A render failure, as mathematical values.
pub ghost enum RenderErrorView {
    ProcessFailed(Seq<char>),
    DiagnosticsNotUtf8,
    SheetTooLarge,
}

/// The mathematical value of a render failure.
pub open spec fn render_error_view(error: RenderError) -> RenderErrorView {
    match error {
        RenderError::ProcessFailed(text) => RenderErrorView::ProcessFailed(text@),
        RenderError::DiagnosticsNotUtf8 => RenderErrorView::DiagnosticsNotUtf8,
        RenderError::SheetTooLarge => RenderErrorView::SheetTooLarge,
    }
}

/// Judges a run of the converter by whether it exited successfully and by
/// what it wrote to its error stream.
pub fn judge_converter_exit(succeeded: bool, stderr: Vec<u8>) -> (result: Result<(), RenderError>)
    ensures
        match result {
            Ok(_) => converter_result(succeeded, stderr@) == Ok::<(), RenderErrorView>(()),
            Err(error) => converter_result(succeeded, stderr@) == Err::<(), RenderErrorView>(
                render_error_view(error),
            ),
        },
{
    if succeeded {
        return Ok(());
    }
    match text_of_bytes(stderr) {
        Some(text) => Err(RenderError::ProcessFailed(text)),
        None => Err(RenderError::DiagnosticsNotUtf8),
    }
}

} // verus!
