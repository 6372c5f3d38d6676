//! The argument list handed to the encoder.

use crate::text::{is_blank, joined, str_is_blank};
use vstd::prelude::*;
use vstd::string::*;

verus! {

/// The program that does the encoding, as it is looked up on the search path.
pub const ENCODER: &'static str = "ffmpeg";

/// The arguments that set one metadata field: none where the value is
/// blank, else the flag and `prefix` followed by the value as it was given,
/// untrimmed.
pub open spec fn metadata_args(prefix: Seq<char>, value: Seq<char>) -> Seq<Seq<char>> {
    if is_blank(value) {
        Seq::empty()
    } else {
        seq!["-metadata"@, prefix + value]
    }
}

/// The encoder's arguments for one run: overwrite the output, read the
/// manifest with the concat demuxer and allow any path in it, encode the
/// audio as AAC at 128 kbit/s, move the index to the front of the file,
/// report progress on standard output, then the title and the artist where
/// they are given, and the output path last.
pub open spec fn encoder_args(
    manifest_path: Seq<char>,
    title: Seq<char>,
    author: Seq<char>,
    output_path: Seq<char>,
) -> Seq<Seq<char>> {
    seq![
        "-y"@,
        "-f"@,
        "concat"@,
        "-safe"@,
        "0"@,
        "-i"@,
        manifest_path,
        "-c:a"@,
        "aac"@,
        "-b:a"@,
        "128k"@,
        "-movflags"@,
        "+faststart"@,
        "-progress"@,
        "-"@,
    ] + metadata_args("title="@, title) + metadata_args("artist="@, author) + seq![output_path]
}

fn push_arg(args: &mut Vec<String>, arg: &str)
    ensures
        final(args).deep_view() == old(args).deep_view().push(arg@),
{
    args.push(String::from_str(arg));
}

fn push_metadata(args: &mut Vec<String>, prefix: &str, value: &str)
    ensures
        final(args).deep_view() == old(args).deep_view() + metadata_args(prefix@, value@),
{
    if !str_is_blank(value) {
        push_arg(args, "-metadata");
        let field = joined(prefix, value);
        push_arg(args, field.as_str());
    }
}

/// Builds the encoder's arguments for one run.
pub fn build_args(manifest_path: &str, title: &str, author: &str, output_path: &str) -> (args: Vec<
    String,
>)
    ensures
        args.deep_view() == encoder_args(manifest_path@, title@, author@, output_path@),
{
    let mut args: Vec<String> = Vec::new();
    push_arg(&mut args, "-y");
    push_arg(&mut args, "-f");
    push_arg(&mut args, "concat");
    push_arg(&mut args, "-safe");
    push_arg(&mut args, "0");
    push_arg(&mut args, "-i");
    push_arg(&mut args, manifest_path);
    push_arg(&mut args, "-c:a");
    push_arg(&mut args, "aac");
    push_arg(&mut args, "-b:a");
    push_arg(&mut args, "128k");
    push_arg(&mut args, "-movflags");
    push_arg(&mut args, "+faststart");
    push_arg(&mut args, "-progress");
    push_arg(&mut args, "-");
    push_metadata(&mut args, "title=", title);
    push_metadata(&mut args, "artist=", author);
    push_arg(&mut args, output_path);
    args
}

} // verus!
