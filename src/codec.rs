//! Output codecs, the command lines of the external transcoder and the silent
//! frame that opens every listener's stream.
use vstd::prelude::*;
use vstd::string::*;

use crate::seek_time::{ffmeg_seek_time_arg_format, seek_time_text};

verus! {

/// A codec that a station streams in.
#[derive(PartialEq, Eq, Structural, Clone, Copy, Debug, Hash)]
pub enum OutputCodec {
    Mp3_64kbps,
    Mp3_128kbps,
}

/// The views of a list of command-line arguments.
pub open spec fn arg_views(args: Seq<String>) -> Seq<Seq<char>> {
    args.map_values(|a: String| a@)
}

/// The bitrate argument of `codec`.
pub open spec fn bitrate_arg(codec: OutputCodec) -> Seq<char> {
    match codec {
        OutputCodec::Mp3_64kbps => "64k"@,
        OutputCodec::Mp3_128kbps => "128k"@,
    }
}

/// The transcoder's arguments for encoding raw PCM from standard input into
/// `codec` on standard output: a raw concatenation of frames that is flushed
/// packet by packet, without Xing or ID3 headers.
pub open spec fn encoder_args(codec: OutputCodec) -> Seq<Seq<char>> {
    seq![
        "-f"@, "s16le"@, "-ar"@, "44100"@, "-ac"@, "2"@, "-i"@, "-"@,
        "-b:a"@, bitrate_arg(codec), "-f"@, "mp3"@, "-flush_packets"@, "1"@,
        "-write_xing"@, "0"@, "-id3v2_version"@, "0"@, "-"@,
    ]
}

/// The transcoder's arguments for decoding the file at `location` into raw
/// PCM on standard output, starting `seek_ms` milliseconds in when that is
/// not zero.
pub open spec fn decoder_args(location: Seq<char>, seek_ms: u64) -> Seq<Seq<char>> {
    seq!["-i"@, location] + (if seek_ms > 0 {
        seq!["-ss"@, seek_time_text(seek_ms as nat)]
    } else {
        Seq::<Seq<char>>::empty()
    }) + seq!["-f"@, "s16le"@, "-ac"@, "2"@, "-ar"@, "44100"@, "-"@]
}

/// The prober's arguments that print the duration in seconds of the file at
/// `location`, and nothing else.
pub open spec fn probe_args(location: Seq<char>) -> Seq<Seq<char>> {
    seq![
        "-v"@, "error"@, "-show_entries"@, "format=duration"@, "-of"@,
        "default=noprint_wrappers=1:nokey=1"@, location,
    ]
}

fn push_arg(args: &mut Vec<String>, a: &str)
    ensures
        arg_views(final(args)@) == arg_views(old(args)@).push(a@),
{
    args.push(String::from_str(a));
    proof {
        assert(arg_views(final(args)@) =~= arg_views(old(args)@).push(a@));
    }
}

fn push_string(args: &mut Vec<String>, a: String)
    ensures
        arg_views(final(args)@) == arg_views(old(args)@).push(a@),
{
    args.push(a);
    proof {
        assert(arg_views(final(args)@) =~= arg_views(old(args)@).push(a@));
    }
}

/// The bitrate argument of `codec`.
fn bitrate(codec: OutputCodec) -> (r: &'static str)
    ensures
        r@ == bitrate_arg(codec),
{
    match codec {
        OutputCodec::Mp3_64kbps => "64k",
        OutputCodec::Mp3_128kbps => "128k",
    }
}

/// Arguments of the transcoder that encodes PCM into `output_codec`.
pub fn ffmpeg_args(output_codec: &OutputCodec) -> (r: Vec<String>)
    ensures
        arg_views(r@) == encoder_args(*output_codec),
{
    let mut args: Vec<String> = Vec::new();
    push_arg(&mut args, "-f");
    push_arg(&mut args, "s16le");
    push_arg(&mut args, "-ar");
    push_arg(&mut args, "44100");
    push_arg(&mut args, "-ac");
    push_arg(&mut args, "2");
    push_arg(&mut args, "-i");
    push_arg(&mut args, "-");
    push_arg(&mut args, "-b:a");
    push_arg(&mut args, bitrate(*output_codec));
    push_arg(&mut args, "-f");
    push_arg(&mut args, "mp3");
    push_arg(&mut args, "-flush_packets");
    push_arg(&mut args, "1");
    push_arg(&mut args, "-write_xing");
    push_arg(&mut args, "0");
    push_arg(&mut args, "-id3v2_version");
    push_arg(&mut args, "0");
    push_arg(&mut args, "-");
    proof {
        assert(arg_views(args@) =~= encoder_args(*output_codec));
    }
    args
}

/// Arguments of the transcoder that decodes the file at `location` into PCM,
/// from `seek_ms` milliseconds on.
pub fn ffmpeg_decoder_args(location: &String, seek_ms: u64) -> (r: Vec<String>)
    ensures
        arg_views(r@) == decoder_args(location@, seek_ms),
{
    let mut args: Vec<String> = Vec::new();
    push_arg(&mut args, "-i");
    push_arg(&mut args, location.as_str());
    if seek_ms > 0 {
        push_arg(&mut args, "-ss");
        push_string(&mut args, ffmeg_seek_time_arg_format(seek_ms));
    }
    push_arg(&mut args, "-f");
    push_arg(&mut args, "s16le");
    push_arg(&mut args, "-ac");
    push_arg(&mut args, "2");
    push_arg(&mut args, "-ar");
    push_arg(&mut args, "44100");
    push_arg(&mut args, "-");
    proof {
        assert(arg_views(args@) =~= decoder_args(location@, seek_ms));
    }
    args
}

/// Arguments of the prober that prints the duration of the file at `location`.
pub fn ffprobe_args(location: &String) -> (r: Vec<String>)
    ensures
        arg_views(r@) == probe_args(location@),
{
    let mut args: Vec<String> = Vec::new();
    push_arg(&mut args, "-v");
    push_arg(&mut args, "error");
    push_arg(&mut args, "-show_entries");
    push_arg(&mut args, "format=duration");
    push_arg(&mut args, "-of");
    push_arg(&mut args, "default=noprint_wrappers=1:nokey=1");
    push_arg(&mut args, location.as_str());
    proof {
        assert(arg_views(args@) =~= probe_args(location@));
    }
    args
}

/// The media subtype of `codec`'s stream (under `audio/`).
pub fn get_mime_type(codec: &OutputCodec) -> (r: &'static str)
    ensures
        r@ == "mpeg"@,
{
    match codec {
        OutputCodec::Mp3_64kbps => "mpeg",
        OutputCodec::Mp3_128kbps => "mpeg",
    }
}

/// Bytes of the silent MP3 frame: MPEG-1 Layer III at 128 kbit/s and
/// 44100 Hz without padding, 144 * 128000 / 44100 bytes.
pub const MP3_NULL_FRAME_LEN: usize = 417;

/// The header of the silent MP3 frame: frame sync, MPEG-1 Layer III without
/// CRC, 128 kbit/s, 44100 Hz, no padding, stereo.
pub open spec fn mp3_null_frame_header() -> Seq<u8> {
    seq![0xFFu8, 0xFBu8, 0x90u8, 0x00u8]
}

/// The silent frame sent first to every listener of `codec`: a valid frame
/// whose side information and main data are all zero, so that it decodes to
/// silence and gives the client's decoder a point to synchronise on.
pub open spec fn null_frame(codec: OutputCodec) -> Seq<u8> {
    mp3_null_frame_header() + Seq::new((MP3_NULL_FRAME_LEN - 4) as nat, |i: int| 0u8)
}

/// The silent frame that opens a stream of `codec`.
pub fn get_null_frame(codec: &OutputCodec) -> (r: Vec<u8>)
    ensures
        r@ == null_frame(*codec),
{
    let mut frame: Vec<u8> = Vec::new();
    frame.push(0xFF);
    frame.push(0xFB);
    frame.push(0x90);
    frame.push(0x00);
    while frame.len() < MP3_NULL_FRAME_LEN
        invariant
            4 <= frame@.len() <= MP3_NULL_FRAME_LEN,
            frame@ == mp3_null_frame_header() + Seq::new((frame@.len() - 4) as nat, |i: int| 0u8),
        decreases MP3_NULL_FRAME_LEN - frame@.len(),
    {
        frame.push(0);
        assert(frame@ =~= mp3_null_frame_header() + Seq::new((frame@.len() - 4) as nat, |i: int| 0u8));
    }
    proof {
        assert(frame@ =~= null_frame(*codec));
    }
    frame
}

} // verus!
