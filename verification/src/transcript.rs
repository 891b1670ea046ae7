//! The bookkeeping around local transcription: which model files can be
//! loaded, which recordings can be read, how tracks are brought to the
//! rate the recogniser expects, when to retry, and what is written out.

use crate::text::{same_text, trim, trimmed};
use vstd::prelude::*;
use vstd::string::*;

verus! {

/// The sample rate, in Hz, of the audio handed to the recogniser.
pub const WHISPER_SAMPLE_RATE: u32 = 16_000;

/// The number of bytes of a model file that are read to recognise a pointer file.
pub const MODEL_HEADER_BYTES: usize = 40;

/// The first line of a Git LFS pointer file, as bytes:
/// `version https://git-lfs.github.com/spec/v1`.
pub open spec fn lfs_pointer_prefix() -> Seq<u8> {
    seq![
        118u8, 101, 114, 115, 105, 111, 110, 32,
        104, 116, 116, 112, 115, 58, 47, 47,
        103, 105, 116, 45, 108, 102, 115, 46,
        103, 105, 116, 104, 117, 98, 46, 99, 111, 109,
        47, 115, 112, 101, 99, 47, 118, 49,
    ]
}

fn lfs_pointer_prefix_bytes() -> (prefix: Vec<u8>)
    ensures
        prefix@ == lfs_pointer_prefix(),
{
    let prefix: Vec<u8> = vec![
        118u8, 101, 114, 115, 105, 111, 110, 32,
        104, 116, 116, 112, 115, 58, 47, 47,
        103, 105, 116, 45, 108, 102, 115, 46,
        103, 105, 116, 104, 117, 98, 46, 99, 111, 109,
        47, 115, 112, 101, 99, 47, 118, 49,
    ];
    assert(prefix@ =~= lfs_pointer_prefix());
    prefix
}

/// Whether the first bytes read from a model file show a Git LFS pointer
/// rather than the model itself: they start with [`lfs_pointer_prefix`].
pub fn is_git_lfs_pointer(header: &[u8]) -> (pointer: bool)
    ensures
        pointer == (header@.len() >= lfs_pointer_prefix().len()
            && header@.subrange(0, lfs_pointer_prefix().len() as int) == lfs_pointer_prefix()),
{
    let prefix = lfs_pointer_prefix_bytes();
    if header.len() < prefix.len() {
        return false;
    }
    let mut i: usize = 0;
    while i < prefix.len()
        invariant
            prefix@ == lfs_pointer_prefix(),
            prefix@.len() <= header@.len(),
            0 <= i <= prefix@.len(),
            forall|j: int| 0 <= j < i ==> header@[j] == prefix@[j],
        decreases prefix.len() - i,
    {
        if header[i] != prefix[i] {
            assert(header@.subrange(0, prefix@.len() as int)[i as int] != prefix@[i as int]);
            return false;
        }
        i = i + 1;
    }
    assert(header@.subrange(0, prefix@.len() as int) =~= prefix@);
    true
}

/// The pointer's first line is longer than the header read from a model
/// file, so no header of that size, nor any shorter one, is taken for a
/// pointer.
pub proof fn lemma_short_header_is_never_a_pointer(header: Seq<u8>)
    requires
        header.len() <= MODEL_HEADER_BYTES,
    ensures
        !(header.len() >= lfs_pointer_prefix().len()
            && header.subrange(0, lfs_pointer_prefix().len() as int) == lfs_pointer_prefix()),
{
}

pub open spec fn model_missing_message(model: Seq<char>) -> Seq<char> {
    "Whisper model not found at "@ + model
}

pub open spec fn model_not_downloaded_message(model: Seq<char>) -> Seq<char> {
    "Whisper model at "@ + model + " is not downloaded. Open Settings and download a model"@
}

/// Whether the model at the displayed path `model` can be loaded: it must be
/// a regular file, and its first bytes (`header`) must not be a Git LFS pointer.
pub fn check_model_file(model: &str, is_file: bool, header: &[u8]) -> (r: Result<(), String>)
    ensures
        r is Ok <==> is_file && !(header@.len() >= lfs_pointer_prefix().len()
            && header@.subrange(0, lfs_pointer_prefix().len() as int) == lfs_pointer_prefix()),
        r matches Err(message) ==> message@ == (if !is_file {
            model_missing_message(model@)
        } else {
            model_not_downloaded_message(model@)
        }),
{
    if !is_file {
        let mut message = String::from_str("Whisper model not found at ");
        message.append(model);
        return Err(message);
    }
    if is_git_lfs_pointer(header) {
        let mut message = String::from_str("Whisper model at ");
        message.append(model);
        message.append(" is not downloaded. Open Settings and download a model");
        return Err(message);
    }
    Ok(())
}

/// The layout of a WAV file, as its header describes it.
#[derive(Clone, Copy, Debug, PartialEq, Eq, Structural)]
pub struct WavFormat {
    pub channels: u16,
    pub sample_rate: u32,
    pub bits_per_sample: u16,
    pub integer_samples: bool,
}

/// The layout of every track the recorder writes: mono, 16-bit integer samples.
pub open spec fn is_mono_pcm16(format: WavFormat) -> bool {
    format.channels == 1 && format.integer_samples && format.bits_per_sample == 16
}

/// The layout of a recorded track at the given rate.
pub fn mono_pcm16(sample_rate: u32) -> (format: WavFormat)
    ensures
        is_mono_pcm16(format),
        format.sample_rate == sample_rate,
{
    WavFormat { channels: 1, sample_rate, bits_per_sample: 16, integer_samples: true }
}

pub open spec fn unreadable_recording_message() -> Seq<char> {
    "Recording must be a 16-bit mono WAV file"@
}

/// Only mono 16-bit integer recordings are read; the answer on success is
/// the recording's sample rate.
pub fn check_recording_format(format: WavFormat) -> (r: Result<u32, String>)
    ensures
        r is Ok <==> is_mono_pcm16(format),
        r matches Ok(rate) ==> rate == format.sample_rate,
        r matches Err(message) ==> message@ == unreadable_recording_message(),
{
    if format.channels != 1 || !format.integer_samples || format.bits_per_sample != 16 {
        Err(String::from_str("Recording must be a 16-bit mono WAV file"))
    } else {
        Ok(format.sample_rate)
    }
}

/// The length of a track of `len` samples brought from `source` Hz to
/// `target` Hz: unchanged at equal rates, else `len * target / source`
/// rounded down.
pub open spec fn spec_resampled_len(len: nat, source: nat, target: nat) -> nat {
    if source == target {
        len
    } else {
        (len * target) / source
    }
}

/// The rates and length for which resampling is defined on this machine:
/// distinct rates need a nonzero source rate, and the scaled length must
/// fit the integers the computation uses.
pub open spec fn resampling_fits(len: nat, source: nat, target: nat) -> bool {
    source != target ==> {
        &&& source > 0
        &&& len * target <= u64::MAX
        &&& (len * target) / source <= usize::MAX
    }
}

proof fn lemma_floor_division_bounds(a: nat, b: nat)
    requires
        b > 0,
    ensures
        (a / b) * b <= a,
        a < (a / b + 1) * b,
{
    assert((a / b) * b <= a && a < (a / b + 1) * b) by (nonlinear_arith)
        requires
            b > 0,
    ;
}

/// How many samples a track of `len` samples has once brought from
/// `source_rate` to `target_rate`. At distinct rates the new track covers no
/// more time than the old one, and falls short of it by less than one new
/// sample.
pub fn resampled_len(len: usize, source_rate: u32, target_rate: u32) -> (out: usize)
    requires
        resampling_fits(len as nat, source_rate as nat, target_rate as nat),
    ensures
        out as nat == spec_resampled_len(len as nat, source_rate as nat, target_rate as nat),
        source_rate != target_rate ==> out * source_rate <= len * target_rate
            && len * target_rate < (out + 1) * source_rate,
{
    if source_rate == target_rate {
        return len;
    }
    proof {
        lemma_floor_division_bounds(len as nat * target_rate as nat, source_rate as nat);
    }
    let scaled: u64 = (len as u64) * (target_rate as u64);
    (scaled / (source_rate as u64)) as usize
}

proof fn lemma_neighbor_in_track(index: nat, len: nat, source: nat, target: nat)
    requires
        source > 0,
        index < (len * target) / source,
    ensures
        target > 0,
        index * source < len * target,
        (index * source) / target < len,
{
    lemma_floor_division_bounds(len * target, source);
    if target == 0 {
        assert(len * target == 0) by (nonlinear_arith)
            requires
                target == 0,
        ;
        assert((len * target) / source == 0) by (nonlinear_arith)
            requires
                len * target == 0,
                source > 0,
        ;
    }
    assert(index * source < len * target) by (nonlinear_arith)
        requires
            index + 1 <= (len * target) / source,
            ((len * target) / source) * source <= len * target,
            source > 0,
    ;
    assert((index * source) / target < len) by (nonlinear_arith)
        requires
            index * source < len * target,
            target > 0,
    ;
}

/// The two source samples that output sample `index` lies between when a
/// track of `len` samples is brought from `source_rate` to `target_rate`:
/// the one at or before its position `index * source_rate / target_rate`,
/// and the next one, or the last sample at the end of the track. Both are
/// inside the track.
pub fn resample_neighbors(index: usize, len: usize, source_rate: u32, target_rate: u32) -> (r: (
    usize,
    usize,
))
    requires
        source_rate != target_rate,
        resampling_fits(len as nat, source_rate as nat, target_rate as nat),
        index < spec_resampled_len(len as nat, source_rate as nat, target_rate as nat),
    ensures
        r.0 as nat == (index * source_rate) as nat / (target_rate as nat),
        r.1 == (if r.0 + 1 < len { r.0 + 1 } else { len - 1 }),
        r.0 < len,
        r.1 < len,
        r.0 <= r.1 <= r.0 + 1,
{
    proof {
        lemma_neighbor_in_track(index as nat, len as nat, source_rate as nat, target_rate as nat);
    }
    let position: u64 = (index as u64) * (source_rate as u64);
    let lower: usize = (position / (target_rate as u64)) as usize;
    let upper: usize = if lower + 1 < len { lower + 1 } else { len - 1 };
    (lower, upper)
}

/// The language code the recogniser reports for Spanish.
pub open spec fn spanish_code() -> Seq<char> {
    "es"@
}

/// A recognition pass that found no segment in audio it took for Spanish is
/// run again with the language fixed to Spanish.
pub fn needs_spanish_retry(segment_count: i32, language: Option<&str>) -> (retry: bool)
    ensures
        retry == (segment_count == 0 && (language matches Some(code) && code@ == spanish_code())),
{
    if segment_count != 0 {
        return false;
    }
    match language {
        Some(code) => same_text(code, "es"),
        None => false,
    }
}

/// The parts joined in order, one per line.
pub open spec fn joined_lines(parts: Seq<Seq<char>>) -> Seq<char>
    decreases parts.len(),
{
    if parts.len() == 0 {
        Seq::empty()
    } else if parts.len() == 1 {
        parts[0]
    } else {
        joined_lines(parts.drop_last()) + "\n"@ + parts.last()
    }
}

/// The total number of characters in the parts.
pub open spec fn total_chars(parts: Seq<Seq<char>>) -> nat
    decreases parts.len(),
{
    if parts.len() == 0 {
        0
    } else {
        total_chars(parts.drop_last()) + parts.last().len()
    }
}

/// Joining keeps every part in order: joining a further part onto a
/// non-empty list gives the earlier joined text, a line break, and the new
/// part; a single part is joined to itself.
pub proof fn lemma_join_appends_a_line(parts: Seq<Seq<char>>, part: Seq<char>)
    ensures
        joined_lines(seq![part]) == part,
        parts.len() > 0 ==> joined_lines(parts.push(part)) == joined_lines(parts) + "\n"@ + part,
{
    assert(parts.push(part).drop_last() =~= parts);
    assert(seq![part].len() == 1);
}

/// The joined text holds every character of every part and one line break
/// between each two neighbouring parts: its length is the parts' total
/// length plus one less than their number.
pub proof fn lemma_join_length(parts: Seq<Seq<char>>)
    requires
        parts.len() > 0,
    ensures
        joined_lines(parts).len() == total_chars(parts) + parts.len() - 1,
    decreases parts.len(),
{
    reveal_strlit("\n");
    assert("\n"@.len() == 1);
    if parts.len() > 1 {
        lemma_join_length(parts.drop_last());
    } else {
        assert(parts.drop_last().len() == 0);
        assert(total_chars(parts.drop_last()) == 0);
        assert(parts.last() == parts[0]);
    }
}

/// The recognised segments, one per line.
pub fn join_segments(segments: &Vec<String>) -> (text: String)
    ensures
        text@ == joined_lines(segments@.map_values(|s: String| s@)),
{
    let ghost parts = segments@.map_values(|s: String| s@);
    let mut text = String::new();
    let mut i: usize = 0;
    while i < segments.len()
        invariant
            parts == segments@.map_values(|s: String| s@),
            0 <= i <= segments.len(),
            text@ == joined_lines(parts.take(i as int)),
        decreases segments.len() - i,
    {
        if i > 0 {
            text.append("\n");
        }
        text.append(segments[i].as_str());
        assert(parts.take(i + 1).drop_last() =~= parts.take(i as int));
        i = i + 1;
    }
    assert(parts.take(segments.len() as int) =~= parts);
    text
}

/// What the transcription leaves on disk, and whether it succeeded.
pub enum TranscriptFile {
    /// Speech was recognised: `contents` is written as the transcript.
    Speech { contents: String },
    /// No speech was recognised: `diagnostic` is written in the transcript's
    /// place, and the transcription fails with `error`.
    NoSpeech { diagnostic: String, error: String },
}

pub open spec fn no_speech_diagnostic(mixed: Seq<char>) -> Seq<char> {
    "[No speech detected]\n\nThe recording contains audio, but Whisper did not identify spoken words. The exact audio sent to Whisper was saved to "@
        + mixed + ".\n"@
}

pub open spec fn no_speech_message(transcript_path: Seq<char>) -> Seq<char> {
    "No speech was detected. A diagnostic file was saved to "@ + transcript_path + "."@
}

/// What to write for the recognised `transcript`: the text and a final line
/// break when it holds anything but white space, else a note that names
/// the mixed audio file `mixed` and an error that names the note's path.
pub fn transcript_file(transcript: &str, mixed: &str, transcript_path: &str) -> (r: TranscriptFile)
    ensures
        match r {
            TranscriptFile::Speech { contents } => trimmed(transcript@).len() > 0
                && contents@ == transcript@ + "\n"@,
            TranscriptFile::NoSpeech { diagnostic, error } => trimmed(transcript@).len() == 0
                && diagnostic@ == no_speech_diagnostic(mixed@)
                && error@ == no_speech_message(transcript_path@),
        },
{
    if trim(transcript).unicode_len() == 0 {
        let mut diagnostic = String::from_str(
            "[No speech detected]\n\nThe recording contains audio, but Whisper did not identify spoken words. The exact audio sent to Whisper was saved to ",
        );
        diagnostic.append(mixed);
        diagnostic.append(".\n");
        let mut error = String::from_str("No speech was detected. A diagnostic file was saved to ");
        error.append(transcript_path);
        error.append(".");
        TranscriptFile::NoSpeech { diagnostic, error }
    } else {
        let mut contents = String::from_str(transcript);
        contents.append("\n");
        TranscriptFile::Speech { contents }
    }
}

} // verus!
