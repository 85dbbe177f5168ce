//! Cloud speech-to-text through Groq's OpenAI-compatible transcription API: the
//! WAV file that is uploaded, the request fields and what is kept of the reply.

use vstd::prelude::*;
use crate::text::{chars_eq_str, eq_ignore_ascii_case, eq_ignore_case, is_blank, lower, lower_vec, owned, to_chars, trim, trim_vec, trimmed, trimmed_lower};

verus! {

/// A Groq speech-to-text model name, normalised: trimmed and lower-cased.
pub open spec fn groq_model_for(model: Seq<char>) -> Option<Seq<char>> {
    let n = lower(trim(model));
    if n == "whisper-large-v3"@ {
        Some("whisper-large-v3"@)
    } else if n == "whisper-large-v3-turbo"@ {
        Some("whisper-large-v3-turbo"@)
    } else {
        None
    }
}

pub fn normalize_model(model: &str) -> (r: Option<&'static str>)
    ensures
        match (r, groq_model_for(model@)) {
            (Some(a), Some(b)) => a@ == b,
            (None, None) => true,
            _ => false,
        },
{
    let v = to_chars(model);
    let t = trim_vec(&v);
    let n = lower_vec(&t);
    if chars_eq_str(&n, "whisper-large-v3") {
        Some("whisper-large-v3")
    } else if chars_eq_str(&n, "whisper-large-v3-turbo") {
        Some("whisper-large-v3-turbo")
    } else {
        None
    }
}

// ---------------------------------------------------------------------------
// WAV container
// ---------------------------------------------------------------------------

/// Little-endian bytes of a `u16`.
pub open spec fn le16(v: u16) -> Seq<u8> {
    seq![(v % 256) as u8, (v / 256) as u8]
}

/// Little-endian bytes of a `u32`.
pub open spec fn le32(v: u32) -> Seq<u8> {
    seq![(v % 256) as u8, ((v / 256) % 256) as u8, ((v / 65536) % 256) as u8, (v / 16777216) as u8]
}

/// 16-bit PCM samples, little-endian, two's complement.
pub open spec fn pcm_bytes(s: Seq<i16>) -> Seq<u8>
    decreases s.len(),
{
    if s.len() == 0 {
        seq![]
    } else {
        pcm_bytes(s.drop_last()) + le16(s.last() as u16)
    }
}

/// The 44-byte header of a 16 kHz, mono, 16-bit PCM WAV file with `data_len` bytes of samples.
pub open spec fn wav_header(data_len: u32) -> Seq<u8> {
    seq![0x52u8, 0x49, 0x46, 0x46] + le32((36 + data_len) as u32) + seq![0x57u8, 0x41, 0x56, 0x45]
        + seq![0x66u8, 0x6d, 0x74, 0x20] + le32(16) + le16(1) + le16(1) + le32(16000) + le32(32000)
        + le16(2) + le16(16) + seq![0x64u8, 0x61, 0x74, 0x61] + le32(data_len)
}

/// The WAV file of 16 kHz mono samples.
pub open spec fn wav_file(s: Seq<i16>) -> Seq<u8> {
    wav_header((2 * s.len()) as u32) + pcm_bytes(s)
}

fn push_le16(out: &mut Vec<u8>, v: u16)
    ensures
        final(out)@ == old(out)@ + le16(v),
{
    out.push((v % 256) as u8);
    out.push((v / 256) as u8);
    assert(final(out)@ =~= old(out)@ + le16(v));
}

fn push_le32(out: &mut Vec<u8>, v: u32)
    ensures
        final(out)@ == old(out)@ + le32(v),
{
    out.push((v % 256) as u8);
    out.push(((v / 256) % 256) as u8);
    out.push(((v / 65536) % 256) as u8);
    out.push((v / 16777216) as u8);
    assert(final(out)@ =~= old(out)@ + le32(v));
}

fn push4(out: &mut Vec<u8>, a: u8, b: u8, c: u8, d: u8)
    ensures
        final(out)@ == old(out)@ + seq![a, b, c, d],
{
    out.push(a);
    out.push(b);
    out.push(c);
    out.push(d);
    assert(final(out)@ =~= old(out)@ + seq![a, b, c, d]);
}

/// Wraps 16 kHz mono 16-bit samples in a WAV file (RIFF header, `fmt ` and `data` chunks).
pub fn pcm16k_mono_to_wav(samples: &[i16]) -> (r: Vec<u8>)
    requires
        2 * samples@.len() + 36 <= u32::MAX,
    ensures
        r@ == wav_file(samples@),
{
    let n = samples.len();
    let data_len: u32 = (2 * n) as u32;
    let mut out: Vec<u8> = Vec::new();
    push4(&mut out, 0x52, 0x49, 0x46, 0x46);
    push_le32(&mut out, 36 + data_len);
    push4(&mut out, 0x57, 0x41, 0x56, 0x45);
    push4(&mut out, 0x66, 0x6d, 0x74, 0x20);
    push_le32(&mut out, 16);
    push_le16(&mut out, 1);
    push_le16(&mut out, 1);
    push_le32(&mut out, 16000);
    push_le32(&mut out, 32000);
    push_le16(&mut out, 2);
    push_le16(&mut out, 16);
    push4(&mut out, 0x64, 0x61, 0x74, 0x61);
    push_le32(&mut out, data_len);
    let ghost header = out@;
    assert(header =~= wav_header(data_len));
    let mut i: usize = 0;
    while i < n
        invariant
            n == samples@.len(),
            i <= n,
            out@ == header + pcm_bytes(samples@.take(i as int)),
        decreases n - i,
    {
        let v: u16 = samples[i] as u16;
        push_le16(&mut out, v);
        proof {
            assert(samples@.take(i + 1).drop_last() =~= samples@.take(i as int));
            assert(samples@.take(i + 1).last() == samples@[i as int]);
            assert(out@ =~= header + pcm_bytes(samples@.take(i + 1)));
        }
        i = i + 1;
    }
    assert(samples@.take(n as int) =~= samples@);
    out
}

proof fn lemma_pcm_bytes_len(s: Seq<i16>)
    ensures
        pcm_bytes(s).len() == 2 * s.len(),
    decreases s.len(),
{
    if s.len() > 0 {
        lemma_pcm_bytes_len(s.drop_last());
    }
}

/// A WAV file is its 44-byte header followed by two bytes per sample, and the
/// sizes written in the header are those of the file: the RIFF size counts the
/// bytes after the first 8, the data size the sample bytes.
pub proof fn lemma_wav_layout(s: Seq<i16>)
    requires
        2 * s.len() + 36 <= u32::MAX,
    ensures
        wav_file(s).len() == 44 + 2 * s.len(),
        wav_header((2 * s.len()) as u32).len() == 44,
        wav_file(s).subrange(44, 44 + 2 * s.len() as int) == pcm_bytes(s),
        ({
            let riff = wav_file(s).len() - 8;
            let data = 2 * s.len();
            wav_file(s).subrange(4, 8) == le32(riff as u32) && wav_file(s).subrange(40, 44)
                == le32(data as u32)
        }),
{
    lemma_pcm_bytes_len(s);
    let h = wav_header((2 * s.len()) as u32);
    assert(h.len() == 44);
    assert(wav_file(s).subrange(44, 44 + 2 * s.len() as int) =~= pcm_bytes(s));
    assert(wav_file(s).subrange(4, 8) =~= le32((36 + 2 * s.len()) as u32));
    assert(wav_file(s).subrange(40, 44) =~= le32((2 * s.len()) as u32));
}

// ---------------------------------------------------------------------------
// Request and reply
// ---------------------------------------------------------------------------

/// A transcription upload.
#[derive(Debug)]
pub struct GroqSttRequest {
    /// Trimmed key, sent as `Authorization: Bearer <key>`.
    pub api_key: String,
    pub model: String,
    /// `language` form field, when one is sent.
    pub language: Option<String>,
}

/// What to do with recorded audio.
#[derive(Debug)]
pub enum GroqSttPlan {
    /// Refused before any upload.
    Fail(String),
    /// No samples: the transcript is empty and no language is detected.
    Empty,
    /// Upload the WAV file with these fields.
    Send(GroqSttRequest),
}

/// The `language` field: the trimmed, lower-cased language unless it is blank or `auto`.
pub open spec fn language_field(language: Seq<char>) -> Option<Seq<char>> {
    if trim(language).len() > 0 && !eq_ignore_case(language, "auto"@) {
        Some(lower(trim(language)))
    } else {
        None
    }
}

pub fn plan_groq_transcription(api_key: &str, model: &str, n_samples: usize, language: &str) -> (r: GroqSttPlan)
    ensures
        trim(api_key@).len() == 0 ==> (r matches GroqSttPlan::Fail(e) && e@ == "Groq STT key missing."@),
        trim(api_key@).len() > 0 && groq_model_for(model@) is None ==> (r matches GroqSttPlan::Fail(e)
            && e@ == "Unsupported Groq STT model. Use whisper-large-v3 or whisper-large-v3-turbo."@),
        trim(api_key@).len() > 0 && groq_model_for(model@) is Some && n_samples == 0 ==> r is Empty,
        trim(api_key@).len() > 0 && groq_model_for(model@) is Some && n_samples > 0 ==> (
        r matches GroqSttPlan::Send(q) && q.api_key@ == trim(api_key@) && q.model@
            == groq_model_for(model@)->0 && match (q.language, language_field(language@)) {
            (Some(a), Some(b)) => a@ == b,
            (None, None) => true,
            _ => false,
        }),
{
    let key = trimmed(api_key);
    if to_chars(key.as_str()).len() == 0 {
        return GroqSttPlan::Fail(owned("Groq STT key missing."));
    }
    let m = match normalize_model(model) {
        Some(m) => m,
        None => {
            return GroqSttPlan::Fail(
                owned("Unsupported Groq STT model. Use whisper-large-v3 or whisper-large-v3-turbo."),
            );
        },
    };
    if n_samples == 0 {
        return GroqSttPlan::Empty;
    }
    let lang = if !is_blank(language) && !eq_ignore_ascii_case(language, "auto") {
        Some(trimmed_lower(language))
    } else {
        None
    };
    GroqSttPlan::Send(GroqSttRequest { api_key: key, model: owned(m), language: lang })
}

/// The transcript (trimmed, empty when absent) and the detected language
/// (trimmed, lower-cased, dropped when blank) of a transcription reply.
pub open spec fn groq_result(text: Option<Seq<char>>, language: Option<Seq<char>>) -> (Seq<char>, Option<Seq<char>>) {
    (
        match text {
            Some(t) => trim(t),
            None => seq![],
        },
        match language {
            Some(l) => if lower(trim(l)).len() > 0 {
                Some(lower(trim(l)))
            } else {
                None
            },
            None => None,
        },
    )
}

pub fn finish_groq_transcription(text: Option<String>, language: Option<String>) -> (r: (String, Option<String>))
    ensures
        ({
            let (t, l) = groq_result(
                match text {
                    Some(s) => Some(s@),
                    None => None,
                },
                match language {
                    Some(s) => Some(s@),
                    None => None,
                },
            );
            r.0@ == t && match (r.1, l) {
                (Some(a), Some(b)) => a@ == b,
                (None, None) => true,
                _ => false,
            }
        }),
{
    let t = match text {
        Some(s) => trimmed(s.as_str()),
        None => String::new(),
    };
    let l = match language {
        Some(s) => {
            let n = trimmed_lower(s.as_str());
            if to_chars(n.as_str()).len() > 0 {
                Some(n)
            } else {
                None
            }
        },
        None => None,
    };
    (t, l)
}

} // verus!
