//! The last-error slot of the bridge.
//!
//! An entry point that can fail clears the slot on entry and records one
//! failure when it gives up. The host reads the slot back as a C string, so
//! what is stored never holds a NUL byte.

use vstd::prelude::*;
use vstd::utf8::encode_utf8;
use vstd::utf8::is_ascii_chars;
use vstd::slice::slice_to_vec;

verus! {

/// Why an entry point of the bridge gave up.
pub enum Failure {
    /// An engine operation was asked for before the engine was started.
    NotInitialized,
    /// Compressed audio was handed over as a null pointer.
    NullData,
    /// Raw samples were handed over as a null pointer.
    NullSamples,
    /// Raw samples were described with zero channels or a zero sample rate.
    InvalidFormat,
    /// The buffer for waveform peaks is null or empty.
    InvalidOutputBuffer,
    /// A clip handle does not name a live clip.
    InvalidClipHandle,
    /// A music handle does not name a live music track.
    InvalidMusicHandle,
    /// A sound effect handle does not name a live sound effect.
    InvalidSfxHandle,
    /// The audio engine reported an error; its text, as UTF-8 bytes.
    Reported(Vec<u8>),
}

/// The text of a failure that the bridge itself detects.
pub open spec fn fixed_text(f: Failure) -> Seq<char> {
    match f {
        Failure::NotInitialized => "audio manager not initialized"@,
        Failure::NullData => "null data pointer"@,
        Failure::NullSamples => "null samples pointer"@,
        Failure::InvalidFormat => "invalid channels or sample rate"@,
        Failure::InvalidOutputBuffer => "invalid output buffer"@,
        Failure::InvalidClipHandle => "invalid clip handle"@,
        Failure::InvalidMusicHandle => "invalid music handle"@,
        Failure::InvalidSfxHandle => "invalid sfx handle"@,
        Failure::Reported(_) => seq![],
    }
}

/// The bytes of a failure's message, before it is checked for NUL bytes.
pub open spec fn message_of(f: Failure) -> Seq<u8> {
    match f {
        Failure::Reported(bytes) => bytes@,
        _ => encode_utf8(fixed_text(f)),
    }
}

/// The text stored in place of a message that holds a NUL byte.
pub open spec fn nul_fallback_text() -> Seq<char> {
    "error message contains NUL"@
}

/// What the slot holds after a failure with message bytes `m` is recorded:
/// the message itself, or the fallback when a C string could not carry it.
pub open spec fn stored_message(m: Seq<u8>) -> Seq<u8> {
    if m.contains(0u8) {
        encode_utf8(nul_fallback_text())
    } else {
        m
    }
}

/// `after` is the slot holding the message of `f`.
pub open spec fn records(after: Option<Seq<u8>>, f: Failure) -> bool {
    after == Some(stored_message(message_of(f)))
}

impl Failure {
    fn text(&self) -> (r: &'static str)
        requires
            !(self is Reported),
        ensures
            r@ == fixed_text(*self),
    {
        match self {
            Failure::NotInitialized => "audio manager not initialized",
            Failure::NullData => "null data pointer",
            Failure::NullSamples => "null samples pointer",
            Failure::InvalidFormat => "invalid channels or sample rate",
            Failure::InvalidOutputBuffer => "invalid output buffer",
            Failure::InvalidClipHandle => "invalid clip handle",
            Failure::InvalidMusicHandle => "invalid music handle",
            Failure::InvalidSfxHandle => "invalid sfx handle",
            Failure::Reported(_) => "",
        }
    }

    /// The message bytes of this failure.
    pub fn message(&self) -> (r: Vec<u8>)
        ensures
            r@ == message_of(*self),
    {
        match self {
            Failure::Reported(bytes) => {
                let s: &[u8] = bytes.as_slice();
                slice_to_vec(s)
            },
            _ => {
                let t = self.text();
                slice_to_vec(t.as_bytes())
            },
        }
    }
}

/// Whether `m` holds a NUL byte.
fn holds_nul(m: &Vec<u8>) -> (r: bool)
    ensures
        r == m@.contains(0u8),
{
    let mut i: usize = 0;
    while i < m.len()
        invariant
            i <= m.len(),
            forall|j: int| 0 <= j < i ==> m@[j] != 0u8,
        decreases m.len() - i,
    {
        if m[i] == 0u8 {
            assert(m@[i as int] == 0u8);
            return true;
        }
        i = i + 1;
    }
    false
}

proof fn lemma_fallback_has_no_nul()
    ensures
        !encode_utf8(nul_fallback_text()).contains(0u8),
{
    reveal_strlit("error message contains NUL");
    let t = nul_fallback_text();
    assert(is_ascii_chars(t));
    vstd::utf8::is_ascii_chars_encode_utf8(t);
    assert forall|i: int| 0 <= i < encode_utf8(t).len() implies encode_utf8(t)[i] != 0u8 by {
        assert(t[i] as u8 == encode_utf8(t)[i]);
    }
}

/// No message the slot can hold has a NUL byte, whatever was reported.
pub proof fn lemma_stored_message_has_no_nul(m: Seq<u8>)
    ensures
        !stored_message(m).contains(0u8),
{
    lemma_fallback_has_no_nul();
}

fn nul_fallback() -> (r: Vec<u8>)
    ensures
        r@ == encode_utf8(nul_fallback_text()),
{
    slice_to_vec("error message contains NUL".as_bytes())
}

/// The last error of the bridge: empty, or the message of one failure.
pub struct ErrorInfo {
    message: Option<Vec<u8>>,
}

impl View for ErrorInfo {
    type V = Option<Seq<u8>>;

    closed spec fn view(&self) -> Option<Seq<u8>> {
        match self.message {
            Some(m) => Some(m@),
            None => None,
        }
    }
}

impl ErrorInfo {
    #[verifier::type_invariant]
    closed spec fn holds_c_string(self) -> bool {
        self.message matches Some(m) ==> !m@.contains(0u8)
    }

    /// An empty slot.
    pub fn new() -> (r: ErrorInfo)
        ensures
            r@ is None,
    {
        ErrorInfo { message: None }
    }
}

/// Records `failure` in the slot, replacing what it held.
pub fn set_error(info: &mut ErrorInfo, failure: Failure)
    ensures
        final(info)@ == Some(stored_message(message_of(failure))),
{
    let m = failure.message();
    let stored = if holds_nul(&m) {
        nul_fallback()
    } else {
        m
    };
    proof {
        lemma_fallback_has_no_nul();
    }
    info.message = Some(stored);
}

/// Empties the slot.
pub fn clear_error(info: &mut ErrorInfo)
    ensures
        final(info)@ is None,
{
    info.message = None;
}

/// Hands back the value of a successful operation, or records the failure of
/// one that did not succeed and hands back `default`.
pub fn fallible<T>(info: &mut ErrorInfo, outcome: Result<T, Failure>, default: T) -> (r: T)
    ensures
        match outcome {
            Ok(v) => r == v && final(info)@ == old(info)@,
            Err(f) => r == default && final(info)@ == Some(stored_message(message_of(f))),
        },
{
    match outcome {
        Ok(v) => v,
        Err(f) => {
            set_error(info, f);
            default
        },
    }
}

/// The status code of an operation that hands back nothing: 1 when it
/// succeeded; 0, with its failure recorded, when it did not.
pub fn operation_status(info: &mut ErrorInfo, outcome: Result<(), Failure>) -> (r: u8)
    ensures
        match outcome {
            Ok(_) => r == 1 && final(info)@ == old(info)@,
            Err(f) => r == 0 && final(info)@ == Some(stored_message(message_of(f))),
        },
{
    let code = match outcome {
        Ok(_) => Ok(1u8),
        Err(f) => Err(f),
    };
    fallible(info, code, 0)
}

/// 1 when the slot holds a failure, 0 when it is empty.
#[allow(non_snake_case)]
pub fn SasaUnity_HasError(info: &ErrorInfo) -> (r: u8)
    ensures
        r == (if info@ is Some { 1u8 } else { 0u8 }),
{
    if info.message.is_some() {
        1
    } else {
        0
    }
}

/// The message in the slot, as the bytes of a C string without its
/// terminator; `None` when the slot is empty.
#[allow(non_snake_case)]
pub fn SasaUnity_GetError(info: &ErrorInfo) -> (r: Option<Vec<u8>>)
    ensures
        match r {
            Some(m) => info@ == Some(m@) && !m@.contains(0u8),
            None => info@ is None,
        },
{
    proof {
        use_type_invariant(info);
    }
    match &info.message {
        Some(m) => Some(slice_to_vec(m.as_slice())),
        None => None,
    }
}

} // verus!
