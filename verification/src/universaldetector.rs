//! Universal detector: the orchestrator that sniffs byte-order marks,
//! classifies the input as pure ASCII, escape-bearing ASCII or high-byte,
//! feeds the active detector pool, and performs the final confidence-based
//! selection.

use vstd::prelude::*;

use crate::CONF_MINIMUM_ADOPT;
use crate::CONF_ONE;
use crate::CONF_SURE_YES;
use crate::enums::InputState;
use crate::enums::ProbingState;
use crate::escprober::EscCharsetProber;
use crate::escprober::EscProberView;
use crate::langturkishmodel::latin5_turkish_model;
use crate::latin1prober::Latin1Prober;
use crate::prober::Prober;
use crate::prober::spec_prober_charset;
use crate::prober::spec_prober_confidence;
use crate::prober::spec_prober_feed;
use crate::prober::spec_prober_feed_result;
use crate::prober::spec_prober_language;
use crate::prober::spec_prober_wf;
use crate::sbcharsetprober::SingleByteCharsetProber;

verus! {

/// The charset and language recognized from a byte-order mark or encoding
/// signature at the very start of the stream, if any.
pub open spec fn spec_bom(bytes: Seq<u8>) -> Option<Seq<char>> {
    if bytes.len() < 2 {
        None
    } else if bytes[0] == 0x00 {
        if bytes.len() >= 4 && bytes[1] == 0x00 {
            if bytes[2] == 0xFE && bytes[3] == 0xFF {
                Some("UTF-32BE"@)
            } else if bytes[2] == 0xFF && bytes[3] == 0xFE {
                Some("X-ISO-100646-UCS-4-2143"@)
            } else {
                None
            }
        } else {
            None
        }
    } else if bytes[0] == 0xEF {
        if bytes.len() > 2 && bytes[1] == 0xBB && bytes[2] == 0xBF {
            Some("UTF-8"@)
        } else {
            None
        }
    } else if bytes[0] == 0xFE {
        if bytes[1] == 0xFF {
            if bytes.len() >= 4 && bytes[2] == 0x00 && bytes[3] == 0x00 {
                Some("X-ISO-10646-UCS-4-3412"@)
            } else {
                Some("UTF-16BE"@)
            }
        } else {
            None
        }
    } else if bytes[0] == 0xFF {
        if bytes[1] == 0xFE {
            if bytes.len() >= 4 && bytes[2] == 0x00 && bytes[3] == 0x00 {
                Some("UTF-32LE"@)
            } else {
                Some("UTF-16LE"@)
            }
        } else {
            None
        }
    } else {
        None
    }
}

/// One step of the input classification: a high bit (other than on 0xA0)
/// escalates to Highbyte for good; an escape byte escalates pure ASCII to
/// escape-bearing ASCII.
pub open spec fn spec_classify_step(st: InputState, b: u8) -> InputState {
    if b & 0x80 != 0 && b != 0xA0 {
        InputState::Highbyte
    } else if st == InputState::PureAscii && b == 0x1B {
        InputState::EscAscii
    } else {
        st
    }
}

/// The input classification after the bytes from index `i` on.
pub open spec fn spec_classify(st: InputState, bytes: Seq<u8>, i: nat) -> InputState
    decreases bytes.len() - i,
{
    if i >= bytes.len() {
        st
    } else {
        spec_classify(spec_classify_step(st, bytes[i as int]), bytes, i + 1)
    }
}

/// The pool after every member from index `j` on has been fed, stopping at
/// the first FoundIt; the second component is that member, already fed.
pub open spec fn spec_pool_feed(probers: Seq<Prober>, bytes: Seq<u8>, j: nat) -> (
    Seq<Prober>,
    Option<Prober>,
)
    decreases probers.len() - j,
{
    if j >= probers.len() {
        (probers, None)
    } else {
        let p2 = spec_prober_feed(probers[j as int], bytes);
        let ps2 = probers.update(j as int, p2);
        if spec_prober_feed_result(probers[j as int], bytes) == ProbingState::FoundIt {
            (ps2, Some(p2))
        } else {
            spec_pool_feed(ps2, bytes, j + 1)
        }
    }
}

/// The member of `probers[i..]` with the strictly highest confidence, given
/// the best seen so far; earlier members win ties.
pub open spec fn spec_best_prober(
    probers: Seq<Prober>,
    i: nat,
    best_idx: int,
    best_conf: u32,
) -> (int, u32)
    decreases probers.len() - i,
{
    if i >= probers.len() {
        (best_idx, best_conf)
    } else {
        let c = spec_prober_confidence(probers[i as int]);
        if c > best_conf {
            spec_best_prober(probers, i + 1, i as int, c)
        } else {
            spec_best_prober(probers, i + 1, best_idx, best_conf)
        }
    }
}

/// The abstract state of an orchestrator session.
pub struct UniversalDetectorView {
    /// The input classification seen so far; only ever escalates.
    pub m_input_state: InputState,
    /// Whether a decision has been made; further feeds are no-ops.
    pub m_done: bool,
    /// Whether a non-empty chunk has been seen; signature sniffing happens
    /// only on the first one.
    pub m_got_data: bool,
    /// The last byte of the previous chunk.
    pub m_last_char: u8,
    /// The detected charset name; empty while none.
    pub charset: Seq<char>,
    /// The confidence of the detection.
    pub confidence: u32,
    /// The language label of the detection.
    pub language: Seq<char>,
    /// The escape-sequence detector.
    pub esc: Option<EscProberView>,
    /// The high-byte detector pool.
    pub probers: Seq<Prober>,
}

impl UniversalDetectorView {
    /// Every owned detector is well formed.
    pub open spec fn wf(&self) -> bool {
        &&& match self.esc {
            Some(e) => e.wf(),
            None => true,
        }
        &&& forall|k: int| 0 <= k < self.probers.len() ==> #[trigger] spec_prober_wf(self.probers[k])
    }

    /// The session after one feed call: no-op when done or empty; else
    /// signature sniffing on the first data, classification of every byte,
    /// and a scan by the escape detector or the whole pool as the
    /// classification directs, adopting the first FoundIt.
    pub open spec fn spec_feed(self, bytes: Seq<u8>) -> UniversalDetectorView {
        if self.m_done || bytes.len() == 0 {
            self
        } else {
            let bommed = if !self.m_got_data {
                match spec_bom(bytes) {
                    Some(cs) => UniversalDetectorView {
                        m_got_data: true,
                        charset: cs,
                        confidence: CONF_ONE,
                        language: Seq::<char>::empty(),
                        ..self
                    },
                    None => UniversalDetectorView { m_got_data: true, ..self },
                }
            } else {
                self
            };
            let sniffed = if !self.m_got_data && bommed.charset.len() > 0 {
                UniversalDetectorView { m_done: true, ..bommed }
            } else {
                bommed
            };
            if sniffed.m_done {
                sniffed
            } else {
                let st = spec_classify(sniffed.m_input_state, bytes, 0);
                let classified = UniversalDetectorView {
                    m_input_state: st,
                    m_last_char: bytes[bytes.len() - 1],
                    ..sniffed
                };
                if st == InputState::EscAscii {
                    match classified.esc {
                        Some(e) => {
                            let e2 = e.spec_scan(bytes, 0);
                            if e2.m_state == ProbingState::FoundIt {
                                UniversalDetectorView {
                                    esc: Some(e2),
                                    charset: e2.charset,
                                    confidence: if e2.charset.len() > 0 {
                                        CONF_SURE_YES
                                    } else {
                                        0u32
                                    },
                                    language: e2.language,
                                    m_done: true,
                                    ..classified
                                }
                            } else {
                                UniversalDetectorView { esc: Some(e2), ..classified }
                            }
                        },
                        None => classified,
                    }
                } else if st == InputState::Highbyte {
                    let (ps2, found) = spec_pool_feed(classified.probers, bytes, 0);
                    match found {
                        Some(winner) => UniversalDetectorView {
                            probers: ps2,
                            charset: spec_prober_charset(winner),
                            confidence: spec_prober_confidence(winner),
                            language: spec_prober_language(winner),
                            m_done: true,
                            ..classified
                        },
                        None => UniversalDetectorView { probers: ps2, ..classified },
                    }
                } else {
                    classified
                }
            }
        }
    }

    /// The session and the reported triple after close: a made decision is
    /// returned as it stands; pure ASCII input is reported as such with full
    /// confidence; high-byte input adopts the pool member with the strictly
    /// highest confidence if it clears the adoption threshold; anything else
    /// reports no detection.
    pub open spec fn spec_close(self) -> UniversalDetectorView {
        if self.m_done || !self.m_got_data {
            self
        } else if self.m_input_state == InputState::PureAscii {
            UniversalDetectorView {
                charset: "ascii"@,
                confidence: CONF_ONE,
                language: Seq::<char>::empty(),
                ..self
            }
        } else if self.m_input_state == InputState::Highbyte {
            let (best_idx, best_conf) = spec_best_prober(self.probers, 0, 0, 0);
            if best_conf > CONF_MINIMUM_ADOPT {
                UniversalDetectorView {
                    charset: spec_prober_charset(self.probers[best_idx]),
                    confidence: spec_prober_confidence(self.probers[best_idx]),
                    language: spec_prober_language(self.probers[best_idx]),
                    ..self
                }
            } else {
                self
            }
        } else {
            self
        }
    }
}

/// An orchestrator session: the input classification, the decision state,
/// and the owned detectors.
pub struct UniversalDetector {
    /// The input classification seen so far.
    pub m_input_state: InputState,
    /// Whether a decision has been made.
    pub m_done: bool,
    /// Whether a non-empty chunk has been seen.
    pub m_got_data: bool,
    /// The last byte of the previous chunk.
    pub m_last_char: u8,
    /// The detected charset name; empty while none.
    pub m_detected_charset: String,
    /// The confidence of the detection.
    pub m_detected_confidence: u32,
    /// The language label of the detection.
    pub m_detected_language: String,
    /// The escape-sequence detector.
    pub m_esc_charset_prober: Option<EscCharsetProber>,
    /// The high-byte detector pool, in registration order; earlier members
    /// win ties.
    pub m_charset_probers: Vec<Prober>,
}

impl View for UniversalDetector {
    type V = UniversalDetectorView;

    open spec fn view(&self) -> UniversalDetectorView {
        UniversalDetectorView {
            m_input_state: self.m_input_state,
            m_done: self.m_done,
            m_got_data: self.m_got_data,
            m_last_char: self.m_last_char,
            charset: self.m_detected_charset@,
            confidence: self.m_detected_confidence,
            language: self.m_detected_language@,
            esc: match self.m_esc_charset_prober {
                Some(e) => Some(e@),
                None => None,
            },
            probers: self.m_charset_probers@,
        }
    }
}

impl UniversalDetector {
    /// Every owned detector is well formed.
    pub open spec fn wf(&self) -> bool {
        self@.wf()
    }

    /// A fresh session over the given detector pool.
    pub fn new_with_probers(probers: Vec<Prober>) -> (r: UniversalDetector)
        requires
            forall|k: int| 0 <= k < probers@.len() ==> #[trigger] spec_prober_wf(probers@[k]),
        ensures
            r.wf(),
            r@.m_input_state == InputState::PureAscii,
            r@.m_done == false,
            r@.m_got_data == false,
            r@.m_last_char == 0u8,
            r@.charset.len() == 0,
            r@.confidence == 0,
            r@.language.len() == 0,
            r@.esc is Some,
            r@.probers == probers@,
    {
        UniversalDetector {
            m_input_state: InputState::PureAscii,
            m_done: false,
            m_got_data: false,
            m_last_char: 0,
            m_detected_charset: String::new(),
            m_detected_confidence: 0,
            m_detected_language: String::new(),
            m_esc_charset_prober: Some(EscCharsetProber::new()),
            m_charset_probers: probers,
        }
    }

    /// A fresh session over the built-in detector pool: the detectors whose
    /// models ship with the crate, in registration order.
    pub fn new() -> (r: UniversalDetector)
        ensures
            r.wf(),
            r@.m_input_state == InputState::PureAscii,
            r@.m_done == false,
            r@.m_got_data == false,
            r@.charset.len() == 0,
            r@.confidence == 0,
            r@.language.len() == 0,
            r@.esc is Some,
            r@.probers.len() == 2,
            r@.probers[0] is SingleByte,
            spec_prober_charset(r@.probers[0]) == "ISO-8859-9"@,
            r@.probers[1] is Latin1,
    {
        let mut probers: Vec<Prober> = Vec::new();
        probers.push(
            Prober::SingleByte(SingleByteCharsetProber::new(latin5_turkish_model(), false)),
        );
        probers.push(Prober::Latin1(Latin1Prober::new()));
        UniversalDetector::new_with_probers(probers)
    }

    /// Returns the session to its just-constructed state, resetting every
    /// owned detector in place.
    pub fn reset(&mut self)
        requires
            old(self).wf(),
        ensures
            final(self).wf(),
            final(self)@.m_input_state == InputState::PureAscii,
            final(self)@.m_done == false,
            final(self)@.m_got_data == false,
            final(self)@.m_last_char == 0u8,
            final(self)@.charset.len() == 0,
            final(self)@.confidence == 0,
            final(self)@.language.len() == 0,
            final(self)@.probers.len() == old(self)@.probers.len(),
            forall|k: int|
                0 <= k < old(self)@.probers.len() ==> #[trigger] final(self)@.probers[k]
                    == crate::prober::spec_prober_reset(old(self)@.probers[k]),
    {
        self.m_input_state = InputState::PureAscii;
        self.m_done = false;
        self.m_got_data = false;
        self.m_last_char = 0;
        self.m_detected_charset = String::new();
        self.m_detected_confidence = 0;
        self.m_detected_language = String::new();
        match &mut self.m_esc_charset_prober {
            Some(prober) => {
                prober.reset();
            },
            None => {},
        }
        let ghost cleared = self@;
        let n = self.m_charset_probers.len();
        let mut i: usize = 0;
        while i < n
            invariant
                i <= n,
                n == self.m_charset_probers@.len(),
                self.m_charset_probers@.len() == old(self).m_charset_probers@.len(),
                self.m_input_state == InputState::PureAscii,
                self.m_done == false,
                self.m_got_data == false,
                self.m_last_char == 0u8,
                self.m_detected_charset@.len() == 0,
                self.m_detected_confidence == 0,
                self.m_detected_language@.len() == 0,
                self@.esc == cleared.esc,
                match cleared.esc {
                    Some(e) => e.wf(),
                    None => true,
                },
                forall|k: int|
                    0 <= k < old(self).m_charset_probers@.len() ==> spec_prober_wf(
                        #[trigger] old(self).m_charset_probers@[k],
                    ),
                forall|k: int|
                    0 <= k < i ==> #[trigger] self.m_charset_probers@[k]
                        == crate::prober::spec_prober_reset(old(self).m_charset_probers@[k]),
                forall|k: int|
                    i <= k < n ==> #[trigger] self.m_charset_probers@[k] == old(
                        self,
                    ).m_charset_probers@[k],
                forall|k: int|
                    0 <= k < n ==> spec_prober_wf(#[trigger] self.m_charset_probers@[k]),
            decreases n - i,
        {
            let ghost before = self.m_charset_probers@;
            let mut p = self.m_charset_probers.remove(i);
            proof {
                assert(spec_prober_wf(before[i as int]));
            }
            p.reset();
            self.m_charset_probers.insert(i, p);
            proof {
                assert(self.m_charset_probers@ =~= before.update(
                    i as int,
                    self.m_charset_probers@[i as int],
                ));
                assert forall|k: int|
                    0 <= k < self.m_charset_probers@.len() implies spec_prober_wf(
                    #[trigger] self.m_charset_probers@[k],
                ) by {
                    if k != i {
                        assert(spec_prober_wf(before[k]));
                    }
                };
            }
            i = i + 1;
        }
    }

    /// Absorbs one chunk: sniffs the encoding signature on the first data,
    /// classifies every byte, and feeds the escape detector or the whole
    /// pool as the classification directs, adopting the first FoundIt.
    pub fn feed(&mut self, byte_str: &[u8])
        requires
            old(self).wf(),
        ensures
            final(self).wf(),
            final(self)@ == old(self)@.spec_feed(byte_str@),
    {
        if self.m_done {
            return ;
        }
        if byte_str.len() == 0 {
            return ;
        }
        if !self.m_got_data {
            if byte_str.len() >= 2 {
                let b0 = byte_str[0];
                if b0 == 0x00 {
                    if byte_str.len() >= 4 && byte_str[1] == 0x00 {
                        if byte_str[2] == 0xFE && byte_str[3] == 0xFF {
                            self.m_detected_charset = "UTF-32BE".to_owned();
                            self.m_detected_confidence = CONF_ONE;
                            self.m_detected_language = String::new();
                        } else if byte_str[2] == 0xFF && byte_str[3] == 0xFE {
                            self.m_detected_charset = "X-ISO-100646-UCS-4-2143".to_owned();
                            self.m_detected_confidence = CONF_ONE;
                            self.m_detected_language = String::new();
                        }
                    }
                } else if b0 == 0xEF {
                    if byte_str.len() > 2 && byte_str[1] == 0xBB && byte_str[2] == 0xBF {
                        self.m_detected_charset = "UTF-8".to_owned();
                        self.m_detected_confidence = CONF_ONE;
                        self.m_detected_language = String::new();
                    }
                } else if b0 == 0xFE {
                    if byte_str[1] == 0xFF {
                        if byte_str.len() >= 4 && byte_str[2] == 0x00 && byte_str[3] == 0x00 {
                            self.m_detected_charset = "X-ISO-10646-UCS-4-3412".to_owned();
                        } else {
                            self.m_detected_charset = "UTF-16BE".to_owned();
                        }
                        self.m_detected_confidence = CONF_ONE;
                        self.m_detected_language = String::new();
                    }
                } else if b0 == 0xFF {
                    if byte_str[1] == 0xFE {
                        if byte_str.len() >= 4 && byte_str[2] == 0x00 && byte_str[3] == 0x00 {
                            self.m_detected_charset = "UTF-32LE".to_owned();
                        } else {
                            self.m_detected_charset = "UTF-16LE".to_owned();
                        }
                        self.m_detected_confidence = CONF_ONE;
                        self.m_detected_language = String::new();
                    }
                }
            }
            self.m_got_data = true;
            if !self.m_detected_charset.as_str().is_empty() {
                self.m_done = true;
                return ;
            }
        }
        let ghost sniffed = self@;
        let mut k: usize = 0;
        while k < byte_str.len()
            invariant
                k <= byte_str@.len(),
                spec_classify(sniffed.m_input_state, byte_str@, 0) == spec_classify(
                    self.m_input_state,
                    byte_str@,
                    k as nat,
                ),
                self.m_done == false,
                self.m_got_data == true,
                self.m_last_char == sniffed.m_last_char,
                self.m_detected_charset@ == sniffed.charset,
                self.m_detected_confidence == sniffed.confidence,
                self.m_detected_language@ == sniffed.language,
                self.m_charset_probers@ == sniffed.probers,
                self@.esc == sniffed.esc,
                sniffed.wf(),
            decreases byte_str@.len() - k,
        {
            let ch = byte_str[k];
            if (ch & 0x80 != 0) && (ch != 0xA0) {
                if self.m_input_state != InputState::Highbyte {
                    self.m_input_state = InputState::Highbyte;
                }
            } else {
                if self.m_input_state == InputState::PureAscii && ch == 0x1B {
                    self.m_input_state = InputState::EscAscii;
                }
            }
            k = k + 1;
        }
        self.m_last_char = byte_str[byte_str.len() - 1];
        if self.m_input_state == InputState::EscAscii {
            match &mut self.m_esc_charset_prober {
                Some(prober) => {
                    proof {
                        assert(prober.wf());
                    }
                    let st = prober.feed(byte_str);
                    if st == ProbingState::FoundIt {
                        let cs = prober.get_charset();
                        let conf = prober.get_confidence();
                        let lang = prober.get_language();
                        self.m_detected_charset = cs;
                        self.m_detected_confidence = conf;
                        self.m_detected_language = lang;
                        self.m_done = true;
                    }
                },
                None => {},
            }
        } else if self.m_input_state == InputState::Highbyte {
            let ghost classified = self@;
            let n = self.m_charset_probers.len();
            let mut j: usize = 0;
            let mut found: bool = false;
            let mut found_charset: String = String::new();
            let mut found_confidence: u32 = 0;
            let mut found_language: String = String::new();
            let ghost mut gwinner: Option<Prober> = None;
            while j < n && !found
                invariant
                    j <= n,
                    n == self.m_charset_probers@.len(),
                    self.m_input_state == classified.m_input_state,
                    self.m_done == false,
                    self.m_got_data == true,
                    self.m_last_char == classified.m_last_char,
                    self.m_detected_charset@ == classified.charset,
                    self.m_detected_confidence == classified.confidence,
                    self.m_detected_language@ == classified.language,
                    self@.esc == classified.esc,
                    classified.wf(),
                    forall|kk: int|
                        0 <= kk < self.m_charset_probers@.len() ==> spec_prober_wf(
                            #[trigger] self.m_charset_probers@[kk],
                        ),
                    !found ==> spec_pool_feed(classified.probers, byte_str@, 0) == spec_pool_feed(
                        self.m_charset_probers@,
                        byte_str@,
                        j as nat,
                    ),
                    found ==> {
                        &&& spec_pool_feed(classified.probers, byte_str@, 0) == (
                            self.m_charset_probers@,
                            gwinner,
                        )
                        &&& gwinner is Some
                        &&& found_charset@ == spec_prober_charset(gwinner->Some_0)
                        &&& found_confidence == spec_prober_confidence(gwinner->Some_0)
                        &&& found_language@ == spec_prober_language(gwinner->Some_0)
                    },
                decreases n - j + (if found { 0int } else { 1int }),
            {
                let ghost before = self.m_charset_probers@;
                let mut p = self.m_charset_probers.remove(j);
                proof {
                    assert(spec_prober_wf(before[j as int]));
                }
                let st = p.feed(byte_str);
                if st == ProbingState::FoundIt {
                    found_charset = p.get_charset();
                    found_confidence = p.get_confidence();
                    found_language = p.get_language();
                    proof {
                        gwinner = Some(p);
                    }
                    self.m_charset_probers.insert(j, p);
                    proof {
                        assert(self.m_charset_probers@ =~= before.update(
                            j as int,
                            self.m_charset_probers@[j as int],
                        ));
                        assert forall|kk: int|
                            0 <= kk < self.m_charset_probers@.len() implies spec_prober_wf(
                            #[trigger] self.m_charset_probers@[kk],
                        ) by {
                            if kk != j {
                                assert(spec_prober_wf(before[kk]));
                            }
                        };
                    }
                    found = true;
                } else {
                    self.m_charset_probers.insert(j, p);
                    proof {
                        assert(self.m_charset_probers@ =~= before.update(
                            j as int,
                            self.m_charset_probers@[j as int],
                        ));
                        assert forall|kk: int|
                            0 <= kk < self.m_charset_probers@.len() implies spec_prober_wf(
                            #[trigger] self.m_charset_probers@[kk],
                        ) by {
                            if kk != j {
                                assert(spec_prober_wf(before[kk]));
                            }
                        };
                    }
                    j = j + 1;
                }
            }
            if found {
                self.m_detected_charset = found_charset;
                self.m_detected_confidence = found_confidence;
                self.m_detected_language = found_language;
                self.m_done = true;
            }
        }
    }

    /// Reports the verdict of the session: the decision made during feeding,
    /// the pure-ASCII fallback, or the best pool member above the adoption
    /// threshold; an empty charset with confidence zero means no detection.
    /// Closing is idempotent: calling it again returns the same triple.
    pub fn close(&mut self) -> (r: (String, u32, String))
        requires
            old(self).wf(),
        ensures
            final(self).wf(),
            final(self)@ == old(self)@.spec_close(),
            r.0@ == final(self)@.charset,
            r.1 == final(self)@.confidence,
            r.2@ == final(self)@.language,
    {
        if !self.m_done && self.m_got_data {
            if self.m_input_state == InputState::PureAscii {
                self.m_detected_charset = "ascii".to_owned();
                self.m_detected_confidence = CONF_ONE;
                self.m_detected_language = String::new();
            } else if self.m_input_state == InputState::Highbyte {
                let ghost entry = self@;
                let n = self.m_charset_probers.len();
                let mut maxidx: usize = 0;
                let mut maxconf: u32 = 0;
                let mut i: usize = 0;
                while i < n
                    invariant
                        i <= n,
                        n == self.m_charset_probers@.len(),
                        maxidx <= i,
                        maxidx < n || (n == 0 && maxidx == 0),
                        *self == (UniversalDetector { m_charset_probers: self.m_charset_probers, ..*old(self) }),
                        self.m_charset_probers@ == entry.probers,
                        entry.wf(),
                        spec_best_prober(entry.probers, 0, 0, 0) == spec_best_prober(
                            entry.probers,
                            i as nat,
                            maxidx as int,
                            maxconf,
                        ),
                    decreases n - i,
                {
                    let ghost before = self.m_charset_probers@;
                    let mut p = self.m_charset_probers.remove(i);
                    proof {
                        assert(spec_prober_wf(before[i as int]));
                    }
                    let tmp = p.get_confidence();
                    self.m_charset_probers.insert(i, p);
                    proof {
                        assert(self.m_charset_probers@ =~= before);
                    }
                    if tmp > maxconf {
                        maxconf = tmp;
                        maxidx = i;
                    }
                    i = i + 1;
                }
                if maxconf > CONF_MINIMUM_ADOPT {
                    let ghost before = self.m_charset_probers@;
                    let mut p = self.m_charset_probers.remove(maxidx);
                    proof {
                        assert(spec_prober_wf(before[maxidx as int]));
                    }
                    let cs = p.get_charset();
                    let conf = p.get_confidence();
                    let lang = p.get_language();
                    self.m_charset_probers.insert(maxidx, p);
                    proof {
                        assert(self.m_charset_probers@ =~= before);
                    }
                    self.m_detected_charset = cs;
                    self.m_detected_confidence = conf;
                    self.m_detected_language = lang;
                }
            }
        }
        proof {
            assert forall|k: int|
                0 <= k < self@.probers.len() implies #[trigger] spec_prober_wf(
                self@.probers[k],
            ) by {
                assert(spec_prober_wf(old(self)@.probers[k]));
            };
        }
        let charset = self.m_detected_charset.clone();
        let language = self.m_detected_language.clone();
        (charset, self.m_detected_confidence, language)
    }
}

/// A buffer of plain ASCII without an escape byte never escalates the input
/// classification.
pub proof fn lemma_classify_pure_ascii(bytes: Seq<u8>, i: nat)
    requires
        forall|k: int| 0 <= k < bytes.len() ==> bytes[k] < 0x80 && bytes[k] != 0x1B,
    ensures
        spec_classify(InputState::PureAscii, bytes, i) == InputState::PureAscii,
    decreases bytes.len() - i,
{
    if i < bytes.len() {
        let b = bytes[i as int];
        assert(b < 0x80 ==> b & 0x80 == 0) by (bit_vector);
        lemma_classify_pure_ascii(bytes, i + 1);
    }
}

/// A buffer of plain ASCII carries no byte-order mark.
pub proof fn lemma_bom_pure_ascii(bytes: Seq<u8>)
    requires
        forall|k: int| 0 <= k < bytes.len() ==> bytes[k] < 0x80,
    ensures
        spec_bom(bytes) is None,
{
}

/// Detects the charset of a whole in-memory buffer: a fresh session, one
/// feed, then close. Signature prefixes always win with full confidence;
/// a buffer of plain ASCII without escape bytes is reported as ASCII with
/// full confidence; an empty buffer yields no detection.
pub fn detect(byte_str: &Vec<u8>) -> (r: (String, u32, String))
    ensures
        byte_str@.len() >= 3 && byte_str@[0] == 0xEF && byte_str@[1] == 0xBB && byte_str@[2]
            == 0xBF ==> r.0@ == "UTF-8"@ && r.1 == CONF_ONE && r.2@.len() == 0,
        byte_str@.len() >= 4 && byte_str@[0] == 0xFF && byte_str@[1] == 0xFE && byte_str@[2]
            == 0x00 && byte_str@[3] == 0x00 ==> r.0@ == "UTF-32LE"@ && r.1 == CONF_ONE && r.2@.len()
            == 0,
        byte_str@.len() >= 2 && byte_str@[0] == 0xFF && byte_str@[1] == 0xFE && !(byte_str@.len()
            >= 4 && byte_str@[2] == 0x00 && byte_str@[3] == 0x00) ==> r.0@ == "UTF-16LE"@ && r.1
            == CONF_ONE && r.2@.len() == 0,
        spec_bom(byte_str@) is Some ==> r.0@ == spec_bom(byte_str@)->Some_0 && r.1 == CONF_ONE
            && r.2@.len() == 0,
        byte_str@.len() > 0 && (forall|k: int|
            0 <= k < byte_str@.len() ==> byte_str@[k] < 0x80 && byte_str@[k] != 0x1B) ==> r.0@
            == "ascii"@ && r.1 == CONF_ONE && r.2@.len() == 0,
        byte_str@.len() == 0 ==> r.0@.len() == 0 && r.1 == 0 && r.2@.len() == 0,
{
    let mut detector = UniversalDetector::new();
    detector.feed(byte_str.as_slice());
    proof {
        reveal_strlit("UTF-8");
        reveal_strlit("UTF-16LE");
        reveal_strlit("UTF-16BE");
        reveal_strlit("UTF-32LE");
        reveal_strlit("UTF-32BE");
        reveal_strlit("X-ISO-100646-UCS-4-2143");
        reveal_strlit("X-ISO-10646-UCS-4-3412");
        if byte_str@.len() > 0 && (forall|k: int|
            0 <= k < byte_str@.len() ==> byte_str@[k] < 0x80 && byte_str@[k] != 0x1B) {
            lemma_bom_pure_ascii(byte_str@);
            lemma_classify_pure_ascii(byte_str@, 0);
        }
    }
    detector.close()
}

/// The canonical encoding name for a detected charset label: a few internal
/// labels translate to their registry names, everything else is itself.
pub open spec fn spec_charset2encoding(e: Seq<char>) -> Seq<char> {
    if e == "CP932"@ {
        "windows-31j"@
    } else if e == "CP949"@ {
        "windows-949"@
    } else if e == "MacCyrillic"@ {
        "x-mac-cyrillic"@
    } else {
        e
    }
}

/// Translates a detected charset label to its canonical encoding name.
pub fn charset2encoding<'a>(enc: &'a String) -> (r: Option<&'a str>)
    ensures
        r is Some,
        r->Some_0@ == spec_charset2encoding(enc@),
{
    if *enc == "CP932".to_owned() {
        Some("windows-31j")
    } else if *enc == "CP949".to_owned() {
        Some("windows-949")
    } else if *enc == "MacCyrillic".to_owned() {
        Some("x-mac-cyrillic")
    } else {
        Some(enc.as_str())
    }
}

} // verus!
