//! The Multi-Drop Bus transport: 9-bit words, frames with a checksum
//! trailer, and the retry policy of one request and reply.
//!
//! The serial line itself is not driven from here. A `Transaction` says which
//! words to transmit; the caller transmits them, collects the words of the
//! reply until one carries the mode bit or the line falls silent, and hands
//! them back.

use vstd::prelude::*;

verus! {

/// The byte that acknowledges a reply.
pub const ACK: u8 = 0x00;

/// The byte that asks for a reply to be sent again.
pub const NAK: u8 = 0xFF;

/// How often a request is tried again after its first failure.
pub const MAX_RETRIES: u8 = 2;

/// The longest gap between two bytes of one reply, in milliseconds.
pub const INTER_BYTE_TIMEOUT_MS: u32 = 1;

/// How long a peripheral has to begin its reply, in milliseconds.
pub const REPLY_TIMEOUT_MS: u32 = 5;

/// The most words that one frame may have, checksum included.
pub const MAX_FRAME_WORDS: usize = 36;

/// The address of the coin acceptor, in the upper five bits of the first byte.
pub const COIN_ACCEPTOR_ADDRESS: u8 = 0x08;

/// The address of the cashless device, in the upper five bits of the first byte.
pub const CASHLESS_ADDRESS: u8 = 0x10;

/// One 9-bit word on the bus: a byte and the mode bit.
#[derive(Clone, Copy, Debug, PartialEq, Eq, Structural)]
pub struct Word {
    pub byte: u8,
    pub mode: bool,
}

/// Why a request got no valid reply.
#[derive(Clone, Copy, Debug, PartialEq, Eq, Structural)]
pub enum BusError {
    /// The reply did not begin in time, or broke off before its checksum.
    Timeout,
    /// The reply was complete but malformed, or its checksum did not match.
    ChecksumMismatch,
    /// The request and both retries went unanswered.
    NoReply,
}

/// The sum of the bytes, modulo 256.
pub open spec fn checksum(bytes: Seq<u8>) -> u8
    decreases bytes.len(),
{
    if bytes.len() == 0 {
        0
    } else {
        ((checksum(bytes.drop_last()) + bytes.last()) % 256) as u8
    }
}

/// The first byte of a frame: the address in the upper five bits, the
/// command in the lower three.
pub open spec fn head_byte(address: u8, command: u8) -> u8 {
    (address & 0xF8) | (command & 0x07)
}

/// The bytes as data words, mode bit clear.
pub open spec fn data_words(bytes: Seq<u8>) -> Seq<Word> {
    Seq::new(bytes.len(), |i: int| Word { byte: bytes[i], mode: false })
}

/// The bytes that data words carry.
pub open spec fn word_bytes(words: Seq<Word>) -> Seq<u8> {
    Seq::new(words.len(), |i: int| words[i].byte)
}

/// The frame that the master sends: the first byte with the mode bit, the
/// payload without, and the checksum of all of them with the mode bit.
pub open spec fn frame_words(address: u8, command: u8, payload: Seq<u8>) -> Seq<Word> {
    seq![Word { byte: head_byte(address, command), mode: true }] + data_words(payload) + seq![
        Word { byte: checksum(seq![head_byte(address, command)] + payload), mode: true },
    ]
}

/// The word that acknowledges a reply.
pub open spec fn ack_words() -> Seq<Word> {
    seq![Word { byte: ACK, mode: true }]
}

/// The word that asks the peripheral to send its reply again.
pub open spec fn nak_words() -> Seq<Word> {
    seq![Word { byte: NAK, mode: true }]
}

/// What the words of a reply amount to.
///
/// A reply is data words followed by one word with the mode bit, whose byte
/// is the checksum of the data. Words that stop short of a mode bit are a
/// timeout; a reply that is too long, carries a mode bit before its end, or
/// fails its checksum is a mismatch.
pub open spec fn reply_payload(words: Seq<Word>) -> Result<Seq<u8>, BusError> {
    if words.len() == 0 || !words.last().mode {
        Err(BusError::Timeout)
    } else if words.len() > MAX_FRAME_WORDS || exists|i: int|
        0 <= i < words.len() - 1 && (#[trigger] words[i]).mode {
        Err(BusError::ChecksumMismatch)
    } else if words.last().byte != checksum(word_bytes(words.drop_last())) {
        Err(BusError::ChecksumMismatch)
    } else {
        Ok(word_bytes(words.drop_last()))
    }
}

/// A result with its payload as a sequence.
pub open spec fn payload_view(r: Result<Vec<u8>, BusError>) -> Result<Seq<u8>, BusError> {
    match r {
        Ok(v) => Ok(v@),
        Err(e) => Err(e),
    }
}

/// The sum of the bytes, modulo 256.
pub fn compute_checksum(bytes: &Vec<u8>) -> (sum: u8)
    ensures
        sum == checksum(bytes@),
{
    let mut sum: u8 = 0;
    let mut i: usize = 0;
    while i < bytes.len()
        invariant
            i <= bytes.len(),
            sum == checksum(bytes@.take(i as int)),
        decreases bytes.len() - i,
    {
        proof {
            assert(bytes@.take(i + 1).drop_last() =~= bytes@.take(i as int));
        }
        sum = ((sum as u16 + bytes[i] as u16) % 256) as u8;
        i = i + 1;
    }
    proof {
        assert(bytes@.take(i as int) =~= bytes@);
    }
    sum
}

/// Builds the frame for a command to a peripheral.
pub fn encode_frame(address: u8, command: u8, payload: &Vec<u8>) -> (frame: Vec<Word>)
    ensures
        frame@ == frame_words(address, command, payload@),
{
    let head: u8 = (address & 0xF8) | (command & 0x07);
    let mut frame: Vec<Word> = Vec::new();
    frame.push(Word { byte: head, mode: true });
    let mut sum: u8 = head;
    let mut i: usize = 0;
    proof {
        assert(seq![head].drop_last() =~= Seq::<u8>::empty());
        assert(checksum(Seq::<u8>::empty()) == 0);
        assert(checksum(seq![head]) == head);
        assert(seq![head] + payload@.take(0) =~= seq![head]);
    }
    while i < payload.len()
        invariant
            i <= payload.len(),
            head == head_byte(address, command),
            sum == checksum(seq![head] + payload@.take(i as int)),
            frame@ == seq![Word { byte: head, mode: true }] + data_words(payload@.take(i as int)),
        decreases payload.len() - i,
    {
        proof {
            assert((seq![head] + payload@.take(i + 1)).drop_last() =~= seq![head]
                + payload@.take(i as int));
        }
        sum = ((sum as u16 + payload[i] as u16) % 256) as u8;
        frame.push(Word { byte: payload[i], mode: false });
        i = i + 1;
        proof {
            assert(frame@ =~= seq![Word { byte: head, mode: true }] + data_words(
                payload@.take(i as int),
            ));
        }
    }
    proof {
        assert(payload@.take(i as int) =~= payload@);
    }
    frame.push(Word { byte: sum, mode: true });
    proof {
        assert(frame@ =~= frame_words(address, command, payload@));
    }
    frame
}

/// Checks the words of a reply and takes out its payload.
pub fn decode_reply(words: &Vec<Word>) -> (r: Result<Vec<u8>, BusError>)
    ensures
        payload_view(r) == reply_payload(words@),
{
    let n = words.len();
    if n == 0 || !words[n - 1].mode {
        return Err(BusError::Timeout);
    }
    if n > MAX_FRAME_WORDS {
        return Err(BusError::ChecksumMismatch);
    }
    let mut payload: Vec<u8> = Vec::new();
    let mut sum: u8 = 0;
    let mut i: usize = 0;
    let ghost data = words@.drop_last();
    while i < n - 1
        invariant
            n == words.len(),
            0 < n <= MAX_FRAME_WORDS,
            i <= n - 1,
            data == words@.drop_last(),
            words@.last().mode,
            forall|k: int| 0 <= k < i ==> !(#[trigger] words[k]).mode,
            payload@ == word_bytes(data.take(i as int)),
            sum == checksum(word_bytes(data.take(i as int))),
        decreases n - 1 - i,
    {
        if words[i].mode {
            proof {
                assert(words@[i as int].mode);
            }
            return Err(BusError::ChecksumMismatch);
        }
        proof {
            assert(word_bytes(data.take(i + 1)).drop_last() =~= word_bytes(data.take(i as int)));
            assert(word_bytes(data.take(i + 1)).last() == words[i as int].byte);
        }
        sum = ((sum as u16 + words[i].byte as u16) % 256) as u8;
        payload.push(words[i].byte);
        i = i + 1;
        proof {
            assert(payload@ =~= word_bytes(data.take(i as int)));
        }
    }
    proof {
        assert(data.take(i as int) =~= data);
    }
    if words[n - 1].byte != sum {
        return Err(BusError::ChecksumMismatch);
    }
    Ok(payload)
}

/// What the collection of a reply does with what the line gave: a word,
/// or none within the time that was allowed for it.
///
/// A word is taken. The collection goes on, with the inter-byte time for
/// the next word, until a word carries the mode bit, the line stays
/// silent, or more words have come than a frame can have.
pub open spec fn collect_step(words: Seq<Word>, received: Option<Word>) -> (
    Seq<Word>,
    Option<u32>,
) {
    match received {
        None => (words, None),
        Some(word) => (
            words.push(word),
            if word.mode || words.len() >= MAX_FRAME_WORDS {
                None
            } else {
                Some(INTER_BYTE_TIMEOUT_MS)
            },
        ),
    }
}

/// What is collected of the words that a peripheral sends one after the
/// other without a pause.
pub open spec fn collect_run(words: Seq<Word>, incoming: Seq<Word>) -> Seq<Word>
    decreases incoming.len(),
{
    if incoming.len() == 0 {
        words
    } else {
        let (taken, more) = collect_step(words, Some(incoming[0]));
        if more is None {
            taken
        } else {
            collect_run(taken, incoming.skip(1))
        }
    }
}

/// The time to wait for the first word of a reply, in milliseconds.
pub fn collect_begin() -> (within_ms: u32)
    ensures
        within_ms == REPLY_TIMEOUT_MS,
{
    REPLY_TIMEOUT_MS
}

/// Takes what the line gave, a word or none in time, into the words of the
/// reply, and returns the time to wait for the next word, or none where
/// the reply has ended.
pub fn collect_word(words: &mut Vec<Word>, received: Option<Word>) -> (more: Option<u32>)
    ensures
        (final(words)@, more) == collect_step(old(words)@, received),
{
    match received {
        None => None,
        Some(word) => {
            let full = words.len() >= MAX_FRAME_WORDS;
            words.push(word);
            if word.mode || full {
                None
            } else {
                Some(INTER_BYTE_TIMEOUT_MS)
            }
        },
    }
}

/// What a transaction asks of the caller next.
#[derive(Debug, PartialEq, Eq)]
pub enum BusStep {
    /// Transmit these words, then collect the reply.
    Transmit(Vec<Word>),
    /// Transmit these words, if any; the transaction has ended with this result.
    Finished { transmit: Vec<Word>, result: Result<Vec<u8>, BusError> },
}

/// A step as a value of the logic.
pub ghost enum BusStepModel {
    Transmit(Seq<Word>),
    Finished { transmit: Seq<Word>, result: Result<Seq<u8>, BusError> },
}

impl BusStep {
    /// The step with its words and payload as sequences.
    pub open spec fn view(self) -> BusStepModel {
        match self {
            BusStep::Transmit(words) => BusStepModel::Transmit(words@),
            BusStep::Finished { transmit, result } => BusStepModel::Finished {
                transmit: transmit@,
                result: payload_view(result),
            },
        }
    }
}

/// One request and its reply, with the retries in between.
#[derive(Clone, Debug, PartialEq, Eq)]
pub struct Transaction {
    pub frame: Vec<Word>,
    /// The attempts that have failed so far.
    pub failed: u8,
    /// The failed attempts that went unanswered.
    pub silent: u8,
    /// Whether the transaction has ended.
    pub finished: bool,
}

/// The state of a transaction as a value of the logic.
pub ghost struct TransactionModel {
    pub frame: Seq<Word>,
    pub failed: u8,
    pub silent: u8,
    pub finished: bool,
}

/// What follows the words of a reply; no words stand for a silent line.
///
/// A valid reply is acknowledged and ends the transaction with its payload.
/// A failed attempt is tried again while retries are left: after silence
/// the frame is sent again, after a bad reply the peripheral is asked to
/// repeat it. When no retry is left the transaction ends with the error of
/// the last attempt, or with `NoReply` where every attempt met silence.
pub open spec fn transaction_step(t: TransactionModel, reply: Seq<Word>) -> (
    TransactionModel,
    BusStepModel,
) {
    if t.finished {
        (t, BusStepModel::Finished { transmit: Seq::empty(), result: Err(BusError::NoReply) })
    } else {
        match reply_payload(reply) {
            Ok(payload) => (
                TransactionModel { finished: true, ..t },
                BusStepModel::Finished { transmit: ack_words(), result: Ok(payload) },
            ),
            Err(e) => {
                let quiet = reply.len() == 0;
                let silent = if quiet {
                    (t.silent + 1) as u8
                } else {
                    t.silent
                };
                if t.failed >= MAX_RETRIES {
                    (
                        TransactionModel { failed: t.failed, silent, finished: true, ..t },
                        BusStepModel::Finished {
                            transmit: Seq::empty(),
                            result: Err(
                                if silent > MAX_RETRIES {
                                    BusError::NoReply
                                } else {
                                    e
                                },
                            ),
                        },
                    )
                } else {
                    (
                        TransactionModel { failed: (t.failed + 1) as u8, silent, ..t },
                        BusStepModel::Transmit(
                            if quiet {
                                t.frame
                            } else {
                                nak_words()
                            },
                        ),
                    )
                }
            },
        }
    }
}

impl Transaction {
    /// The counters are within the retry budget: no more attempts have
    /// failed than there are retries, and no more went unanswered than failed.
    pub open spec fn wf(self) -> bool {
        self.failed <= MAX_RETRIES && (self.finished || self.silent <= self.failed)
    }

    /// The transaction as a value of the logic.
    pub open spec fn view(self) -> TransactionModel {
        TransactionModel {
            frame: self.frame@,
            failed: self.failed,
            silent: self.silent,
            finished: self.finished,
        }
    }

    /// Starts a transaction: the frame for the command, to be transmitted
    /// first.
    pub fn begin(address: u8, command: u8, payload: &Vec<u8>) -> (r: (Transaction, BusStep))
        ensures
            r.0.wf(),
            r.0@ == (TransactionModel {
                frame: frame_words(address, command, payload@),
                failed: 0,
                silent: 0,
                finished: false,
            }),
            r.1@ == BusStepModel::Transmit(frame_words(address, command, payload@)),
    {
        let frame = encode_frame(address, command, payload);
        let first = frame.clone();
        proof {
            assert(first@ =~= frame@);
        }
        (Transaction { frame, failed: 0, silent: 0, finished: false }, BusStep::Transmit(first))
    }

    /// Takes the words of the reply, none where the line stayed silent, and
    /// says what to do next.
    pub fn on_reply(&mut self, reply: &Vec<Word>) -> (step: BusStep)
        requires
            old(self).wf(),
        ensures
            final(self).wf(),
            final(self)@ == transaction_step(old(self)@, reply@).0,
            step@ == transaction_step(old(self)@, reply@).1,
    {
        if self.finished {
            return BusStep::Finished { transmit: Vec::new(), result: Err(BusError::NoReply) };
        }
        match decode_reply(reply) {
            Ok(payload) => {
                self.finished = true;
                let mut transmit: Vec<Word> = Vec::new();
                transmit.push(Word { byte: ACK, mode: true });
                proof {
                    assert(transmit@ =~= ack_words());
                }
                BusStep::Finished { transmit, result: Ok(payload) }
            },
            Err(e) => {
                let quiet = reply.len() == 0;
                if quiet {
                    self.silent = self.silent + 1;
                }
                if self.failed >= MAX_RETRIES {
                    self.finished = true;
                    let error = if self.silent > MAX_RETRIES {
                        BusError::NoReply
                    } else {
                        e
                    };
                    BusStep::Finished { transmit: Vec::new(), result: Err(error) }
                } else {
                    self.failed = self.failed + 1;
                    if quiet {
                        let again = self.frame.clone();
                        proof {
                            assert(again@ =~= self.frame@);
                        }
                        BusStep::Transmit(again)
                    } else {
                        let mut transmit: Vec<Word> = Vec::new();
                        transmit.push(Word { byte: NAK, mode: true });
                        proof {
                            assert(transmit@ =~= nak_words());
                        }
                        BusStep::Transmit(transmit)
                    }
                }
            },
        }
    }
}

/// A reply as a peripheral sends it: the payload as data words, then its
/// checksum with the mode bit.
pub open spec fn reply_words(payload: Seq<u8>) -> Seq<Word> {
    data_words(payload).push(Word { byte: checksum(payload), mode: true })
}

/// A reply that is sent as the protocol says is taken back unchanged, as
/// long as it fits into a frame.
pub proof fn lemma_reply_round_trip(payload: Seq<u8>)
    requires
        payload.len() < MAX_FRAME_WORDS,
    ensures
        reply_payload(reply_words(payload)) == Ok::<Seq<u8>, BusError>(payload),
{
    let words = reply_words(payload);
    assert(words.drop_last() =~= data_words(payload));
    assert(word_bytes(data_words(payload)) =~= payload);
}

/// One corrupted byte is noticed: a reply whose checksum byte is off is
/// refused as a mismatch.
pub proof fn lemma_wrong_checksum_is_refused(payload: Seq<u8>, wrong: u8)
    requires
        payload.len() < MAX_FRAME_WORDS,
        wrong != checksum(payload),
    ensures
        reply_payload(data_words(payload).push(Word { byte: wrong, mode: true })) == Err::<
            Seq<u8>,
            BusError,
        >(BusError::ChecksumMismatch),
{
    let words = data_words(payload).push(Word { byte: wrong, mode: true });
    assert(words.drop_last() =~= data_words(payload));
    assert(word_bytes(data_words(payload)) =~= payload);
}

/// A transaction ends after three attempts at the latest: every failed
/// attempt but the last counts towards the two retries, and the attempt
/// after the second retry ends the transaction whatever comes back.
pub proof fn lemma_retries_are_bounded(t: TransactionModel, reply: Seq<Word>)
    requires
        !t.finished,
        t.failed <= MAX_RETRIES,
    ensures
        ({
            let (next, step) = transaction_step(t, reply);
            &&& next.frame == t.frame
            &&& next.finished <==> step is Finished
            &&& !next.finished ==> next.failed == t.failed + 1 && next.failed <= MAX_RETRIES
            &&& t.failed == MAX_RETRIES ==> next.finished
            &&& step matches BusStepModel::Transmit(words) ==> words == t.frame || words
                == nak_words()
        }),
{
}

/// A valid reply is always acknowledged and returned, on whichever
/// attempt it comes; and `NoReply` is reported only where the request and
/// both retries met silence.
pub proof fn lemma_outcome_of_attempt(t: TransactionModel, reply: Seq<Word>)
    requires
        !t.finished,
        t.failed <= MAX_RETRIES,
        t.silent <= t.failed,
    ensures
        ({
            let (next, step) = transaction_step(t, reply);
            &&& reply_payload(reply) matches Ok(payload) ==> step == (BusStepModel::Finished {
                transmit: ack_words(),
                result: Ok(payload),
            })
            &&& step matches BusStepModel::Finished { result: Err(e), .. } ==> (e
                == BusError::NoReply <==> reply.len() == 0 && t.silent == MAX_RETRIES)
            &&& next.finished || next.silent <= next.failed
        }),
{
}

/// The collection takes a whole reply and no more: of the words that a
/// peripheral sends as the protocol says, all are collected, the
/// collection ends with the checksum word, and what was collected is
/// decoded to the payload that was sent.
pub proof fn lemma_collect_takes_whole_reply(payload: Seq<u8>)
    requires
        payload.len() < MAX_FRAME_WORDS,
    ensures
        collect_run(Seq::empty(), reply_words(payload)) == reply_words(payload),
        reply_payload(collect_run(Seq::empty(), reply_words(payload))) == Ok::<Seq<u8>, BusError>(
            payload,
        ),
{
    lemma_collect_from(payload, 0);
    assert(reply_words(payload).take(0) =~= Seq::<Word>::empty());
    assert(reply_words(payload).skip(0) =~= reply_words(payload));
    lemma_reply_round_trip(payload);
}

proof fn lemma_collect_from(payload: Seq<u8>, k: int)
    requires
        payload.len() < MAX_FRAME_WORDS,
        0 <= k <= payload.len(),
    ensures
        collect_run(reply_words(payload).take(k), reply_words(payload).skip(k)) == reply_words(
            payload,
        ),
    decreases payload.len() - k,
{
    let all = reply_words(payload);
    let taken = all.take(k);
    let incoming = all.skip(k);
    assert(incoming[0] == all[k]);
    assert(taken.push(all[k]) =~= all.take(k + 1));
    if k == payload.len() {
        assert(all[k].mode);
        assert(all.take(k + 1) =~= all);
    } else {
        assert(!all[k].mode);
        assert(incoming.skip(1) =~= all.skip(k + 1));
        lemma_collect_from(payload, k + 1);
    }
}

/// The collection ends after 37 words at the latest, one more than a
/// frame can have, so that a reply that is too long is seen to be so.
pub proof fn lemma_collect_is_bounded(words: Seq<Word>, received: Option<Word>)
    ensures
        collect_step(words, received).0.len() <= words.len() + 1,
        collect_step(words, received).1 is Some ==> collect_step(words, received).0.len()
            <= MAX_FRAME_WORDS && collect_step(words, received).1 == Some(INTER_BYTE_TIMEOUT_MS),
        received is None ==> collect_step(words, received) == (words, None::<u32>),
{
}

} // verus!
