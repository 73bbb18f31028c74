//! Sequencing: a string of symbols becomes two queues of tones, one per
//! frequency group, filled in lock-step so that the two tones of a symbol
//! sound together.

use vstd::prelude::*;
use crate::keypad::{is_symbol, lookup, normalize, to_upper, tone_grid, HIGH_TONES, LOW_TONES};
use crate::tone::{new_tone, tone_at, Tone};

verus! {

/// An ordered queue of tone events that only ever grows at its end.
pub struct PlaybackQueue {
    events: Vec<Tone>,
}

impl View for PlaybackQueue {
    type V = Seq<Tone>;

    closed spec fn view(&self) -> Seq<Tone> {
        self.events@
    }
}

impl PlaybackQueue {
    /// A queue with nothing on it.
    pub fn new() -> (queue: PlaybackQueue)
        ensures
            queue@ == Seq::<Tone>::empty(),
    {
        PlaybackQueue { events: Vec::new() }
    }

    /// Puts `tone` behind everything already queued.
    pub fn append(&mut self, tone: Tone)
        ensures
            final(self)@ == old(self)@.push(tone),
    {
        self.events.push(tone);
    }

    /// How many tones are queued.
    pub fn len(&self) -> (count: usize)
        ensures
            count == self@.len(),
    {
        self.events.len()
    }

    /// The queued tones, first to play first.
    pub fn tones(&self) -> (tones: &Vec<Tone>)
        ensures
            tones@ == self@,
    {
        &self.events
    }
}

/// The input as the tone table sees it: every character in ASCII uppercase.
pub open spec fn normalized(input: Seq<char>) -> Seq<char> {
    input.map_values(|c: char| to_upper(c))
}

/// The symbols of `input` that sound, in their order: what is left of the
/// normalized input once every character outside the tone table is dropped.
pub open spec fn dialled(input: Seq<char>) -> Seq<char> {
    normalized(input).filter(|c: char| is_symbol(c))
}

/// The characters of `input` that do not sound, normalized, in their order.
pub open spec fn rejected(input: Seq<char>) -> Seq<char> {
    normalized(input).filter(|c: char| !is_symbol(c))
}

/// The low-group tone of a symbol of the tone table.
pub open spec fn low_tone_of(symbol: char) -> Tone {
    tone_at(LOW_TONES[tone_grid()[symbol].0 as int])
}

/// The high-group tone of a symbol of the tone table.
pub open spec fn high_tone_of(symbol: char) -> Tone {
    tone_at(HIGH_TONES[tone_grid()[symbol].1 as int])
}

/// What `input` puts on the low-group queue.
pub open spec fn low_queue(input: Seq<char>) -> Seq<Tone> {
    dialled(input).map_values(|c: char| low_tone_of(c))
}

/// What `input` puts on the high-group queue.
pub open spec fn high_queue(input: Seq<char>) -> Seq<Tone> {
    dialled(input).map_values(|c: char| high_tone_of(c))
}

/// How long a queue takes to play, in milliseconds: the lengths of its tones,
/// one after the other.
pub open spec fn playing_time_ms(queue: Seq<Tone>) -> nat
    decreases queue.len(),
{
    if queue.len() == 0 {
        0
    } else {
        playing_time_ms(queue.drop_last()) + queue.last().duration_ms as nat
    }
}

/// One more character at the end of the input adds its two tones at the end
/// of the queues if it is a symbol, and is reported if it is not.
pub proof fn lemma_sequence_push(input: Seq<char>, c: char)
    ensures
        is_symbol(to_upper(c)) ==> {
            &&& dialled(input.push(c)) == dialled(input).push(to_upper(c))
            &&& low_queue(input.push(c)) == low_queue(input).push(low_tone_of(to_upper(c)))
            &&& high_queue(input.push(c)) == high_queue(input).push(high_tone_of(to_upper(c)))
            &&& rejected(input.push(c)) == rejected(input)
        },
        !is_symbol(to_upper(c)) ==> {
            &&& dialled(input.push(c)) == dialled(input)
            &&& low_queue(input.push(c)) == low_queue(input)
            &&& high_queue(input.push(c)) == high_queue(input)
            &&& rejected(input.push(c)) == rejected(input).push(to_upper(c))
        },
{
    reveal(Seq::filter);
    assert(normalized(input.push(c)) =~= normalized(input).push(to_upper(c)));
    assert(normalized(input.push(c)).drop_last() =~= normalized(input));
    if is_symbol(to_upper(c)) {
        assert(dialled(input.push(c)) =~= dialled(input).push(to_upper(c)));
    }
}

/// Plays `seq` onto the two queues: each character is normalized; a symbol of
/// the tone table puts its low-group tone on `sink1` and its high-group tone
/// on `sink2`; any other character puts nothing on either queue and is
/// returned, normalized, for the caller to report.
pub fn gen_sequence(
    seq: &str,
    sink1: &mut PlaybackQueue,
    sink2: &mut PlaybackQueue,
) -> (skipped: Vec<char>)
    ensures
        final(sink1)@ == old(sink1)@ + low_queue(seq@),
        final(sink2)@ == old(sink2)@ + high_queue(seq@),
        skipped@ == rejected(seq@),
{
    let mut skipped: Vec<char> = Vec::new();
    for raw in chars: seq.chars()
        invariant
            chars.seq() == seq@,
            sink1@ == old(sink1)@ + low_queue(seq@.take(chars.index())),
            sink2@ == old(sink2)@ + high_queue(seq@.take(chars.index())),
            skipped@ == rejected(seq@.take(chars.index())),
    {
        let c = normalize(raw);
        proof {
            let i = chars.index();
            assert(seq@.take(i + 1) =~= seq@.take(i).push(raw));
            lemma_sequence_push(seq@.take(i), raw);
        }
        match lookup(c) {
            Some((row, column)) => {
                sink1.append(new_tone(LOW_TONES[row]));
                sink2.append(new_tone(HIGH_TONES[column]));
            },
            None => {
                skipped.push(c);
            },
        }
    }
    proof {
        assert(seq@.take(seq@.len() as int) =~= seq@);
    }
    skipped
}

/// Sequencing goes through the input character by character: two inputs
/// one behind the other queue and report what the first does, then what the
/// second does.
pub proof fn lemma_sequence_concat(first: Seq<char>, second: Seq<char>)
    ensures
        dialled(first + second) == dialled(first) + dialled(second),
        low_queue(first + second) == low_queue(first) + low_queue(second),
        high_queue(first + second) == high_queue(first) + high_queue(second),
        rejected(first + second) == rejected(first) + rejected(second),
{
    assert(normalized(first + second) =~= normalized(first) + normalized(second));
    Seq::filter_distributes_over_add(
        normalized(first),
        normalized(second),
        |c: char| is_symbol(c),
    );
    Seq::filter_distributes_over_add(
        normalized(first),
        normalized(second),
        |c: char| !is_symbol(c),
    );
    assert(low_queue(first + second) =~= low_queue(first) + low_queue(second));
    assert(high_queue(first + second) =~= high_queue(first) + high_queue(second));
}

/// A character that is no symbol, wherever it stands, is the only thing
/// skipped: the queues get the tones of what stands before it and then of
/// what stands after it, and the character is reported between the two.
pub proof fn lemma_invalid_character_is_skipped(before: Seq<char>, c: char, after: Seq<char>)
    requires
        !is_symbol(to_upper(c)),
    ensures
        low_queue(before.push(c) + after) == low_queue(before) + low_queue(after),
        high_queue(before.push(c) + after) == high_queue(before) + high_queue(after),
        rejected(before.push(c) + after) == rejected(before).push(to_upper(c)) + rejected(after),
{
    lemma_sequence_push(before, c);
    lemma_sequence_concat(before.push(c), after);
}

/// The two queues grow in lock-step: each holds one tone per dialled symbol,
/// the tones at one position of the two queues belong to the same symbol,
/// and every character of the input is either dialled or reported.
pub proof fn lemma_queues_in_lock_step(input: Seq<char>)
    ensures
        low_queue(input).len() == dialled(input).len(),
        high_queue(input).len() == dialled(input).len(),
        dialled(input).len() + rejected(input).len() == input.len(),
        forall|i: int|
            0 <= i < dialled(input).len() ==> {
                &&& is_symbol(#[trigger] dialled(input)[i])
                &&& low_queue(input)[i] == low_tone_of(dialled(input)[i])
                &&& high_queue(input)[i] == high_tone_of(dialled(input)[i])
            },
    decreases input.len(),
{
    if input.len() > 0 {
        let front = input.drop_last();
        assert(input =~= front.push(input.last()));
        lemma_queues_in_lock_step(front);
        lemma_sequence_push(front, input.last());
    }
}

/// An input made of symbols only, in either case, puts as many tones on each
/// queue as it has characters, the tones of its characters in their order,
/// and nothing is reported.
pub proof fn lemma_valid_sequence_sounds_in_order(input: Seq<char>)
    requires
        forall|i: int| 0 <= i < input.len() ==> is_symbol(to_upper(#[trigger] input[i])),
    ensures
        dialled(input) == normalized(input),
        rejected(input) == Seq::<char>::empty(),
        low_queue(input).len() == input.len(),
        high_queue(input).len() == input.len(),
        forall|i: int|
            0 <= i < input.len() ==> #[trigger] low_queue(input)[i] == low_tone_of(
                to_upper(input[i]),
            ),
        forall|i: int|
            0 <= i < input.len() ==> #[trigger] high_queue(input)[i] == high_tone_of(
                to_upper(input[i]),
            ),
    decreases input.len(),
{
    if input.len() > 0 {
        let front = input.drop_last();
        assert(input =~= front.push(input.last()));
        lemma_valid_sequence_sounds_in_order(front);
        lemma_sequence_push(front, input.last());
    } else {
        assert(dialled(input) =~= normalized(input));
        assert(rejected(input) =~= Seq::<char>::empty());
    }
}

/// Sequencing is repeatable: two runs on the same input, each begun on empty
/// queues, leave the same tones in the same order on both queues and report
/// the same characters.
pub proof fn lemma_same_input_same_queues(
    input: Seq<char>,
    first: (Seq<Tone>, Seq<Tone>, Seq<char>),
    second: (Seq<Tone>, Seq<Tone>, Seq<char>),
)
    requires
        first.0 == Seq::<Tone>::empty() + low_queue(input),
        first.1 == Seq::<Tone>::empty() + high_queue(input),
        first.2 == rejected(input),
        second.0 == Seq::<Tone>::empty() + low_queue(input),
        second.1 == Seq::<Tone>::empty() + high_queue(input),
        second.2 == rejected(input),
    ensures
        first == second,
        first.0 == low_queue(input),
        first.1 == high_queue(input),
{
    assert(Seq::<Tone>::empty() + low_queue(input) =~= low_queue(input));
    assert(Seq::<Tone>::empty() + high_queue(input) =~= high_queue(input));
}

/// A queue of tones that all last 100 ms plays for 100 ms per tone.
proof fn lemma_playing_time_of_even_tones(queue: Seq<Tone>)
    requires
        forall|i: int| 0 <= i < queue.len() ==> (#[trigger] queue[i]).duration_ms == 100,
    ensures
        playing_time_ms(queue) == 100 * queue.len(),
    decreases queue.len(),
{
    if queue.len() > 0 {
        lemma_playing_time_of_even_tones(queue.drop_last());
    }
}

/// The two tones of a symbol sound together: on both queues the tone of the
/// symbol at position `i` starts `100 * i` ms after playback begins, and both
/// queues fall silent at the same moment.
pub proof fn lemma_queues_are_time_aligned(input: Seq<char>, i: int)
    requires
        0 <= i <= dialled(input).len(),
    ensures
        i <= low_queue(input).len(),
        i <= high_queue(input).len(),
        playing_time_ms(low_queue(input).take(i)) == 100 * i,
        playing_time_ms(high_queue(input).take(i)) == 100 * i,
        playing_time_ms(low_queue(input)) == playing_time_ms(high_queue(input)),
{
    lemma_playing_time_of_even_tones(low_queue(input).take(i));
    lemma_playing_time_of_even_tones(high_queue(input).take(i));
    lemma_playing_time_of_even_tones(low_queue(input));
    lemma_playing_time_of_even_tones(high_queue(input));
}

} // verus!
