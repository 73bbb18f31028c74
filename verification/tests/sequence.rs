use dtmf::sequence::{gen_sequence, PlaybackQueue};
use dtmf::tone::{new_tone, Tone};

fn run(input: &str) -> (Vec<u32>, Vec<u32>, Vec<char>) {
    let mut sink1 = PlaybackQueue::new();
    let mut sink2 = PlaybackQueue::new();
    let skipped = gen_sequence(input, &mut sink1, &mut sink2);
    let low = sink1.tones().iter().map(|tone| tone.frequency).collect();
    let high = sink2.tones().iter().map(|tone| tone.frequency).collect();
    (low, high, skipped)
}

#[test]
fn new_queue_is_empty() {
    let queue = PlaybackQueue::new();
    assert_eq!(queue.len(), 0);
    assert!(queue.tones().is_empty());
}

#[test]
fn append_keeps_order() {
    let mut queue = PlaybackQueue::new();
    queue.append(new_tone(852));
    queue.append(new_tone(697));
    queue.append(new_tone(852));
    assert_eq!(queue.len(), 3);
    assert_eq!(queue.tones(), &vec![new_tone(852), new_tone(697), new_tone(852)]);
}

#[test]
fn single_symbol() {
    let mut sink1 = PlaybackQueue::new();
    let mut sink2 = PlaybackQueue::new();
    let skipped = gen_sequence("1", &mut sink1, &mut sink2);
    assert_eq!(
        sink1.tones(),
        &vec![Tone { frequency: 697, duration_ms: 100, gain_percent: 50, fade_in_ms: 1, fade_out_ms: 99 }]
    );
    assert_eq!(
        sink2.tones(),
        &vec![Tone { frequency: 1209, duration_ms: 100, gain_percent: 50, fade_in_ms: 1, fade_out_ms: 99 }]
    );
    assert!(skipped.is_empty());
}

#[test]
fn emergency_number() {
    let (low, high, skipped) = run("911");
    assert_eq!(low, vec![852, 697, 697]);
    assert_eq!(high, vec![1477, 1209, 1209]);
    assert!(skipped.is_empty());
}

#[test]
fn invalid_character_is_skipped() {
    let (low, high, skipped) = run("1x2");
    assert_eq!(low, vec![697, 697]);
    assert_eq!(high, vec![1209, 1336]);
    assert_eq!(skipped, vec!['X']);
}

#[test]
fn empty_input_queues_nothing() {
    let (low, high, skipped) = run("");
    assert!(low.is_empty());
    assert!(high.is_empty());
    assert!(skipped.is_empty());
}

#[test]
fn whole_keypad_in_order() {
    let (low, high, skipped) = run("123A456B789C*0#D");
    assert_eq!(
        low,
        vec![697, 697, 697, 697, 770, 770, 770, 770, 852, 852, 852, 852, 941, 941, 941, 941]
    );
    assert_eq!(
        high,
        vec![
            1209, 1336, 1477, 1633, 1209, 1336, 1477, 1633, 1209, 1336, 1477, 1633, 1209, 1336,
            1477, 1633
        ]
    );
    assert!(skipped.is_empty());
}

#[test]
fn valid_input_gives_one_tone_per_character() {
    for input in ["5", "0000", "dc0d1234", "*#*#*#*#*#"] {
        let (low, high, skipped) = run(input);
        assert_eq!(low.len(), input.chars().count());
        assert_eq!(high.len(), input.chars().count());
        assert!(skipped.is_empty());
    }
}

#[test]
fn lowercase_letters_are_dialled() {
    assert_eq!(run("abcd"), run("ABCD"));
    let (low, high, skipped) = run("abcd");
    assert_eq!(low, vec![697, 770, 852, 941]);
    assert_eq!(high, vec![1633, 1633, 1633, 1633]);
    assert!(skipped.is_empty());
}

#[test]
fn mixed_case_input_gives_the_same_queues() {
    assert_eq!(run("1a2B3c4D"), run("1A2b3C4d"));
}

#[test]
fn usage_example_skips_what_is_not_on_the_keypad() {
    let (low, high, skipped) = run("DTMFC0DE1234");
    assert_eq!(low, vec![941, 852, 941, 941, 697, 697, 697, 770]);
    assert_eq!(high, vec![1633, 1633, 1336, 1633, 1209, 1336, 1477, 1209]);
    assert_eq!(skipped, vec!['T', 'M', 'F', 'E']);
}

#[test]
fn skipping_keeps_both_sides_in_order() {
    let (low, high, skipped) = run("12 34");
    let (low_before, high_before, _) = run("12");
    let (low_after, high_after, _) = run("34");
    assert_eq!(low, [low_before, low_after].concat());
    assert_eq!(high, [high_before, high_after].concat());
    assert_eq!(skipped, vec![' ']);
}

#[test]
fn only_invalid_characters() {
    let (low, high, skipped) = run("xyz-");
    assert!(low.is_empty());
    assert!(high.is_empty());
    assert_eq!(skipped, vec!['X', 'Y', 'Z', '-']);
}

#[test]
fn characters_outside_ascii_are_reported_unchanged() {
    let (low, high, skipped) = run("4é5ß６");
    assert_eq!(low, vec![770, 770]);
    assert_eq!(high, vec![1209, 1336]);
    assert_eq!(skipped, vec!['é', 'ß', '６']);
}

#[test]
fn queues_stay_in_lock_step() {
    for input in ["", "1", "911", "1x2", "hello world", "#a*b0c9d", "----"] {
        let (low, high, skipped) = run(input);
        assert_eq!(low.len(), high.len());
        assert_eq!(low.len() + skipped.len(), input.chars().count());
    }
}

#[test]
fn both_queues_play_equally_long() {
    for (input, expected_ms) in [("", 0u64), ("1", 100), ("911", 300), ("1x2", 200), ("xyz-", 0)] {
        let mut sink1 = PlaybackQueue::new();
        let mut sink2 = PlaybackQueue::new();
        gen_sequence(input, &mut sink1, &mut sink2);
        let low_ms: u64 = sink1.tones().iter().map(|tone| tone.duration_ms).sum();
        let high_ms: u64 = sink2.tones().iter().map(|tone| tone.duration_ms).sum();
        assert_eq!(low_ms, expected_ms);
        assert_eq!(high_ms, expected_ms);
    }
}

#[test]
fn tones_go_behind_what_is_queued() {
    let mut sink1 = PlaybackQueue::new();
    let mut sink2 = PlaybackQueue::new();
    assert!(gen_sequence("1", &mut sink1, &mut sink2).is_empty());
    assert_eq!(gen_sequence("?9", &mut sink1, &mut sink2), vec!['?']);
    assert_eq!(sink1.tones(), &vec![new_tone(697), new_tone(852)]);
    assert_eq!(sink2.tones(), &vec![new_tone(1209), new_tone(1477)]);
}

#[test]
fn same_input_twice_gives_identical_queues() {
    for input in ["911", "1x2", "DTMFC0DE1234", ""] {
        let mut first1 = PlaybackQueue::new();
        let mut first2 = PlaybackQueue::new();
        let first_skipped = gen_sequence(input, &mut first1, &mut first2);
        let mut second1 = PlaybackQueue::new();
        let mut second2 = PlaybackQueue::new();
        let second_skipped = gen_sequence(input, &mut second1, &mut second2);
        assert_eq!(first1.tones(), second1.tones());
        assert_eq!(first2.tones(), second2.tones());
        assert_eq!(first_skipped, second_skipped);
    }
}
