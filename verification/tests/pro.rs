use sidealsa::pro::{ProCaptureSink, ProPlaybackSource};

#[derive(Default)]
struct Sink {
    taken: Vec<(u64, Vec<i32>)>,
}

impl ProCaptureSink for Sink {
    fn process_capture(&mut self, sequence: u64, capture: &[i32]) {
        self.taken.push((sequence, capture.to_vec()));
    }
}

struct Source {
    published: Option<u64>,
    given: Vec<u64>,
}

impl ProPlaybackSource for Source {
    fn published_nanos(&self, _sequence: u64) -> Option<u64> {
        self.published
    }

    fn process_playback(&mut self, sequence: u64, playback: &mut [i32]) {
        self.given.push(sequence);
        playback.fill(7);
    }
}

struct Plain;

impl ProPlaybackSource for Plain {
    fn process_playback(&mut self, _sequence: u64, playback: &mut [i32]) {
        playback.fill(3);
    }
}

fn asked(published: Option<u64>, cutoff_nanos: u64) -> (Vec<i32>, Vec<u64>) {
    let mut source = Source { published, given: Vec::new() };
    let mut block = vec![1; 4];
    source.process_playback_before(9, cutoff_nanos, &mut block);
    (block, source.given)
}

#[test]
fn a_capture_is_taken_under_the_sequence_at_which_it_is_answered() {
    let mut sink = Sink::default();
    let used: &mut dyn ProCaptureSink = &mut sink;
    used.process_capture(4, &[1, 2]);
    used.process_capture_for_playback(5, 8, &[3, 4]);
    used.process_deferred_capture(5, &[5, 6]);
    assert_eq!(sink.taken, [(4, vec![1, 2]), (8, vec![3, 4])]);
}

#[test]
fn a_block_published_by_the_cutoff_is_taken() {
    assert_eq!(asked(Some(999), 1_000), (vec![7; 4], vec![9]));
    assert_eq!(asked(Some(1_000), 1_000), (vec![7; 4], vec![9]));
}

#[test]
fn a_block_published_after_the_cutoff_is_left_alone() {
    assert_eq!(asked(Some(1_001), 1_000), (vec![1; 4], vec![]));
    assert_eq!(asked(Some(u64::MAX), 0), (vec![1; 4], vec![]));
}

#[test]
fn a_source_that_knows_no_publication_gives_what_it_has() {
    assert_eq!(asked(None, 0), (vec![7; 4], vec![9]));
    let mut plain = Plain;
    let used: &mut dyn ProPlaybackSource = &mut plain;
    assert_eq!(used.published_nanos(1), None);
    let mut block = [0; 2];
    used.process_playback_before(1, 0, &mut block);
    assert_eq!(block, [3; 2]);
}

#[test]
fn a_source_adds_nothing_of_its_own_accord() {
    let mut plain = Plain;
    let mut block = [5, 6];
    plain.prepare_playback(1);
    plain.prepare_playback_mix(1);
    plain.mark_playback_budget_exhausted(1);
    plain.wait_for_playback_before(1, 2);
    plain.begin_playback_commit();
    plain.commit_playback(1, &mut block);
    plain.end_playback_commit();
    assert_eq!(block, [5, 6]);
    assert_eq!(plain.playback_epoch(), 0);
}
