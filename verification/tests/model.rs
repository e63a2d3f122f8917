use kyutaistt::ieee::{Binary32, Binary64};
use kyutaistt::model::{AsrMsg, ChunkRun, EndTime, SttEvent, SttModel, SttWord, VadUpdate};

fn single(x: f32) -> Binary32 {
    Binary32 { bits: x.to_bits() }
}

fn double(x: f64) -> Binary64 {
    Binary64 { bits: x.to_bits() }
}

fn heard(text: &str, start: f64) -> AsrMsg {
    AsrMsg::Word {
        text: Some(text.to_string()),
        start_time: double(start),
    }
}

fn ended(stop: f64) -> AsrMsg {
    AsrMsg::EndWord {
        stop_time: double(stop),
    }
}

fn step(probs: &[f32]) -> AsrMsg {
    AsrMsg::Step {
        prs: probs.iter().map(|&p| vec![single(p), single(1.0 - p)]).collect(),
    }
}

fn told(text: &str, start: f64, end: EndTime) -> SttEvent {
    SttEvent::Word(SttWord {
        text: text.to_string(),
        start_time: double(start),
        end_time: end,
        confidence: double(1.0),
    })
}

fn inputs(run: &ChunkRun) -> usize {
    run.remaining()
}

#[test]
fn silence_goes_before_the_stream() {
    let mut model = SttModel::begin(false, double(0.0), 3840, 0);
    let pcm = vec![single(0.5); 1920];
    let mut fed: Vec<Binary32> = Vec::new();
    for steps in [3, 1] {
        let mut run = model.process_chunk(&pcm);
        assert_eq!(inputs(&run), steps);
        while let Some(input) = run.next_input() {
            assert_eq!(input.len(), 1920);
            fed.extend(input.iter().copied());
            model.absorb(&mut run, &vec![]);
        }
        assert_eq!(run.into_events(), vec![]);
    }
    let mut whole = vec![single(0.0); 3840];
    whole.extend(vec![single(0.5); 3840]);
    assert_eq!(fed, whole);
}

#[test]
fn silence_that_fills_no_step_shares_one() {
    let mut model = SttModel::begin(false, double(0.0), 1000, 0);
    let mut run = model.process_chunk(&vec![single(0.5); 1920]);
    assert_eq!(inputs(&run), 2);
    let mut first = vec![single(0.0); 1000];
    first.extend(vec![single(0.5); 920]);
    assert_eq!(run.next_input(), Some(&first));
    model.absorb(&mut run, &vec![]);
    assert_eq!(run.next_input(), Some(&vec![single(0.5); 1000]));
}

#[test]
fn no_samples_make_no_step() {
    let mut model = SttModel::begin(false, double(0.0), 0, 0);
    let run = model.process_chunk(&[]);
    assert_eq!(run.remaining(), 0);
}

#[test]
fn the_rest_of_the_stream_goes_before_a_flush() {
    let mut model = SttModel::begin(false, double(0.0), 0, 0);
    let mut run = model.flush_after(vec![single(0.5); 1000]);
    // 25000 samples in steps of 1920.
    assert_eq!(run.remaining(), 14);
    let mut first = vec![single(0.5); 1000];
    first.extend(vec![single(0.0); 920]);
    assert_eq!(run.next_input(), Some(&first));
    model.absorb(&mut run, &vec![]);
    assert_eq!(run.next_input(), Some(&vec![single(0.0); 1920]));
}

#[test]
fn a_word_ends_where_it_is_said_to() {
    let mut model = SttModel::begin(false, double(0.0), 0, 0);
    let mut run = model.process_chunk(&vec![single(0.0); 1920]);
    model.absorb(
        &mut run,
        &vec![heard("hello", 0.5), step(&[0.9]), ended(0.8), ended(0.9)],
    );
    assert_eq!(
        run.into_events(),
        vec![told("hello", 0.5, EndTime::At(double(0.8)))]
    );
}

#[test]
fn a_word_ends_where_the_next_one_starts() {
    let mut model = SttModel::begin(false, double(0.0), 0, 0);
    let mut run = model.process_chunk(&vec![single(0.0); 3840]);
    model.absorb(&mut run, &vec![heard("one", 0.1)]);
    model.absorb(&mut run, &vec![heard("two", 0.3), ended(0.4)]);
    assert_eq!(
        run.into_events(),
        vec![
            told("one", 0.1, EndTime::At(double(0.3))),
            told("two", 0.3, EndTime::At(double(0.4))),
        ]
    );
}

#[test]
fn a_word_waits_from_chunk_to_chunk() {
    let mut model = SttModel::begin(false, double(0.0), 0, 0);
    let pcm = vec![single(0.0); 1920];
    let mut run = model.process_chunk(&pcm);
    model.absorb(&mut run, &vec![heard("late", 1.0)]);
    assert_eq!(run.into_events(), vec![]);
    let mut run = model.process_chunk(&pcm);
    model.absorb(&mut run, &vec![ended(1.5)]);
    assert_eq!(
        run.into_events(),
        vec![told("late", 1.0, EndTime::At(double(1.5)))]
    );
}

#[test]
fn a_word_that_cannot_be_decoded_is_empty() {
    let mut model = SttModel::begin(false, double(0.0), 0, 0);
    let mut run = model.process_chunk(&vec![single(0.0); 1920]);
    model.absorb(
        &mut run,
        &vec![
            AsrMsg::Word {
                text: None,
                start_time: double(2.0),
            },
            ended(2.5),
        ],
    );
    assert_eq!(
        run.into_events(),
        vec![told("", 2.0, EndTime::At(double(2.5)))]
    );
}

#[test]
fn the_head_is_listened_to_if_asked() {
    let pcm = vec![single(0.0); 1920];
    let messages = vec![step(&[0.1, 0.2, 0.3])];

    let mut deaf = SttModel::begin(false, double(0.0), 0, 0);
    let mut run = deaf.process_chunk(&pcm);
    assert!(!deaf.will_tell_voice(&run, &messages));
    deaf.absorb(&mut run, &messages);
    assert_eq!(run.into_events(), vec![]);

    let mut model = SttModel::begin(true, double(0.0), 0, 0);
    let mut run = model.process_chunk(&pcm);
    assert!(model.will_tell_voice(&run, &messages));
    assert!(!model.will_tell_voice(&run, &vec![ended(1.0)]));
    model.absorb(&mut run, &messages);
    assert!(model.will_tell_voice(&run, &vec![]));
    assert_eq!(
        run.into_events(),
        vec![SttEvent::Vad(VadUpdate {
            no_speech_probs: vec![
                double(0.1f32 as f64),
                double(0.2f32 as f64),
                double(0.3f32 as f64)
            ]
        })]
    );
}

#[test]
fn a_head_without_probabilities_is_told_apart() {
    let empty = vec![AsrMsg::Step {
        prs: vec![vec![single(0.5)], vec![]],
    }];
    assert!(!SttModel::begin(true, double(0.0), 0, 0).can_absorb(&empty));
    assert!(SttModel::begin(false, double(0.0), 0, 0).can_absorb(&empty));
    assert!(SttModel::begin(true, double(0.0), 0, 0).can_absorb(&vec![step(&[0.5, 0.5]), ended(1.0)]));
}

#[test]
fn a_flush_feeds_the_delay_and_a_second() {
    let mut model = SttModel::begin(false, double(0.0), 0, 12000);
    assert!(model.can_flush());
    let mut run = model.flush();
    // 36000 samples in steps of 1920.
    assert_eq!(run.remaining(), 19);
    let mut fed = 0;
    while let Some(input) = run.next_input() {
        assert!(input.iter().all(|sample| *sample == single(0.0)));
        fed += input.len();
        let messages = if fed == 1920 {
            vec![heard("last", 7.25)]
        } else {
            vec![]
        };
        model.absorb(&mut run, &messages);
    }
    assert_eq!(fed, 36000);
    assert_eq!(
        model.finish_flush(run),
        vec![told("last", 7.25, EndTime::AfterStart { milliseconds: 80 })]
    );
    // Nothing is pending any more.
    let run = model.process_chunk(&[]);
    assert_eq!(model.finish_flush(run), vec![]);
    assert!(!SttModel::begin(false, double(0.0), 0, usize::MAX).can_flush());
}

#[test]
fn every_word_is_told_once_and_in_order() {
    let mut model = SttModel::begin(true, double(0.0), 0, 0);
    let mut words: Vec<String> = Vec::new();
    let mut events: Vec<SttEvent> = Vec::new();
    for i in 0..50 {
        let mut run = model.process_chunk(&vec![single(0.0); 1920]);
        let mut messages = vec![step(&[0.5])];
        for j in 0..(i % 3) {
            let word = format!("w{i}-{j}");
            messages.push(heard(&word, i as f64));
            if (i + j) % 2 == 0 {
                messages.push(ended(i as f64 + 0.5));
            }
            words.push(word);
        }
        model.absorb(&mut run, &messages);
        events.extend(run.into_events());
    }
    let run = model.process_chunk(&[]);
    events.extend(model.finish_flush(run));
    let told: Vec<String> = events
        .into_iter()
        .filter_map(|event| match event {
            SttEvent::Word(word) => Some(word.text),
            SttEvent::Vad(_) => None,
        })
        .collect();
    assert_eq!(told, words);
}
