use std::path::PathBuf;
use vibeflow::inference::{
    assemble_transcript, default_model, empty_transcript, missing_model_transcript,
    InferenceEngine, Transcription, MIN_SAMPLES,
};
use vibeflow::pipeline::{Phase, Pipeline, PipelineAction, PipelineEvent};

const MODEL: &str = "ggml-base.en.bin";

fn engine() -> InferenceEngine {
    InferenceEngine::new(PathBuf::from("/var/lib/vibeflow"))
}

fn pipeline() -> Pipeline<f32> {
    Pipeline::new(&engine(), MODEL.to_string())
}

fn silence(samples: usize) -> Vec<f32> {
    vec![0.0; samples]
}

fn segments(texts: &[&str]) -> Transcription {
    Transcription::Segments(texts.iter().map(|t| Some(t.to_string())).collect())
}

fn delivered(action: PipelineAction<f32>) -> String {
    match action {
        PipelineAction::Deliver(transcript) => transcript.as_str().to_string(),
        _ => panic!("no transcript was delivered"),
    }
}

fn is_ignored(action: &PipelineAction<f32>) -> bool {
    matches!(action, PipelineAction::Ignore)
}

#[test]
fn threshold_is_a_tenth_of_a_second() {
    assert_eq!(MIN_SAMPLES, 1600);
    assert_eq!(engine().min_samples(), 1600);
}

#[test]
fn engine_keeps_its_directory() {
    let engine = engine();
    assert_eq!(engine.base_path(), &PathBuf::from("/var/lib/vibeflow"));
}

#[test]
fn model_path_is_under_the_directory() {
    let engine = engine();
    assert_eq!(
        engine.model_path(MODEL),
        PathBuf::from("/var/lib/vibeflow").join("ggml-base.en.bin")
    );
    assert_ne!(engine.model_path(MODEL), PathBuf::from("/var/lib/vibeflow"));
}

#[test]
fn threshold_can_be_set() {
    let engine = engine().with_min_samples(10);
    assert_eq!(engine.min_samples(), 10);
    assert_eq!(engine.base_path(), &PathBuf::from("/var/lib/vibeflow"));
    let mut pipeline: Pipeline<f32> = Pipeline::new(&engine, MODEL.to_string());
    pipeline.step(PipelineEvent::Chunk(silence(10)));
    assert!(matches!(
        pipeline.step(PipelineEvent::Closed),
        PipelineAction::CheckModel { .. }
    ));
}

#[test]
fn new_pipeline_collects() {
    let pipeline = pipeline();
    assert_eq!(pipeline.phase(), Phase::Collecting);
    assert_eq!(pipeline.len(), 0);
}

#[test]
fn each_chunk_asks_for_the_next() {
    let mut pipeline = pipeline();
    assert!(matches!(
        pipeline.step(PipelineEvent::Chunk(silence(160))),
        PipelineAction::Receive
    ));
    assert!(matches!(
        pipeline.step(PipelineEvent::Chunk(Vec::new())),
        PipelineAction::Receive
    ));
    assert_eq!(pipeline.len(), 160);
    assert_eq!(pipeline.phase(), Phase::Collecting);
}

#[test]
fn short_clip_gives_empty_transcript() {
    let mut pipeline = pipeline();
    pipeline.step(PipelineEvent::Chunk(silence(500)));
    pipeline.step(PipelineEvent::Chunk(silence(300)));
    assert_eq!(pipeline.len(), 800);
    assert_eq!(delivered(pipeline.step(PipelineEvent::Closed)), "");
    assert_eq!(pipeline.phase(), Phase::Finished);
}

#[test]
fn no_audio_gives_empty_transcript() {
    let mut pipeline = pipeline();
    assert_eq!(delivered(pipeline.step(PipelineEvent::Closed)), "");
    assert_eq!(pipeline.phase(), Phase::Finished);
}

#[test]
fn one_sample_under_the_threshold_is_too_short() {
    let mut pipeline = pipeline();
    pipeline.step(PipelineEvent::Chunk(silence(1599)));
    assert_eq!(delivered(pipeline.step(PipelineEvent::Closed)), "");
}

#[test]
fn the_threshold_itself_is_long_enough() {
    let mut pipeline = pipeline();
    pipeline.step(PipelineEvent::Chunk(silence(1600)));
    match pipeline.step(PipelineEvent::Closed) {
        PipelineAction::CheckModel { model_filename } => assert_eq!(model_filename, MODEL),
        _ => panic!("the model file was not asked for"),
    }
    assert_eq!(pipeline.phase(), Phase::CheckingModel);
}

#[test]
fn missing_model_gives_the_sentinel() {
    let mut pipeline = pipeline();
    pipeline.step(PipelineEvent::Chunk(silence(5000)));
    pipeline.step(PipelineEvent::Closed);
    let text = delivered(pipeline.step(PipelineEvent::ModelChecked { present: false }));
    assert_eq!(
        text,
        "Error: AI model not found. Please download ggml-base.en.bin in settings."
    );
    assert!(text.contains(MODEL));
    assert_eq!(pipeline.phase(), Phase::Finished);
    assert_eq!(pipeline.len(), 0);
}

#[test]
fn normal_clip_gives_the_trimmed_text() {
    let mut pipeline = pipeline();
    pipeline.step(PipelineEvent::Chunk(silence(1600)));
    pipeline.step(PipelineEvent::Chunk(silence(400)));
    pipeline.step(PipelineEvent::Closed);
    match pipeline.step(PipelineEvent::ModelChecked { present: true }) {
        PipelineAction::Transcribe { samples, model_filename } => {
            assert_eq!(samples.len(), 2000);
            assert_eq!(model_filename, MODEL);
        }
        _ => panic!("the engine was not asked"),
    }
    assert_eq!(pipeline.phase(), Phase::Transcribing);
    let text = delivered(pipeline.step(PipelineEvent::Transcribed(segments(&["Hello", " world"]))));
    assert_eq!(text, "Hello world");
    assert_eq!(pipeline.phase(), Phase::Finished);
}

#[test]
fn chunks_are_kept_in_order() {
    let engine = engine().with_min_samples(1);
    let mut pipeline: Pipeline<f32> = Pipeline::new(&engine, MODEL.to_string());
    pipeline.step(PipelineEvent::Chunk(vec![0.1, 0.2]));
    pipeline.step(PipelineEvent::Chunk(vec![0.3]));
    pipeline.step(PipelineEvent::Chunk(Vec::new()));
    pipeline.step(PipelineEvent::Chunk(vec![0.4, 0.5, 0.6]));
    pipeline.step(PipelineEvent::Closed);
    match pipeline.step(PipelineEvent::ModelChecked { present: true }) {
        PipelineAction::Transcribe { samples, .. } => {
            assert_eq!(samples, vec![0.1, 0.2, 0.3, 0.4, 0.5, 0.6]);
        }
        _ => panic!("the engine was not asked"),
    }
}

#[test]
fn chunks_of_any_sample_type_are_kept_in_order() {
    let engine = engine().with_min_samples(0);
    let mut pipeline: Pipeline<i16> = Pipeline::new(&engine, MODEL.to_string());
    pipeline.step(PipelineEvent::Chunk(vec![3, -1]));
    pipeline.step(PipelineEvent::Chunk(vec![7]));
    pipeline.step(PipelineEvent::Closed);
    match pipeline.step(PipelineEvent::ModelChecked { present: true }) {
        PipelineAction::Transcribe { samples, .. } => assert_eq!(samples, vec![3, -1, 7]),
        _ => panic!("the engine was not asked"),
    }
}

#[test]
fn nothing_is_collected_after_closure() {
    let mut pipeline = pipeline();
    pipeline.step(PipelineEvent::Chunk(silence(2000)));
    pipeline.step(PipelineEvent::Closed);
    assert!(is_ignored(&pipeline.step(PipelineEvent::Chunk(silence(10)))));
    assert!(is_ignored(&pipeline.step(PipelineEvent::Closed)));
    assert_eq!(pipeline.len(), 2000);
    assert_eq!(pipeline.phase(), Phase::CheckingModel);
}

#[test]
fn finished_pipeline_ignores_everything() {
    let mut pipeline = pipeline();
    pipeline.step(PipelineEvent::Closed);
    assert!(is_ignored(&pipeline.step(PipelineEvent::Chunk(silence(3000)))));
    assert!(is_ignored(&pipeline.step(PipelineEvent::Closed)));
    assert!(is_ignored(&pipeline.step(PipelineEvent::ModelChecked { present: true })));
    assert!(is_ignored(&pipeline.step(PipelineEvent::Transcribed(segments(&["late"])))));
    assert_eq!(pipeline.phase(), Phase::Finished);
}

#[test]
fn events_out_of_phase_are_ignored() {
    let mut pipeline = pipeline();
    assert!(is_ignored(&pipeline.step(PipelineEvent::ModelChecked { present: true })));
    assert!(is_ignored(&pipeline.step(PipelineEvent::Transcribed(Transcription::Failed))));
    assert_eq!(pipeline.phase(), Phase::Collecting);
    pipeline.step(PipelineEvent::Chunk(silence(1600)));
    pipeline.step(PipelineEvent::Closed);
    assert!(is_ignored(&pipeline.step(PipelineEvent::Transcribed(segments(&["early"])))));
    assert_eq!(pipeline.phase(), Phase::CheckingModel);
}

#[test]
fn failed_engine_gives_empty_transcript() {
    let mut pipeline = pipeline();
    pipeline.step(PipelineEvent::Chunk(silence(1600)));
    pipeline.step(PipelineEvent::Closed);
    pipeline.step(PipelineEvent::ModelChecked { present: true });
    let text = delivered(pipeline.step(PipelineEvent::Transcribed(Transcription::Failed)));
    assert_eq!(text, "");
    assert_eq!(pipeline.phase(), Phase::Finished);
}

#[test]
fn segments_are_joined_and_trimmed() {
    let outcome = segments(&["  Hello", ",", " world. \n"]);
    assert_eq!(assemble_transcript(&outcome).as_str(), "Hello, world.");
}

#[test]
fn inner_whitespace_is_kept() {
    let outcome = segments(&["\tone \n two  ", " three\r\n"]);
    assert_eq!(assemble_transcript(&outcome).as_str(), "one \n two   three");
}

#[test]
fn unicode_whitespace_is_trimmed() {
    let outcome = segments(&["\u{3000}\u{a0}Grüße\u{2003}", "\u{2028}\u{85}"]);
    assert_eq!(assemble_transcript(&outcome).as_str(), "Grüße");
}

#[test]
fn characters_that_are_no_whitespace_stay() {
    let outcome = segments(&["\u{200b}text\u{feff}"]);
    assert_eq!(assemble_transcript(&outcome).as_str(), "\u{200b}text\u{feff}");
}

#[test]
fn unreadable_segments_are_left_out() {
    let outcome = Transcription::Segments(vec![
        Some("Hello".to_string()),
        None,
        Some(" world".to_string()),
        None,
    ]);
    assert_eq!(assemble_transcript(&outcome).as_str(), "Hello world");
}

#[test]
fn blank_segments_give_empty_transcript() {
    assert_eq!(assemble_transcript(&segments(&[" ", "\n", "\t "])).as_str(), "");
    assert_eq!(assemble_transcript(&segments(&[])).as_str(), "");
    assert_eq!(assemble_transcript(&Transcription::Failed).as_str(), "");
}

#[test]
fn sentinel_names_the_model() {
    assert_eq!(
        missing_model_transcript("tiny.bin").as_str(),
        "Error: AI model not found. Please download tiny.bin in settings."
    );
    assert_eq!(
        missing_model_transcript("").as_str(),
        "Error: AI model not found. Please download  in settings."
    );
}

#[test]
fn empty_transcript_is_empty() {
    assert_eq!(empty_transcript().as_str(), "");
}

#[test]
fn default_model_is_the_base_english_one() {
    assert_eq!(default_model(), "ggml-base.en.bin");
}

fn is_listed_whitespace(c: char) -> bool {
    matches!(
        c as u32,
        0x09..=0x0D
            | 0x20
            | 0x85
            | 0xA0
            | 0x1680
            | 0x2000..=0x200A
            | 0x2028
            | 0x2029
            | 0x202F
            | 0x205F
            | 0x3000
    )
}

#[test]
fn every_character_is_trimmed_or_kept_by_the_list() {
    let mut text = String::new();
    for c in (0..=0x10FFFFu32).filter_map(char::from_u32) {
        text.clear();
        text.push(c);
        text.push('x');
        text.push(c);
        let outcome = Transcription::Segments(vec![Some(text.clone())]);
        let transcript = assemble_transcript(&outcome);
        if is_listed_whitespace(c) {
            assert_eq!(transcript.as_str(), "x", "U+{:04X}", c as u32);
        } else {
            assert_eq!(transcript.as_str(), text, "U+{:04X}", c as u32);
        }
    }
}

#[test]
fn end_to_end_session() {
    let mut pipeline = pipeline();
    let mut action = PipelineAction::Receive;
    for _ in 0..50 {
        assert!(matches!(action, PipelineAction::Receive));
        action = pipeline.step(PipelineEvent::Chunk(silence(1600)));
    }
    assert_eq!(pipeline.len(), 80000);
    assert!(matches!(
        pipeline.step(PipelineEvent::Closed),
        PipelineAction::CheckModel { .. }
    ));
    match pipeline.step(PipelineEvent::ModelChecked { present: true }) {
        PipelineAction::Transcribe { samples, .. } => assert_eq!(samples.len(), 80000),
        _ => panic!("the engine was not asked"),
    }
    let outcome = segments(&[" So", " this is", " a test.", " "]);
    let text = delivered(pipeline.step(PipelineEvent::Transcribed(outcome)));
    assert_eq!(text, "So this is a test.");
}
