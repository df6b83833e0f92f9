use mystar::adapter::{
    handle_control_flow, pcm_to_bytes, AdapterError, AdapterMessageFormat, ControlFlowCommand,
};
use mystar::recorder::{
    audio_close, audio_open, capturing, close, is_capturing, is_recording, start, start_record,
    stop, stop_record, CaptureStep, RecorderError, ShortRecord,
};

#[test]
fn test() {
    let mut recorder = ShortRecord::new();
    assert!(audio_open(&recorder));
    recorder.set_capturing(true);
    start(&mut recorder);
    assert_eq!(capturing(&mut recorder), CaptureStep::ClearBuffer);
    assert!(is_recording(&recorder));
    assert!(stop(&mut recorder));
    assert_eq!(capturing(&mut recorder), CaptureStep::Finalize);
    let d = pcm_to_bytes(&[0, 1, -1]);
    println!("d len: {}", d.len());
    assert_eq!(d.len(), 6);
    close(&mut recorder);
    assert_eq!(capturing(&mut recorder), CaptureStep::Shutdown);
    assert!(!is_capturing(&recorder));
    assert!(!is_recording(&recorder));
}

#[test]
fn a_new_recorder_is_idle() {
    let mut recorder = ShortRecord::new();
    assert!(!is_recording(&recorder));
    assert!(!is_capturing(&recorder));
    assert_eq!(capturing(&mut recorder), CaptureStep::Idle);
}

#[test]
fn start_is_ignored_while_recording() {
    let mut recorder = ShortRecord::new();
    recorder.set_recording(true);
    start(&mut recorder);
    assert_eq!(capturing(&mut recorder), CaptureStep::Idle);
}

#[test]
fn stop_without_a_recording_yields_no_data_and_no_command() {
    let mut recorder = ShortRecord::new();
    assert!(!stop(&mut recorder));
    assert_eq!(capturing(&mut recorder), CaptureStep::Idle);
}

#[test]
fn commands_are_taken_in_order() {
    let mut recorder = ShortRecord::new();
    start(&mut recorder);
    start(&mut recorder);
    close(&mut recorder);
    assert_eq!(capturing(&mut recorder), CaptureStep::ClearBuffer);
    assert_eq!(capturing(&mut recorder), CaptureStep::ClearBuffer);
    assert_eq!(capturing(&mut recorder), CaptureStep::Shutdown);
    assert_eq!(capturing(&mut recorder), CaptureStep::Idle);
}

#[test]
fn recording_is_refused_while_not_capturing() {
    let mut recorder = ShortRecord::new();
    assert_eq!(start_record(&mut recorder), Err(RecorderError::NotCapturing));
    assert_eq!(stop_record(&mut recorder), Err(RecorderError::NotCapturing));
    assert_eq!(capturing(&mut recorder), CaptureStep::Idle);
}

#[test]
fn start_and_stop_record_while_capturing() {
    let mut recorder = ShortRecord::new();
    recorder.set_capturing(true);
    assert!(!audio_open(&recorder));
    assert_eq!(start_record(&mut recorder), Ok(true));
    assert_eq!(capturing(&mut recorder), CaptureStep::ClearBuffer);
    assert_eq!(start_record(&mut recorder), Ok(false));
    assert_eq!(stop_record(&mut recorder), Ok(true));
    assert_eq!(capturing(&mut recorder), CaptureStep::Finalize);
    assert_eq!(stop_record(&mut recorder), Ok(false));
    assert_eq!(capturing(&mut recorder), CaptureStep::Idle);
}

#[test]
fn audio_close_only_acts_while_capturing() {
    let mut recorder = ShortRecord::new();
    assert!(!audio_close(&mut recorder));
    assert_eq!(capturing(&mut recorder), CaptureStep::Idle);
    recorder.set_capturing(true);
    assert!(audio_close(&mut recorder));
    assert_eq!(capturing(&mut recorder), CaptureStep::Shutdown);
    assert!(!is_capturing(&recorder));
}

#[test]
fn control_flow_commands_by_number() {
    assert_eq!(ControlFlowCommand::try_from_primitive(0), Ok(ControlFlowCommand::Open));
    assert_eq!(ControlFlowCommand::try_from_primitive(1), Ok(ControlFlowCommand::Close));
    assert_eq!(ControlFlowCommand::try_from_primitive(2), Ok(ControlFlowCommand::Play));
    assert_eq!(ControlFlowCommand::try_from_primitive(3), Ok(ControlFlowCommand::Stop));
    assert_eq!(ControlFlowCommand::try_from_primitive(4), Err(4));
    assert_eq!(ControlFlowCommand::try_from_primitive(255), Err(255));
}

#[test]
fn message_formats_by_number() {
    assert_eq!(AdapterMessageFormat::try_from_primitive(0), Ok(AdapterMessageFormat::ControlFlow));
    assert_eq!(AdapterMessageFormat::try_from_primitive(1), Err(1));
}

#[test]
fn control_message_is_decoded_from_its_first_byte() {
    assert_eq!(handle_control_flow(&[2, 99, 98]), Ok(ControlFlowCommand::Play));
    assert_eq!(handle_control_flow(&[3]), Ok(ControlFlowCommand::Stop));
    assert_eq!(handle_control_flow(&[]), Err(AdapterError::InvalidControlFlowCommand));
    assert_eq!(handle_control_flow(&[9]), Err(AdapterError::InvalidControlFlowCommand));
}

#[test]
fn samples_are_laid_out_little_endian() {
    assert_eq!(pcm_to_bytes(&[]), Vec::<u8>::new());
    assert_eq!(pcm_to_bytes(&[258]), vec![2, 1]);
    assert_eq!(pcm_to_bytes(&[-1, -32768, 32767, 0]), vec![255, 255, 0, 128, 255, 127, 0, 0]);
    let samples: Vec<i16> = vec![-2, 1000, -12345];
    let expected: Vec<u8> = samples.iter().flat_map(|s| s.to_le_bytes()).collect();
    assert_eq!(pcm_to_bytes(&samples), expected);
}

struct Fixed;

impl mystar::recorder::Adapter for Fixed {
    fn start_record() -> Result<(), RecorderError> {
        Err(RecorderError::NotCapturing)
    }

    fn stop_record() -> Result<(), RecorderError> {
        Ok(())
    }
}

#[test]
fn an_adapter_answers_both_requests() {
    use_adapter::<Fixed>();
}

fn use_adapter<A: mystar::recorder::Adapter>() {
    assert_eq!(A::start_record(), Err(RecorderError::NotCapturing));
    assert_eq!(A::stop_record(), Ok(()));
}
