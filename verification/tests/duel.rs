use ocg_duel::ocg::{
    OCG_DUEL_CREATION_NOT_CREATED, OCG_DUEL_CREATION_NO_OUTPUT,
    OCG_DUEL_CREATION_NULL_DATA_READER, OCG_DUEL_CREATION_NULL_SCRIPT_READER,
    OCG_DUEL_CREATION_SUCCESS, OCG_DUEL_STATUS_AWAITING, OCG_DUEL_STATUS_CONTINUE,
    OCG_DUEL_STATUS_END,
};
use ocg_duel::{Duel, DuelBuilder, DuelCall, DuelCreationError, DuelPhase, DuelStatus};

/// The handle that the engine is taken to have put out.
const HANDLE: usize = 0x7f00_1000;

fn created() -> Duel {
    let request = DuelBuilder::default().build();
    match request.duel.complete(OCG_DUEL_CREATION_SUCCESS, HANDLE) {
        Ok(duel) => duel,
        Err(error) => panic!("{}", error.message()),
    }
}

#[test]
fn test_create_duel() {
    let duel = created();
    assert!(duel.get_raw_ptr() != 0);
}

#[test]
fn test_start_duel() {
    let duel = created();
    assert!(duel.get_raw_ptr() != 0);
    let mut phase = DuelPhase::new();
    assert!(phase.start());
    assert_eq!(phase, DuelPhase::Started);
}

#[test]
fn test_process_duel() {
    let duel = created();
    assert!(duel.get_raw_ptr() != 0);
    let mut phase = DuelPhase::new();
    assert!(phase.start());
    for code in [OCG_DUEL_STATUS_END, OCG_DUEL_STATUS_AWAITING, OCG_DUEL_STATUS_CONTINUE] {
        let status = DuelStatus::from_code(code);
        assert!(matches!(
            status,
            Some(DuelStatus::Continue) | Some(DuelStatus::Awaiting) | Some(DuelStatus::End)
        ));
        let mut after = phase;
        assert!(after.process(status.unwrap()));
    }
}

#[test]
fn created_duel_holds_the_handle_that_came_out() {
    let duel = created();
    assert_eq!(duel.get_raw_ptr(), HANDLE);
    assert_eq!(duel.destroy(), HANDLE);
}

#[test]
fn pending_duel_has_no_handle() {
    assert_eq!(Duel::pending().get_raw_ptr(), 0);
}

#[test]
fn creation_without_a_handle_fails() {
    let outcome = Duel::pending().complete(OCG_DUEL_CREATION_SUCCESS, 0);
    assert_eq!(outcome.err(), Some(DuelCreationError::NoOutput));
}

#[test]
fn each_failure_status_gives_its_error() {
    let cases = [
        (OCG_DUEL_CREATION_NO_OUTPUT, DuelCreationError::NoOutput),
        (OCG_DUEL_CREATION_NOT_CREATED, DuelCreationError::NotCreated),
        (OCG_DUEL_CREATION_NULL_DATA_READER, DuelCreationError::NullDataReader),
        (OCG_DUEL_CREATION_NULL_SCRIPT_READER, DuelCreationError::NullScriptReader),
        (5, DuelCreationError::Unknown(5)),
        (-1, DuelCreationError::Unknown(-1)),
    ];
    for (status, error) in cases {
        assert_eq!(Duel::pending().complete(status, HANDLE).err(), Some(error));
        assert_eq!(Duel::pending().complete(status, 0).err(), Some(error));
    }
}

#[test]
fn failure_messages_name_the_status() {
    assert_eq!(
        DuelCreationError::NoOutput.message(),
        "Failed to create duel: OCG_DUEL_CREATION_NO_OUTPUT"
    );
    assert_eq!(
        DuelCreationError::NotCreated.message(),
        "Failed to create duel: OCG_DUEL_CREATION_NOT_CREATED"
    );
    assert_eq!(
        DuelCreationError::NullDataReader.message(),
        "Failed to create duel: OCG_DUEL_CREATION_NULL_DATA_READER"
    );
    assert_eq!(
        DuelCreationError::NullScriptReader.message(),
        "Failed to create duel: OCG_DUEL_CREATION_NULL_SCRIPT_READER"
    );
    assert_eq!(
        DuelCreationError::Unknown(9).message(),
        "Failed to create duel: unknown creation status"
    );
}

#[test]
fn status_codes_are_read_back() {
    assert_eq!(DuelStatus::from_code(0), Some(DuelStatus::End));
    assert_eq!(DuelStatus::from_code(1), Some(DuelStatus::Awaiting));
    assert_eq!(DuelStatus::from_code(2), Some(DuelStatus::Continue));
    for status in [DuelStatus::End, DuelStatus::Awaiting, DuelStatus::Continue] {
        assert_eq!(DuelStatus::from_code(status.code()), Some(status));
    }
}

#[test]
fn undocumented_status_codes_are_refused() {
    assert_eq!(DuelStatus::from_code(3), None);
    assert_eq!(DuelStatus::from_code(-1), None);
    assert_eq!(DuelStatus::from_code(i32::MAX), None);
}

#[test]
fn start_is_in_turn_once() {
    let mut phase = DuelPhase::new();
    assert_eq!(phase, DuelPhase::Uninitialized);
    assert!(phase.start());
    assert!(!phase.start());
    assert_eq!(phase, DuelPhase::Started);
}

#[test]
fn process_is_out_of_turn_before_start() {
    let mut phase = DuelPhase::new();
    assert!(!phase.permits(DuelCall::Process));
    assert!(!phase.process(DuelStatus::Continue));
    assert_eq!(phase, DuelPhase::Uninitialized);
}

#[test]
fn process_follows_the_engine() {
    let mut phase = DuelPhase::Started;
    assert!(phase.process(DuelStatus::Continue));
    assert_eq!(phase, DuelPhase::Continue);
    assert!(phase.process(DuelStatus::Awaiting));
    assert_eq!(phase, DuelPhase::Awaiting);
    assert!(!phase.process(DuelStatus::Continue));
    assert_eq!(phase, DuelPhase::Awaiting);
    assert!(phase.set_response());
    assert_eq!(phase, DuelPhase::Responded);
    assert!(phase.process(DuelStatus::End));
    assert_eq!(phase, DuelPhase::Ended);
}

#[test]
fn response_is_in_turn_only_while_the_engine_waits() {
    for phase in [
        DuelPhase::Uninitialized,
        DuelPhase::Started,
        DuelPhase::Continue,
        DuelPhase::Ended,
    ] {
        let mut tried = phase;
        assert!(!tried.set_response());
        assert_eq!(tried, phase);
    }
    let mut waiting = DuelPhase::Awaiting;
    assert!(waiting.set_response());
    assert!(waiting.set_response());
    assert_eq!(waiting, DuelPhase::Responded);
}

#[test]
fn nothing_is_in_turn_once_the_duel_has_ended() {
    let ended = DuelPhase::Ended;
    assert!(!ended.permits(DuelCall::Start));
    assert!(!ended.permits(DuelCall::Process));
    assert!(!ended.permits(DuelCall::SetResponse));
}
