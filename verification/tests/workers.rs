use transcriber::adder::{add_file, input_message, take_in};
use transcriber::api::{ASRMessage, CleanMessage, ResultMessage};
use transcriber::clean_worker::{self, CleanStep};
use transcriber::client::StatusResponse;
use transcriber::layout::Stage;
use transcriber::queue::{begin_round, process, run, LoopStep, Round};
use transcriber::res_worker::{
    self, plan_error, plan_success, process_error, process_success, ResultStep,
};
use transcriber::filer::Filer;
use transcriber::store::{load_item, needs_upload, set_external_id, LoadStep, WorkData};
use transcriber::worker::{
    after_load, check_status, keep_in_progress, max_retries_status, pause_ended,
    process_msg, retries_exhausted, round_start, round_with_jitter, send_status, step,
    upload_path,
    InputAction, InputEvent, InputState, InputStep, PollState, PollStep, WaitEnd,
};
use transcriber::{
    ASR_FILE_LAT, ASR_FILE_RES, CLEAN_QUEUE, DIR_FAILED, DIR_INCOMING, DIR_PROCESSED, DIR_WORKING,
    INFO_EXTENSION, INPUT_QUEUE, RESULT_QUEUE,
};

fn input() -> ASRMessage {
    ASRMessage { id: "01HA".to_string(), file: "a.wav".to_string(), base_dir: "/d".to_string() }
}

fn result(finished: bool, error: Option<&str>) -> ResultMessage {
    ResultMessage {
        id: "01HA".to_string(),
        finished,
        file: "a.wav".to_string(),
        base_dir: "/d".to_string(),
        external_id: "X1".to_string(),
        error: error.map(|s| s.to_string()),
    }
}

fn item(external_id: &str) -> WorkData {
    WorkData {
        id: "01HA".to_string(),
        external_id: external_id.to_string(),
        file_name: "a.wav".to_string(),
        base_dir: "/d".to_string(),
        try_count: 0,
        error_msg: String::new(),
    }
}

fn answer(status: Option<&str>, code: Option<&str>, error: Option<&str>) -> StatusResponse {
    StatusResponse {
        id: "X1".to_string(),
        error_code: code.map(|s| s.to_string()),
        error: error.map(|s| s.to_string()),
        status: status.map(|s| s.to_string()),
        recognized_text: None,
        progress: None,
    }
}

#[test]
fn test_constants() {
    assert_eq!("asr_input", INPUT_QUEUE);
    assert_eq!("asr_result", RESULT_QUEUE);
    assert_eq!("asr_clean", CLEAN_QUEUE);
    assert_eq!("incoming", DIR_INCOMING);
    assert_eq!("working", DIR_WORKING);
    assert_eq!("processed", DIR_PROCESSED);
    assert_eq!("failed", DIR_FAILED);
    assert_eq!(".meta", INFO_EXTENSION);
    assert_eq!("resultFinal.txt", ASR_FILE_RES);
    assert_eq!("lat.restored.txt", ASR_FILE_LAT);
    assert_eq!("incoming", Stage::Incoming.name());
    assert_eq!("working", Stage::Working.name());
    assert_eq!("processed", Stage::Processed.name());
    assert_eq!("failed", Stage::Failed.name());
}

#[test]
fn test_retry_ceiling() {
    assert!(!retries_exhausted(0));
    assert!(!retries_exhausted(1));
    assert!(!retries_exhausted(3));
    assert!(retries_exhausted(4));
    assert!(retries_exhausted(i32::MAX));
}

#[test]
fn test_load_item_creates_once() {
    let first = load_item(None, &input());
    assert!(matches!(&first, LoadStep::Insert(w) if w.id == "01HA" && w.external_id.is_empty()
        && w.file_name == "a.wav" && w.base_dir == "/d" && w.try_count == 0));
    let mut w = first.into_item();
    assert!(needs_upload(&w));
    set_external_id(&mut w, "X1");
    assert_eq!("X1", w.external_id);
    assert_eq!("a.wav", w.file_name);
    let again = load_item(Some(w), &input());
    assert!(matches!(&again, LoadStep::Found(w) if w.external_id == "X1"));
    assert!(!needs_upload(&again.into_item()));
}

#[test]
fn test_upload_happens_once() {
    assert!(matches!(after_load(&input(), &item("")), InputStep::Upload(p) if p == "/d/working/a.wav"));
    assert!(matches!(after_load(&input(), &item("X1")), InputStep::Poll(id) if id == "X1"));
    assert_eq!("/d/working/a.wav", upload_path(&input()));
}

#[test]
fn test_send_status() {
    let m = send_status(&input(), true, "", "X1");
    assert_eq!("01HA", m.id);
    assert_eq!("a.wav", m.file);
    assert_eq!("/d", m.base_dir);
    assert_eq!("X1", m.external_id);
    assert!(m.finished);
    assert_eq!(None, m.error);
    let m = send_status(&input(), false, "boom", "X1");
    assert!(!m.finished);
    assert_eq!(Some("boom".to_string()), m.error);
}

#[test]
fn test_max_retries_status() {
    let m = max_retries_status(&input(), &Some(item("X1")));
    assert!(m.finished);
    assert_eq!(Some("max retries reached".to_string()), m.error);
    assert_eq!("X1", m.external_id);
    let m = max_retries_status(&input(), &None);
    assert!(m.finished);
    assert_eq!(Some("max retries reached".to_string()), m.error);
    assert_eq!("", m.external_id);
}

#[test]
fn test_heartbeat() {
    assert_eq!(Some(60), keep_in_progress(false));
    assert_eq!(None, keep_in_progress(true));
}

#[test]
fn test_round_start_pause_in_range() {
    let mut shortest = u64::MAX;
    let mut i = 0;
    while i < 200 {
        match round_start(0) {
            PollStep::Pause(ms) => {
                assert!((8000..=13000).contains(&ms));
                shortest = shortest.min(ms);
            }
            other => panic!("unexpected step {:?}", other),
        }
        i += 1;
    }
    assert!(shortest < 13000);
}

#[test]
fn test_round_start_timeout() {
    assert!(matches!(round_start(3600), PollStep::Stop(WaitEnd::TimedOut)));
    assert!(matches!(round_start(3599), PollStep::Pause(_)));
    assert!(matches!(round_with_jitter(10, 0), PollStep::Pause(8000)));
    assert!(matches!(round_with_jitter(10, 5000), PollStep::Pause(13000)));
    assert!(matches!(round_with_jitter(4000, 17), PollStep::Stop(WaitEnd::TimedOut)));
    assert_eq!("status wait timeout", WaitEnd::TimedOut.reason());
    assert_eq!(Some((true, "status wait timeout".to_string())), WaitEnd::TimedOut.report());
}

#[test]
fn test_pause_ended() {
    assert!(matches!(pause_ended(true), Some(WaitEnd::Cancelled)));
    assert!(pause_ended(false).is_none());
    assert_eq!("cancelled", WaitEnd::Cancelled.reason());
    assert_eq!(None, WaitEnd::Cancelled.report());
    let ended = WaitEnd::Ended { finished: false, error: "e4".to_string() };
    assert_eq!("e4", ended.reason());
    assert_eq!(Some((false, "e4".to_string())), ended.report());
}

#[test]
fn test_poll_happy_path() {
    let mut st = PollState::new();
    assert!(matches!(check_status(&mut st, Ok(answer(None, None, None))), PollStep::Again));
    assert!(matches!(check_status(&mut st, Ok(answer(None, None, None))), PollStep::Again));
    let done = check_status(&mut st, Ok(answer(Some("COMPLETED"), None, None)));
    assert!(matches!(
        done,
        PollStep::Stop(WaitEnd::Ended { finished: true, error }) if error.is_empty()
    ));
}

#[test]
fn test_poll_remote_error() {
    let mut st = PollState::new();
    let done = check_status(&mut st, Ok(answer(None, Some("E_AUDIO"), Some("bad format"))));
    assert!(
        matches!(done, PollStep::Stop(WaitEnd::Ended { finished: true, error }) if error == "E_AUDIO\nbad format")
    );
    let m = send_status(&input(), true, "E_AUDIO\nbad format", "X1");
    assert_eq!(Some("E_AUDIO\nbad format".to_string()), m.error);
}

#[test]
fn test_poll_request_failures() {
    let mut st = PollState::new();
    assert!(matches!(check_status(&mut st, Err("e1".to_string())), PollStep::Again));
    assert!(matches!(check_status(&mut st, Err("e2".to_string())), PollStep::Again));
    assert!(matches!(check_status(&mut st, Err("e3".to_string())), PollStep::Again));
    assert_eq!(3, st.err_count);
    let done = check_status(&mut st, Err("e4".to_string()));
    assert!(matches!(
        done,
        PollStep::Stop(WaitEnd::Ended { finished: false, error }) if error == "e4"
    ));
}

#[test]
fn test_poll_answer_resets_failures() {
    let mut st = PollState::new();
    assert!(matches!(check_status(&mut st, Err("e1".to_string())), PollStep::Again));
    assert!(matches!(check_status(&mut st, Err("e2".to_string())), PollStep::Again));
    assert!(matches!(check_status(&mut st, Err("e3".to_string())), PollStep::Again));
    assert!(matches!(check_status(&mut st, Ok(answer(None, None, None))), PollStep::Again));
    assert_eq!(0, st.err_count);
    assert!(matches!(check_status(&mut st, Err("e1".to_string())), PollStep::Again));
    assert_eq!(1, st.err_count);
}

#[test]
fn test_result_steps() {
    assert!(matches!(res_worker::process_msg(&result(true, None), 1), ResultStep::Succeed));
    assert!(matches!(res_worker::process_msg(&result(true, None), 3), ResultStep::Succeed));
    assert!(matches!(res_worker::process_msg(&result(false, None), 1), ResultStep::Skip));
    assert!(matches!(res_worker::process_msg(&result(false, Some("e")), 1), ResultStep::Skip));
    assert!(
        matches!(res_worker::process_msg(&result(true, Some("E_AUDIO\nbad format")), 2), ResultStep::Fail(e) if e == "E_AUDIO\nbad format")
    );
}

#[test]
fn test_result_poison_message() {
    let step = res_worker::process_msg(&result(true, None), 5);
    let text = match &step {
        ResultStep::GiveUp(t) => t.clone(),
        other => panic!("unexpected step {:?}", other),
    };
    assert_eq!("Max retries reached 01HA", text);
    assert!(res_worker::message_done(&step, false));
    let plan = plan_error(&result(true, None), "a.wav", &text);
    assert_eq!("a.err", plan.first.name);
    assert_eq!(Stage::Failed, plan.first.stage);
    assert!(plan.first.content.starts_with("Max retries reached"));
    assert_eq!("X1", plan.clean.external_id);
    assert_eq!(Stage::Failed, plan.audio.to);
    assert!(matches!(res_worker::process_msg(&result(false, None), 4), ResultStep::GiveUp(_)));
}

#[test]
fn test_result_message_done() {
    assert!(res_worker::message_done(&ResultStep::Skip, false));
    assert!(res_worker::message_done(&ResultStep::Succeed, true));
    assert!(!res_worker::message_done(&ResultStep::Succeed, false));
    assert!(res_worker::message_done(&ResultStep::Fail("e".to_string()), true));
    assert!(!res_worker::message_done(&ResultStep::Fail("e".to_string()), false));
}

#[test]
fn test_plan_error() {
    let plan = plan_error(&result(true, Some("E_AUDIO\nbad format")), "a.wav", "E_AUDIO\nbad format");
    assert_eq!("a.err", plan.first.name);
    assert_eq!("E_AUDIO\nbad format", plan.first.content);
    assert_eq!(Stage::Failed, plan.first.stage);
    assert!(plan.second.is_none());
    assert_eq!("a.wav", plan.audio.from_name);
    assert_eq!(Stage::Working, plan.audio.from);
    assert_eq!("a.wav", plan.audio.to_name);
    assert_eq!(Stage::Failed, plan.audio.to);
    assert_eq!("a.meta", plan.meta.from_name);
    assert_eq!("a.meta", plan.meta.to_name);
    assert_eq!(Stage::Working, plan.meta.from);
    assert_eq!(Stage::Failed, plan.meta.to);
    assert!(plan.audio.required);
    assert!(!plan.meta.required);
    assert_eq!("X1", plan.clean.external_id);
}

#[test]
fn test_plan_success_happy_path() {
    let plan = plan_success(&result(true, None), "a.wav", "hello", "hello-lat");
    assert_eq!("a.txt", plan.first.name);
    assert_eq!("hello", plan.first.content);
    assert_eq!(Stage::Processed, plan.first.stage);
    let lat = plan.second.unwrap();
    assert_eq!("a.lat", lat.name);
    assert_eq!("hello-lat", lat.content);
    assert_eq!(Stage::Processed, lat.stage);
    assert_eq!("a.wav", plan.audio.from_name);
    assert_eq!("a.wav", plan.audio.to_name);
    assert_eq!(Stage::Working, plan.audio.from);
    assert_eq!(Stage::Processed, plan.audio.to);
    assert_eq!("X1", plan.clean.external_id);
}

#[test]
fn test_plan_success_filename_collision() {
    let taken = vec!["a.wav".to_string()];
    let new_name = Filer::new("/d").non_existing_name("a.wav", &taken).unwrap();
    let plan = plan_success(&result(true, None), &new_name, "hello", "hello-lat");
    assert_eq!("a.1.txt", plan.first.name);
    assert_eq!("a.1.lat", plan.second.unwrap().name);
    assert_eq!("a.wav", plan.audio.from_name);
    assert_eq!("a.1.wav", plan.audio.to_name);
    assert_eq!("a.meta", plan.meta.from_name);
    assert_eq!("a.1.meta", plan.meta.to_name);
}

#[test]
fn test_process_on_empty_directories() {
    let f = Filer::new("/d");
    let plan = process_error(&f, &result(true, Some("bad")), "bad", &Vec::new()).unwrap();
    assert_eq!("a.err", plan.first.name);
    assert_eq!("a.wav", plan.audio.to_name);
    let plan = process_success(&f, &result(true, None), "hello", "hello-lat", &Vec::new()).unwrap();
    assert_eq!("a.txt", plan.first.name);
    assert_eq!("a.wav", plan.audio.to_name);
}

#[test]
fn test_process_picks_the_free_name() {
    let f = Filer::new("/d");
    let taken = vec!["a.wav".to_string(), "a.1.wav".to_string(), "b.wav".to_string()];
    let plan = process_error(&f, &result(true, Some("bad")), "bad", &taken).unwrap();
    assert_eq!("a.2.err", plan.first.name);
    assert_eq!("a.wav", plan.audio.from_name);
    assert_eq!("a.2.wav", plan.audio.to_name);
    assert_eq!("a.2.meta", plan.meta.to_name);
    let plan = process_success(&f, &result(true, None), "hello", "hello-lat", &taken).unwrap();
    assert_eq!("a.2.txt", plan.first.name);
    assert_eq!("a.2.lat", plan.second.unwrap().name);
    assert_eq!("a.2.wav", plan.audio.to_name);
}

#[test]
fn test_clean_steps() {
    let m = CleanMessage { external_id: "X1".to_string() };
    assert!(matches!(clean_worker::process_msg(&m, 1), CleanStep::Purge(id) if id == "X1"));
    assert!(matches!(clean_worker::process_msg(&m, 3), CleanStep::Purge(_)));
    assert!(matches!(clean_worker::process_msg(&m, 4), CleanStep::GiveUp));
    assert!(clean_worker::message_done(&CleanStep::GiveUp, false));
    assert!(clean_worker::message_done(&CleanStep::Purge("X1".to_string()), true));
    assert!(!clean_worker::message_done(&CleanStep::Purge("X1".to_string()), false));
}

#[test]
fn test_consume_loop_delete_rule() {
    assert!(process(&Ok(true)));
    assert!(!process(&Ok(false)));
    assert!(!process(&Err("boom".to_string())));
}

#[test]
fn test_consume_loop_steps() {
    assert_eq!(LoopStep::Exit, begin_round(true));
    assert_eq!(LoopStep::Read(30), begin_round(false));
    assert_eq!(LoopStep::Rest(1), run(false, Round::Empty));
    assert_eq!(LoopStep::Rest(1), run(false, Round::ReadFailed));
    assert_eq!(LoopStep::Read(30), run(false, Round::Kept));
    assert_eq!(LoopStep::Read(30), run(false, Round::Deleted));
    assert_eq!(LoopStep::Exit, run(true, Round::Deleted));
    assert_eq!(LoopStep::Exit, run(true, Round::Empty));
}

#[test]
fn test_failed_delete_does_not_stop_the_loop() {
    assert_eq!(LoopStep::Rest(1), run(false, Round::DeleteFailed));
}

#[test]
fn test_input_message() {
    let m = input_message("a.wav", "01HA", "/d", "");
    assert_eq!("a.wav", m.file);
    assert_eq!("01HA", m.id);
    assert_eq!("/d", m.base_dir);
    let m = input_message("a.wav", "01HA", "/d", "/srv");
    assert_eq!("/srv", m.base_dir);
}

#[test]
fn test_add_file_gives_fresh_ids() {
    let a = add_file("a.wav", "/d", "");
    let b = add_file("a.wav", "/d", "/srv");
    assert_eq!(26, a.id.chars().count());
    assert_eq!(26, b.id.chars().count());
    assert_ne!(a.id, b.id);
    assert_eq!("a.wav", a.file);
    assert_eq!("/d", a.base_dir);
    assert_eq!("/srv", b.base_dir);
}

#[test]
fn test_messages_clone() {
    let m = result(true, Some("e")).clone();
    assert_eq!("01HA", m.id);
    assert_eq!(Some("e".to_string()), m.error);
    assert_eq!("X1", m.external_id);
    assert_eq!("a.wav", input().clone().file);
    assert_eq!("X1", CleanMessage { external_id: "X1".to_string() }.clone().external_id);
}

#[test]
fn test_input_handler_happy_path() {
    let (state, action) = process_msg(1);
    assert!(matches!(state, InputState::Loading));
    assert!(matches!(action, InputAction::Load));
    let (state, action) = step(&input(), state, InputEvent::Loaded(Some(item(""))));
    assert!(matches!(&state, InputState::Uploading(w) if w.external_id.is_empty()));
    assert!(matches!(action, InputAction::Upload(p) if p == "/d/working/a.wav"));
    let (state, action) = step(&input(), state, InputEvent::Uploaded(Some("X1".to_string())));
    assert!(matches!(&state, InputState::Storing(_, id) if id == "X1"));
    assert!(
        matches!(action, InputAction::Store { id, external_id } if id == "01HA" && external_id == "X1")
    );
    let (state, action) = step(&input(), state, InputEvent::Stored(true));
    assert!(matches!(&state, InputState::Polling(w) if w.external_id == "X1"));
    assert!(matches!(action, InputAction::Poll(id) if id == "X1"));
    let (state, action) =
        step(&input(), state, InputEvent::Polled(WaitEnd::Ended { finished: true, error: String::new() }));
    assert!(matches!(state, InputState::Reporting { forgiving: false }));
    match action {
        InputAction::Send(m) => {
            assert!(m.finished);
            assert_eq!(None, m.error);
            assert_eq!("X1", m.external_id);
            assert_eq!("01HA", m.id);
        }
        other => panic!("unexpected action {:?}", other),
    }
    let (state, action) = step(&input(), state, InputEvent::Sent(true));
    assert!(matches!(state, InputState::Finished));
    assert!(matches!(action, InputAction::Finish { delete: true }));
}

#[test]
fn test_input_handler_redelivery_skips_upload() {
    let (state, _) = process_msg(2);
    let (state, action) = step(&input(), state, InputEvent::Loaded(Some(item("X1"))));
    assert!(matches!(state, InputState::Polling(_)));
    assert!(matches!(action, InputAction::Poll(id) if id == "X1"));
}

#[test]
fn test_input_handler_gives_up() {
    let (state, action) = process_msg(4);
    assert!(matches!(state, InputState::Recovering));
    assert!(matches!(action, InputAction::Read));
    let (state, action) = step(&input(), state, InputEvent::Loaded(Some(item("X1"))));
    assert!(matches!(state, InputState::Reporting { forgiving: true }));
    match action {
        InputAction::Send(m) => {
            assert!(m.finished);
            assert_eq!(Some("max retries reached".to_string()), m.error);
            assert_eq!("X1", m.external_id);
        }
        other => panic!("unexpected action {:?}", other),
    }
    let (_, action) = step(&input(), state, InputEvent::Sent(false));
    assert!(matches!(action, InputAction::Finish { delete: true }));
    let (state, _) = process_msg(4);
    let (_, action) = step(&input(), state, InputEvent::Loaded(None));
    assert!(matches!(action, InputAction::Send(m) if m.external_id.is_empty()));
}

#[test]
fn test_input_handler_failures_keep_the_message() {
    let keep = |state: InputState, event: InputEvent| {
        let (state, action) = step(&input(), state, event);
        assert!(matches!(state, InputState::Finished));
        assert!(matches!(action, InputAction::Finish { delete: false }));
    };
    keep(InputState::Loading, InputEvent::Loaded(None));
    keep(InputState::Uploading(item("")), InputEvent::Uploaded(None));
    keep(InputState::Storing(item(""), "X1".to_string()), InputEvent::Stored(false));
    keep(InputState::Polling(item("X1")), InputEvent::Polled(WaitEnd::Cancelled));
    keep(InputState::Reporting { forgiving: false }, InputEvent::Sent(false));
    keep(InputState::Loading, InputEvent::Sent(true));
    keep(InputState::Finished, InputEvent::Sent(true));
    keep(InputState::Polling(item("X1")), InputEvent::Stored(true));
}

#[test]
fn test_input_handler_reports_unfinished_wait() {
    let (state, action) =
        step(&input(), InputState::Polling(item("X1")), InputEvent::Polled(WaitEnd::Ended { finished: false, error: "e4".to_string() }));
    assert!(matches!(state, InputState::Reporting { forgiving: false }));
    assert!(
        matches!(action, InputAction::Send(m) if !m.finished && m.error == Some("e4".to_string()))
    );
}

#[test]
fn test_take_in() {
    let (audio, meta) = take_in("a.wav", "a.2.wav");
    assert_eq!("a.wav", audio.from_name);
    assert_eq!("a.2.wav", audio.to_name);
    assert_eq!(Stage::Incoming, audio.from);
    assert_eq!(Stage::Working, audio.to);
    assert!(audio.required);
    assert_eq!("a.meta", meta.from_name);
    assert_eq!("a.2.meta", meta.to_name);
    assert_eq!(Stage::Incoming, meta.from);
    assert_eq!(Stage::Working, meta.to);
    assert!(!meta.required);
}

#[test]
fn test_input_handler_reports_a_timed_out_wait() {
    let (state, action) =
        step(&input(), InputState::Polling(item("X1")), InputEvent::Polled(WaitEnd::TimedOut));
    assert!(matches!(state, InputState::Reporting { forgiving: false }));
    match action {
        InputAction::Send(m) => {
            assert!(m.finished);
            assert_eq!(Some("status wait timeout".to_string()), m.error);
            assert_eq!("X1", m.external_id);
            assert_eq!("01HA", m.id);
            assert_eq!("a.wav", m.file);
        }
        other => panic!("unexpected action {:?}", other),
    }
    let (_, action) = step(&input(), state, InputEvent::Sent(true));
    assert!(matches!(action, InputAction::Finish { delete: true }));
    let (_, action) =
        step(&input(), InputState::Reporting { forgiving: false }, InputEvent::Sent(false));
    assert!(matches!(action, InputAction::Finish { delete: false }));
}

#[test]
fn test_input_handler_cancelled_wait_keeps_the_message() {
    let (state, action) =
        step(&input(), InputState::Polling(item("X1")), InputEvent::Polled(WaitEnd::Cancelled));
    assert!(matches!(state, InputState::Finished));
    assert!(matches!(action, InputAction::Finish { delete: false }));
}
