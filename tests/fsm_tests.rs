use keyer_core::{
    Duration, Element, ElementQueue, FSMState, Instant, KeyerConfig, KeyerFSM, KeyerMode,
    PaddleInput, PaddleSide, QUEUE_CAPACITY,
};

fn config(mode: KeyerMode, char_space_enabled: bool) -> KeyerConfig {
    KeyerConfig {
        mode,
        char_space_enabled,
        unit: Duration::from_millis(60),
        debounce_ms: 5,
        queue_size: 8,
    }
}

fn at(ms: u64) -> Instant {
    Instant::from_millis(ms)
}

fn drain(queue: &mut ElementQueue) -> Vec<Element> {
    let mut out = Vec::new();
    while let Some(e) = queue.dequeue() {
        out.push(e);
    }
    out
}

#[test]
fn test_fsm_squeeze_mode_a() {
    let mut fsm = KeyerFSM::new(config(KeyerMode::ModeA, false));
    let mut paddle = PaddleInput::new();
    let mut queue = ElementQueue::new();
    let start_time = 100u32;

    paddle.update(PaddleSide::Dit, true, start_time);
    paddle.update(PaddleSide::Dah, true, start_time + 5);

    let sent = fsm.update(&paddle, at(105), &mut queue);

    assert_eq!(sent, 1);
}

#[test]
fn test_fsm_squeeze_mode_b() {
    let mut fsm = KeyerFSM::new(config(KeyerMode::ModeB, false));
    let mut paddle = PaddleInput::new();
    let mut queue = ElementQueue::new();
    let start_time = 100u32;

    paddle.update(PaddleSide::Dit, true, start_time);
    paddle.update(PaddleSide::Dah, true, start_time + 5);

    let sent1 = fsm.update(&paddle, at(105), &mut queue);
    assert_eq!(sent1, 1);

    paddle.update(PaddleSide::Dit, false, start_time + 50);

    let _sent2 = fsm.update(&paddle, at(150), &mut queue);

    assert!(!queue.is_empty());
    let element1 = queue.dequeue().unwrap();
    assert_eq!(element1, Element::Dit);

    if !queue.is_empty() {
        let element2 = queue.dequeue().unwrap();
        assert_eq!(element2, Element::Dah);
    }
}

#[test]
fn test_fsm_squeeze_superkeyer_dah_priority() {
    let mut fsm = KeyerFSM::new(config(KeyerMode::SuperKeyer, false));
    let mut paddle = PaddleInput::new();
    let mut queue = ElementQueue::new();
    let start_time = 100u32;

    paddle.update(PaddleSide::Dit, true, start_time);
    paddle.update(PaddleSide::Dah, true, start_time);

    let sent = fsm.update(&paddle, at(100), &mut queue);
    assert_eq!(sent, 1);

    assert!(!queue.is_empty());
    let first_element = queue.dequeue().unwrap();
    assert_eq!(first_element, Element::Dah);
}

#[test]
fn test_squeeze_timing_boundaries() {
    let mut fsm = KeyerFSM::new(config(KeyerMode::ModeB, false));
    let mut paddle = PaddleInput::new();
    let mut queue = ElementQueue::new();

    let time1 = 100u32;
    paddle.update(PaddleSide::Dit, true, time1);
    let sent1 = fsm.update(&paddle, at(100), &mut queue);
    assert_eq!(sent1, 1);

    paddle.update(PaddleSide::Dit, false, time1 + 50);

    let time2 = time1 + 120;
    paddle.update(PaddleSide::Dit, true, time2);
    paddle.update(PaddleSide::Dah, true, time2 + 5);

    let _sent2 = fsm.update(&paddle, at(225), &mut queue);

    assert!(!queue.is_empty());
    let first = queue.dequeue().unwrap();
    assert_eq!(first, Element::Dit);

    if !queue.is_empty() {
        let second = queue.dequeue().unwrap();
        assert!(second == Element::Dit || second == Element::Dah);
    }
}

#[test]
fn idle_single_dit_press_sends_one_dit() {
    for mode in [KeyerMode::ModeA, KeyerMode::ModeB, KeyerMode::SuperKeyer] {
        let mut fsm = KeyerFSM::new(config(mode, true));
        let mut paddle = PaddleInput::new();
        let mut queue = ElementQueue::new();
        paddle.update(PaddleSide::Dit, true, 100);
        assert_eq!(fsm.update(&paddle, at(100), &mut queue), 1);
        assert_eq!(fsm.current_state(), FSMState::DitHold);
        assert_eq!(drain(&mut queue), vec![Element::Dit]);
    }
}

#[test]
fn held_dit_repeats_each_poll() {
    let mut fsm = KeyerFSM::new(config(KeyerMode::ModeB, false));
    let mut paddle = PaddleInput::new();
    let mut queue = ElementQueue::new();
    paddle.update(PaddleSide::Dit, true, 100);
    fsm.update(&paddle, at(100), &mut queue);
    fsm.update(&paddle, at(115), &mut queue);
    fsm.update(&paddle, at(130), &mut queue);
    assert_eq!(drain(&mut queue), vec![Element::Dit, Element::Dit, Element::Dit]);
    paddle.update(PaddleSide::Dit, false, 140);
    assert_eq!(fsm.update(&paddle, at(145), &mut queue), 0);
    assert_eq!(fsm.current_state(), FSMState::Idle);
}

#[test]
fn superkeyer_simultaneous_press_sends_dah_first() {
    let mut fsm = KeyerFSM::new(config(KeyerMode::SuperKeyer, true));
    let mut paddle = PaddleInput::new();
    let mut queue = ElementQueue::new();
    paddle.update(PaddleSide::Dit, true, 100);
    paddle.update(PaddleSide::Dah, true, 100);
    assert_eq!(fsm.update(&paddle, at(100), &mut queue), 1);
    assert_eq!(fsm.current_state(), FSMState::Squeeze(Element::Dah));
    assert_eq!(queue.dequeue(), Some(Element::Dah));
}

#[test]
fn mode_a_release_sends_nothing_more() {
    for spacing in [false, true] {
        let mut fsm = KeyerFSM::new(config(KeyerMode::ModeA, spacing));
        let mut paddle = PaddleInput::new();
        let mut queue = ElementQueue::new();
        paddle.update(PaddleSide::Dit, true, 100);
        paddle.update(PaddleSide::Dah, true, 100);
        fsm.update(&paddle, at(100), &mut queue);
        fsm.update(&paddle, at(115), &mut queue);
        assert_eq!(drain(&mut queue), vec![Element::Dit, Element::Dah]);
        paddle.update(PaddleSide::Dit, false, 130);
        paddle.update(PaddleSide::Dah, false, 130);
        assert_eq!(fsm.update(&paddle, at(130), &mut queue), 0);
        assert_eq!(fsm.update(&paddle, at(145), &mut queue), 0);
        assert!(queue.is_empty());
        if spacing {
            assert_eq!(fsm.current_state(), FSMState::CharSpacePending(at(130)));
        } else {
            assert_eq!(fsm.current_state(), FSMState::Idle);
        }
    }
}

#[test]
fn mode_b_release_sends_one_opposite() {
    let mut fsm = KeyerFSM::new(config(KeyerMode::ModeB, false));
    let mut paddle = PaddleInput::new();
    let mut queue = ElementQueue::new();
    paddle.update(PaddleSide::Dit, true, 100);
    paddle.update(PaddleSide::Dah, true, 100);
    fsm.update(&paddle, at(100), &mut queue);
    assert_eq!(fsm.current_state(), FSMState::Squeeze(Element::Dit));
    paddle.update(PaddleSide::Dit, false, 130);
    paddle.update(PaddleSide::Dah, false, 130);
    assert_eq!(fsm.update(&paddle, at(130), &mut queue), 0);
    assert_eq!(fsm.current_state(), FSMState::MemoryPending(Element::Dah));
    assert_eq!(fsm.update(&paddle, at(145), &mut queue), 1);
    assert_eq!(fsm.update(&paddle, at(160), &mut queue), 0);
    assert_eq!(fsm.current_state(), FSMState::Idle);
    assert_eq!(drain(&mut queue), vec![Element::Dit, Element::Dah]);
}

#[test]
fn superkeyer_release_replays_opposite_and_clears_history() {
    let mut fsm = KeyerFSM::new(config(KeyerMode::SuperKeyer, false));
    let mut paddle = PaddleInput::new();
    let mut queue = ElementQueue::new();
    paddle.update(PaddleSide::Dit, true, 100);
    paddle.update(PaddleSide::Dah, true, 100);
    fsm.update(&paddle, at(100), &mut queue);
    paddle.update(PaddleSide::Dit, false, 130);
    paddle.update(PaddleSide::Dah, false, 130);
    fsm.update(&paddle, at(130), &mut queue);
    assert_eq!(fsm.current_state(), FSMState::MemoryPending(Element::Dit));
    assert_eq!(fsm.update(&paddle, at(145), &mut queue), 1);
    assert_eq!(drain(&mut queue), vec![Element::Dah, Element::Dit]);
}

#[test]
fn mode_b_squeeze_alternates() {
    let mut fsm = KeyerFSM::new(config(KeyerMode::ModeB, false));
    let mut paddle = PaddleInput::new();
    let mut queue = ElementQueue::new();
    paddle.update(PaddleSide::Dit, true, 100);
    paddle.update(PaddleSide::Dah, true, 100);
    for t in [100u64, 115, 130, 145] {
        fsm.update(&paddle, at(t), &mut queue);
    }
    assert_eq!(drain(&mut queue), vec![Element::Dit, Element::Dah, Element::Dit, Element::Dah]);
}

#[test]
fn char_space_swallows_early_press() {
    let mut fsm = KeyerFSM::new(config(KeyerMode::ModeB, true));
    let mut paddle = PaddleInput::new();
    let mut queue = ElementQueue::new();
    paddle.update(PaddleSide::Dit, true, 100);
    fsm.update(&paddle, at(100), &mut queue);
    paddle.update(PaddleSide::Dit, false, 120);
    fsm.update(&paddle, at(120), &mut queue);
    assert_eq!(fsm.current_state(), FSMState::CharSpacePending(at(120)));
    drain(&mut queue);

    paddle.update(PaddleSide::Dah, true, 200);
    assert_eq!(fsm.update(&paddle, at(299), &mut queue), 0);
    assert_eq!(fsm.current_state(), FSMState::CharSpacePending(at(120)));
    assert!(queue.is_empty());

    assert_eq!(fsm.update(&paddle, at(300), &mut queue), 1);
    assert_eq!(fsm.current_state(), FSMState::DahHold);
    assert_eq!(drain(&mut queue), vec![Element::Dah]);
}

#[test]
fn char_space_ends_in_idle_without_press() {
    let mut fsm = KeyerFSM::new(config(KeyerMode::ModeA, true));
    let mut paddle = PaddleInput::new();
    let mut queue = ElementQueue::new();
    paddle.update(PaddleSide::Dah, true, 100);
    fsm.update(&paddle, at(100), &mut queue);
    paddle.update(PaddleSide::Dah, false, 200);
    fsm.update(&paddle, at(200), &mut queue);
    assert_eq!(fsm.update(&paddle, at(379), &mut queue), 0);
    assert_eq!(fsm.current_state(), FSMState::CharSpacePending(at(200)));
    fsm.update(&paddle, at(380), &mut queue);
    assert_eq!(fsm.current_state(), FSMState::Idle);
}

#[test]
fn mode_b_scenario_dit_then_dah() {
    let mut fsm = KeyerFSM::new(config(KeyerMode::ModeB, true));
    let mut paddle = PaddleInput::new();
    let mut queue = ElementQueue::new();
    paddle.update(PaddleSide::Dit, true, 100);
    paddle.update(PaddleSide::Dah, true, 105);
    assert_eq!(fsm.update(&paddle, at(105), &mut queue), 1);
    paddle.update(PaddleSide::Dit, false, 150);
    fsm.update(&paddle, at(150), &mut queue);
    assert_eq!(drain(&mut queue), vec![Element::Dit, Element::Dah]);
}

#[test]
fn superkeyer_scenario_first_dequeued_is_dah() {
    let mut fsm = KeyerFSM::new(config(KeyerMode::SuperKeyer, true));
    let mut paddle = PaddleInput::new();
    let mut queue = ElementQueue::new();
    paddle.update(PaddleSide::Dit, true, 100);
    paddle.update(PaddleSide::Dah, true, 100);
    fsm.update(&paddle, at(100), &mut queue);
    fsm.update(&paddle, at(115), &mut queue);
    assert_eq!(queue.dequeue(), Some(Element::Dah));
}

#[test]
fn full_queue_holds_the_transition() {
    let mut fsm = KeyerFSM::new(config(KeyerMode::ModeB, false));
    let mut paddle = PaddleInput::new();
    let mut queue = ElementQueue::new();
    for _ in 0..QUEUE_CAPACITY {
        queue.enqueue(Element::CharSpace).unwrap();
    }
    paddle.update(PaddleSide::Dah, true, 100);
    assert_eq!(fsm.update(&paddle, at(100), &mut queue), 0);
    assert_eq!(fsm.current_state(), FSMState::Idle);
    assert_eq!(queue.len(), QUEUE_CAPACITY);
    queue.dequeue();
    assert_eq!(fsm.update(&paddle, at(115), &mut queue), 1);
    assert_eq!(fsm.current_state(), FSMState::DahHold);
    let items = drain(&mut queue);
    assert_eq!(items.last(), Some(&Element::Dah));
    assert_eq!(items.len(), QUEUE_CAPACITY);
}

#[test]
fn reset_and_set_config() {
    let mut fsm = KeyerFSM::new(config(KeyerMode::SuperKeyer, false));
    let mut paddle = PaddleInput::new();
    let mut queue = ElementQueue::new();
    paddle.update(PaddleSide::Dit, true, 100);
    fsm.update(&paddle, at(100), &mut queue);
    assert_eq!(fsm.current_state(), FSMState::DitHold);
    fsm.reset();
    assert_eq!(fsm.current_state(), FSMState::Idle);
    fsm.set_config(config(KeyerMode::ModeA, true));
    assert_eq!(fsm.config().mode, KeyerMode::ModeA);
    assert!(fsm.config().char_space_enabled);
}
