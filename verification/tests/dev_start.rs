use monoxide_ttf::dev::{
    server_wait_step, webui_start, webui_step, ServerWait, WebuiAction, WebuiEvent, WebuiState,
};

#[test]
fn webui_started_when_online() {
    let s = webui_start(5173);
    assert_eq!(s, WebuiState { start_port: 5173, attempt: 0, polls: 0 });
    let (t, a) = webui_step(s, WebuiEvent::Online);
    assert_eq!(a, WebuiAction::Started(5173));
    assert_eq!(t, s);
}

#[test]
fn webui_polls_nine_times_then_retries_on_next_port() {
    let mut s = webui_start(5173);
    for k in 1..10u8 {
        let (t, a) = webui_step(s, WebuiEvent::NotOnline);
        assert_eq!(a, WebuiAction::Poll);
        assert_eq!(t.polls, k);
        s = t;
    }
    let (t, a) = webui_step(s, WebuiEvent::NotOnline);
    assert_eq!(a, WebuiAction::KillAndRetry(5174));
    assert_eq!(t, WebuiState { start_port: 5173, attempt: 1, polls: 0 });
    let (_, a) = webui_step(t, WebuiEvent::Online);
    assert_eq!(a, WebuiAction::Started(5174));
}

#[test]
fn webui_retries_at_once_when_server_exits() {
    let s = WebuiState { start_port: 3000, attempt: 2, polls: 4 };
    let (t, a) = webui_step(s, WebuiEvent::Exited);
    assert_eq!(a, WebuiAction::KillAndRetry(3003));
    assert_eq!(t, WebuiState { start_port: 3000, attempt: 3, polls: 0 });
}

#[test]
fn webui_gives_up_after_tenth_port() {
    let s = WebuiState { start_port: 3000, attempt: 9, polls: 0 };
    let (_, a) = webui_step(s, WebuiEvent::Exited);
    assert_eq!(a, WebuiAction::GiveUp(3000, 3009));
    let s = WebuiState { start_port: 3000, attempt: 9, polls: 9 };
    let (_, a) = webui_step(s, WebuiEvent::NotOnline);
    assert_eq!(a, WebuiAction::GiveUp(3000, 3009));
}

#[test]
fn webui_never_online_takes_a_hundred_polls() {
    let mut s = webui_start(65526);
    let mut steps = 0;
    loop {
        let (t, a) = webui_step(s, WebuiEvent::NotOnline);
        steps += 1;
        match a {
            WebuiAction::Poll | WebuiAction::KillAndRetry(_) => s = t,
            WebuiAction::GiveUp(lo, hi) => {
                assert_eq!((lo, hi), (65526, 65535));
                break;
            }
            WebuiAction::Started(_) => panic!("never online"),
        }
    }
    assert_eq!(steps, 100);
}

#[test]
fn server_wait_decisions() {
    assert_eq!(server_wait_step(true, true), ServerWait::Failed);
    assert_eq!(server_wait_step(true, false), ServerWait::Failed);
    assert_eq!(server_wait_step(false, true), ServerWait::Ready);
    assert_eq!(server_wait_step(false, false), ServerWait::Wait);
}
