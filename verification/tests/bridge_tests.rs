use tcp_over_quic::bridge::{
    QuicToTcp, QuicToTcpAction, QuicToTcpEvent, TcpToQuic, TcpToQuicAction, TcpToQuicEvent,
};

#[test]
fn t2q_forwards_chunk_verbatim() {
    let mut w = TcpToQuic::new();
    assert!(!w.is_done());
    let a = w.on_event(TcpToQuicEvent::TcpData(b"PING".to_vec()));
    match a {
        TcpToQuicAction::ForwardToQuic(b) => assert_eq!(b"PING".to_vec(), b),
        _ => panic!("expected a forward"),
    }
    assert!(!w.is_done());
    let a = w.on_event(TcpToQuicEvent::QuicWriteOk);
    assert!(matches!(a, TcpToQuicAction::NoOp));
    assert!(!w.is_done());
}

#[test]
fn t2q_eof_finishes_quic() {
    let mut w = TcpToQuic::new();
    let a = w.on_event(TcpToQuicEvent::TcpEof);
    assert!(matches!(a, TcpToQuicAction::FinishQuic));
    assert!(w.is_done());
}

#[test]
fn t2q_read_error_resets_quic() {
    let mut w = TcpToQuic::new();
    let a = w.on_event(TcpToQuicEvent::TcpReadError);
    assert!(matches!(a, TcpToQuicAction::ResetQuic));
    assert!(w.is_done());
}

#[test]
fn t2q_write_failure_stops_silently() {
    let mut w = TcpToQuic::new();
    let a = w.on_event(TcpToQuicEvent::TcpData(b"X".to_vec()));
    assert!(matches!(a, TcpToQuicAction::ForwardToQuic(_)));
    let a = w.on_event(TcpToQuicEvent::QuicWriteFailed);
    assert!(matches!(a, TcpToQuicAction::NoOp));
    assert!(w.is_done());
}

#[test]
fn t2q_shutdown_signal_finishes_quic() {
    let mut w = TcpToQuic::new();
    let a = w.on_event(TcpToQuicEvent::ShutdownSignal);
    assert!(matches!(a, TcpToQuicAction::FinishQuic));
    assert!(w.is_done());
}

#[test]
fn t2q_ignores_events_after_done() {
    let mut w = TcpToQuic::new();
    let _ = w.on_event(TcpToQuicEvent::TcpEof);
    // exactly one close action per session: later events produce none
    let a = w.on_event(TcpToQuicEvent::TcpData(b"late".to_vec()));
    assert!(matches!(a, TcpToQuicAction::NoOp));
    let a = w.on_event(TcpToQuicEvent::TcpReadError);
    assert!(matches!(a, TcpToQuicAction::NoOp));
    let a = w.on_event(TcpToQuicEvent::ShutdownSignal);
    assert!(matches!(a, TcpToQuicAction::NoOp));
    assert!(w.is_done());
}

#[test]
fn q2t_forwards_chunk_verbatim() {
    let mut w = QuicToTcp::new();
    let a = w.on_event(QuicToTcpEvent::QuicData(b"PING".to_vec()));
    match a {
        QuicToTcpAction::ForwardToTcp(b) => assert_eq!(b"PING".to_vec(), b),
        _ => panic!("expected a forward"),
    }
    let a = w.on_event(QuicToTcpEvent::TcpWriteOk);
    assert!(matches!(a, QuicToTcpAction::NoOp));
    assert!(!w.is_done());
}

#[test]
fn q2t_finish_shuts_down_tcp() {
    let mut w = QuicToTcp::new();
    let a = w.on_event(QuicToTcpEvent::QuicFinished);
    assert!(matches!(a, QuicToTcpAction::ShutdownTcp));
    assert!(w.is_done());
}

#[test]
fn q2t_read_error_shuts_down_tcp() {
    let mut w = QuicToTcp::new();
    let a = w.on_event(QuicToTcpEvent::QuicReadError);
    assert!(matches!(a, QuicToTcpAction::ShutdownTcp));
    assert!(w.is_done());
}

#[test]
fn q2t_write_failure_stops_peer() {
    let mut w = QuicToTcp::new();
    let a = w.on_event(QuicToTcpEvent::TcpWriteFailed);
    assert!(matches!(a, QuicToTcpAction::StopQuic));
    assert!(w.is_done());
}

#[test]
fn q2t_shutdown_signal_stops_peer() {
    let mut w = QuicToTcp::new();
    let a = w.on_event(QuicToTcpEvent::ShutdownSignal);
    assert!(matches!(a, QuicToTcpAction::StopQuic));
    assert!(w.is_done());
}

#[test]
fn q2t_ignores_events_after_done() {
    let mut w = QuicToTcp::new();
    let _ = w.on_event(QuicToTcpEvent::QuicFinished);
    let a = w.on_event(QuicToTcpEvent::QuicData(b"late".to_vec()));
    assert!(matches!(a, QuicToTcpAction::NoOp));
    let a = w.on_event(QuicToTcpEvent::ShutdownSignal);
    assert!(matches!(a, QuicToTcpAction::NoOp));
}

// A session's two directions across a client FIN after "HELLO": the
// TCP-to-QUIC worker finishes the QUIC half, the reply still flows back,
// then the peer's finish closes the TCP write half.
#[test]
fn half_close_session() {
    let mut t2q = TcpToQuic::new();
    let mut q2t = QuicToTcp::new();

    let a = t2q.on_event(TcpToQuicEvent::TcpData(b"HELLO".to_vec()));
    assert!(matches!(a, TcpToQuicAction::ForwardToQuic(_)));
    let a = t2q.on_event(TcpToQuicEvent::QuicWriteOk);
    assert!(matches!(a, TcpToQuicAction::NoOp));

    // client FIN: read returns zero
    let a = t2q.on_event(TcpToQuicEvent::TcpEof);
    assert!(matches!(a, TcpToQuicAction::FinishQuic));
    assert!(t2q.is_done());

    // the reply still flows on the other direction
    let a = q2t.on_event(QuicToTcpEvent::QuicData(b"HI".to_vec()));
    match a {
        QuicToTcpAction::ForwardToTcp(b) => assert_eq!(b"HI".to_vec(), b),
        _ => panic!("expected a forward"),
    }
    let a = q2t.on_event(QuicToTcpEvent::TcpWriteOk);
    assert!(matches!(a, QuicToTcpAction::NoOp));

    // then the peer finishes and both directions are closed
    let a = q2t.on_event(QuicToTcpEvent::QuicFinished);
    assert!(matches!(a, QuicToTcpAction::ShutdownTcp));
    assert!(q2t.is_done());
}

// Two active sessions streaming; the interrupt broadcast reaches all four
// workers and each performs its one close action and stops.
#[test]
fn interrupt_stops_both_sessions() {
    let mut workers_t = vec![TcpToQuic::new(), TcpToQuic::new()];
    let mut workers_q = vec![QuicToTcp::new(), QuicToTcp::new()];
    for w in workers_t.iter_mut() {
        let a = w.on_event(TcpToQuicEvent::TcpData(b"stream".to_vec()));
        assert!(matches!(a, TcpToQuicAction::ForwardToQuic(_)));
    }
    for w in workers_q.iter_mut() {
        let a = w.on_event(QuicToTcpEvent::QuicData(b"stream".to_vec()));
        assert!(matches!(a, QuicToTcpAction::ForwardToTcp(_)));
    }
    for w in workers_t.iter_mut() {
        let a = w.on_event(TcpToQuicEvent::ShutdownSignal);
        assert!(matches!(a, TcpToQuicAction::FinishQuic));
        assert!(w.is_done());
    }
    for w in workers_q.iter_mut() {
        let a = w.on_event(QuicToTcpEvent::ShutdownSignal);
        assert!(matches!(a, QuicToTcpAction::StopQuic));
        assert!(w.is_done());
    }
}
