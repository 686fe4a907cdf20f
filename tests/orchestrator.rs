use log_worker::orchestrator::{CycleAction, CycleEvent, LoopPhase, Orchestrator};

#[test]
fn orchestrator_tunes_each_cycle() {
    let (mut o, a) = Orchestrator::new(1000, 5);
    assert!(matches!(a, CycleAction::MeasureBacklog));
    let a = o.step(CycleEvent::Measured(vec![Some(20), None, Some(30)]));
    assert!(matches!(a, CycleAction::FlushAll { batch_size: 500 }));
    let a = o.step(CycleEvent::Flushed);
    assert!(matches!(a, CycleAction::Sleep { secs: 10 }));
    let a = o.step(CycleEvent::Slept);
    assert!(matches!(a, CycleAction::MeasureBacklog));
    let a = o.step(CycleEvent::Measured(vec![Some(400_000), Some(100_000)]));
    assert!(matches!(a, CycleAction::FlushAll { batch_size: 4000 }));
    let a = o.step(CycleEvent::Flushed);
    assert!(matches!(a, CycleAction::Sleep { secs: 2 }));
}

#[test]
fn orchestrator_shutdown_flushes_once_with_base_batch() {
    let (mut o, _) = Orchestrator::new(1000, 5);
    o.step(CycleEvent::Measured(vec![Some(500_000)]));
    o.step(CycleEvent::Flushed);
    let a = o.step(CycleEvent::ShutdownRequested);
    assert!(matches!(a, CycleAction::FinalFlush { batch_size: 1000 }));
    let a = o.step(CycleEvent::FinalFlushed);
    assert!(matches!(a, CycleAction::Exit));
    assert!(o.is_stopped());
    assert_eq!(o.phase, LoopPhase::Stopped);
    assert!(matches!(o.step(CycleEvent::Slept), CycleAction::Exit));
    let (mut o, _) = Orchestrator::new(1000, 5);
    assert!(matches!(o.step(CycleEvent::ShutdownRequested), CycleAction::FinalFlush { batch_size: 1000 }));
    assert!(matches!(o.step(CycleEvent::Flushed), CycleAction::Exit));
    assert!(o.is_stopped());
    assert!(matches!(o.step(CycleEvent::ShutdownRequested), CycleAction::Exit));
}

#[test]
fn orchestrator_failed_depth_reads_count_zero() {
    let (mut o, _) = Orchestrator::new(1000, 5);
    let a = o.step(CycleEvent::Measured(vec![None, None, None]));
    assert!(matches!(a, CycleAction::FlushAll { batch_size: 500 }));
}
