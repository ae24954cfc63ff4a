use ghostpages::dma_pipeline::{dma_chunk_id, DmaPipeline, DmaStage};
use ghostpages::emitter::EventEmitter;
use ghostpages::events::Event;
use ghostpages::hardware::{BufferLocation, TransferSubmission};
use ghostpages::types::ChunkId;

fn test_emitter() -> (EventEmitter, tokio::sync::mpsc::Receiver<Event>) {
    let (tx, rx) = tokio::sync::mpsc::channel(256);
    (EventEmitter::new(tx), rx)
}

fn test_submission() -> TransferSubmission {
    TransferSubmission {
        source: BufferLocation::Host { ptr: 0, size: 1024 },
        destination: BufferLocation::Device { handle: 1, offset: 0 },
        size: 1024,
        fence_id: None,
    }
}

#[test]
fn test_dma_pipeline_new() {
    let (emitter, _rx) = test_emitter();
    let pipeline = DmaPipeline::new(emitter);
    assert!(pipeline.is_empty());
    assert_eq!(pipeline.len(), 0);
}

#[test]
fn test_dma_pipeline_submit() {
    let (emitter, _rx) = test_emitter();
    let mut pipeline = DmaPipeline::new(emitter);
    let id = pipeline.submit(test_submission());
    assert_eq!(id, 1);
    assert_eq!(pipeline.len(), 1);
    assert!(!pipeline.is_empty());
}

#[test]
fn test_dma_pipeline_get() {
    let (emitter, _rx) = test_emitter();
    let mut pipeline = DmaPipeline::new(emitter);
    let id = pipeline.submit(test_submission());
    let transfer = pipeline.get(id).unwrap();
    assert_eq!(transfer.id, id);
    assert_eq!(transfer.stage, DmaStage::Pending);
}

#[test]
fn test_dma_pipeline_lifecycle() {
    let (emitter, _rx) = test_emitter();
    let mut pipeline = DmaPipeline::new(emitter);
    let id = pipeline.submit(test_submission());

    pipeline.mark_submitted(id).unwrap();
    assert_eq!(pipeline.get(id).unwrap().stage, DmaStage::Submitted);

    pipeline.mark_in_progress(id).unwrap();
    assert_eq!(pipeline.get(id).unwrap().stage, DmaStage::InProgress);

    pipeline.mark_completed(id).unwrap();

    let completed = pipeline.poll();
    assert_eq!(completed.len(), 1);
    assert_eq!(completed[0].stage, DmaStage::Completed);
    assert!(pipeline.is_empty());
}

#[test]
fn test_dma_pipeline_failure() {
    let (emitter, _rx) = test_emitter();
    let mut pipeline = DmaPipeline::new(emitter);
    let id = pipeline.submit(test_submission());

    pipeline.mark_submitted(id).unwrap();
    pipeline.mark_in_progress(id).unwrap();
    pipeline.mark_failed(id, "device timeout").unwrap();

    let completed = pipeline.poll();
    assert_eq!(completed.len(), 1);
    assert_eq!(completed[0].stage, DmaStage::Failed("device timeout".to_string()));
}

#[test]
fn test_dma_pipeline_poll_empty() {
    let (emitter, _rx) = test_emitter();
    let mut pipeline = DmaPipeline::new(emitter);
    let completed = pipeline.poll();
    assert!(completed.is_empty());
}

#[test]
fn test_dma_pipeline_count_in_stage() {
    let (emitter, _rx) = test_emitter();
    let mut pipeline = DmaPipeline::new(emitter);

    let id1 = pipeline.submit(test_submission());
    let id2 = pipeline.submit(test_submission());
    let _id3 = pipeline.submit(test_submission());

    assert_eq!(pipeline.count_in_stage(DmaStage::Pending), 3);

    pipeline.mark_submitted(id1).unwrap();
    pipeline.mark_submitted(id2).unwrap();

    assert_eq!(pipeline.count_in_stage(DmaStage::Pending), 1);
    assert_eq!(pipeline.count_in_stage(DmaStage::Submitted), 2);

    pipeline.mark_in_progress(id1).unwrap();
    assert_eq!(pipeline.count_in_stage(DmaStage::Submitted), 1);
    assert_eq!(pipeline.count_in_stage(DmaStage::InProgress), 1);
}

#[test]
fn test_dma_stage_is_terminal() {
    assert!(DmaStage::Completed.is_terminal());
    assert!(DmaStage::Failed("err".to_string()).is_terminal());
    assert!(!DmaStage::Pending.is_terminal());
    assert!(!DmaStage::Submitted.is_terminal());
    assert!(!DmaStage::InProgress.is_terminal());
}

#[test]
fn test_dma_stage_is_active() {
    assert!(DmaStage::Submitted.is_active());
    assert!(DmaStage::InProgress.is_active());
    assert!(!DmaStage::Pending.is_active());
    assert!(!DmaStage::Completed.is_active());
    assert!(!DmaStage::Failed("err".to_string()).is_active());
}

#[test]
fn test_dma_pipeline_invalid_transition() {
    let (emitter, _rx) = test_emitter();
    let mut pipeline = DmaPipeline::new(emitter);
    let id = pipeline.submit(test_submission());

    let result = pipeline.mark_in_progress(id);
    assert!(result.is_err());

    let result = pipeline.mark_completed(id);
    assert!(result.is_err());
}

#[test]
fn test_dma_pipeline_unknown_id() {
    let (emitter, _rx) = test_emitter();
    let mut pipeline = DmaPipeline::new(emitter);

    assert!(pipeline.mark_submitted(999).is_err());
    assert!(pipeline.mark_in_progress(999).is_err());
    assert!(pipeline.mark_completed(999).is_err());
    assert!(pipeline.mark_failed(999, "err").is_err());
}

// ─── Further cases ─────────────────────────────────────────────────────────────

fn internal_message(r: Result<(), ghostpages::error::GhostError>) -> String {
    match r {
        Err(ghostpages::error::GhostError::Internal(m)) => m,
        other => panic!("expected an internal error, got {:?}", other),
    }
}

#[test]
fn error_messages_name_the_transfer_and_its_stage() {
    let (emitter, _rx) = test_emitter();
    let mut pipeline = DmaPipeline::new(emitter);
    assert_eq!(internal_message(pipeline.mark_submitted(999)), "DMA transfer 999 not found");
    let id = pipeline.submit(test_submission());
    assert_eq!(
        internal_message(pipeline.mark_in_progress(id)),
        "DMA transfer 1 is not in Submitted stage (current: Pending)"
    );
    assert_eq!(
        internal_message(pipeline.mark_completed(id)),
        "DMA transfer 1 is not in an active stage (current: Pending)"
    );
    pipeline.mark_submitted(id).unwrap();
    pipeline.mark_in_progress(id).unwrap();
    pipeline.mark_failed(id, "bad \"cable\"").unwrap();
    assert_eq!(
        internal_message(pipeline.mark_submitted(id)),
        "DMA transfer 1 is not in Pending stage (current: Failed(\"bad \\\"cable\\\"\"))"
    );
}

#[test]
fn poll_keeps_live_transfers_in_id_order() {
    let (emitter, mut rx) = test_emitter();
    let mut pipeline = DmaPipeline::new(emitter);
    let a = pipeline.submit(test_submission());
    let b = pipeline.submit(test_submission());
    let c = pipeline.submit(test_submission());
    for id in [a, c] {
        pipeline.mark_submitted(id).unwrap();
        pipeline.mark_in_progress(id).unwrap();
        pipeline.mark_completed(id).unwrap();
    }
    let done = pipeline.poll();
    assert_eq!(done.iter().map(|t| t.id).collect::<Vec<_>>(), vec![a, c]);
    assert_eq!(pipeline.len(), 1);
    assert_eq!(pipeline.get(b).unwrap().id, b);
    assert!(pipeline.get(a).is_none());
    // Three enqueues, two completions and two dequeues were reported, stamped 1..=7.
    let mut seqs = Vec::new();
    while let Ok(e) = rx.try_recv() {
        seqs.push(e.sequence_id());
    }
    assert_eq!(seqs, vec![1, 2, 3, 4, 5, 6, 7]);
}

#[test]
fn completion_reports_the_dma_chunk() {
    let (emitter, mut rx) = test_emitter();
    let mut pipeline = DmaPipeline::new(emitter);
    let id = pipeline.submit(test_submission());
    pipeline.mark_submitted(id).unwrap();
    pipeline.mark_in_progress(id).unwrap();
    pipeline.mark_completed(id).unwrap();
    let _enqueue = rx.try_recv().unwrap();
    match rx.try_recv().unwrap() {
        Event::TransferCompleted { chunk_id, .. } => {
            assert_eq!(chunk_id, ChunkId::from_data(b"dma-1"));
        }
        other => panic!("unexpected event {:?}", other),
    }
    assert_eq!(dma_chunk_id(42), ChunkId::from_data(b"dma-42"));
}

#[test]
fn get_mut_changes_the_transfer_in_place() {
    let (emitter, _rx) = test_emitter();
    let mut pipeline = DmaPipeline::new(emitter);
    let id = pipeline.submit(test_submission());
    pipeline.get_mut(id).unwrap().submission.size = 7;
    assert_eq!(pipeline.get(id).unwrap().submission.size, 7);
    assert!(pipeline.get_mut(id + 1).is_none());
}
