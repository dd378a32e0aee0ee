use media_plugins::playbinpool::{
    Obtained, PlaybinPool, PooledPlayBin, DEFAULT_CLEANUP_TIMEOUT_SEC,
};

const SECOND: u64 = 1_000_000_000;

fn unused(id: u64, stream: &str, since: u64) -> PooledPlayBin {
    PooledPlayBin {
        id,
        requested_stream_id: Some(stream.to_string()),
        unused_since: Some(since),
    }
}

#[test]
fn the_same_stream_reuses_its_pipeline() {
    let mut pool = PlaybinPool::new();
    assert_eq!(pool.cleanup_timeout, DEFAULT_CLEANUP_TIMEOUT_SEC);
    assert_eq!(pool.get(Some("a"), 1), Obtained::New(1));
    assert_eq!(pool.get(Some("b"), 2), Obtained::New(2));
    pool.release(unused(1, "a", 0));
    assert_eq!(pool.running_pipelines.len(), 1);
    assert_eq!(pool.unused_pipelines.len(), 1);
    assert_eq!(pool.get(Some("b"), 3), Obtained::New(3));
    assert_eq!(pool.get(None, 4), Obtained::New(4));
    assert_eq!(pool.get(Some("a"), 5), Obtained::Reused(1));
    assert!(pool.unused_pipelines.is_empty());
    assert_eq!(pool.running_pipelines.last().unwrap().id, 1);
    assert_eq!(pool.running_pipelines.last().unwrap().unused_since, None);
}

#[test]
fn unused_pipelines_are_stopped_after_the_timeout() {
    let mut pool = PlaybinPool::new();
    for id in 1..4 {
        pool.get(None, id);
    }
    pool.release(unused(1, "a", 0));
    pool.release(unused(2, "b", 5 * SECOND));
    pool.release(unused(3, "c", 10 * SECOND));
    assert_eq!(pool.cleanup(15 * SECOND), Vec::<u64>::new());
    assert_eq!(pool.cleanup(15 * SECOND + 1), vec![1]);
    assert_eq!(pool.set_cleanup_timeout(6, 15 * SECOND), vec![2]);
    assert_eq!(pool.unused_pipelines.len(), 1);
    assert_eq!(pool.cleanup_timeout, 6);
}
